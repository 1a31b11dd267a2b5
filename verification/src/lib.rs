//! The validated, in-memory bytecode representation of a WebAssembly module.
//!
//! A decoding/validation front end produces values of these types; an
//! execution engine consumes them read-only. The layer itself defines data,
//! not execution: a compact, uniformly sized instruction set with a flat,
//! offset-addressed control-flow model, plus the immutable module aggregate
//! and its descriptor tables.

mod instructions;
mod module;
mod semantics;
mod value;

pub use value::from_byte_result;
pub use value::lemma_val_type_byte_injective;
pub use value::lemma_val_type_round_trip;
pub use value::lemma_val_type_unknown_byte;
pub use value::val_type_byte;
pub use value::val_type_of_byte;
pub use value::Addr;
pub use value::DataAddr;
pub use value::DecodeError;
pub use value::ElemAddr;
pub use value::ExternAddr;
pub use value::FuncAddr;
pub use value::GlobalAddr;
pub use value::LabelAddr;
pub use value::LocalAddr;
pub use value::MemAddr;
pub use value::ModuleInstanceAddr;
pub use value::TableAddr;
pub use value::TypeAddr;
pub use value::ValType;

pub use instructions::le_u32;
pub use instructions::lemma_le_u32_round_trip;
pub use instructions::lemma_pack_unpack_round_trip;
pub use instructions::lemma_unpack_ignores_unused_bytes;
pub use instructions::pack_spec;
pub use instructions::packed_valid;
pub use instructions::unpack_spec;
pub use instructions::BlockArgs;
pub use instructions::BlockArgsPacked;
pub use instructions::ConstInstruction;
pub use instructions::Instruction;
pub use instructions::MemoryArg;

pub use module::body_wf;
pub use module::br_table_len;
pub use module::br_table_targets_ok;
pub use module::check_body;
pub use module::end_func_count;
pub use module::extern_val_addr;
pub use module::extern_val_kind;
pub use module::extern_val_of;
pub use module::import_kind_external;
pub use module::instr_wf_at;
pub use module::lemma_extern_val_rebuild;
pub use module::lemma_extern_val_round_trip;
pub use module::lemma_import_export_kind_correspondence;
pub use module::lemma_wf_body_br_table_labels;
pub use module::lemma_wf_body_single_end_func;
pub use module::lemma_wf_module_br_table_labels;
pub use module::lemma_wf_module_end_func;
pub use module::ByteRange;
pub use module::Data;
pub use module::DataKind;
pub use module::Element;
pub use module::ElementItem;
pub use module::ElementKind;
pub use module::Export;
pub use module::ExternVal;
pub use module::ExternalKind;
pub use module::FuncType;
pub use module::Global;
pub use module::GlobalType;
pub use module::Import;
pub use module::ImportKind;
pub use module::MemoryArch;
pub use module::MemoryType;
pub use module::TableType;
pub use module::TinyWasmModule;
pub use module::WasmFunction;

pub use semantics::as_i64;
pub use semantics::exec_i64_const;
pub use semantics::exec_i64_rotl;
pub use semantics::exec_i64_xor;
pub use semantics::exec_i64_xor_const_rotl;
pub use semantics::exec_local_get;
pub use semantics::exec_local_get2;
pub use semantics::exec_local_get3;
pub use semantics::exec_local_get_set;
pub use semantics::exec_local_set;
pub use semantics::exec_local_tee;
pub use semantics::exec_local_tee_get;
pub use semantics::i64_const_effect;
pub use semantics::i64_rotl;
pub use semantics::i64_rotl_effect;
pub use semantics::i64_rotl_spec;
pub use semantics::i64_xor_const_rotl_effect;
pub use semantics::i64_xor_effect;
pub use semantics::lemma_i64_xor_const_rotl_fusion;
pub use semantics::lemma_local_get2_fusion;
pub use semantics::lemma_local_get3_fusion;
pub use semantics::lemma_local_get_set_fusion;
pub use semantics::lemma_local_tee_get_fusion;
pub use semantics::local_get2_effect;
pub use semantics::local_get3_effect;
pub use semantics::local_get_effect;
pub use semantics::local_get_set_effect;
pub use semantics::local_set_effect;
pub use semantics::local_tee_effect;
pub use semantics::local_tee_get_effect;
pub use semantics::u64_rotl;
pub use semantics::WasmValue;

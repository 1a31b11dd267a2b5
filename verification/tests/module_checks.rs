use tinywasm_types::check_body;
use tinywasm_types::BlockArgs;
use tinywasm_types::BlockArgsPacked;
use tinywasm_types::ExternVal;
use tinywasm_types::ExternalKind;
use tinywasm_types::FuncType;
use tinywasm_types::GlobalType;
use tinywasm_types::ImportKind;
use tinywasm_types::Instruction;
use tinywasm_types::MemoryArch;
use tinywasm_types::MemoryType;
use tinywasm_types::TableType;
use tinywasm_types::TinyWasmModule;
use tinywasm_types::ValType;
use tinywasm_types::WasmFunction;

fn module_with_body(instructions: Vec<Instruction>) -> TinyWasmModule {
    let mut m = TinyWasmModule::default();
    m.funcs = vec![WasmFunction {
        instructions,
        locals: vec![],
        ty: FuncType { params: vec![], results: vec![ValType::I32] },
    }];
    m
}

#[test]
fn test_instruction_size_budget() {
    // The engine walks a dense array of instructions; the whole enum must
    // stay within its documented 16-byte footprint, tag included.
    assert!(std::mem::size_of::<Instruction>() <= 16);
}

#[test]
fn test_validate_accepts_minimal_body() {
    let m = module_with_body(vec![Instruction::I32Const(42), Instruction::EndFunc]);
    assert!(m.validate());
}

#[test]
fn test_validate_accepts_empty_module() {
    assert!(TinyWasmModule::default().validate());
}

#[test]
fn test_validate_rejects_empty_body() {
    let m = module_with_body(vec![]);
    assert!(!m.validate());
}

#[test]
fn test_validate_rejects_missing_end_func() {
    let m = module_with_body(vec![Instruction::I32Const(42), Instruction::Nop]);
    assert!(!m.validate());
}

#[test]
fn test_validate_rejects_early_end_func() {
    let m = module_with_body(vec![
        Instruction::EndFunc,
        Instruction::I32Const(42),
        Instruction::EndFunc,
    ]);
    assert!(!m.validate());
}

#[test]
fn test_check_body_accepts_br_table_with_labels() {
    let body = vec![
        Instruction::BrTable(0, 2),
        Instruction::BrLabel(0),
        Instruction::BrLabel(1),
        Instruction::EndFunc,
    ];
    assert!(check_body(&body));
}

#[test]
fn test_check_body_rejects_br_table_missing_labels() {
    let body = vec![
        Instruction::BrTable(0, 2),
        Instruction::BrLabel(0),
        Instruction::Nop,
        Instruction::EndFunc,
    ];
    assert!(!check_body(&body));
}

#[test]
fn test_check_body_rejects_br_table_len_past_end() {
    let body = vec![
        Instruction::BrTable(0, 7),
        Instruction::BrLabel(0),
        Instruction::EndFunc,
    ];
    assert!(!check_body(&body));
}

#[test]
fn test_check_body_accepts_valid_if_signature() {
    let body = vec![
        Instruction::If(BlockArgsPacked::new(BlockArgs::Empty), 0, 2),
        Instruction::Nop,
        Instruction::EndBlockFrame,
        Instruction::EndFunc,
    ];
    assert!(check_body(&body));
}

#[test]
fn test_extern_val_kind_round_trip() {
    let kinds = [
        ExternalKind::Func,
        ExternalKind::Table,
        ExternalKind::Memory,
        ExternalKind::Global,
    ];
    for kind in kinds {
        let v = ExternVal::new(kind.clone(), 7);
        assert_eq!(v.kind(), kind);
    }
}

#[test]
fn test_extern_val_new_variants() {
    assert!(matches!(ExternVal::new(ExternalKind::Func, 1), ExternVal::Func(1)));
    assert!(matches!(ExternVal::new(ExternalKind::Table, 2), ExternVal::Table(2)));
    assert!(matches!(ExternVal::new(ExternalKind::Memory, 3), ExternVal::Memory(3)));
    assert!(matches!(ExternVal::new(ExternalKind::Global, 4), ExternVal::Global(4)));
}

#[test]
fn test_import_kind_correspondence() {
    let cases: Vec<(ImportKind, ExternalKind)> = vec![
        (ImportKind::Function(3), ExternalKind::Func),
        (ImportKind::Table(TableType::empty()), ExternalKind::Table),
        (ImportKind::Memory(MemoryType::new_32(1, None)), ExternalKind::Memory),
        (
            ImportKind::Global(GlobalType { mutable: false, ty: ValType::I32 }),
            ExternalKind::Global,
        ),
    ];
    for (import_kind, expected) in cases {
        let kind = ExternalKind::from(&import_kind);
        assert_eq!(kind, expected);
        // The kind that tags an external value built from the same logical
        // kind is the same one the projection produced.
        assert_eq!(ExternVal::new(kind.clone(), 9).kind(), kind);
    }
}

#[test]
fn test_table_type_empty() {
    let t = TableType::empty();
    assert_eq!(t.element_type, ValType::RefFunc);
    assert_eq!(t.size_initial, 0);
    assert_eq!(t.size_max, None);
}

#[test]
fn test_table_type_new() {
    let t = TableType::new(ValType::RefExtern, 5, Some(10));
    assert_eq!(t.element_type, ValType::RefExtern);
    assert_eq!(t.size_initial, 5);
    assert_eq!(t.size_max, Some(10));
}

#[test]
fn test_memory_type_new_32() {
    let m = MemoryType::new_32(2, Some(8));
    assert_eq!(m.arch, MemoryArch::I32);
    assert_eq!(m.page_count_initial, 2);
    assert_eq!(m.page_count_max, Some(8));
    let unbounded = MemoryType::new_32(0, None);
    assert_eq!(unbounded.arch, MemoryArch::I32);
    assert_eq!(unbounded.page_count_initial, 0);
    assert_eq!(unbounded.page_count_max, None);
}

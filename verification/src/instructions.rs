use vstd::prelude::*;

use crate::value::val_type_byte;
use crate::value::val_type_of_byte;
use crate::value::DataAddr;
use crate::value::ElemAddr;
use crate::value::FuncAddr;
use crate::value::GlobalAddr;
use crate::value::LabelAddr;
use crate::value::LocalAddr;
use crate::value::MemAddr;
use crate::value::TableAddr;
use crate::value::TypeAddr;
use crate::value::ValType;

verus! {

/// The block signature of a structured control instruction: no result, a
/// single result type, or a reference (by type index) to a multi-value
/// function type. This unpacked form is the semantic value; `BlockArgsPacked`
/// is only its storage encoding.
#[derive(Debug, Copy, Clone, PartialEq, Eq, Structural)]
pub enum BlockArgs {
    Empty,
    Type(ValType),
    FuncType(u32),
}

/// The fixed 5-byte encoding of a `BlockArgs` value: byte 0 is the tag
/// (0 = `Empty`, 1 = `Type`, 2 = `FuncType`), byte 1 holds the value-type tag
/// for the `Type` case, bytes 1..=4 hold the little-endian function-type
/// index for the `FuncType` case, and unused trailing bytes are zero.
pub open spec fn pack_spec(args: BlockArgs) -> Seq<u8> {
    match args {
        BlockArgs::Empty => seq![0u8, 0u8, 0u8, 0u8, 0u8],
        BlockArgs::Type(t) => seq![1u8, val_type_byte(t), 0u8, 0u8, 0u8],
        BlockArgs::FuncType(x) => seq![
            2u8,
            (x & 0xFF) as u8,
            ((x >> 8) & 0xFF) as u8,
            ((x >> 16) & 0xFF) as u8,
            ((x >> 24) & 0xFF) as u8,
        ],
    }
}

/// The 32-bit value held little-endian in four bytes.
pub open spec fn le_u32(b0: u8, b1: u8, b2: u8, b3: u8) -> u32 {
    ((b0 as u32) | ((b1 as u32) << 8) | ((b2 as u32) << 16) | ((b3 as u32) << 24)) as u32
}

/// The construction invariant of a packed buffer: 5 bytes, a tag in
/// {0, 1, 2}, and a recognized value-type byte under tag 1. Every buffer
/// built by `BlockArgsPacked::new` satisfies it; a buffer outside it can only
/// arise from memory corruption or a producer bug, and unpacking one is a
/// fatal internal-consistency violation, not a recoverable decode error.
pub open spec fn packed_valid(s: Seq<u8>) -> bool {
    &&& s.len() == 5
    &&& (s[0] == 0 || s[0] == 1 || s[0] == 2)
    &&& (s[0] == 1 ==> val_type_of_byte(s[1]) is Some)
}

/// The semantic value of a valid packed buffer.
pub open spec fn unpack_spec(s: Seq<u8>) -> BlockArgs
    recommends
        packed_valid(s),
{
    if s[0] == 0 {
        BlockArgs::Empty
    } else if s[0] == 1 {
        BlockArgs::Type(val_type_of_byte(s[1]).unwrap())
    } else {
        BlockArgs::FuncType(le_u32(s[1], s[2], s[3], s[4]))
    }
}

/// Reassembling the four little-endian bytes of a 32-bit value yields the
/// value back, for the whole 32-bit range.
pub proof fn lemma_le_u32_round_trip(x: u32)
    ensures
        le_u32(
            (x & 0xFF) as u8,
            ((x >> 8) & 0xFF) as u8,
            ((x >> 16) & 0xFF) as u8,
            ((x >> 24) & 0xFF) as u8,
        ) == x,
{
    assert((((x & 0xFF) as u8 as u32) | ((((x >> 8) & 0xFF) as u8 as u32) << 8) | ((((x >> 16)
        & 0xFF) as u8 as u32) << 16) | ((((x >> 24) & 0xFF) as u8 as u32) << 24)) as u32 == x)
        by (bit_vector);
}

/// Packing any block signature and unpacking the result observes only the
/// bytes the tag makes meaningful, so the round trip is the identity on all
/// three cases, including the boundary function-type indices 0 and
/// `u32::MAX`.
pub proof fn lemma_pack_unpack_round_trip(args: BlockArgs)
    ensures
        packed_valid(pack_spec(args)),
        unpack_spec(pack_spec(args)) == args,
{
    match args {
        BlockArgs::Empty => {
        },
        BlockArgs::Type(t) => {
        },
        BlockArgs::FuncType(x) => {
            lemma_le_u32_round_trip(x);
        },
    }
}

/// Unpacking observes only the bytes its tag makes meaningful: two valid
/// buffers that agree on the tag, on the value-type byte under tag 1, and on
/// the four index bytes under tag 2, unpack to the same signature whatever
/// their remaining bytes hold.
pub proof fn lemma_unpack_ignores_unused_bytes(s1: Seq<u8>, s2: Seq<u8>)
    requires
        packed_valid(s1),
        packed_valid(s2),
        s1[0] == s2[0],
        s1[0] == 1 ==> s1[1] == s2[1],
        s1[0] == 2 ==> s1[1] == s2[1] && s1[2] == s2[2] && s1[3] == s2[3] && s1[4] == s2[4],
    ensures
        unpack_spec(s1) == unpack_spec(s2),
{
}

/// The packed representation of a `BlockArgs` value, kept to 5 bytes so that
/// the owning `Instruction` variant stays within the instruction size budget.
/// The buffer is only ever written by `new`, so it always satisfies
/// `packed_valid` and its trailing bytes are canonical zeros.
#[derive(Debug, Copy, Clone, PartialEq, Eq)]
pub struct BlockArgsPacked([u8; 5]);

impl View for BlockArgsPacked {
    type V = Seq<u8>;

    closed spec fn view(&self) -> Seq<u8> {
        self.0@
    }
}

impl BlockArgsPacked {
    /// Pack a block signature; total, and exact inverse of `unpack`.
    pub fn new(args: BlockArgs) -> (r: Self)
        ensures
            r@ == pack_spec(args),
            packed_valid(r@),
            unpack_spec(r@) == args,
    {
        let packed: [u8; 5] = match args {
            BlockArgs::Empty => [0, 0, 0, 0, 0],
            BlockArgs::Type(t) => [1, t.to_byte(), 0, 0, 0],
            BlockArgs::FuncType(t) => [
                2,
                (t & 0xFF) as u8,
                ((t >> 8) & 0xFF) as u8,
                ((t >> 16) & 0xFF) as u8,
                ((t >> 24) & 0xFF) as u8,
            ],
        };
        proof {
            assert(packed@ =~= pack_spec(args));
            lemma_pack_unpack_round_trip(args);
        }
        Self(packed)
    }

    /// Check the construction invariant of this buffer: the structural gate
    /// for a packed value reconstructed from untrusted bytes, to be passed
    /// before `unpack` may be called on it.
    pub fn is_valid(&self) -> (r: bool)
        ensures
            r == packed_valid(self@),
    {
        let tag = self.0[0];
        if tag == 0 || tag == 2 {
            true
        } else if tag == 1 {
            ValType::from_byte(self.0[1]).is_ok()
        } else {
            false
        }
    }

    /// Recover the block signature. The precondition is the construction
    /// invariant: a buffer with a tag outside {0, 1, 2} could only come from
    /// corruption, and this layer treats that as unreachable rather than as a
    /// recoverable error.
    pub fn unpack(&self) -> (r: BlockArgs)
        requires
            packed_valid(self@),
        ensures
            r == unpack_spec(self@),
    {
        let tag = self.0[0];
        if tag == 0 {
            BlockArgs::Empty
        } else if tag == 1 {
            match ValType::from_byte(self.0[1]) {
                Ok(t) => BlockArgs::Type(t),
                Err(_) => vstd::pervasive::unreached(),
            }
        } else {
            let b0 = self.0[1] as u32;
            let b1 = self.0[2] as u32;
            let b2 = self.0[3] as u32;
            let b3 = self.0[4] as u32;
            BlockArgs::FuncType(b0 | (b1 << 8) | (b2 << 16) | (b3 << 24))
        }
    }
}

/// The memory immediate of a memory instruction: a constant byte offset and
/// the address of the memory it applies to.
#[derive(Debug, Copy, Clone, PartialEq)]
pub struct MemoryArg {
    pub offset: u64,
    pub mem_addr: MemAddr,
}

/// The instruction subset legal in constant-expression position (global
/// initializers, segment offsets, element items): literals, a read of an
/// existing immutable global, or a reference value. Each variant is pure and
/// produces exactly one value when evaluated.
///
/// Float literals are held as their IEEE-754 bit patterns, so the value is
/// carried exactly without this layer doing any float arithmetic.
#[derive(Debug, Clone, Copy, PartialEq)]
pub enum ConstInstruction {
    I32Const(i32),
    I64Const(i64),
    /// An `f32` literal, as its IEEE-754 bit pattern.
    F32Const(u32),
    /// An `f64` literal, as its IEEE-754 bit pattern.
    F64Const(u64),
    GlobalGet(GlobalAddr),
    RefNull(ValType),
    RefFunc(FuncAddr),
}

type BrTableDefault = u32;

type BrTableLen = u32;

type EndOffset = u32;

type ElseOffset = u32;

/// One unit of the flat internal bytecode. These are the interpreter's own
/// instructions, so they do not match the binary format one to one: a single
/// wasm instruction may map to several of these.
///
/// Differences from the structured form of the source format:
/// * `br_table` keeps its jump labels in the `BrLabel` pseudo-instructions
///   that follow it in the stream, to keep this enum small.
/// * Blocks carry the precomputed offset of their end marker, and separate
///   `EndBlockFrame` / `EndFunc` instructions mark where a block or function
///   body ends, so the engine can run an iterative label stack instead of
///   recursing.
/// * A handful of fused superinstructions replace common multi-op idioms;
///   each must behave exactly like its unfused expansion (see the fusion
///   lemmas in the semantics module).
///
/// Float immediates are held as IEEE-754 bit patterns. The whole enum is kept
/// within a 16-byte footprint, tag included, because the engine walks a dense
/// array of these and cache locality dominates dispatch speed.
#[derive(Debug, Clone, PartialEq)]
pub enum Instruction {
    /// Pseudo-instruction: carries one `br_table` case target; only valid
    /// directly after a `BrTable` instruction or another `BrLabel`.
    BrLabel(LabelAddr),
    /// Fused `i64.xor` + `i64.const` + `i64.rotl`, an idiom common in
    /// compiled cryptographic code.
    I64XorConstRotl(i64),
    /// Fused `local.tee` + `local.get`.
    LocalTeeGet(LocalAddr, LocalAddr),
    /// Fused pair of `local.get`s.
    LocalGet2(LocalAddr, LocalAddr),
    /// Fused triple of `local.get`s.
    LocalGet3(LocalAddr, LocalAddr, LocalAddr),
    /// Fused `local.get` + `local.set`.
    LocalGetSet(LocalAddr, LocalAddr),
    Unreachable,
    Nop,
    Block(BlockArgs, EndOffset),
    Loop(BlockArgs, EndOffset),
    /// The else offset is 0 when there is no else branch; 0 is a reserved
    /// sentinel there, never a valid offset.
    If(BlockArgsPacked, ElseOffset, EndOffset),
    Else(EndOffset),
    EndBlockFrame,
    EndFunc,
    Br(LabelAddr),
    BrIf(LabelAddr),
    /// Default label and case count; must be followed in the stream by
    /// exactly that many `BrLabel` instructions, in case order.
    BrTable(BrTableDefault, BrTableLen),
    Return,
    Call(FuncAddr),
    CallIndirect(TypeAddr, TableAddr),
    Drop,
    Select(Option<ValType>),
    LocalGet(LocalAddr),
    LocalSet(LocalAddr),
    LocalTee(LocalAddr),
    GlobalGet(GlobalAddr),
    GlobalSet(GlobalAddr),
    I32Load { offset: u64, mem_addr: MemAddr },
    I64Load { offset: u64, mem_addr: MemAddr },
    F32Load { offset: u64, mem_addr: MemAddr },
    F64Load { offset: u64, mem_addr: MemAddr },
    I32Load8S { offset: u64, mem_addr: MemAddr },
    I32Load8U { offset: u64, mem_addr: MemAddr },
    I32Load16S { offset: u64, mem_addr: MemAddr },
    I32Load16U { offset: u64, mem_addr: MemAddr },
    I64Load8S { offset: u64, mem_addr: MemAddr },
    I64Load8U { offset: u64, mem_addr: MemAddr },
    I64Load16S { offset: u64, mem_addr: MemAddr },
    I64Load16U { offset: u64, mem_addr: MemAddr },
    I64Load32S { offset: u64, mem_addr: MemAddr },
    I64Load32U { offset: u64, mem_addr: MemAddr },
    I32Store { offset: u64, mem_addr: MemAddr },
    I64Store { offset: u64, mem_addr: MemAddr },
    F32Store { offset: u64, mem_addr: MemAddr },
    F64Store { offset: u64, mem_addr: MemAddr },
    I32Store8 { offset: u64, mem_addr: MemAddr },
    I32Store16 { offset: u64, mem_addr: MemAddr },
    I64Store8 { offset: u64, mem_addr: MemAddr },
    I64Store16 { offset: u64, mem_addr: MemAddr },
    I64Store32 { offset: u64, mem_addr: MemAddr },
    MemorySize(MemAddr, u8),
    MemoryGrow(MemAddr, u8),
    I32Const(i32),
    I64Const(i64),
    /// An `f32` immediate, as its IEEE-754 bit pattern.
    F32Const(u32),
    /// An `f64` immediate, as its IEEE-754 bit pattern.
    F64Const(u64),
    RefNull(ValType),
    RefFunc(FuncAddr),
    RefIsNull,
    I32Eqz,
    I32Eq,
    I32Ne,
    I32LtS,
    I32LtU,
    I32GtS,
    I32GtU,
    I32LeS,
    I32LeU,
    I32GeS,
    I32GeU,
    I64Eqz,
    I64Eq,
    I64Ne,
    I64LtS,
    I64LtU,
    I64GtS,
    I64GtU,
    I64LeS,
    I64LeU,
    I64GeS,
    I64GeU,
    F32Eq,
    F32Ne,
    F32Lt,
    F32Gt,
    F32Le,
    F32Ge,
    F64Eq,
    F64Ne,
    F64Lt,
    F64Gt,
    F64Le,
    F64Ge,
    I32Clz,
    I32Ctz,
    I32Popcnt,
    I32Add,
    I32Sub,
    I32Mul,
    I32DivS,
    I32DivU,
    I32RemS,
    I32RemU,
    I32And,
    I32Or,
    I32Xor,
    I32Shl,
    I32ShrS,
    I32ShrU,
    I32Rotl,
    I32Rotr,
    I64Clz,
    I64Ctz,
    I64Popcnt,
    I64Add,
    I64Sub,
    I64Mul,
    I64DivS,
    I64DivU,
    I64RemS,
    I64RemU,
    I64And,
    I64Or,
    I64Xor,
    I64Shl,
    I64ShrS,
    I64ShrU,
    I64Rotl,
    I64Rotr,
    F32Abs,
    F32Neg,
    F32Ceil,
    F32Floor,
    F32Trunc,
    F32Nearest,
    F32Sqrt,
    F32Add,
    F32Sub,
    F32Mul,
    F32Div,
    F32Min,
    F32Max,
    F32Copysign,
    F64Abs,
    F64Neg,
    F64Ceil,
    F64Floor,
    F64Trunc,
    F64Nearest,
    F64Sqrt,
    F64Add,
    F64Sub,
    F64Mul,
    F64Div,
    F64Min,
    F64Max,
    F64Copysign,
    I32WrapI64,
    I32TruncF32S,
    I32TruncF32U,
    I32TruncF64S,
    I32TruncF64U,
    I32Extend8S,
    I32Extend16S,
    I64Extend8S,
    I64Extend16S,
    I64Extend32S,
    I64ExtendI32S,
    I64ExtendI32U,
    I64TruncF32S,
    I64TruncF32U,
    I64TruncF64S,
    I64TruncF64U,
    F32ConvertI32S,
    F32ConvertI32U,
    F32ConvertI64S,
    F32ConvertI64U,
    F32DemoteF64,
    F64ConvertI32S,
    F64ConvertI32U,
    F64ConvertI64S,
    F64ConvertI64U,
    F64PromoteF32,
    I32ReinterpretF32,
    I64ReinterpretF64,
    F32ReinterpretI32,
    F64ReinterpretI64,
    I32TruncSatF32S,
    I32TruncSatF32U,
    I32TruncSatF64S,
    I32TruncSatF64U,
    I64TruncSatF32S,
    I64TruncSatF32U,
    I64TruncSatF64S,
    I64TruncSatF64U,
    TableInit(TableAddr, ElemAddr),
    TableGet(TableAddr),
    TableSet(TableAddr),
    TableCopy { from: TableAddr, to: TableAddr },
    TableGrow(TableAddr),
    TableSize(TableAddr),
    TableFill(TableAddr),
    MemoryInit(MemAddr, DataAddr),
    MemoryCopy(MemAddr, MemAddr),
    MemoryFill(MemAddr),
    DataDrop(DataAddr),
}

} // verus!

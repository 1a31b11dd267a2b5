use vstd::prelude::*;

use crate::instructions::packed_valid;
use crate::instructions::ConstInstruction;
use crate::instructions::Instruction;
use crate::value::Addr;
use crate::value::FuncAddr;
use crate::value::MemAddr;
use crate::value::TableAddr;
use crate::value::TypeAddr;
use crate::value::ValType;

verus! {

/// A WebAssembly external kind: the kind tag of an importable or exportable
/// thing, without any payload.
#[derive(Debug, Clone, PartialEq)]
pub enum ExternalKind {
    Func,
    Table,
    Memory,
    Global,
}

/// A WebAssembly external value: an address together with the kind of table
/// it indexes.
#[derive(Debug, Clone)]
pub enum ExternVal {
    Func(FuncAddr),
    Table(TableAddr),
    Memory(MemAddr),
    Global(Addr),
}

/// The kind tag of an external value.
pub open spec fn extern_val_kind(v: ExternVal) -> ExternalKind {
    match v {
        ExternVal::Func(_) => ExternalKind::Func,
        ExternVal::Table(_) => ExternalKind::Table,
        ExternVal::Memory(_) => ExternalKind::Memory,
        ExternVal::Global(_) => ExternalKind::Global,
    }
}

/// The address an external value carries.
pub open spec fn extern_val_addr(v: ExternVal) -> Addr {
    match v {
        ExternVal::Func(a) => a,
        ExternVal::Table(a) => a,
        ExternVal::Memory(a) => a,
        ExternVal::Global(a) => a,
    }
}

/// The external value of a given kind holding a given address.
pub open spec fn extern_val_of(kind: ExternalKind, addr: Addr) -> ExternVal {
    match kind {
        ExternalKind::Func => ExternVal::Func(addr),
        ExternalKind::Table => ExternVal::Table(addr),
        ExternalKind::Memory => ExternVal::Memory(addr),
        ExternalKind::Global => ExternVal::Global(addr),
    }
}

impl ExternVal {
    /// The kind of thing this external value addresses.
    pub fn kind(&self) -> (r: ExternalKind)
        ensures
            r == extern_val_kind(*self),
    {
        match self {
            Self::Func(_) => ExternalKind::Func,
            Self::Table(_) => ExternalKind::Table,
            Self::Memory(_) => ExternalKind::Memory,
            Self::Global(_) => ExternalKind::Global,
        }
    }

    /// Build the external value of the given kind holding the given address.
    pub fn new(kind: ExternalKind, addr: Addr) -> (r: Self)
        ensures
            r == extern_val_of(kind, addr),
    {
        match kind {
            ExternalKind::Func => Self::Func(addr),
            ExternalKind::Table => Self::Table(addr),
            ExternalKind::Memory => Self::Memory(addr),
            ExternalKind::Global => Self::Global(addr),
        }
    }
}

/// Building an external value and reading it back is the identity on both
/// components: the kind mapping is bidirectional over all four kinds.
pub proof fn lemma_extern_val_round_trip(kind: ExternalKind, addr: Addr)
    ensures
        extern_val_kind(extern_val_of(kind, addr)) == kind,
        extern_val_addr(extern_val_of(kind, addr)) == addr,
{
}

/// Every external value is exactly the one rebuilt from its kind and address.
pub proof fn lemma_extern_val_rebuild(v: ExternVal)
    ensures
        extern_val_of(extern_val_kind(v), extern_val_addr(v)) == v,
{
}

/// The type of a WebAssembly function: its parameter and result type lists.
#[derive(Debug, Clone, PartialEq, Default)]
pub struct FuncType {
    pub params: Vec<ValType>,
    pub results: Vec<ValType>,
}

/// One finished function: its flat, control-flow-resolved instruction
/// sequence, its declared locals beyond the parameters, and its type.
#[derive(Debug, Clone, PartialEq)]
pub struct WasmFunction {
    pub instructions: Vec<Instruction>,
    pub locals: Vec<ValType>,
    pub ty: FuncType,
}

/// One exported item: its name, kind, and index into the kind's table.
#[derive(Debug, Clone, PartialEq)]
pub struct Export {
    /// The name of the export.
    pub name: String,
    /// The kind of the export.
    pub kind: ExternalKind,
    /// The index of the exported item.
    pub index: u32,
}

/// One global: its type and its constant initializer expression.
#[derive(Debug, Clone, PartialEq)]
pub struct Global {
    pub ty: GlobalType,
    pub init: ConstInstruction,
}

/// The type of a global: its value type and whether it is mutable.
#[derive(Debug, Clone, Copy, PartialEq)]
pub struct GlobalType {
    pub mutable: bool,
    pub ty: ValType,
}

/// The descriptor of a table: its element type, initial size, and optional
/// maximum size.
#[derive(Debug, Clone, PartialEq)]
pub struct TableType {
    pub element_type: ValType,
    pub size_initial: u32,
    pub size_max: Option<u32>,
}

impl TableType {
    /// The common empty function-reference table: no elements yet and no
    /// explicit maximum.
    pub fn empty() -> (r: Self)
        ensures
            r.element_type == ValType::RefFunc,
            r.size_initial == 0,
            r.size_max is None,
    {
        Self { element_type: ValType::RefFunc, size_initial: 0, size_max: None }
    }

    /// Build a table descriptor from its three components.
    pub fn new(element_type: ValType, size_initial: u32, size_max: Option<u32>) -> (r: Self)
        ensures
            r.element_type == element_type,
            r.size_initial == size_initial,
            r.size_max == size_max,
    {
        Self { element_type, size_initial, size_max }
    }
}

/// The descriptor of a linear memory: its address-space width, initial page
/// count, and optional maximum page count.
#[derive(Debug, Copy, Clone, PartialEq)]
pub struct MemoryType {
    pub arch: MemoryArch,
    pub page_count_initial: u64,
    pub page_count_max: Option<u64>,
}

impl MemoryType {
    /// The common 32-bit-addressed memory descriptor.
    pub fn new_32(page_count_initial: u64, page_count_max: Option<u64>) -> (r: Self)
        ensures
            r.arch == MemoryArch::I32,
            r.page_count_initial == page_count_initial,
            r.page_count_max == page_count_max,
    {
        Self { arch: MemoryArch::I32, page_count_initial, page_count_max }
    }
}

/// The address-space width of a memory.
#[derive(Debug, Copy, Clone, PartialEq, Eq, Hash)]
pub enum MemoryArch {
    I32,
    I64,
}

/// One imported item: the module and field names it is imported under, and
/// its declared kind and type.
#[derive(Debug, Clone, PartialEq)]
pub struct Import {
    pub module: String,
    pub name: String,
    pub kind: ImportKind,
}

/// The declared kind of an un-instantiated import, carrying the declared
/// type: a function type index, a table type, a memory type, or a global
/// type.
#[derive(Debug, Clone, PartialEq)]
pub enum ImportKind {
    Function(TypeAddr),
    Table(TableType),
    Memory(MemoryType),
    Global(GlobalType),
}

/// The kind tag of an import, with the declared-type payload projected away.
pub open spec fn import_kind_external(kind: ImportKind) -> ExternalKind {
    match kind {
        ImportKind::Function(_) => ExternalKind::Func,
        ImportKind::Table(_) => ExternalKind::Table,
        ImportKind::Memory(_) => ExternalKind::Memory,
        ImportKind::Global(_) => ExternalKind::Global,
    }
}

impl From<&ImportKind> for ExternalKind {
    /// Project an import kind down to the bare external kind.
    fn from(kind: &ImportKind) -> (r: Self) {
        match kind {
            ImportKind::Function(_) => Self::Func,
            ImportKind::Table(_) => Self::Table,
            ImportKind::Memory(_) => Self::Memory,
            ImportKind::Global(_) => Self::Global,
        }
    }
}

impl vstd::std_specs::convert::FromSpecImpl<&ImportKind> for ExternalKind {
    open spec fn obeys_from_spec() -> bool {
        true
    }

    open spec fn from_spec(v: &ImportKind) -> Self {
        import_kind_external(*v)
    }
}

/// Import/export kind correspondence: for every import kind, the projected
/// external kind is exactly the kind that tags an external value built from
/// the same logical kind, whatever address it carries.
pub proof fn lemma_import_export_kind_correspondence(kind: ImportKind, addr: Addr)
    ensures
        extern_val_kind(extern_val_of(import_kind_external(kind), addr))
            == import_kind_external(kind),
{
}

/// The half-open range of bytes a segment occupied in the original binary
/// encoding, kept for diagnostics only.
#[derive(Debug, Clone, Copy, PartialEq, Eq, Structural)]
pub struct ByteRange {
    pub start: usize,
    pub end: usize,
}

/// One data segment: its raw bytes, the byte range it occupied in the
/// original encoding (kept for diagnostics), and its kind.
#[derive(Debug, Clone, PartialEq)]
pub struct Data {
    pub data: Vec<u8>,
    pub range: ByteRange,
    pub kind: DataKind,
}

/// How a data segment is materialized: copied into a memory at instantiation
/// time at a constant-expression offset, or only by explicit bulk-memory
/// instructions at run time.
#[derive(Debug, Clone, PartialEq)]
pub enum DataKind {
    Active { mem: MemAddr, offset: ConstInstruction },
    Passive,
}

/// One element segment: its kind, its items, the byte range it occupied in
/// the original encoding, and its element type.
#[derive(Debug, Clone, PartialEq)]
pub struct Element {
    pub kind: ElementKind,
    pub items: Vec<ElementItem>,
    pub range: ByteRange,
    pub ty: ValType,
}

/// How an element segment is materialized: only by explicit table
/// instructions, copied into a table at instantiation, or merely declared to
/// forward-announce reachability for validation.
#[derive(Debug, Clone, Copy, PartialEq)]
pub enum ElementKind {
    Passive,
    Active { table: TableAddr, offset: ConstInstruction },
    Declared,
}

/// One element-segment item: a function address, or an arbitrary constant
/// expression for non-function reference tables.
#[derive(Debug, Clone, PartialEq)]
pub enum ElementItem {
    Func(FuncAddr),
    Expr(ConstInstruction),
}

/// The case count a `br_table` instruction announces; 0 for anything else.
pub open spec fn br_table_len(ins: Instruction) -> int {
    match ins {
        Instruction::BrTable(_, n) => n as int,
        _ => 0,
    }
}

/// The stream-layout convention of `br_table`: the announced number of
/// `BrLabel` pseudo-instructions follows directly, in case order, all within
/// the body.
pub open spec fn br_table_targets_ok(s: Seq<Instruction>, i: int) -> bool
    recommends
        0 <= i < s.len(),
{
    &&& i + br_table_len(s[i]) < s.len()
    &&& forall|j: int| i < j <= i + br_table_len(s[i]) ==> (#[trigger] s[j]) is BrLabel
}

/// The per-position well-formedness of an instruction within a function
/// body: `EndFunc` appears only as the final instruction, every `br_table`
/// is followed by its announced `BrLabel`s, and every packed `if` signature
/// satisfies the packed-buffer invariant.
pub open spec fn instr_wf_at(s: Seq<Instruction>, i: int) -> bool
    recommends
        0 <= i < s.len(),
{
    &&& (i < s.len() - 1 ==> !(s[i] is EndFunc))
    &&& (s[i] is BrTable ==> br_table_targets_ok(s, i))
    &&& (s[i] matches Instruction::If(p, _, _) ==> packed_valid(p@))
}

/// A well-formed function body: non-empty, terminated by `EndFunc`, and
/// well-formed at every position.
pub open spec fn body_wf(s: Seq<Instruction>) -> bool {
    &&& s.len() > 0
    &&& s[s.len() - 1] is EndFunc
    &&& forall|i: int| 0 <= i < s.len() ==> #[trigger] instr_wf_at(s, i)
}

/// Check one function body against `body_wf`. This is the structural
/// validation gate: a body arriving from an untrusted source must pass it
/// before any offset or layout convention in the body is relied on.
pub fn check_body(instructions: &Vec<Instruction>) -> (r: bool)
    ensures
        r == body_wf(instructions@),
{
    let ghost s = instructions@;
    let n = instructions.len();
    if n == 0 {
        return false;
    }
    match &instructions[n - 1] {
        Instruction::EndFunc => {},
        _ => {
            return false;
        },
    }
    let mut i: usize = 0;
    while i < n
        invariant
            n == s.len(),
            s == instructions@,
            i <= n,
            1 <= n,
            s[n - 1] is EndFunc,
            forall|k: int| 0 <= k < i ==> #[trigger] instr_wf_at(s, k),
        decreases n - i,
    {
        match &instructions[i] {
            Instruction::EndFunc => {
                if i != n - 1 {
                    proof {
                        assert(!instr_wf_at(s, i as int));
                    }
                    return false;
                }
            },
            Instruction::BrTable(_, len) => {
                let len_us = *len as usize;
                if n - 1 - i < len_us {
                    proof {
                        assert(!br_table_targets_ok(s, i as int));
                        assert(!instr_wf_at(s, i as int));
                    }
                    return false;
                }
                let mut j: usize = 1;
                while j <= len_us
                    invariant
                        n == s.len(),
                        s == instructions@,
                        i < n,
                        len_us <= n - 1 - i,
                        br_table_len(s[i as int]) == len_us,
                        1 <= j <= len_us + 1,
                        forall|jj: int|
                            i < jj < i + j ==> (#[trigger] s[jj]) is BrLabel,
                    decreases len_us + 1 - j,
                {
                    match &instructions[i + j] {
                        Instruction::BrLabel(_) => {},
                        _ => {
                            proof {
                                assert(!br_table_targets_ok(s, i as int));
                                assert(!instr_wf_at(s, i as int));
                            }
                            return false;
                        },
                    }
                    j += 1;
                }
                proof {
                    assert(br_table_targets_ok(s, i as int));
                }
            },
            Instruction::If(p, _, _) => {
                if !p.is_valid() {
                    proof {
                        assert(!instr_wf_at(s, i as int));
                    }
                    return false;
                }
            },
            _ => {},
        }
        proof {
            assert(instr_wf_at(s, i as int));
        }
        i += 1;
    }
    true
}

/// The immutable aggregate of one finished WebAssembly module.
///
/// A module is built exactly once, by the external decode-and-validate
/// pipeline, and never mutated afterwards; consumers hold it read-only. The
/// pipeline also establishes, once, that every embedded address is in bounds
/// for its table and that every control-flow offset is correct; this layer
/// never re-checks those. What `validate` does re-check is the purely
/// structural layout contract of each function body, which must be
/// established before a module arriving from an untrusted source is trusted.
/// Imported functions, tables, memories, and globals occupy the low
/// addresses of their tables, before module-defined ones; that ordering is
/// what makes an address recognizably imported without a separate tag.
#[derive(Debug, Clone, Default, PartialEq)]
pub struct TinyWasmModule {
    /// Optional address of the start function.
    pub start_func: Option<FuncAddr>,
    /// Optimized and validated functions, indexed by function address.
    pub funcs: Vec<WasmFunction>,
    /// Function type definitions, indexed by type address.
    pub func_types: Vec<FuncType>,
    /// Exported items.
    pub exports: Vec<Export>,
    /// Globals, each a type plus a constant initializer.
    pub globals: Vec<Global>,
    /// Table descriptors.
    pub table_types: Vec<TableType>,
    /// Memory descriptors.
    pub memory_types: Vec<MemoryType>,
    /// Imported items.
    pub imports: Vec<Import>,
    /// Data segments.
    pub data: Vec<Data>,
    /// Element segments.
    pub elements: Vec<Element>,
}

impl TinyWasmModule {
    /// Structural well-formedness: every function body is well-formed.
    pub open spec fn wf(self) -> bool {
        forall|i: int|
            0 <= i < self.funcs@.len() ==> body_wf((#[trigger] self.funcs@[i]).instructions@)
    }

    /// Check every function body of the module; the structural validation
    /// gate for a module reconstructed from untrusted bytes.
    pub fn validate(&self) -> (r: bool)
        ensures
            r == self.wf(),
    {
        let n = self.funcs.len();
        let mut i: usize = 0;
        while i < n
            invariant
                n == self.funcs@.len(),
                i <= n,
                forall|k: int|
                    0 <= k < i ==> body_wf((#[trigger] self.funcs@[k]).instructions@),
            decreases n - i,
        {
            if !check_body(&self.funcs[i].instructions) {
                return false;
            }
            i += 1;
        }
        true
    }
}

/// The number of `EndFunc` instructions in a sequence.
pub open spec fn end_func_count(s: Seq<Instruction>) -> int
    decreases s.len(),
{
    if s.len() == 0 {
        0
    } else {
        end_func_count(s.drop_last()) + if s.last() is EndFunc {
            1int
        } else {
            0int
        }
    }
}

/// A sequence with no `EndFunc` anywhere has an `EndFunc` count of zero.
proof fn lemma_no_end_func_count_zero(s: Seq<Instruction>)
    requires
        forall|i: int| 0 <= i < s.len() ==> !((#[trigger] s[i]) is EndFunc),
    ensures
        end_func_count(s) == 0,
    decreases s.len(),
{
    if s.len() > 0 {
        assert(forall|i: int|
            0 <= i < s.drop_last().len() ==> !((#[trigger] s.drop_last()[i]) is EndFunc));
        lemma_no_end_func_count_zero(s.drop_last());
    }
}

/// A well-formed function body contains exactly one `EndFunc`, and it is the
/// final instruction.
pub proof fn lemma_wf_body_single_end_func(s: Seq<Instruction>)
    requires
        body_wf(s),
    ensures
        s.len() > 0,
        s[s.len() - 1] is EndFunc,
        end_func_count(s) == 1,
{
    let t = s.drop_last();
    assert forall|i: int| 0 <= i < t.len() implies !((#[trigger] t[i]) is EndFunc) by {
        assert(instr_wf_at(s, i));
    }
    lemma_no_end_func_count_zero(t);
}

/// In a well-formed body, every position announced by a `br_table` holds a
/// `BrLabel` pseudo-instruction.
pub proof fn lemma_wf_body_br_table_labels(s: Seq<Instruction>, p: int, j: int)
    requires
        body_wf(s),
        0 <= p < s.len(),
        s[p] is BrTable,
        p < j <= p + br_table_len(s[p]),
    ensures
        j < s.len(),
        s[j] is BrLabel,
{
    assert(instr_wf_at(s, p));
}

/// In a well-formed module, every function body ends in its single
/// `EndFunc`.
pub proof fn lemma_wf_module_end_func(m: TinyWasmModule, i: int)
    requires
        m.wf(),
        0 <= i < m.funcs@.len(),
    ensures
        m.funcs@[i].instructions@.len() > 0,
        m.funcs@[i].instructions@[m.funcs@[i].instructions@.len() - 1] is EndFunc,
        end_func_count(m.funcs@[i].instructions@) == 1,
{
    lemma_wf_body_single_end_func(m.funcs@[i].instructions@);
}

/// In a well-formed module, the `br_table` stream-layout convention holds in
/// every function body.
pub proof fn lemma_wf_module_br_table_labels(m: TinyWasmModule, i: int, p: int, j: int)
    requires
        m.wf(),
        0 <= i < m.funcs@.len(),
        0 <= p < m.funcs@[i].instructions@.len(),
        m.funcs@[i].instructions@[p] is BrTable,
        p < j <= p + br_table_len(m.funcs@[i].instructions@[p]),
    ensures
        j < m.funcs@[i].instructions@.len(),
        m.funcs@[i].instructions@[j] is BrLabel,
{
    lemma_wf_body_br_table_labels(m.funcs@[i].instructions@, p, j);
}

} // verus!

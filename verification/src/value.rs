use vstd::prelude::*;

verus! {

/// A WebAssembly address: a 32-bit index into one of the per-kind tables of a
/// module or store. No runtime tag is attached; the position in the data model
/// determines which table an address indexes. The external validator
/// establishes, once, that every address embedded in a validated module is in
/// bounds for its table; this layer never re-checks that.
pub type Addr = u32;

pub type FuncAddr = Addr;

pub type TableAddr = Addr;

pub type MemAddr = Addr;

pub type GlobalAddr = Addr;

pub type ElemAddr = Addr;

pub type DataAddr = Addr;

pub type ExternAddr = Addr;

pub type TypeAddr = Addr;

pub type LocalAddr = Addr;

pub type LabelAddr = Addr;

pub type ModuleInstanceAddr = Addr;

/// A recoverable decoding failure: expected when reading untrusted bytes, and
/// always surfaced as an explicit error value, never as a panic.
#[derive(Debug, Clone, Copy, PartialEq, Eq, Structural)]
pub enum DecodeError {
    /// The byte is not the encoding of any recognized value type; carries the
    /// offending byte.
    UnknownValueType(u8),
}

/// The type of a WebAssembly value: one of the closed set of primitive and
/// reference kinds.
#[derive(Debug, Clone, Copy, PartialEq, Eq, Hash, Structural)]
pub enum ValType {
    I32,
    I64,
    F32,
    F64,
    V128,
    RefFunc,
    RefExtern,
}

/// The byte encoding of a value type, as fixed by the WebAssembly binary
/// format. Total and injective over the closed type set.
pub open spec fn val_type_byte(t: ValType) -> u8 {
    match t {
        ValType::I32 => 0x7F,
        ValType::I64 => 0x7E,
        ValType::F32 => 0x7D,
        ValType::F64 => 0x7C,
        ValType::V128 => 0x7B,
        ValType::RefFunc => 0x70,
        ValType::RefExtern => 0x6F,
    }
}

/// The partial inverse of `val_type_byte`: `Some` exactly on the seven
/// recognized tag bytes.
pub open spec fn val_type_of_byte(b: u8) -> Option<ValType> {
    if b == 0x7F {
        Some(ValType::I32)
    } else if b == 0x7E {
        Some(ValType::I64)
    } else if b == 0x7D {
        Some(ValType::F32)
    } else if b == 0x7C {
        Some(ValType::F64)
    } else if b == 0x7B {
        Some(ValType::V128)
    } else if b == 0x70 {
        Some(ValType::RefFunc)
    } else if b == 0x6F {
        Some(ValType::RefExtern)
    } else {
        None
    }
}

/// What `ValType::from_byte` returns for a given byte: the decoded type on a
/// recognized tag, and otherwise an error carrying the byte itself.
pub open spec fn from_byte_result(b: u8) -> Result<ValType, DecodeError> {
    match val_type_of_byte(b) {
        Some(t) => Ok(t),
        None => Err(DecodeError::UnknownValueType(b)),
    }
}

impl ValType {
    /// Encode this value type as its one-byte tag.
    pub fn to_byte(&self) -> (b: u8)
        ensures
            b == val_type_byte(*self),
    {
        match self {
            ValType::I32 => 0x7F,
            ValType::I64 => 0x7E,
            ValType::F32 => 0x7D,
            ValType::F64 => 0x7C,
            ValType::V128 => 0x7B,
            ValType::RefFunc => 0x70,
            ValType::RefExtern => 0x6F,
        }
    }

    /// Decode a one-byte tag; fails, without panicking, on every byte outside
    /// the recognized set.
    pub fn from_byte(byte: u8) -> (r: Result<ValType, DecodeError>)
        ensures
            r == from_byte_result(byte),
    {
        match byte {
            0x7F => Ok(ValType::I32),
            0x7E => Ok(ValType::I64),
            0x7D => Ok(ValType::F32),
            0x7C => Ok(ValType::F64),
            0x7B => Ok(ValType::V128),
            0x70 => Ok(ValType::RefFunc),
            0x6F => Ok(ValType::RefExtern),
            _ => Err(DecodeError::UnknownValueType(byte)),
        }
    }
}

/// Decoding is the exact inverse of encoding: every recognized value type
/// survives a byte round trip unchanged.
pub proof fn lemma_val_type_round_trip(t: ValType)
    ensures
        from_byte_result(val_type_byte(t)) == Ok::<ValType, DecodeError>(t),
{
}

/// Every byte outside the recognized tag set decodes to an error carrying
/// that byte, never to a value type.
pub proof fn lemma_val_type_unknown_byte(b: u8)
    requires
        val_type_of_byte(b) is None,
    ensures
        from_byte_result(b) == Err::<ValType, DecodeError>(DecodeError::UnknownValueType(b)),
{
}

/// The byte encoding is injective: distinct value types never share a tag.
pub proof fn lemma_val_type_byte_injective(t1: ValType, t2: ValType)
    requires
        val_type_byte(t1) == val_type_byte(t2),
    ensures
        t1 == t2,
{
}

} // verus!

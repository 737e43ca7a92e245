//! Typed pointer-path leaves: the kinds a guest may declare, their one-byte
//! wire codes, their zero values, and little-endian decoding of a leaf value
//! from raw target-process bytes. Floating-point kinds carry their raw
//! little-endian bit patterns; the core never interprets them as numbers.
use vstd::prelude::*;

verus! {

/// Kind of a pointer-path leaf value, as declared by the guest at path
/// creation. Encoded on the wire as a single byte, `0` through `10`, in
/// this order. `Str` is the reserved string kind: declaring it is valid,
/// reading such a leaf is not implemented.
#[derive(Clone, Copy, PartialEq, Eq, Structural, Debug)]
pub enum PointerKind {
    U8,
    U16,
    U32,
    U64,
    I8,
    I16,
    I32,
    I64,
    F32,
    F64,
    Str,
}

/// Wire code of a pointer kind.
pub open spec fn code_of_kind(k: PointerKind) -> u8 {
    match k {
        PointerKind::U8 => 0,
        PointerKind::U16 => 1,
        PointerKind::U32 => 2,
        PointerKind::U64 => 3,
        PointerKind::I8 => 4,
        PointerKind::I16 => 5,
        PointerKind::I32 => 6,
        PointerKind::I64 => 7,
        PointerKind::F32 => 8,
        PointerKind::F64 => 9,
        PointerKind::Str => 10,
    }
}

/// The kind a wire code denotes, if any: codes above `10` are invalid.
pub open spec fn kind_of_code(code: u8) -> Option<PointerKind> {
    if code == 0 {
        Some(PointerKind::U8)
    } else if code == 1 {
        Some(PointerKind::U16)
    } else if code == 2 {
        Some(PointerKind::U32)
    } else if code == 3 {
        Some(PointerKind::U64)
    } else if code == 4 {
        Some(PointerKind::I8)
    } else if code == 5 {
        Some(PointerKind::I16)
    } else if code == 6 {
        Some(PointerKind::I32)
    } else if code == 7 {
        Some(PointerKind::I64)
    } else if code == 8 {
        Some(PointerKind::F32)
    } else if code == 9 {
        Some(PointerKind::F64)
    } else if code == 10 {
        Some(PointerKind::Str)
    } else {
        None
    }
}

/// Number of bytes a leaf of this kind occupies in target memory.
/// The reserved string kind has no size; nothing may read it.
pub open spec fn size_of_kind(k: PointerKind) -> nat {
    match k {
        PointerKind::U8 => 1,
        PointerKind::U16 => 2,
        PointerKind::U32 => 4,
        PointerKind::U64 => 8,
        PointerKind::I8 => 1,
        PointerKind::I16 => 2,
        PointerKind::I32 => 4,
        PointerKind::I64 => 8,
        PointerKind::F32 => 4,
        PointerKind::F64 => 8,
        PointerKind::Str => 0,
    }
}

/// Decoding a kind's wire code yields the kind back, and every code past
/// the last kind is rejected: the wire encoding round-trips exactly.
pub proof fn lemma_wire_code_round_trip()
    ensures
        forall|k: PointerKind| kind_of_code(#[trigger] code_of_kind(k)) == Some(k),
        forall|c: u8| 10 < c ==> kind_of_code(c) is None,
        forall|c: u8|
            c <= 10 ==> ((#[trigger] kind_of_code(c)) matches Some(k) && code_of_kind(k) == c),
{
    assert forall|k: PointerKind| kind_of_code(#[trigger] code_of_kind(k)) == Some(k) by {
        match k {
            PointerKind::U8 => {},
            PointerKind::U16 => {},
            PointerKind::U32 => {},
            PointerKind::U64 => {},
            PointerKind::I8 => {},
            PointerKind::I16 => {},
            PointerKind::I32 => {},
            PointerKind::I64 => {},
            PointerKind::F32 => {},
            PointerKind::F64 => {},
            PointerKind::Str => {},
        }
    }
}

impl PointerKind {
    /// Wire code of this kind.
    pub fn code(&self) -> (c: u8)
        ensures
            c == code_of_kind(*self),
    {
        match self {
            PointerKind::U8 => 0,
            PointerKind::U16 => 1,
            PointerKind::U32 => 2,
            PointerKind::U64 => 3,
            PointerKind::I8 => 4,
            PointerKind::I16 => 5,
            PointerKind::I32 => 6,
            PointerKind::I64 => 7,
            PointerKind::F32 => 8,
            PointerKind::F64 => 9,
            PointerKind::Str => 10,
        }
    }

    /// Decodes a wire code; codes above `10` are invalid.
    pub fn from_code(code: u8) -> (r: Option<PointerKind>)
        ensures
            r == kind_of_code(code),
    {
        match code {
            0 => Some(PointerKind::U8),
            1 => Some(PointerKind::U16),
            2 => Some(PointerKind::U32),
            3 => Some(PointerKind::U64),
            4 => Some(PointerKind::I8),
            5 => Some(PointerKind::I16),
            6 => Some(PointerKind::I32),
            7 => Some(PointerKind::I64),
            8 => Some(PointerKind::F32),
            9 => Some(PointerKind::F64),
            10 => Some(PointerKind::Str),
            _ => None,
        }
    }

    /// Number of bytes a leaf of this kind occupies.
    pub fn byte_size(&self) -> (n: usize)
        ensures
            n == size_of_kind(*self),
    {
        match self {
            PointerKind::U8 => 1,
            PointerKind::U16 => 2,
            PointerKind::U32 => 4,
            PointerKind::U64 => 8,
            PointerKind::I8 => 1,
            PointerKind::I16 => 2,
            PointerKind::I32 => 4,
            PointerKind::I64 => 8,
            PointerKind::F32 => 4,
            PointerKind::F64 => 8,
            PointerKind::Str => 0,
        }
    }
}

/// A value of one pointer kind. The kind of a path's `current` and `old`
/// slots is fixed at path creation and never changes. `F32` and `F64` hold
/// the raw little-endian bit patterns read from the target; `Str` is the
/// reserved string kind and carries no payload.
#[derive(Clone, Copy, PartialEq, Eq, Structural, Debug)]
pub enum PointerValue {
    U8(u8),
    U16(u16),
    U32(u32),
    U64(u64),
    I8(i8),
    I16(i16),
    I32(i32),
    I64(i64),
    F32(u32),
    F64(u64),
    Str,
}

/// The kind a value belongs to.
pub open spec fn kind_of_value(v: PointerValue) -> PointerKind {
    match v {
        PointerValue::U8(_) => PointerKind::U8,
        PointerValue::U16(_) => PointerKind::U16,
        PointerValue::U32(_) => PointerKind::U32,
        PointerValue::U64(_) => PointerKind::U64,
        PointerValue::I8(_) => PointerKind::I8,
        PointerValue::I16(_) => PointerKind::I16,
        PointerValue::I32(_) => PointerKind::I32,
        PointerValue::I64(_) => PointerKind::I64,
        PointerValue::F32(_) => PointerKind::F32,
        PointerValue::F64(_) => PointerKind::F64,
        PointerValue::Str => PointerKind::Str,
    }
}

/// The zero value of a kind, used to initialise both slots of a new path.
pub open spec fn zero_of_kind(k: PointerKind) -> PointerValue {
    match k {
        PointerKind::U8 => PointerValue::U8(0),
        PointerKind::U16 => PointerValue::U16(0),
        PointerKind::U32 => PointerValue::U32(0),
        PointerKind::U64 => PointerValue::U64(0),
        PointerKind::I8 => PointerValue::I8(0),
        PointerKind::I16 => PointerValue::I16(0),
        PointerKind::I32 => PointerValue::I32(0),
        PointerKind::I64 => PointerValue::I64(0),
        PointerKind::F32 => PointerValue::F32(0),
        PointerKind::F64 => PointerValue::F64(0),
        PointerKind::Str => PointerValue::Str,
    }
}

impl PointerValue {
    /// The kind this value belongs to.
    pub fn kind(&self) -> (k: PointerKind)
        ensures
            k == kind_of_value(*self),
    {
        match self {
            PointerValue::U8(_) => PointerKind::U8,
            PointerValue::U16(_) => PointerKind::U16,
            PointerValue::U32(_) => PointerKind::U32,
            PointerValue::U64(_) => PointerKind::U64,
            PointerValue::I8(_) => PointerKind::I8,
            PointerValue::I16(_) => PointerKind::I16,
            PointerValue::I32(_) => PointerKind::I32,
            PointerValue::I64(_) => PointerKind::I64,
            PointerValue::F32(_) => PointerKind::F32,
            PointerValue::F64(_) => PointerKind::F64,
            PointerValue::Str => PointerKind::Str,
        }
    }

    /// The zero value of `kind`.
    pub fn zero_of(kind: PointerKind) -> (v: PointerValue)
        ensures
            v == zero_of_kind(kind),
    {
        match kind {
            PointerKind::U8 => PointerValue::U8(0),
            PointerKind::U16 => PointerValue::U16(0),
            PointerKind::U32 => PointerValue::U32(0),
            PointerKind::U64 => PointerValue::U64(0),
            PointerKind::I8 => PointerValue::I8(0),
            PointerKind::I16 => PointerValue::I16(0),
            PointerKind::I32 => PointerValue::I32(0),
            PointerKind::I64 => PointerValue::I64(0),
            PointerKind::F32 => PointerValue::F32(0),
            PointerKind::F64 => PointerValue::F64(0),
            PointerKind::Str => PointerValue::Str,
        }
    }
}

/// Two's-complement reinterpretation of unsigned bits as a signed value.
pub open spec fn sign8(u: u8) -> i8 {
    if u < 0x80 {
        u as i8
    } else {
        (u - 0x100) as i8
    }
}

/// Two's-complement reinterpretation of unsigned bits as a signed value.
pub open spec fn sign16(u: u16) -> i16 {
    if u < 0x8000 {
        u as i16
    } else {
        (u - 0x1_0000) as i16
    }
}

/// Two's-complement reinterpretation of unsigned bits as a signed value.
pub open spec fn sign32(u: u32) -> i32 {
    if u < 0x8000_0000 {
        u as i32
    } else {
        (u - 0x1_0000_0000) as i32
    }
}

/// Two's-complement reinterpretation of unsigned bits as a signed value.
pub open spec fn sign64(u: u64) -> i64 {
    if u < 0x8000_0000_0000_0000 {
        u as i64
    } else {
        (u - 0x1_0000_0000_0000_0000) as i64
    }
}

/// Reinterprets little-endian unsigned bits as a signed byte.
pub fn sign8_exec(u: u8) -> (r: i8)
    ensures
        r == sign8(u),
{
    if u < 0x80 {
        u as i8
    } else {
        (u as i16 - 0x100) as i8
    }
}

/// Reinterprets little-endian unsigned bits as a signed 16-bit value.
pub fn sign16_exec(u: u16) -> (r: i16)
    ensures
        r == sign16(u),
{
    if u < 0x8000 {
        u as i16
    } else {
        (u as i32 - 0x1_0000) as i16
    }
}

/// Reinterprets little-endian unsigned bits as a signed 32-bit value.
pub fn sign32_exec(u: u32) -> (r: i32)
    ensures
        r == sign32(u),
{
    if u < 0x8000_0000 {
        u as i32
    } else {
        (u as i64 - 0x1_0000_0000) as i32
    }
}

/// Reinterprets little-endian unsigned bits as a signed 64-bit value.
pub fn sign64_exec(u: u64) -> (r: i64)
    ensures
        r == sign64(u),
{
    if u < 0x8000_0000_0000_0000 {
        u as i64
    } else {
        (u as i128 - 0x1_0000_0000_0000_0000) as i64
    }
}

/// Little-endian decoding of a leaf value of `kind` from its raw bytes.
pub open spec fn spec_decode(kind: PointerKind, s: Seq<u8>) -> PointerValue {
    match kind {
        PointerKind::U8 => PointerValue::U8(s[0]),
        PointerKind::U16 => PointerValue::U16(vstd::bytes::spec_u16_from_le_bytes(s)),
        PointerKind::U32 => PointerValue::U32(vstd::bytes::spec_u32_from_le_bytes(s)),
        PointerKind::U64 => PointerValue::U64(vstd::bytes::spec_u64_from_le_bytes(s)),
        PointerKind::I8 => PointerValue::I8(sign8(s[0])),
        PointerKind::I16 => PointerValue::I16(sign16(vstd::bytes::spec_u16_from_le_bytes(s))),
        PointerKind::I32 => PointerValue::I32(sign32(vstd::bytes::spec_u32_from_le_bytes(s))),
        PointerKind::I64 => PointerValue::I64(sign64(vstd::bytes::spec_u64_from_le_bytes(s))),
        PointerKind::F32 => PointerValue::F32(vstd::bytes::spec_u32_from_le_bytes(s)),
        PointerKind::F64 => PointerValue::F64(vstd::bytes::spec_u64_from_le_bytes(s)),
        PointerKind::Str => PointerValue::Str,
    }
}

/// Decodes a leaf value of `kind` from its raw little-endian bytes.
/// The reserved string kind cannot be decoded.
pub fn decode_value(kind: PointerKind, bytes: &[u8]) -> (v: PointerValue)
    requires
        kind != PointerKind::Str,
        bytes@.len() == size_of_kind(kind),
    ensures
        v == spec_decode(kind, bytes@),
        kind_of_value(v) == kind,
{
    match kind {
        PointerKind::U8 => PointerValue::U8(bytes[0]),
        PointerKind::U16 => PointerValue::U16(vstd::bytes::u16_from_le_bytes(bytes)),
        PointerKind::U32 => PointerValue::U32(vstd::bytes::u32_from_le_bytes(bytes)),
        PointerKind::U64 => PointerValue::U64(vstd::bytes::u64_from_le_bytes(bytes)),
        PointerKind::I8 => PointerValue::I8(sign8_exec(bytes[0])),
        PointerKind::I16 => PointerValue::I16(sign16_exec(vstd::bytes::u16_from_le_bytes(bytes))),
        PointerKind::I32 => PointerValue::I32(sign32_exec(vstd::bytes::u32_from_le_bytes(bytes))),
        PointerKind::I64 => PointerValue::I64(sign64_exec(vstd::bytes::u64_from_le_bytes(bytes))),
        PointerKind::F32 => PointerValue::F32(vstd::bytes::u32_from_le_bytes(bytes)),
        PointerKind::F64 => PointerValue::F64(vstd::bytes::u64_from_le_bytes(bytes)),
        PointerKind::Str => PointerValue::Str,
    }
}

} // verus!

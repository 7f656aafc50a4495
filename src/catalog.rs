//! The fixed-layout catalog record that target firmware plants in memory to
//! describe one variable, and its parser.
//!
//! Layout, little-endian throughout (74 bytes):
//! magic (4), address (4), type code (1), access code (1), reserved (2),
//! min as f32 bits (4), max as f32 bits (4), name field (32), category field
//! (the remaining 22 bytes of the record). Text fields end at their first zero
//! byte, or at the end of the field when it holds none.
use vstd::prelude::*;
use vstd::utf8::{decode_utf8, valid_utf8};
use crate::codec::{le_u32, type_of_code, u32_at, VarType};

verus! {

/// The tag that opens every catalog record ("MCLK" read little-endian).
pub const MCULINK_MAGIC: u32 = 0x4D434C4B;

/// Size in bytes of one catalog record.
pub const RECORD_LEN: usize = 74;

/// Offset and length of the name field.
pub const NAME_AT: usize = 20;
pub const NAME_LEN: usize = 32;

/// Offset and length of the category field.
pub const CATEGORY_AT: usize = 52;
pub const CATEGORY_LEN: usize = 22;

/// Whether a variable may be written from the host.
#[derive(Debug, Clone, Copy, PartialEq, Eq, Structural)]
pub enum Access {
    ReadOnly,
    ReadWrite,
}

/// The access mode whose record code is `c`, if any.
pub open spec fn access_of_code(c: u8) -> Option<Access> {
    if c == 0 {
        Some(Access::ReadOnly)
    } else if c == 1 {
        Some(Access::ReadWrite)
    } else {
        None
    }
}

impl Access {
    pub open spec fn spec_name(self) -> Seq<char> {
        match self {
            Access::ReadOnly => "RO"@,
            Access::ReadWrite => "RW"@,
        }
    }

    pub fn from_code(c: u8) -> (r: Option<Access>)
        ensures
            r == access_of_code(c),
    {
        match c {
            0 => Some(Access::ReadOnly),
            1 => Some(Access::ReadWrite),
            _ => None,
        }
    }

    /// The textual tag of this mode at the API boundary.
    pub fn name(&self) -> (r: &'static str)
        ensures
            r@ == self.spec_name(),
    {
        match self {
            Access::ReadOnly => "RO",
            Access::ReadWrite => "RW",
        }
    }
}

/// Why a catalog record, or a whole scan, was rejected.
#[derive(Debug, Clone, Copy, PartialEq, Eq, Structural)]
pub enum CatalogError {
    /// Fewer bytes than a record holds.
    Truncated,
    /// The record does not open with the magic tag.
    InvalidMagic,
    /// The type code is not one of the seven known codes.
    InvalidType(u8),
    /// The access code is neither read-only nor read-write.
    InvalidAccess(u8),
    /// A text field is not valid UTF-8.
    InvalidText,
    /// A scan found no valid record in its window.
    NoCatalogFound,
}

/// A named, typed variable described by a catalog record.
#[derive(Debug, Clone)]
pub struct VariableInfo {
    pub name: String,
    pub address: u32,
    pub var_type: VarType,
    pub access_flags: Access,
    pub category: Option<String>,
    /// Bit pattern of the single-precision lower bound.
    pub min_bits: u32,
    /// Bit pattern of the single-precision upper bound.
    pub max_bits: u32,
}

/// Index of the first zero byte of `f` at or after `i`, or `f.len()` if none.
pub open spec fn text_end_from(f: Seq<u8>, i: int) -> int
    decreases f.len() - i,
{
    if i >= f.len() {
        f.len() as int
    } else if f[i] == 0 {
        i
    } else {
        text_end_from(f, i + 1)
    }
}

/// The bytes of a zero-terminated text field: up to its first zero byte, or
/// the whole field.
pub open spec fn text_of(f: Seq<u8>) -> Seq<u8> {
    f.subrange(0, text_end_from(f, 0))
}

/// The field of `len` bytes at `at` in `b`.
pub open spec fn field(b: Seq<u8>, at: int, len: int) -> Seq<u8> {
    b.subrange(at, at + len)
}

/// The first check that the record bytes `b` fail, if any.
pub open spec fn record_error(b: Seq<u8>) -> Option<CatalogError> {
    if b.len() < RECORD_LEN {
        Some(CatalogError::Truncated)
    } else if le_u32(b.subrange(0, 4)) != MCULINK_MAGIC {
        Some(CatalogError::InvalidMagic)
    } else if type_of_code(b[8]) is None {
        Some(CatalogError::InvalidType(b[8]))
    } else if access_of_code(b[9]) is None {
        Some(CatalogError::InvalidAccess(b[9]))
    } else if !valid_utf8(text_of(field(b, NAME_AT as int, NAME_LEN as int))) || !valid_utf8(
        text_of(field(b, CATEGORY_AT as int, CATEGORY_LEN as int)),
    ) {
        Some(CatalogError::InvalidText)
    } else {
        None
    }
}

impl VariableInfo {
    /// This descriptor is the one that the valid record `b` describes.
    pub open spec fn describes(self, b: Seq<u8>) -> bool {
        let name = text_of(field(b, NAME_AT as int, NAME_LEN as int));
        let category = text_of(field(b, CATEGORY_AT as int, CATEGORY_LEN as int));
        &&& self.name@ == decode_utf8(name)
        &&& self.address == le_u32(b.subrange(4, 8))
        &&& type_of_code(b[8]) == Some(self.var_type)
        &&& access_of_code(b[9]) == Some(self.access_flags)
        &&& self.min_bits == le_u32(b.subrange(12, 16))
        &&& self.max_bits == le_u32(b.subrange(16, 20))
        &&& (category.len() == 0 ==> self.category is None)
        &&& (category.len() > 0 ==> (self.category matches Some(c) && c@ == decode_utf8(category)))
    }
}

/// Relies on String::from_utf8: it accepts exactly the valid UTF-8 byte
/// sequences and keeps the characters they encode.
#[verifier::external_body]
fn string_from_utf8(bytes: Vec<u8>) -> (r: Option<String>)
    ensures
        r is Some <==> valid_utf8(bytes@),
        r matches Some(s) ==> s@ == decode_utf8(bytes@),
{
    String::from_utf8(bytes).ok()
}

/// The text of the zero-terminated field of `len` bytes at `at` in `b`, as a
/// byte sequence.
fn text_bytes_at(b: &[u8], at: usize, len: usize) -> (r: Vec<u8>)
    requires
        at + len <= b@.len(),
    ensures
        r@ == text_of(field(b@, at as int, len as int)),
{
    let ghost f = field(b@, at as int, len as int);
    let mut out: Vec<u8> = Vec::new();
    let n = b.len();
    let mut i: usize = 0;
    while i < len && b[at + i] != 0
        invariant
            n == b@.len(),
            at + len <= n,
            f == field(b@, at as int, len as int),
            i <= len,
            out@ == f.subrange(0, i as int),
            text_end_from(f, i as int) == text_end_from(f, 0),
        decreases len - i,
    {
        out.push(b[at + i]);
        i = i + 1;
        assert(out@ =~= f.subrange(0, i as int));
    }
    out
}

/// The text of the zero-terminated field of `len` bytes at `at` in `b`.
fn text_at(b: &[u8], at: usize, len: usize) -> (r: Result<String, CatalogError>)
    requires
        at + len <= b@.len(),
    ensures
        r is Ok <==> valid_utf8(text_of(field(b@, at as int, len as int))),
        r matches Ok(s) ==> s@ == decode_utf8(text_of(field(b@, at as int, len as int))),
        r matches Err(e) ==> e == CatalogError::InvalidText,
{
    match string_from_utf8(text_bytes_at(b, at, len)) {
        Some(s) => Ok(s),
        None => Err(CatalogError::InvalidText),
    }
}

/// The text of a zero-terminated field: its bytes up to the first zero byte,
/// or all of them when none is zero. Fails with `InvalidText` when those bytes
/// are not valid UTF-8.
pub fn extract_cstring(bytes: &[u8]) -> (r: Result<String, CatalogError>)
    ensures
        r is Ok <==> valid_utf8(text_of(bytes@)),
        r matches Ok(s) ==> s@ == decode_utf8(text_of(bytes@)),
        r matches Err(e) ==> e == CatalogError::InvalidText,
{
    assert(field(bytes@, 0, bytes@.len() as int) =~= bytes@);
    text_at(bytes, 0, bytes.len())
}

/// Parses one catalog record from its bytes (extra bytes past the record are
/// ignored). The checks run in order: length, magic, type code, access code,
/// text fields; the first that fails gives the error.
pub fn parse_record(bytes: &[u8]) -> (r: Result<VariableInfo, CatalogError>)
    ensures
        r is Err <==> record_error(bytes@) is Some,
        r matches Err(e) ==> record_error(bytes@) == Some(e),
        r matches Ok(v) ==> v.describes(bytes@),
{
    if bytes.len() < RECORD_LEN {
        return Err(CatalogError::Truncated);
    }
    if u32_at(bytes, 0) != MCULINK_MAGIC {
        return Err(CatalogError::InvalidMagic);
    }
    let var_type = match VarType::from_code(bytes[8]) {
        Some(t) => t,
        None => return Err(CatalogError::InvalidType(bytes[8])),
    };
    let access_flags = match Access::from_code(bytes[9]) {
        Some(a) => a,
        None => return Err(CatalogError::InvalidAccess(bytes[9])),
    };
    let name = text_at(bytes, NAME_AT, NAME_LEN)?;
    let category_bytes = text_bytes_at(bytes, CATEGORY_AT, CATEGORY_LEN);
    let category = if category_bytes.len() == 0 {
        None
    } else {
        match string_from_utf8(category_bytes) {
            Some(c) => Some(c),
            None => return Err(CatalogError::InvalidText),
        }
    };
    proof {
        if category_bytes@.len() == 0 {
            // the empty sequence is valid UTF-8
            assert(valid_utf8(category_bytes@));
        }
    }
    Ok(
        VariableInfo {
            name,
            address: u32_at(bytes, 4),
            var_type,
            access_flags,
            category,
            min_bits: u32_at(bytes, 12),
            max_bits: u32_at(bytes, 16),
        },
    )
}

} // verus!

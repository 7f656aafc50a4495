//! Little-endian encoding and decoding of the seven primitive variable types.
//!
//! Values are held exactly: integers in their own width and single-precision
//! floats as their IEEE-754 bit pattern, so that no floating-point arithmetic
//! is needed to move a value between memory and the host.
use vstd::prelude::*;
use vstd::string::StrSliceExecFns;

verus! {

/// The primitive type of a target variable.
#[derive(Debug, Clone, Copy, PartialEq, Eq, Structural)]
pub enum VarType {
    Uint8,
    Int8,
    Uint16,
    Int16,
    Uint32,
    Int32,
    Float,
}

/// A value of one of the primitive types; `F32` holds the bit pattern of a
/// single-precision float.
#[derive(Debug, Clone, Copy, PartialEq, Eq, Structural)]
pub enum TypedValue {
    U8(u8),
    I8(i8),
    U16(u16),
    I16(i16),
    U32(u32),
    I32(i32),
    F32(u32),
}

/// The type whose wire code is `c`, if any.
pub open spec fn type_of_code(c: u8) -> Option<VarType> {
    if c == 0 {
        Some(VarType::Uint8)
    } else if c == 1 {
        Some(VarType::Int8)
    } else if c == 2 {
        Some(VarType::Uint16)
    } else if c == 3 {
        Some(VarType::Int16)
    } else if c == 4 {
        Some(VarType::Uint32)
    } else if c == 5 {
        Some(VarType::Int32)
    } else if c == 6 {
        Some(VarType::Float)
    } else {
        None
    }
}

impl VarType {
    /// Number of bytes a value of this type takes in memory and on the wire.
    pub open spec fn spec_width(self) -> nat {
        match self {
            VarType::Uint8 | VarType::Int8 => 1,
            VarType::Uint16 | VarType::Int16 => 2,
            _ => 4,
        }
    }

    /// The one-byte code of this type in catalog records and RTT frames.
    pub open spec fn spec_code(self) -> u8 {
        match self {
            VarType::Uint8 => 0,
            VarType::Int8 => 1,
            VarType::Uint16 => 2,
            VarType::Int16 => 3,
            VarType::Uint32 => 4,
            VarType::Int32 => 5,
            VarType::Float => 6,
        }
    }

    /// The textual tag of this type at the API boundary.
    pub open spec fn spec_name(self) -> Seq<char> {
        match self {
            VarType::Uint8 => "UINT8"@,
            VarType::Int8 => "INT8"@,
            VarType::Uint16 => "UINT16"@,
            VarType::Int16 => "INT16"@,
            VarType::Uint32 => "UINT32"@,
            VarType::Int32 => "INT32"@,
            VarType::Float => "FLOAT"@,
        }
    }

    pub fn width(&self) -> (r: usize)
        ensures
            r == self.spec_width(),
    {
        match self {
            VarType::Uint8 | VarType::Int8 => 1,
            VarType::Uint16 | VarType::Int16 => 2,
            _ => 4,
        }
    }

    pub fn code(&self) -> (r: u8)
        ensures
            r == self.spec_code(),
    {
        match self {
            VarType::Uint8 => 0,
            VarType::Int8 => 1,
            VarType::Uint16 => 2,
            VarType::Int16 => 3,
            VarType::Uint32 => 4,
            VarType::Int32 => 5,
            VarType::Float => 6,
        }
    }

    pub fn from_code(c: u8) -> (r: Option<VarType>)
        ensures
            r == type_of_code(c),
            r matches Some(t) ==> t.spec_code() == c,
    {
        match c {
            0 => Some(VarType::Uint8),
            1 => Some(VarType::Int8),
            2 => Some(VarType::Uint16),
            3 => Some(VarType::Int16),
            4 => Some(VarType::Uint32),
            5 => Some(VarType::Int32),
            6 => Some(VarType::Float),
            _ => None,
        }
    }

    pub fn name(&self) -> (r: &'static str)
        ensures
            r@ == self.spec_name(),
    {
        match self {
            VarType::Uint8 => "UINT8",
            VarType::Int8 => "INT8",
            VarType::Uint16 => "UINT16",
            VarType::Int16 => "INT16",
            VarType::Uint32 => "UINT32",
            VarType::Int32 => "INT32",
            VarType::Float => "FLOAT",
        }
    }

    /// The type whose textual tag is `s`; `None` for an unsupported tag.
    pub fn from_name(s: &str) -> (r: Option<VarType>)
        ensures
            r matches Some(t) ==> t.spec_name() == s@,
            r is None ==> forall|t: VarType| t.spec_name() != s@,
    {
        if str_eq(s, "UINT8") {
            Some(VarType::Uint8)
        } else if str_eq(s, "INT8") {
            Some(VarType::Int8)
        } else if str_eq(s, "UINT16") {
            Some(VarType::Uint16)
        } else if str_eq(s, "INT16") {
            Some(VarType::Int16)
        } else if str_eq(s, "UINT32") {
            Some(VarType::Uint32)
        } else if str_eq(s, "INT32") {
            Some(VarType::Int32)
        } else if str_eq(s, "FLOAT") {
            Some(VarType::Float)
        } else {
            None
        }
    }
}

/// Character-wise equality of two strings.
fn str_eq(a: &str, b: &str) -> (r: bool)
    ensures
        r == (a@ == b@),
{
    let n = a.unicode_len();
    if n != b.unicode_len() {
        return false;
    }
    let mut i: usize = 0;
    while i < n
        invariant
            n == a@.len(),
            n == b@.len(),
            i <= n,
            forall|j: int| 0 <= j < i ==> a@[j] == b@[j],
        decreases n - i,
    {
        if a.get_char(i) != b.get_char(i) {
            return false;
        }
        i = i + 1;
    }
    assert(a@ =~= b@);
    true
}

/// The unsigned integer that two little-endian bytes encode.
pub open spec fn le_u16(b: Seq<u8>) -> int {
    b[0] + 256 * b[1]
}

/// The unsigned integer that four little-endian bytes encode.
pub open spec fn le_u32(b: Seq<u8>) -> int {
    b[0] + 256 * b[1] + 65536 * b[2] + 16777216 * b[3]
}

/// The two low little-endian bytes of `n`.
pub open spec fn le2(n: int) -> Seq<u8> {
    seq![(n % 256) as u8, (n / 256 % 256) as u8]
}

/// The four low little-endian bytes of `n`.
pub open spec fn le4(n: int) -> Seq<u8> {
    seq![(n % 256) as u8, (n / 256 % 256) as u8, (n / 65536 % 256) as u8, (n / 16777216 % 256) as u8]
}

/// The signed reading of an unsigned `bits`-wide pattern `u`.
pub open spec fn signed(u: int, half: int) -> int {
    if u >= half {
        u - 2 * half
    } else {
        u
    }
}

/// The value that the first bytes of `b` hold as a `ty`.
pub open spec fn decode_spec(ty: VarType, b: Seq<u8>) -> TypedValue {
    match ty {
        VarType::Uint8 => TypedValue::U8(b[0]),
        VarType::Int8 => TypedValue::I8(signed(b[0] as int, 128) as i8),
        VarType::Uint16 => TypedValue::U16(le_u16(b) as u16),
        VarType::Int16 => TypedValue::I16(signed(le_u16(b), 32768) as i16),
        VarType::Uint32 => TypedValue::U32(le_u32(b) as u32),
        VarType::Int32 => TypedValue::I32(signed(le_u32(b), 0x8000_0000) as i32),
        VarType::Float => TypedValue::F32(le_u32(b) as u32),
    }
}

impl TypedValue {
    pub open spec fn spec_type(self) -> VarType {
        match self {
            TypedValue::U8(_) => VarType::Uint8,
            TypedValue::I8(_) => VarType::Int8,
            TypedValue::U16(_) => VarType::Uint16,
            TypedValue::I16(_) => VarType::Int16,
            TypedValue::U32(_) => VarType::Uint32,
            TypedValue::I32(_) => VarType::Int32,
            TypedValue::F32(_) => VarType::Float,
        }
    }

    /// The value's bit pattern read as an unsigned integer of its width.
    pub open spec fn pattern(self) -> int {
        match self {
            TypedValue::U8(x) => x as int,
            TypedValue::I8(x) => if x < 0 { x + 256 } else { x as int },
            TypedValue::U16(x) => x as int,
            TypedValue::I16(x) => if x < 0 { x + 65536 } else { x as int },
            TypedValue::U32(x) => x as int,
            TypedValue::I32(x) => if x < 0 { x + 0x1_0000_0000 } else { x as int },
            TypedValue::F32(x) => x as int,
        }
    }

    /// The little-endian bytes of the value, exactly its type's width.
    pub open spec fn spec_bytes(self) -> Seq<u8> {
        let w = self.spec_type().spec_width();
        if w == 1 {
            seq![self.pattern() as u8]
        } else if w == 2 {
            le2(self.pattern())
        } else {
            le4(self.pattern())
        }
    }

    pub fn var_type(&self) -> (r: VarType)
        ensures
            r == self.spec_type(),
    {
        match self {
            TypedValue::U8(_) => VarType::Uint8,
            TypedValue::I8(_) => VarType::Int8,
            TypedValue::U16(_) => VarType::Uint16,
            TypedValue::I16(_) => VarType::Int16,
            TypedValue::U32(_) => VarType::Uint32,
            TypedValue::I32(_) => VarType::Int32,
            TypedValue::F32(_) => VarType::Float,
        }
    }
}

fn u16_at(b: &[u8], i: usize) -> (r: u16)
    requires
        i + 2 <= b@.len(),
    ensures
        r == le_u16(b@.subrange(i as int, i + 2)),
{
    b[i] as u16 + (b[i + 1] as u16) * 256
}

/// The unsigned integer that the four little-endian bytes at `i` encode.
pub fn u32_at(b: &[u8], i: usize) -> (r: u32)
    requires
        i + 4 <= b@.len(),
    ensures
        r == le_u32(b@.subrange(i as int, i + 4)),
{
    b[i] as u32 + (b[i + 1] as u32) * 256 + (b[i + 2] as u32) * 65536 + (b[i + 3] as u32)
        * 16777216
}

/// Reads a `ty` from the first bytes of `bytes`; `None` when there are fewer
/// bytes than the type's width. Bytes beyond the width are ignored.
pub fn decode(ty: VarType, bytes: &[u8]) -> (r: Option<TypedValue>)
    ensures
        r is Some <==> bytes@.len() >= ty.spec_width(),
        r matches Some(v) ==> v == decode_spec(ty, bytes@) && v.spec_type() == ty,
{
    if bytes.len() < ty.width() {
        return None;
    }
    let v = match ty {
        VarType::Uint8 => TypedValue::U8(bytes[0]),
        VarType::Int8 => {
            let u = bytes[0];
            TypedValue::I8(
                if u >= 128 {
                    (u as i16 - 256) as i8
                } else {
                    u as i8
                },
            )
        },
        VarType::Uint16 => TypedValue::U16(u16_at(bytes, 0)),
        VarType::Int16 => {
            let u = u16_at(bytes, 0);
            TypedValue::I16(
                if u >= 32768 {
                    (u as i32 - 65536) as i16
                } else {
                    u as i16
                },
            )
        },
        VarType::Uint32 => TypedValue::U32(u32_at(bytes, 0)),
        VarType::Int32 => {
            let u = u32_at(bytes, 0);
            TypedValue::I32(
                if u >= 0x8000_0000 {
                    (u as i64 - 0x1_0000_0000) as i32
                } else {
                    u as i32
                },
            )
        },
        VarType::Float => TypedValue::F32(u32_at(bytes, 0)),
    };
    proof {
        if ty.spec_width() >= 2 {
            assert(bytes@.subrange(0, 2) =~= seq![bytes@[0], bytes@[1]]);
        }
        if ty.spec_width() == 4 {
            assert(bytes@.subrange(0, 4) =~= seq![bytes@[0], bytes@[1], bytes@[2], bytes@[3]]);
        }
    }
    Some(v)
}

/// Appends the little-endian bytes of `v`, exactly its type's width, to `out`.
pub fn encode_into(v: TypedValue, out: &mut Vec<u8>)
    ensures
        final(out)@ == old(out)@ + v.spec_bytes(),
{
    let u: u32 = match v {
        TypedValue::U8(x) => x as u32,
        TypedValue::I8(x) => if x < 0 { (x as i32 + 256) as u32 } else { x as u32 },
        TypedValue::U16(x) => x as u32,
        TypedValue::I16(x) => if x < 0 { (x as i32 + 65536) as u32 } else { x as u32 },
        TypedValue::U32(x) => x,
        TypedValue::I32(x) => if x < 0 { (x as i64 + 0x1_0000_0000) as u32 } else { x as u32 },
        TypedValue::F32(x) => x,
    };
    assert(u == v.pattern());
    let w = v.var_type().width();
    out.push((u % 256) as u8);
    if w >= 2 {
        out.push((u / 256 % 256) as u8);
    }
    if w == 4 {
        out.push((u / 65536 % 256) as u8);
        out.push((u / 16777216 % 256) as u8);
    }
    assert(final(out)@ =~= old(out)@ + v.spec_bytes());
}

/// The little-endian bytes of `v`, exactly its type's width.
pub fn encode(v: TypedValue) -> (r: Vec<u8>)
    ensures
        r@ == v.spec_bytes(),
        r@.len() == v.spec_type().spec_width(),
{
    let mut out: Vec<u8> = Vec::new();
    encode_into(v, &mut out);
    assert(out@ =~= v.spec_bytes());
    out
}

proof fn lemma_le2_inverse(n: int)
    requires
        0 <= n < 65536,
    ensures
        le_u16(le2(n)) == n,
{
    let b = le2(n);
    assert(b[0] == n % 256);
    assert(b[1] == n / 256 % 256);
    assert(n % 256 + 256 * (n / 256 % 256) == n) by (nonlinear_arith)
        requires
            0 <= n < 65536,
    ;
}

proof fn lemma_le4_inverse(n: int)
    requires
        0 <= n < 0x1_0000_0000,
    ensures
        le_u32(le4(n)) == n,
{
    let b = le4(n);
    assert(b[0] == n % 256);
    assert(b[1] == n / 256 % 256);
    assert(b[2] == n / 65536 % 256);
    assert(b[3] == n / 16777216 % 256);
    let q1 = n / 256;
    let q2 = q1 / 256;
    let q3 = q2 / 256;
    assert(n == 256 * q1 + n % 256) by (nonlinear_arith)
        requires
            q1 == n / 256,
    ;
    assert(q1 == 256 * q2 + q1 % 256) by (nonlinear_arith)
        requires
            q2 == q1 / 256,
    ;
    assert(q2 == 256 * q3 + q2 % 256) by (nonlinear_arith)
        requires
            q3 == q2 / 256,
    ;
    assert(q2 == n / 65536) by (nonlinear_arith)
        requires
            q1 == n / 256,
            q2 == q1 / 256,
            n >= 0,
    ;
    assert(q3 == n / 16777216) by (nonlinear_arith)
        requires
            q2 == n / 65536,
            q3 == q2 / 256,
            n >= 0,
    ;
    assert(q3 < 256);
}

/// Decoding the bytes that encode a value gives that value back, for every
/// value of every type.
pub proof fn lemma_codec_round_trip(v: TypedValue)
    ensures
        decode_spec(v.spec_type(), v.spec_bytes()) == v,
        v.spec_bytes().len() == v.spec_type().spec_width(),
{
    match v {
        TypedValue::U8(x) => {},
        TypedValue::I8(x) => {},
        TypedValue::U16(x) => lemma_le2_inverse(v.pattern()),
        TypedValue::I16(x) => lemma_le2_inverse(v.pattern()),
        TypedValue::U32(x) => lemma_le4_inverse(v.pattern()),
        TypedValue::I32(x) => lemma_le4_inverse(v.pattern()),
        TypedValue::F32(x) => lemma_le4_inverse(v.pattern()),
    }
}

} // verus!

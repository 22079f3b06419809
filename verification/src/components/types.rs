//! Value types, attributes (visibility classes) and literal values.
//!
//! A plaintext type is either one of sixteen primitive kinds, decoded from a
//! 16-bit tag, or a user-defined type named by an identifier.  A literal is
//! a typed value whose payload width is fixed by its 16-bit kind tag; the
//! `group` kind has no literal encoding and decoding it is an `UnknownTag`
//! error.

use vstd::prelude::*;

use crate::bytecode::{
    spec_read_i128, spec_read_i16, spec_read_i32, spec_read_i64, spec_read_i8, spec_read_n,
    spec_read_u128, spec_read_u16, spec_read_u32, spec_read_u64, spec_read_u8,
};
use crate::bytecode::ByteCode;
use crate::error::{spec_err, DecodeError, DecodeErrorKind};
use crate::text::{
    spec_bool_text, spec_dec_int, spec_dec_nat, spec_hex, spec_hex_rev, bool_str, dec_i128,
    dec_u128, hex_bytes, hex_bytes_rev,
};
use crate::util::{spec_read_identifier, read_identifier};
use vstd::string::StringExecFns;

verus! {

/// A value type: one of sixteen primitive kinds, or a user-defined
/// struct or record type named by an identifier.
#[derive(Debug, Clone)]
pub enum Type {
    /// The address type.
    Address,
    /// The boolean type.
    Boolean,
    /// The field type (base field element).
    Field,
    /// The group type (affine group element).
    Group,
    /// The 8-bit signed integer type.
    I8,
    /// The 16-bit signed integer type.
    I16,
    /// The 32-bit signed integer type.
    I32,
    /// The 64-bit signed integer type.
    I64,
    /// The 128-bit signed integer type.
    I128,
    /// The 8-bit unsigned integer type.
    U8,
    /// The 16-bit unsigned integer type.
    U16,
    /// The 32-bit unsigned integer type.
    U32,
    /// The 64-bit unsigned integer type.
    U64,
    /// The 128-bit unsigned integer type.
    U128,
    /// The scalar type.
    Scalar,
    /// The string type.
    String,
    /// A user-defined type.
    Other(String),
}

/// The spec-level value of a `Type`.
pub enum TypeV {
    Address,
    Boolean,
    Field,
    Group,
    I8,
    I16,
    I32,
    I64,
    I128,
    U8,
    U16,
    U32,
    U64,
    U128,
    Scalar,
    String,
    Other(Seq<char>),
}

impl View for Type {
    type V = TypeV;

    open spec fn view(&self) -> TypeV {
        match self {
            Type::Address => TypeV::Address,
            Type::Boolean => TypeV::Boolean,
            Type::Field => TypeV::Field,
            Type::Group => TypeV::Group,
            Type::I8 => TypeV::I8,
            Type::I16 => TypeV::I16,
            Type::I32 => TypeV::I32,
            Type::I64 => TypeV::I64,
            Type::I128 => TypeV::I128,
            Type::U8 => TypeV::U8,
            Type::U16 => TypeV::U16,
            Type::U32 => TypeV::U32,
            Type::U64 => TypeV::U64,
            Type::U128 => TypeV::U128,
            Type::Scalar => TypeV::Scalar,
            Type::String => TypeV::String,
            Type::Other(s) => TypeV::Other(s@),
        }
    }
}

/// A visibility or storage class.
#[derive(Debug, Clone, Copy, PartialEq, Eq, Structural)]
pub enum Attribute {
    Constant,
    Public,
    Private,
    Record,
    ExternalRecord,
}

/// A literal value with its fixed-width payload.
#[derive(Debug)]
pub enum Literal {
    /// A 32-byte address payload.
    Address(Vec<u8>),
    /// A one-byte boolean (zero is false, anything else true).
    Boolean(bool),
    /// A 32-byte base-field payload, encoded in reverse of display order.
    Field(Vec<u8>),
    I8(i8),
    I16(i16),
    I32(i32),
    I64(i64),
    I128(i128),
    U8(u8),
    U16(u16),
    U32(u32),
    U64(u64),
    U128(u128),
    /// A 32-byte scalar payload, encoded in reverse of display order.
    Scalar(Vec<u8>),
}

/// The spec-level value of a `Literal`.
pub enum LiteralV {
    Address(Seq<u8>),
    Boolean(bool),
    Field(Seq<u8>),
    I8(i8),
    I16(i16),
    I32(i32),
    I64(i64),
    I128(i128),
    U8(u8),
    U16(u16),
    U32(u32),
    U64(u64),
    U128(u128),
    Scalar(Seq<u8>),
}

impl View for Literal {
    type V = LiteralV;

    open spec fn view(&self) -> LiteralV {
        match self {
            Literal::Address(v) => LiteralV::Address(v@),
            Literal::Boolean(b) => LiteralV::Boolean(*b),
            Literal::Field(v) => LiteralV::Field(v@),
            Literal::I8(i) => LiteralV::I8(*i),
            Literal::I16(i) => LiteralV::I16(*i),
            Literal::I32(i) => LiteralV::I32(*i),
            Literal::I64(i) => LiteralV::I64(*i),
            Literal::I128(i) => LiteralV::I128(*i),
            Literal::U8(u) => LiteralV::U8(*u),
            Literal::U16(u) => LiteralV::U16(*u),
            Literal::U32(u) => LiteralV::U32(*u),
            Literal::U64(u) => LiteralV::U64(*u),
            Literal::U128(u) => LiteralV::U128(*u),
            Literal::Scalar(v) => LiteralV::Scalar(v@),
        }
    }
}

/// The primitive type selected by a 16-bit tag, if the tag is in range.
pub open spec fn spec_type_of_tag(v: u16) -> Option<TypeV> {
    if v == 0 {
        Some(TypeV::Address)
    } else if v == 1 {
        Some(TypeV::Boolean)
    } else if v == 2 {
        Some(TypeV::Field)
    } else if v == 3 {
        Some(TypeV::Group)
    } else if v == 4 {
        Some(TypeV::I8)
    } else if v == 5 {
        Some(TypeV::I16)
    } else if v == 6 {
        Some(TypeV::I32)
    } else if v == 7 {
        Some(TypeV::I64)
    } else if v == 8 {
        Some(TypeV::I128)
    } else if v == 9 {
        Some(TypeV::U8)
    } else if v == 10 {
        Some(TypeV::U16)
    } else if v == 11 {
        Some(TypeV::U32)
    } else if v == 12 {
        Some(TypeV::U64)
    } else if v == 13 {
        Some(TypeV::U128)
    } else if v == 14 {
        Some(TypeV::Scalar)
    } else if v == 15 {
        Some(TypeV::String)
    } else {
        None
    }
}

/// The attribute selected by an 8-bit tag, if the tag is in range.
pub open spec fn spec_attribute_of_tag(v: u8) -> Option<Attribute> {
    if v == 0 {
        Some(Attribute::Constant)
    } else if v == 1 {
        Some(Attribute::Public)
    } else if v == 2 {
        Some(Attribute::Private)
    } else if v == 3 {
        Some(Attribute::Record)
    } else if v == 4 {
        Some(Attribute::ExternalRecord)
    } else {
        None
    }
}

/// Reads an attribute tag at `pos`.
pub open spec fn spec_read_attribute(bytes: Seq<u8>, pos: int) -> Result<
    (Attribute, int),
    DecodeError,
> {
    match spec_read_u8(bytes, pos) {
        Ok(tp) => match spec_attribute_of_tag(tp.0) {
            Some(a) => Ok((a, tp.1)),
            None => Err(spec_err(DecodeErrorKind::UnknownTag, pos)),
        },
        Err(e) => Err(e),
    }
}

/// Reads a plaintext type at `pos`: a leading discriminant byte selects a
/// primitive 16-bit type tag (0) or a user-defined type identifier (1).
pub open spec fn spec_read_plaintext_type(bytes: Seq<u8>, pos: int) -> Result<
    (TypeV, int),
    DecodeError,
> {
    match spec_read_u8(bytes, pos) {
        Ok(dp) => if dp.0 == 0 {
            match spec_read_u16(bytes, dp.1) {
                Ok(tp) => match spec_type_of_tag(tp.0) {
                    Some(t) => Ok((t, tp.1)),
                    None => Err(spec_err(DecodeErrorKind::UnknownTag, dp.1)),
                },
                Err(e) => Err(e),
            }
        } else if dp.0 == 1 {
            match spec_read_identifier(bytes, dp.1) {
                Ok(ip) => Ok((TypeV::Other(ip.0), ip.1)),
                Err(e) => Err(e),
            }
        } else {
            Err(spec_err(DecodeErrorKind::UnknownTag, pos))
        },
        Err(e) => Err(e),
    }
}

/// Reads the `(attribute, type)` declaration of a plain function register at
/// `pos`.  Only constant, public and private attributes are supported here;
/// record and external-record attributes are an `UnsupportedConstruct`
/// error.
pub open spec fn spec_read_function_register_type(bytes: Seq<u8>, pos: int) -> Result<
    ((TypeV, Attribute), int),
    DecodeError,
> {
    match spec_read_attribute(bytes, pos) {
        Ok(ap) => match ap.0 {
            Attribute::Constant | Attribute::Public | Attribute::Private => match
                spec_read_plaintext_type(bytes, ap.1) {
                Ok(tp) => Ok(((tp.0, ap.0), tp.1)),
                Err(e) => Err(e),
            },
            _ => Err(spec_err(DecodeErrorKind::UnsupportedConstruct, pos)),
        },
        Err(e) => Err(e),
    }
}

/// Reads a literal at `pos`: a 16-bit kind tag followed by the payload
/// width that the kind fixes.  A `group` tag (3) and any tag above 14 are
/// `UnknownTag` errors.
pub open spec fn spec_read_literal(bytes: Seq<u8>, pos: int) -> Result<
    (LiteralV, int),
    DecodeError,
> {
    match spec_read_u16(bytes, pos) {
        Ok(tp) => {
            let t = tp.0;
            let p = tp.1;
            if t == 0 {
                match spec_read_n(bytes, p, 32) {
                    Ok(vp) => Ok((LiteralV::Address(vp.0), vp.1)),
                    Err(e) => Err(e),
                }
            } else if t == 1 {
                match spec_read_u8(bytes, p) {
                    Ok(vp) => Ok((LiteralV::Boolean(vp.0 != 0), vp.1)),
                    Err(e) => Err(e),
                }
            } else if t == 2 {
                match spec_read_n(bytes, p, 32) {
                    Ok(vp) => Ok((LiteralV::Field(vp.0), vp.1)),
                    Err(e) => Err(e),
                }
            } else if t == 4 {
                match spec_read_i8(bytes, p) {
                    Ok(vp) => Ok((LiteralV::I8(vp.0), vp.1)),
                    Err(e) => Err(e),
                }
            } else if t == 5 {
                match spec_read_i16(bytes, p) {
                    Ok(vp) => Ok((LiteralV::I16(vp.0), vp.1)),
                    Err(e) => Err(e),
                }
            } else if t == 6 {
                match spec_read_i32(bytes, p) {
                    Ok(vp) => Ok((LiteralV::I32(vp.0), vp.1)),
                    Err(e) => Err(e),
                }
            } else if t == 7 {
                match spec_read_i64(bytes, p) {
                    Ok(vp) => Ok((LiteralV::I64(vp.0), vp.1)),
                    Err(e) => Err(e),
                }
            } else if t == 8 {
                match spec_read_i128(bytes, p) {
                    Ok(vp) => Ok((LiteralV::I128(vp.0), vp.1)),
                    Err(e) => Err(e),
                }
            } else if t == 9 {
                match spec_read_u8(bytes, p) {
                    Ok(vp) => Ok((LiteralV::U8(vp.0), vp.1)),
                    Err(e) => Err(e),
                }
            } else if t == 10 {
                match spec_read_u16(bytes, p) {
                    Ok(vp) => Ok((LiteralV::U16(vp.0), vp.1)),
                    Err(e) => Err(e),
                }
            } else if t == 11 {
                match spec_read_u32(bytes, p) {
                    Ok(vp) => Ok((LiteralV::U32(vp.0), vp.1)),
                    Err(e) => Err(e),
                }
            } else if t == 12 {
                match spec_read_u64(bytes, p) {
                    Ok(vp) => Ok((LiteralV::U64(vp.0), vp.1)),
                    Err(e) => Err(e),
                }
            } else if t == 13 {
                match spec_read_u128(bytes, p) {
                    Ok(vp) => Ok((LiteralV::U128(vp.0), vp.1)),
                    Err(e) => Err(e),
                }
            } else if t == 14 {
                match spec_read_n(bytes, p, 32) {
                    Ok(vp) => Ok((LiteralV::Scalar(vp.0), vp.1)),
                    Err(e) => Err(e),
                }
            } else {
                Err(spec_err(DecodeErrorKind::UnknownTag, pos))
            }
        },
        Err(e) => Err(e),
    }
}

/// The value type that a literal carries.
pub open spec fn spec_literal_type(l: LiteralV) -> TypeV {
    match l {
        LiteralV::Address(_) => TypeV::Address,
        LiteralV::Boolean(_) => TypeV::Boolean,
        LiteralV::Field(_) => TypeV::Field,
        LiteralV::I8(_) => TypeV::I8,
        LiteralV::I16(_) => TypeV::I16,
        LiteralV::I32(_) => TypeV::I32,
        LiteralV::I64(_) => TypeV::I64,
        LiteralV::I128(_) => TypeV::I128,
        LiteralV::U8(_) => TypeV::U8,
        LiteralV::U16(_) => TypeV::U16,
        LiteralV::U32(_) => TypeV::U32,
        LiteralV::U64(_) => TypeV::U64,
        LiteralV::U128(_) => TypeV::U128,
        LiteralV::Scalar(_) => TypeV::Scalar,
    }
}

/// The assembly rendering of a type.
pub open spec fn spec_type_text(t: TypeV) -> Seq<char> {
    match t {
        TypeV::Address => "address"@,
        TypeV::Boolean => "boolean"@,
        TypeV::Field => "field"@,
        TypeV::Group => "group"@,
        TypeV::I8 => "i8"@,
        TypeV::I16 => "i16"@,
        TypeV::I32 => "i32"@,
        TypeV::I64 => "i64"@,
        TypeV::I128 => "i128"@,
        TypeV::U8 => "u8"@,
        TypeV::U16 => "u16"@,
        TypeV::U32 => "u32"@,
        TypeV::U64 => "u64"@,
        TypeV::U128 => "u128"@,
        TypeV::Scalar => "scalar"@,
        TypeV::String => "string"@,
        TypeV::Other(s) => s,
    }
}

/// The assembly rendering of an attribute.
pub open spec fn spec_attribute_text(a: Attribute) -> Seq<char> {
    match a {
        Attribute::Constant => "constant"@,
        Attribute::Public => "public"@,
        Attribute::Private => "private"@,
        Attribute::Record => "record"@,
        Attribute::ExternalRecord => "record"@,
    }
}

/// The assembly rendering of a literal: decimal for integers and booleans,
/// lowercase hex for address payloads, and byte-reversed lowercase hex for
/// field and scalar payloads.
pub open spec fn spec_literal_text(l: LiteralV) -> Seq<char> {
    match l {
        LiteralV::Address(v) => spec_hex(v),
        LiteralV::Boolean(b) => spec_bool_text(b),
        LiteralV::Field(v) => spec_hex_rev(v),
        LiteralV::I8(i) => spec_dec_int(i as int),
        LiteralV::I16(i) => spec_dec_int(i as int),
        LiteralV::I32(i) => spec_dec_int(i as int),
        LiteralV::I64(i) => spec_dec_int(i as int),
        LiteralV::I128(i) => spec_dec_int(i as int),
        LiteralV::U8(u) => spec_dec_nat(u as int),
        LiteralV::U16(u) => spec_dec_nat(u as int),
        LiteralV::U32(u) => spec_dec_nat(u as int),
        LiteralV::U64(u) => spec_dec_nat(u as int),
        LiteralV::U128(u) => spec_dec_nat(u as int),
        LiteralV::Scalar(v) => spec_hex_rev(v),
    }
}

impl Type {
    /// The primitive type selected by a 16-bit tag, if the tag is in range.
    pub fn from_u16(v: u16) -> (r: Option<Type>)
        ensures
            match spec_type_of_tag(v) {
                Some(t) => r matches Some(x) && x@ == t,
                None => r is None,
            },
    {
        match v {
            0 => Some(Type::Address),
            1 => Some(Type::Boolean),
            2 => Some(Type::Field),
            3 => Some(Type::Group),
            4 => Some(Type::I8),
            5 => Some(Type::I16),
            6 => Some(Type::I32),
            7 => Some(Type::I64),
            8 => Some(Type::I128),
            9 => Some(Type::U8),
            10 => Some(Type::U16),
            11 => Some(Type::U32),
            12 => Some(Type::U64),
            13 => Some(Type::U128),
            14 => Some(Type::Scalar),
            15 => Some(Type::String),
            _ => None,
        }
    }

    /// The assembly rendering of this type.
    pub fn assembly(&self) -> (r: String)
        ensures
            r@ == spec_type_text(self@),
    {
        match self {
            Type::Address => String::from_str("address"),
            Type::Boolean => String::from_str("boolean"),
            Type::Field => String::from_str("field"),
            Type::Group => String::from_str("group"),
            Type::I8 => String::from_str("i8"),
            Type::I16 => String::from_str("i16"),
            Type::I32 => String::from_str("i32"),
            Type::I64 => String::from_str("i64"),
            Type::I128 => String::from_str("i128"),
            Type::U8 => String::from_str("u8"),
            Type::U16 => String::from_str("u16"),
            Type::U32 => String::from_str("u32"),
            Type::U64 => String::from_str("u64"),
            Type::U128 => String::from_str("u128"),
            Type::Scalar => String::from_str("scalar"),
            Type::String => String::from_str("string"),
            Type::Other(s) => s.clone(),
        }
    }
}

impl Attribute {
    /// The attribute selected by an 8-bit tag, if the tag is in range.
    pub fn from_u8(v: u8) -> (r: Option<Attribute>)
        ensures
            r == spec_attribute_of_tag(v),
    {
        match v {
            0 => Some(Attribute::Constant),
            1 => Some(Attribute::Public),
            2 => Some(Attribute::Private),
            3 => Some(Attribute::Record),
            4 => Some(Attribute::ExternalRecord),
            _ => None,
        }
    }

    /// The assembly rendering of this attribute.
    pub fn assembly(&self) -> (r: String)
        ensures
            r@ == spec_attribute_text(*self),
    {
        match self {
            Attribute::Constant => String::from_str("constant"),
            Attribute::Public => String::from_str("public"),
            Attribute::Private => String::from_str("private"),
            Attribute::Record => String::from_str("record"),
            Attribute::ExternalRecord => String::from_str("record"),
        }
    }
}

impl Literal {
    /// Reads a literal: a 16-bit kind tag, then the payload the kind fixes.
    pub fn read(bytes: &mut ByteCode) -> (r: Result<Literal, DecodeError>)
        requires
            old(bytes).wf(),
        ensures
            final(bytes).wf(),
            final(bytes).data() == old(bytes).data(),
            old(bytes).pos() <= final(bytes).pos(),
            match spec_read_literal(old(bytes).data(), old(bytes).pos()) {
                Ok(vp) => r matches Ok(v) && v@ == vp.0 && final(bytes).pos() == vp.1,
                Err(e) => r == Err::<Literal, DecodeError>(e),
            },
    {
        let start = bytes.position();
        let tag = match bytes.read_u16() {
            Ok(v) => v,
            Err(e) => { return Err(e) },
        };
        match tag {
            0 => match bytes.read_n(32) {
                Ok(v) => Ok(Literal::Address(v)),
                Err(e) => Err(e),
            },
            1 => match bytes.read_u8() {
                Ok(v) => Ok(Literal::Boolean(v != 0)),
                Err(e) => Err(e),
            },
            2 => match bytes.read_n(32) {
                Ok(v) => Ok(Literal::Field(v)),
                Err(e) => Err(e),
            },
            4 => match bytes.read_i8() {
                Ok(v) => Ok(Literal::I8(v)),
                Err(e) => Err(e),
            },
            5 => match bytes.read_i16() {
                Ok(v) => Ok(Literal::I16(v)),
                Err(e) => Err(e),
            },
            6 => match bytes.read_i32() {
                Ok(v) => Ok(Literal::I32(v)),
                Err(e) => Err(e),
            },
            7 => match bytes.read_i64() {
                Ok(v) => Ok(Literal::I64(v)),
                Err(e) => Err(e),
            },
            8 => match bytes.read_i128() {
                Ok(v) => Ok(Literal::I128(v)),
                Err(e) => Err(e),
            },
            9 => match bytes.read_u8() {
                Ok(v) => Ok(Literal::U8(v)),
                Err(e) => Err(e),
            },
            10 => match bytes.read_u16() {
                Ok(v) => Ok(Literal::U16(v)),
                Err(e) => Err(e),
            },
            11 => match bytes.read_u32() {
                Ok(v) => Ok(Literal::U32(v)),
                Err(e) => Err(e),
            },
            12 => match bytes.read_u64() {
                Ok(v) => Ok(Literal::U64(v)),
                Err(e) => Err(e),
            },
            13 => match bytes.read_u128() {
                Ok(v) => Ok(Literal::U128(v)),
                Err(e) => Err(e),
            },
            14 => match bytes.read_n(32) {
                Ok(v) => Ok(Literal::Scalar(v)),
                Err(e) => Err(e),
            },
            _ => Err(DecodeError { kind: DecodeErrorKind::UnknownTag, offset: start }),
        }
    }

    /// The value type that this literal carries.
    pub fn literal_type(&self) -> (r: Type)
        ensures
            r@ == spec_literal_type(self@),
    {
        match self {
            Literal::Address(_) => Type::Address,
            Literal::Boolean(_) => Type::Boolean,
            Literal::Field(_) => Type::Field,
            Literal::I8(_) => Type::I8,
            Literal::I16(_) => Type::I16,
            Literal::I32(_) => Type::I32,
            Literal::I64(_) => Type::I64,
            Literal::I128(_) => Type::I128,
            Literal::U8(_) => Type::U8,
            Literal::U16(_) => Type::U16,
            Literal::U32(_) => Type::U32,
            Literal::U64(_) => Type::U64,
            Literal::U128(_) => Type::U128,
            Literal::Scalar(_) => Type::Scalar,
        }
    }

    /// The assembly rendering of this literal.
    pub fn assembly(&self) -> (r: String)
        ensures
            r@ == spec_literal_text(self@),
    {
        match self {
            Literal::Address(v) => hex_bytes(v),
            Literal::Boolean(b) => String::from_str(bool_str(*b)),
            Literal::Field(v) => hex_bytes_rev(v),
            Literal::I8(i) => dec_i128(*i as i128),
            Literal::I16(i) => dec_i128(*i as i128),
            Literal::I32(i) => dec_i128(*i as i128),
            Literal::I64(i) => dec_i128(*i as i128),
            Literal::I128(i) => dec_i128(*i),
            Literal::U8(u) => dec_u128(*u as u128),
            Literal::U16(u) => dec_u128(*u as u128),
            Literal::U32(u) => dec_u128(*u as u128),
            Literal::U64(u) => dec_u128(*u as u128),
            Literal::U128(u) => dec_u128(*u),
            Literal::Scalar(v) => hex_bytes_rev(v),
        }
    }
}

/// Reads an attribute tag.
pub fn read_attribute(bytes: &mut ByteCode) -> (r: Result<Attribute, DecodeError>)
    requires
        old(bytes).wf(),
    ensures
        final(bytes).wf(),
        final(bytes).data() == old(bytes).data(),
        old(bytes).pos() <= final(bytes).pos(),
        match spec_read_attribute(old(bytes).data(), old(bytes).pos()) {
            Ok(vp) => r == Ok::<Attribute, DecodeError>(vp.0) && final(bytes).pos() == vp.1,
            Err(e) => r == Err::<Attribute, DecodeError>(e),
        },
{
    let start = bytes.position();
    let tag = match bytes.read_u8() {
        Ok(v) => v,
        Err(e) => { return Err(e) },
    };
    match Attribute::from_u8(tag) {
        Some(a) => Ok(a),
        None => Err(DecodeError { kind: DecodeErrorKind::UnknownTag, offset: start }),
    }
}

/// Reads a plaintext type: a discriminant byte selecting a primitive
/// 16-bit tag or a user-defined type identifier.
pub fn read_plaintext_type(bytes: &mut ByteCode) -> (r: Result<Type, DecodeError>)
    requires
        old(bytes).wf(),
    ensures
        final(bytes).wf(),
        final(bytes).data() == old(bytes).data(),
        old(bytes).pos() <= final(bytes).pos(),
        match spec_read_plaintext_type(old(bytes).data(), old(bytes).pos()) {
            Ok(vp) => r matches Ok(v) && v@ == vp.0 && final(bytes).pos() == vp.1,
            Err(e) => r == Err::<Type, DecodeError>(e),
        },
{
    let start = bytes.position();
    let disc = match bytes.read_u8() {
        Ok(v) => v,
        Err(e) => { return Err(e) },
    };
    if disc == 0 {
        let tag_start = bytes.position();
        let tag = match bytes.read_u16() {
            Ok(v) => v,
            Err(e) => { return Err(e) },
        };
        match Type::from_u16(tag) {
            Some(t) => Ok(t),
            None => Err(DecodeError { kind: DecodeErrorKind::UnknownTag, offset: tag_start }),
        }
    } else if disc == 1 {
        match read_identifier(bytes) {
            Ok(s) => Ok(Type::Other(s)),
            Err(e) => Err(e),
        }
    } else {
        Err(DecodeError { kind: DecodeErrorKind::UnknownTag, offset: start })
    }
}

/// Reads the `(type, attribute)` declaration of a plain function register.
/// Record and external-record attributes are not supported in this position
/// and fail with `UnsupportedConstruct`.
pub fn read_function_register_type(bytes: &mut ByteCode) -> (r: Result<
    (Type, Attribute),
    DecodeError,
>)
    requires
        old(bytes).wf(),
    ensures
        final(bytes).wf(),
        final(bytes).data() == old(bytes).data(),
        old(bytes).pos() <= final(bytes).pos(),
        match spec_read_function_register_type(old(bytes).data(), old(bytes).pos()) {
            Ok(vp) => r matches Ok(v) && v.0@ == vp.0.0 && v.1 == vp.0.1 && final(bytes).pos()
                == vp.1,
            Err(e) => r == Err::<(Type, Attribute), DecodeError>(e),
        },
{
    let start = bytes.position();
    let attribute = match read_attribute(bytes) {
        Ok(v) => v,
        Err(e) => { return Err(e) },
    };
    match attribute {
        Attribute::Constant | Attribute::Public | Attribute::Private => {
            match read_plaintext_type(bytes) {
                Ok(t) => Ok((t, attribute)),
                Err(e) => Err(e),
            }
        },
        _ => Err(DecodeError { kind: DecodeErrorKind::UnsupportedConstruct, offset: start }),
    }
}

} // verus!

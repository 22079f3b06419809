//! The instruction decoder: opcodes, operands, outputs and instructions.
//!
//! An instruction is a 16-bit opcode tag followed by opcode-specific
//! trailing bytes.  Every opcode belongs to exactly one of six shape
//! classes (unary, binary, assert, ternary, cast, call), fixed at design
//! time by `spec_opcode_class`; the class alone decides how many operands
//! follow and what output shape the instruction carries.  Only cast and
//! call instructions encode their own explicit counts.

use vstd::prelude::*;

use crate::bytecode::{spec_read_u16, spec_read_u32, spec_read_u8};
use crate::bytecode::ByteCode;
use crate::error::{spec_err, DecodeError, DecodeErrorKind};
use crate::text::{spec_join, join_strings};
use crate::util::{spec_read_identifier, spec_read_locator, read_identifier, read_locator};
use crate::components::registers::{spec_read_register, spec_register_text, Register, RegisterV};
use crate::components::types::{
    spec_literal_text, spec_read_literal, spec_read_plaintext_type, spec_type_text,
    read_plaintext_type, Literal, LiteralV, Type, TypeV,
};
use vstd::string::StringExecFns;

verus! {

/// The closed set of operation codes, in tag order.
#[derive(Debug, PartialEq, Eq, Structural, Clone, Copy)]
pub enum Opcode {
    Abs,
    AbsWrapped,
    Add,
    AddWrapped,
    And,
    AssertEq,
    AssertNeq,
    Call,
    Cast,
    CommitBHP256,
    CommitBHP512,
    CommitBHP768,
    CommitBHP1024,
    CommitPED64,
    CommitPED128,
    Div,
    DivWrapped,
    Double,
    GreaterThan,
    GreaterThanOrEqual,
    HashBHP256,
    HashBHP512,
    HashBHP768,
    HashBHP1024,
    HashPED64,
    HashPED128,
    HashPSD2,
    HashPSD4,
    HashPSD8,
    Inv,
    IsEq,
    IsNeq,
    LessThan,
    LessThanOrEqual,
    Mod,
    Mul,
    MulWrapped,
    Nand,
    Neg,
    Nor,
    Not,
    Or,
    Pow,
    PowWrapped,
    Rem,
    RemWrapped,
    Shl,
    ShlWrapped,
    Shr,
    ShrWrapped,
    Square,
    SquareRoot,
    Sub,
    SubWrapped,
    Ternary,
    Xor,
}

/// The shape class of an opcode: how many operands follow the tag and
/// what output shape the instruction carries.
#[derive(Debug, PartialEq, Eq, Structural, Clone, Copy)]
pub enum OpcodeClass {
    /// One operand, then a single output register.
    Unary,
    /// Two operands, then a single output register.
    Binary,
    /// Two operands and no output.
    Assertion,
    /// Three operands, then a single output register.
    Ternary,
    /// An explicit operand count, a separator, a register and a type.
    Cast,
    /// A call target, explicit input operands and output registers.
    Call,
}

/// The opcode selected by a 16-bit tag, if the tag is in range.
pub open spec fn spec_opcode_of_tag(v: u16) -> Option<Opcode> {
    if v == 0 {
        Some(Opcode::Abs)
    } else if v == 1 {
        Some(Opcode::AbsWrapped)
    } else if v == 2 {
        Some(Opcode::Add)
    } else if v == 3 {
        Some(Opcode::AddWrapped)
    } else if v == 4 {
        Some(Opcode::And)
    } else if v == 5 {
        Some(Opcode::AssertEq)
    } else if v == 6 {
        Some(Opcode::AssertNeq)
    } else if v == 7 {
        Some(Opcode::Call)
    } else if v == 8 {
        Some(Opcode::Cast)
    } else if v == 9 {
        Some(Opcode::CommitBHP256)
    } else if v == 10 {
        Some(Opcode::CommitBHP512)
    } else if v == 11 {
        Some(Opcode::CommitBHP768)
    } else if v == 12 {
        Some(Opcode::CommitBHP1024)
    } else if v == 13 {
        Some(Opcode::CommitPED64)
    } else if v == 14 {
        Some(Opcode::CommitPED128)
    } else if v == 15 {
        Some(Opcode::Div)
    } else if v == 16 {
        Some(Opcode::DivWrapped)
    } else if v == 17 {
        Some(Opcode::Double)
    } else if v == 18 {
        Some(Opcode::GreaterThan)
    } else if v == 19 {
        Some(Opcode::GreaterThanOrEqual)
    } else if v == 20 {
        Some(Opcode::HashBHP256)
    } else if v == 21 {
        Some(Opcode::HashBHP512)
    } else if v == 22 {
        Some(Opcode::HashBHP768)
    } else if v == 23 {
        Some(Opcode::HashBHP1024)
    } else if v == 24 {
        Some(Opcode::HashPED64)
    } else if v == 25 {
        Some(Opcode::HashPED128)
    } else if v == 26 {
        Some(Opcode::HashPSD2)
    } else if v == 27 {
        Some(Opcode::HashPSD4)
    } else if v == 28 {
        Some(Opcode::HashPSD8)
    } else if v == 29 {
        Some(Opcode::Inv)
    } else if v == 30 {
        Some(Opcode::IsEq)
    } else if v == 31 {
        Some(Opcode::IsNeq)
    } else if v == 32 {
        Some(Opcode::LessThan)
    } else if v == 33 {
        Some(Opcode::LessThanOrEqual)
    } else if v == 34 {
        Some(Opcode::Mod)
    } else if v == 35 {
        Some(Opcode::Mul)
    } else if v == 36 {
        Some(Opcode::MulWrapped)
    } else if v == 37 {
        Some(Opcode::Nand)
    } else if v == 38 {
        Some(Opcode::Neg)
    } else if v == 39 {
        Some(Opcode::Nor)
    } else if v == 40 {
        Some(Opcode::Not)
    } else if v == 41 {
        Some(Opcode::Or)
    } else if v == 42 {
        Some(Opcode::Pow)
    } else if v == 43 {
        Some(Opcode::PowWrapped)
    } else if v == 44 {
        Some(Opcode::Rem)
    } else if v == 45 {
        Some(Opcode::RemWrapped)
    } else if v == 46 {
        Some(Opcode::Shl)
    } else if v == 47 {
        Some(Opcode::ShlWrapped)
    } else if v == 48 {
        Some(Opcode::Shr)
    } else if v == 49 {
        Some(Opcode::ShrWrapped)
    } else if v == 50 {
        Some(Opcode::Square)
    } else if v == 51 {
        Some(Opcode::SquareRoot)
    } else if v == 52 {
        Some(Opcode::Sub)
    } else if v == 53 {
        Some(Opcode::SubWrapped)
    } else if v == 54 {
        Some(Opcode::Ternary)
    } else if v == 55 {
        Some(Opcode::Xor)
    } else {
        None
    }
}

/// The one shape class that each opcode belongs to.
pub open spec fn spec_opcode_class(op: Opcode) -> OpcodeClass {
    match op {
        Opcode::Abs => OpcodeClass::Unary,
        Opcode::AbsWrapped => OpcodeClass::Unary,
        Opcode::Add => OpcodeClass::Binary,
        Opcode::AddWrapped => OpcodeClass::Binary,
        Opcode::And => OpcodeClass::Binary,
        Opcode::AssertEq => OpcodeClass::Assertion,
        Opcode::AssertNeq => OpcodeClass::Assertion,
        Opcode::Call => OpcodeClass::Call,
        Opcode::Cast => OpcodeClass::Cast,
        Opcode::CommitBHP256 => OpcodeClass::Binary,
        Opcode::CommitBHP512 => OpcodeClass::Binary,
        Opcode::CommitBHP768 => OpcodeClass::Binary,
        Opcode::CommitBHP1024 => OpcodeClass::Binary,
        Opcode::CommitPED64 => OpcodeClass::Binary,
        Opcode::CommitPED128 => OpcodeClass::Binary,
        Opcode::Div => OpcodeClass::Binary,
        Opcode::DivWrapped => OpcodeClass::Binary,
        Opcode::Double => OpcodeClass::Unary,
        Opcode::GreaterThan => OpcodeClass::Binary,
        Opcode::GreaterThanOrEqual => OpcodeClass::Binary,
        Opcode::HashBHP256 => OpcodeClass::Unary,
        Opcode::HashBHP512 => OpcodeClass::Unary,
        Opcode::HashBHP768 => OpcodeClass::Unary,
        Opcode::HashBHP1024 => OpcodeClass::Unary,
        Opcode::HashPED64 => OpcodeClass::Unary,
        Opcode::HashPED128 => OpcodeClass::Unary,
        Opcode::HashPSD2 => OpcodeClass::Unary,
        Opcode::HashPSD4 => OpcodeClass::Unary,
        Opcode::HashPSD8 => OpcodeClass::Unary,
        Opcode::Inv => OpcodeClass::Unary,
        Opcode::IsEq => OpcodeClass::Binary,
        Opcode::IsNeq => OpcodeClass::Binary,
        Opcode::LessThan => OpcodeClass::Binary,
        Opcode::LessThanOrEqual => OpcodeClass::Binary,
        Opcode::Mod => OpcodeClass::Binary,
        Opcode::Mul => OpcodeClass::Binary,
        Opcode::MulWrapped => OpcodeClass::Binary,
        Opcode::Nand => OpcodeClass::Binary,
        Opcode::Neg => OpcodeClass::Unary,
        Opcode::Nor => OpcodeClass::Binary,
        Opcode::Not => OpcodeClass::Unary,
        Opcode::Or => OpcodeClass::Binary,
        Opcode::Pow => OpcodeClass::Binary,
        Opcode::PowWrapped => OpcodeClass::Binary,
        Opcode::Rem => OpcodeClass::Binary,
        Opcode::RemWrapped => OpcodeClass::Binary,
        Opcode::Shl => OpcodeClass::Binary,
        Opcode::ShlWrapped => OpcodeClass::Binary,
        Opcode::Shr => OpcodeClass::Binary,
        Opcode::ShrWrapped => OpcodeClass::Binary,
        Opcode::Square => OpcodeClass::Unary,
        Opcode::SquareRoot => OpcodeClass::Unary,
        Opcode::Sub => OpcodeClass::Binary,
        Opcode::SubWrapped => OpcodeClass::Binary,
        Opcode::Ternary => OpcodeClass::Ternary,
        Opcode::Xor => OpcodeClass::Binary,
    }
}

/// The assembly rendering of an opcode: its lowercase name.
pub open spec fn spec_opcode_text(op: Opcode) -> Seq<char> {
    match op {
        Opcode::Abs => "abs"@,
        Opcode::AbsWrapped => "abswrapped"@,
        Opcode::Add => "add"@,
        Opcode::AddWrapped => "addwrapped"@,
        Opcode::And => "and"@,
        Opcode::AssertEq => "asserteq"@,
        Opcode::AssertNeq => "assertneq"@,
        Opcode::Call => "call"@,
        Opcode::Cast => "cast"@,
        Opcode::CommitBHP256 => "commitbhp256"@,
        Opcode::CommitBHP512 => "commitbhp512"@,
        Opcode::CommitBHP768 => "commitbhp768"@,
        Opcode::CommitBHP1024 => "commitbhp1024"@,
        Opcode::CommitPED64 => "commitped64"@,
        Opcode::CommitPED128 => "commitped128"@,
        Opcode::Div => "div"@,
        Opcode::DivWrapped => "divwrapped"@,
        Opcode::Double => "double"@,
        Opcode::GreaterThan => "greaterthan"@,
        Opcode::GreaterThanOrEqual => "greaterthanorequal"@,
        Opcode::HashBHP256 => "hashbhp256"@,
        Opcode::HashBHP512 => "hashbhp512"@,
        Opcode::HashBHP768 => "hashbhp768"@,
        Opcode::HashBHP1024 => "hashbhp1024"@,
        Opcode::HashPED64 => "hashped64"@,
        Opcode::HashPED128 => "hashped128"@,
        Opcode::HashPSD2 => "hashpsd2"@,
        Opcode::HashPSD4 => "hashpsd4"@,
        Opcode::HashPSD8 => "hashpsd8"@,
        Opcode::Inv => "inv"@,
        Opcode::IsEq => "iseq"@,
        Opcode::IsNeq => "isneq"@,
        Opcode::LessThan => "lessthan"@,
        Opcode::LessThanOrEqual => "lessthanorequal"@,
        Opcode::Mod => "mod"@,
        Opcode::Mul => "mul"@,
        Opcode::MulWrapped => "mulwrapped"@,
        Opcode::Nand => "nand"@,
        Opcode::Neg => "neg"@,
        Opcode::Nor => "nor"@,
        Opcode::Not => "not"@,
        Opcode::Or => "or"@,
        Opcode::Pow => "pow"@,
        Opcode::PowWrapped => "powwrapped"@,
        Opcode::Rem => "rem"@,
        Opcode::RemWrapped => "remwrapped"@,
        Opcode::Shl => "shl"@,
        Opcode::ShlWrapped => "shlwrapped"@,
        Opcode::Shr => "shr"@,
        Opcode::ShrWrapped => "shrwrapped"@,
        Opcode::Square => "square"@,
        Opcode::SquareRoot => "squareroot"@,
        Opcode::Sub => "sub"@,
        Opcode::SubWrapped => "subwrapped"@,
        Opcode::Ternary => "ternary"@,
        Opcode::Xor => "xor"@,
    }
}

impl Opcode {
    /// The opcode selected by a 16-bit tag, if the tag is in range.
    pub fn from_u16(v: u16) -> (r: Option<Opcode>)
        ensures
            r == spec_opcode_of_tag(v),
    {
        match v {
            0 => Some(Opcode::Abs),
            1 => Some(Opcode::AbsWrapped),
            2 => Some(Opcode::Add),
            3 => Some(Opcode::AddWrapped),
            4 => Some(Opcode::And),
            5 => Some(Opcode::AssertEq),
            6 => Some(Opcode::AssertNeq),
            7 => Some(Opcode::Call),
            8 => Some(Opcode::Cast),
            9 => Some(Opcode::CommitBHP256),
            10 => Some(Opcode::CommitBHP512),
            11 => Some(Opcode::CommitBHP768),
            12 => Some(Opcode::CommitBHP1024),
            13 => Some(Opcode::CommitPED64),
            14 => Some(Opcode::CommitPED128),
            15 => Some(Opcode::Div),
            16 => Some(Opcode::DivWrapped),
            17 => Some(Opcode::Double),
            18 => Some(Opcode::GreaterThan),
            19 => Some(Opcode::GreaterThanOrEqual),
            20 => Some(Opcode::HashBHP256),
            21 => Some(Opcode::HashBHP512),
            22 => Some(Opcode::HashBHP768),
            23 => Some(Opcode::HashBHP1024),
            24 => Some(Opcode::HashPED64),
            25 => Some(Opcode::HashPED128),
            26 => Some(Opcode::HashPSD2),
            27 => Some(Opcode::HashPSD4),
            28 => Some(Opcode::HashPSD8),
            29 => Some(Opcode::Inv),
            30 => Some(Opcode::IsEq),
            31 => Some(Opcode::IsNeq),
            32 => Some(Opcode::LessThan),
            33 => Some(Opcode::LessThanOrEqual),
            34 => Some(Opcode::Mod),
            35 => Some(Opcode::Mul),
            36 => Some(Opcode::MulWrapped),
            37 => Some(Opcode::Nand),
            38 => Some(Opcode::Neg),
            39 => Some(Opcode::Nor),
            40 => Some(Opcode::Not),
            41 => Some(Opcode::Or),
            42 => Some(Opcode::Pow),
            43 => Some(Opcode::PowWrapped),
            44 => Some(Opcode::Rem),
            45 => Some(Opcode::RemWrapped),
            46 => Some(Opcode::Shl),
            47 => Some(Opcode::ShlWrapped),
            48 => Some(Opcode::Shr),
            49 => Some(Opcode::ShrWrapped),
            50 => Some(Opcode::Square),
            51 => Some(Opcode::SquareRoot),
            52 => Some(Opcode::Sub),
            53 => Some(Opcode::SubWrapped),
            54 => Some(Opcode::Ternary),
            55 => Some(Opcode::Xor),
            _ => None,
        }
    }

    /// The one shape class that this opcode belongs to.
    pub fn class_of(&self) -> (r: OpcodeClass)
        ensures
            r == spec_opcode_class(*self),
    {
        match self {
            Opcode::Abs => OpcodeClass::Unary,
            Opcode::AbsWrapped => OpcodeClass::Unary,
            Opcode::Add => OpcodeClass::Binary,
            Opcode::AddWrapped => OpcodeClass::Binary,
            Opcode::And => OpcodeClass::Binary,
            Opcode::AssertEq => OpcodeClass::Assertion,
            Opcode::AssertNeq => OpcodeClass::Assertion,
            Opcode::Call => OpcodeClass::Call,
            Opcode::Cast => OpcodeClass::Cast,
            Opcode::CommitBHP256 => OpcodeClass::Binary,
            Opcode::CommitBHP512 => OpcodeClass::Binary,
            Opcode::CommitBHP768 => OpcodeClass::Binary,
            Opcode::CommitBHP1024 => OpcodeClass::Binary,
            Opcode::CommitPED64 => OpcodeClass::Binary,
            Opcode::CommitPED128 => OpcodeClass::Binary,
            Opcode::Div => OpcodeClass::Binary,
            Opcode::DivWrapped => OpcodeClass::Binary,
            Opcode::Double => OpcodeClass::Unary,
            Opcode::GreaterThan => OpcodeClass::Binary,
            Opcode::GreaterThanOrEqual => OpcodeClass::Binary,
            Opcode::HashBHP256 => OpcodeClass::Unary,
            Opcode::HashBHP512 => OpcodeClass::Unary,
            Opcode::HashBHP768 => OpcodeClass::Unary,
            Opcode::HashBHP1024 => OpcodeClass::Unary,
            Opcode::HashPED64 => OpcodeClass::Unary,
            Opcode::HashPED128 => OpcodeClass::Unary,
            Opcode::HashPSD2 => OpcodeClass::Unary,
            Opcode::HashPSD4 => OpcodeClass::Unary,
            Opcode::HashPSD8 => OpcodeClass::Unary,
            Opcode::Inv => OpcodeClass::Unary,
            Opcode::IsEq => OpcodeClass::Binary,
            Opcode::IsNeq => OpcodeClass::Binary,
            Opcode::LessThan => OpcodeClass::Binary,
            Opcode::LessThanOrEqual => OpcodeClass::Binary,
            Opcode::Mod => OpcodeClass::Binary,
            Opcode::Mul => OpcodeClass::Binary,
            Opcode::MulWrapped => OpcodeClass::Binary,
            Opcode::Nand => OpcodeClass::Binary,
            Opcode::Neg => OpcodeClass::Unary,
            Opcode::Nor => OpcodeClass::Binary,
            Opcode::Not => OpcodeClass::Unary,
            Opcode::Or => OpcodeClass::Binary,
            Opcode::Pow => OpcodeClass::Binary,
            Opcode::PowWrapped => OpcodeClass::Binary,
            Opcode::Rem => OpcodeClass::Binary,
            Opcode::RemWrapped => OpcodeClass::Binary,
            Opcode::Shl => OpcodeClass::Binary,
            Opcode::ShlWrapped => OpcodeClass::Binary,
            Opcode::Shr => OpcodeClass::Binary,
            Opcode::ShrWrapped => OpcodeClass::Binary,
            Opcode::Square => OpcodeClass::Unary,
            Opcode::SquareRoot => OpcodeClass::Unary,
            Opcode::Sub => OpcodeClass::Binary,
            Opcode::SubWrapped => OpcodeClass::Binary,
            Opcode::Ternary => OpcodeClass::Ternary,
            Opcode::Xor => OpcodeClass::Binary,
        }
    }

    /// The assembly rendering of this opcode: its lowercase name.
    pub fn assembly(&self) -> (r: String)
        ensures
            r@ == spec_opcode_text(*self),
    {
        match self {
            Opcode::Abs => String::from_str("abs"),
            Opcode::AbsWrapped => String::from_str("abswrapped"),
            Opcode::Add => String::from_str("add"),
            Opcode::AddWrapped => String::from_str("addwrapped"),
            Opcode::And => String::from_str("and"),
            Opcode::AssertEq => String::from_str("asserteq"),
            Opcode::AssertNeq => String::from_str("assertneq"),
            Opcode::Call => String::from_str("call"),
            Opcode::Cast => String::from_str("cast"),
            Opcode::CommitBHP256 => String::from_str("commitbhp256"),
            Opcode::CommitBHP512 => String::from_str("commitbhp512"),
            Opcode::CommitBHP768 => String::from_str("commitbhp768"),
            Opcode::CommitBHP1024 => String::from_str("commitbhp1024"),
            Opcode::CommitPED64 => String::from_str("commitped64"),
            Opcode::CommitPED128 => String::from_str("commitped128"),
            Opcode::Div => String::from_str("div"),
            Opcode::DivWrapped => String::from_str("divwrapped"),
            Opcode::Double => String::from_str("double"),
            Opcode::GreaterThan => String::from_str("greaterthan"),
            Opcode::GreaterThanOrEqual => String::from_str("greaterthanorequal"),
            Opcode::HashBHP256 => String::from_str("hashbhp256"),
            Opcode::HashBHP512 => String::from_str("hashbhp512"),
            Opcode::HashBHP768 => String::from_str("hashbhp768"),
            Opcode::HashBHP1024 => String::from_str("hashbhp1024"),
            Opcode::HashPED64 => String::from_str("hashped64"),
            Opcode::HashPED128 => String::from_str("hashped128"),
            Opcode::HashPSD2 => String::from_str("hashpsd2"),
            Opcode::HashPSD4 => String::from_str("hashpsd4"),
            Opcode::HashPSD8 => String::from_str("hashpsd8"),
            Opcode::Inv => String::from_str("inv"),
            Opcode::IsEq => String::from_str("iseq"),
            Opcode::IsNeq => String::from_str("isneq"),
            Opcode::LessThan => String::from_str("lessthan"),
            Opcode::LessThanOrEqual => String::from_str("lessthanorequal"),
            Opcode::Mod => String::from_str("mod"),
            Opcode::Mul => String::from_str("mul"),
            Opcode::MulWrapped => String::from_str("mulwrapped"),
            Opcode::Nand => String::from_str("nand"),
            Opcode::Neg => String::from_str("neg"),
            Opcode::Nor => String::from_str("nor"),
            Opcode::Not => String::from_str("not"),
            Opcode::Or => String::from_str("or"),
            Opcode::Pow => String::from_str("pow"),
            Opcode::PowWrapped => String::from_str("powwrapped"),
            Opcode::Rem => String::from_str("rem"),
            Opcode::RemWrapped => String::from_str("remwrapped"),
            Opcode::Shl => String::from_str("shl"),
            Opcode::ShlWrapped => String::from_str("shlwrapped"),
            Opcode::Shr => String::from_str("shr"),
            Opcode::ShrWrapped => String::from_str("shrwrapped"),
            Opcode::Square => String::from_str("square"),
            Opcode::SquareRoot => String::from_str("squareroot"),
            Opcode::Sub => String::from_str("sub"),
            Opcode::SubWrapped => String::from_str("subwrapped"),
            Opcode::Ternary => String::from_str("ternary"),
            Opcode::Xor => String::from_str("xor"),
        }
    }
}
/// A call target or cross-program reference: either a function of this
/// program, or a fully-qualified resource of another program.
#[derive(Debug)]
pub enum Locator {
    Internal(String),
    External((String, String, String)),
}

/// The spec-level value of a `Locator`.
pub enum LocatorV {
    Internal(Seq<char>),
    External((Seq<char>, Seq<char>, Seq<char>)),
}

impl View for Locator {
    type V = LocatorV;

    open spec fn view(&self) -> LocatorV {
        match self {
            Locator::Internal(s) => LocatorV::Internal(s@),
            Locator::External(t) => LocatorV::External((t.0@, t.1@, t.2@)),
        }
    }
}

impl DeepView for Locator {
    type V = LocatorV;

    open spec fn deep_view(&self) -> LocatorV {
        self@
    }
}

/// An instruction operand.
#[derive(Debug)]
pub enum Operand {
    /// An inline literal value.
    Literal(Literal),
    /// A register reference.
    Register(Register),
    /// A cross-program reference; only the external form is legal as a
    /// plain operand, and a call target is prepended in this form.
    ProgramId(Locator),
    /// The calling account, with no payload.
    Caller,
}

/// The spec-level value of an `Operand`.
pub enum OperandV {
    Literal(LiteralV),
    Register(RegisterV),
    ProgramId(LocatorV),
    Caller,
}

impl View for Operand {
    type V = OperandV;

    open spec fn view(&self) -> OperandV {
        match self {
            Operand::Literal(l) => OperandV::Literal(l@),
            Operand::Register(r) => OperandV::Register(r@),
            Operand::ProgramId(l) => OperandV::ProgramId(l@),
            Operand::Caller => OperandV::Caller,
        }
    }
}

impl DeepView for Operand {
    type V = OperandV;

    open spec fn deep_view(&self) -> OperandV {
        self@
    }
}

/// Where an instruction binds its result.
#[derive(Debug)]
pub enum Output {
    /// One register, for most instructions.
    Single(Register),
    /// A list of registers, for call results.
    Multiple(Vec<Register>),
    /// A register together with its declared result type, for casts.
    Cast((Register, Type)),
    /// No bound value, for assert-class instructions.
    Empty,
}

/// The spec-level value of an `Output`.
pub enum OutputV {
    Single(RegisterV),
    Multiple(Seq<RegisterV>),
    Cast((RegisterV, TypeV)),
    Empty,
}

impl View for Output {
    type V = OutputV;

    open spec fn view(&self) -> OutputV {
        match self {
            Output::Single(r) => OutputV::Single(r@),
            Output::Multiple(rs) => OutputV::Multiple(rs.deep_view()),
            Output::Cast(rt) => OutputV::Cast((rt.0@, rt.1@)),
            Output::Empty => OutputV::Empty,
        }
    }
}

/// A decoded instruction: its opcode, its operand list (absent only when a
/// shape carries none) and its output shape.
#[derive(Debug)]
pub struct Instruction {
    pub opcode: Opcode,
    pub operands: Option<Vec<Operand>>,
    pub output: Output,
}

/// The spec-level value of an `Instruction`.
pub struct InstructionV {
    pub opcode: Opcode,
    pub operands: Option<Seq<OperandV>>,
    pub output: OutputV,
}

impl View for Instruction {
    type V = InstructionV;

    open spec fn view(&self) -> InstructionV {
        InstructionV {
            opcode: self.opcode,
            operands: self.operands.deep_view(),
            output: self.output@,
        }
    }
}

impl DeepView for Instruction {
    type V = InstructionV;

    open spec fn deep_view(&self) -> InstructionV {
        self@
    }
}

/// Reads an operand at `pos`: a one-byte tag selecting a literal (0), a
/// register (1), an external program reference (2) or the caller marker
/// (3).
pub open spec fn spec_read_operand(bytes: Seq<u8>, pos: int) -> Result<
    (OperandV, int),
    DecodeError,
> {
    match spec_read_u8(bytes, pos) {
        Ok(tp) => if tp.0 == 0 {
            match spec_read_literal(bytes, tp.1) {
                Ok(lp) => Ok((OperandV::Literal(lp.0), lp.1)),
                Err(e) => Err(e),
            }
        } else if tp.0 == 1 {
            match spec_read_register(bytes, tp.1) {
                Ok(rp) => Ok((OperandV::Register(rp.0), rp.1)),
                Err(e) => Err(e),
            }
        } else if tp.0 == 2 {
            match spec_read_locator(bytes, tp.1) {
                Ok(lp) => Ok((OperandV::ProgramId(LocatorV::External(lp.0)), lp.1)),
                Err(e) => Err(e),
            }
        } else if tp.0 == 3 {
            Ok((OperandV::Caller, tp.1))
        } else {
            Err(spec_err(DecodeErrorKind::UnknownTag, pos))
        },
        Err(e) => Err(e),
    }
}

/// Reads `n` operands in sequence starting at `pos`.
pub open spec fn spec_read_operand_list(bytes: Seq<u8>, pos: int, n: int) -> Result<
    (Seq<OperandV>, int),
    DecodeError,
>
    decreases n,
{
    if n <= 0 {
        Ok((Seq::empty(), pos))
    } else {
        match spec_read_operand(bytes, pos) {
            Ok(vp) => match spec_read_operand_list(bytes, vp.1, n - 1) {
                Ok(lp) => Ok((seq![vp.0] + lp.0, lp.1)),
                Err(e) => Err(e),
            },
            Err(e) => Err(e),
        }
    }
}

/// Reads `n` registers in sequence starting at `pos`.
pub open spec fn spec_read_register_list(bytes: Seq<u8>, pos: int, n: int) -> Result<
    (Seq<RegisterV>, int),
    DecodeError,
>
    decreases n,
{
    if n <= 0 {
        Ok((Seq::empty(), pos))
    } else {
        match spec_read_register(bytes, pos) {
            Ok(vp) => match spec_read_register_list(bytes, vp.1, n - 1) {
                Ok(lp) => Ok((seq![vp.0] + lp.0, lp.1)),
                Err(e) => Err(e),
            },
            Err(e) => Err(e),
        }
    }
}

/// Reads `n` operands as the optional operand list of an instruction: a
/// count of zero yields no list at all.
pub open spec fn spec_read_operands(bytes: Seq<u8>, pos: int, n: int) -> Result<
    (Option<Seq<OperandV>>, int),
    DecodeError,
> {
    if n <= 0 {
        Ok((None, pos))
    } else {
        match spec_read_operand_list(bytes, pos, n) {
            Ok(lp) => Ok((Some(lp.0), lp.1)),
            Err(e) => Err(e),
        }
    }
}

/// Reads the trailing bytes of a cast instruction at `pos`: an operand
/// count (1 to 8, anything else is a `StructuralMismatch`), that many
/// operands, a zero separator byte, the destination register (by the full
/// register grammar), and the declared result type behind its own leading
/// discriminant byte.
pub open spec fn spec_read_cast_body(bytes: Seq<u8>, pos: int) -> Result<
    (InstructionV, int),
    DecodeError,
> {
    match spec_read_u8(bytes, pos) {
        Ok(cp) => if cp.0 == 0 || cp.0 > 8 {
            Err(spec_err(DecodeErrorKind::StructuralMismatch, pos))
        } else {
            match spec_read_operand_list(bytes, cp.1, cp.0 as int) {
                Ok(op) => match spec_read_u8(bytes, op.1) {
                    Ok(sp) => if sp.0 != 0 {
                        Err(spec_err(DecodeErrorKind::StructuralMismatch, op.1))
                    } else {
                        match spec_read_register(bytes, sp.1) {
                            Ok(rp) => match spec_read_plaintext_type(bytes, rp.1) {
                                Ok(tp) => Ok(
                                    (
                                        InstructionV {
                                            opcode: Opcode::Cast,
                                            operands: Some(op.0),
                                            output: OutputV::Cast((rp.0, tp.0)),
                                        },
                                        tp.1,
                                    ),
                                ),
                                Err(e) => Err(e),
                            },
                            Err(e) => Err(e),
                        }
                    },
                    Err(e) => Err(e),
                },
                Err(e) => Err(e),
            }
        },
        Err(e) => Err(e),
    }
}

/// Reads the trailing bytes of a call instruction at `pos`: a target tag
/// (1 selects an internal identifier, anything else an external locator),
/// an input count and that many operands (the target is prepended to the
/// operand list as a program reference), then an output count and that
/// many registers.
pub open spec fn spec_read_call_body(bytes: Seq<u8>, pos: int) -> Result<
    (InstructionV, int),
    DecodeError,
> {
    match spec_read_u8(bytes, pos) {
        Ok(tp) => {
            let callee = if tp.0 == 1 {
                match spec_read_identifier(bytes, tp.1) {
                    Ok(ip) => Ok((LocatorV::Internal(ip.0), ip.1)),
                    Err(e) => Err(e),
                }
            } else {
                match spec_read_locator(bytes, tp.1) {
                    Ok(lp) => Ok((LocatorV::External(lp.0), lp.1)),
                    Err(e) => Err(e),
                }
            };
            match callee {
                Ok(cp) => match spec_read_u8(bytes, cp.1) {
                    Ok(np) => match spec_read_operand_list(bytes, np.1, np.0 as int) {
                        Ok(op) => match spec_read_u8(bytes, op.1) {
                            Ok(mp) => match spec_read_register_list(bytes, mp.1, mp.0 as int) {
                                Ok(rp) => Ok(
                                    (
                                        InstructionV {
                                            opcode: Opcode::Call,
                                            operands: Some(
                                                seq![OperandV::ProgramId(cp.0)] + op.0,
                                            ),
                                            output: OutputV::Multiple(rp.0),
                                        },
                                        rp.1,
                                    ),
                                ),
                                Err(e) => Err(e),
                            },
                            Err(e) => Err(e),
                        },
                        Err(e) => Err(e),
                    },
                    Err(e) => Err(e),
                },
                Err(e) => Err(e),
            }
        },
        Err(e) => Err(e),
    }
}

/// Reads the trailing bytes of a unary, binary or ternary instruction at
/// `pos`: `n` operands, then a single output register.
pub open spec fn spec_read_simple_body(bytes: Seq<u8>, pos: int, op: Opcode, n: int) -> Result<
    (InstructionV, int),
    DecodeError,
> {
    match spec_read_operands(bytes, pos, n) {
        Ok(op_p) => match spec_read_register(bytes, op_p.1) {
            Ok(rp) => Ok(
                (
                    InstructionV { opcode: op, operands: op_p.0, output: OutputV::Single(rp.0) },
                    rp.1,
                ),
            ),
            Err(e) => Err(e),
        },
        Err(e) => Err(e),
    }
}

/// Reads the trailing bytes of an assert-class instruction at `pos`: two
/// operands and no output.
pub open spec fn spec_read_assert_body(bytes: Seq<u8>, pos: int, op: Opcode) -> Result<
    (InstructionV, int),
    DecodeError,
> {
    match spec_read_operands(bytes, pos, 2) {
        Ok(op_p) => Ok(
            (InstructionV { opcode: op, operands: op_p.0, output: OutputV::Empty }, op_p.1),
        ),
        Err(e) => Err(e),
    }
}

/// Reads an instruction at `pos`: a 16-bit opcode tag (out-of-range tags
/// are an `UnknownTag` error), then the trailing bytes that the opcode's
/// shape class fixes.
#[verifier::opaque]
pub open spec fn spec_read_instruction(bytes: Seq<u8>, pos: int) -> Result<
    (InstructionV, int),
    DecodeError,
> {
    match spec_read_u16(bytes, pos) {
        Ok(tp) => match spec_opcode_of_tag(tp.0) {
            Some(op) => match spec_opcode_class(op) {
                OpcodeClass::Unary => spec_read_simple_body(bytes, tp.1, op, 1),
                OpcodeClass::Binary => spec_read_simple_body(bytes, tp.1, op, 2),
                OpcodeClass::Assertion => spec_read_assert_body(bytes, tp.1, op),
                OpcodeClass::Ternary => spec_read_simple_body(bytes, tp.1, op, 3),
                OpcodeClass::Cast => spec_read_cast_body(bytes, tp.1),
                OpcodeClass::Call => spec_read_call_body(bytes, tp.1),
            },
            None => Err(spec_err(DecodeErrorKind::UnknownTag, pos)),
        },
        Err(e) => Err(e),
    }
}

/// Reads `n` instructions in sequence starting at `pos`.
pub open spec fn spec_read_instruction_list(bytes: Seq<u8>, pos: int, n: int) -> Result<
    (Seq<InstructionV>, int),
    DecodeError,
>
    decreases n,
{
    if n <= 0 {
        Ok((Seq::empty(), pos))
    } else {
        match spec_read_instruction(bytes, pos) {
            Ok(vp) => match spec_read_instruction_list(bytes, vp.1, n - 1) {
                Ok(lp) => Ok((seq![vp.0] + lp.0, lp.1)),
                Err(e) => Err(e),
            },
            Err(e) => Err(e),
        }
    }
}

/// Reads a 32-bit instruction count, then exactly that many instructions.
/// The count is trusted: extra instructions beyond it in the remaining
/// stream are not detected.
pub open spec fn spec_read_instructions(bytes: Seq<u8>, pos: int) -> Result<
    (Seq<InstructionV>, int),
    DecodeError,
> {
    match spec_read_u32(bytes, pos) {
        Ok(np) => spec_read_instruction_list(bytes, np.1, np.0 as int),
        Err(e) => Err(e),
    }
}

/// The assembly rendering of a call target or program reference.
pub open spec fn spec_locator_text(l: LocatorV) -> Seq<char> {
    match l {
        LocatorV::Internal(s) => s,
        LocatorV::External(t) => t.0 + "."@ + t.1 + "."@ + t.2,
    }
}

/// The assembly rendering of an operand.
pub open spec fn spec_operand_text(o: OperandV) -> Seq<char> {
    match o {
        OperandV::Literal(l) => spec_literal_text(l),
        OperandV::Register(r) => spec_register_text(r),
        OperandV::ProgramId(l) => spec_locator_text(l),
        OperandV::Caller => "caller"@,
    }
}

/// The assembly rendering of an optional operand list: the operands in
/// order, separated by single spaces; an absent list renders as nothing.
pub open spec fn spec_operands_text(ops: Option<Seq<OperandV>>) -> Seq<char> {
    match ops {
        Some(v) => spec_join(v.map_values(|o: OperandV| spec_operand_text(o)), " "@),
        None => Seq::empty(),
    }
}

/// The assembly rendering of an output shape.
pub open spec fn spec_output_text(o: OutputV) -> Seq<char> {
    match o {
        OutputV::Single(r) => spec_register_text(r),
        OutputV::Multiple(rs) => spec_join(
            rs.map_values(|r: RegisterV| spec_register_text(r)),
            " "@,
        ),
        OutputV::Cast(rt) => spec_register_text(rt.0) + " as "@ + spec_type_text(rt.1),
        OutputV::Empty => Seq::empty(),
    }
}

/// The assembly rendering of an instruction:
/// `<opcode> <operands> into <output>`.
pub open spec fn spec_instruction_text(i: InstructionV) -> Seq<char> {
    spec_opcode_text(i.opcode) + " "@ + spec_operands_text(i.operands) + " into "@
        + spec_output_text(i.output)
}
impl Operand {
    /// Reads an operand: a one-byte tag selecting a literal, a register,
    /// an external program reference or the caller marker.
    pub fn read(bytes: &mut ByteCode) -> (r: Result<Operand, DecodeError>)
        requires
            old(bytes).wf(),
        ensures
            final(bytes).wf(),
            final(bytes).data() == old(bytes).data(),
            old(bytes).pos() <= final(bytes).pos(),
            match spec_read_operand(old(bytes).data(), old(bytes).pos()) {
                Ok(vp) => r matches Ok(v) && v@ == vp.0 && final(bytes).pos() == vp.1,
                Err(e) => r == Err::<Operand, DecodeError>(e),
            },
    {
        let start = bytes.position();
        let tag = match bytes.read_u8() {
            Ok(v) => v,
            Err(e) => { return Err(e) },
        };
        if tag == 0 {
            match Literal::read(bytes) {
                Ok(l) => Ok(Operand::Literal(l)),
                Err(e) => Err(e),
            }
        } else if tag == 1 {
            match Register::read(bytes) {
                Ok(r) => Ok(Operand::Register(r)),
                Err(e) => Err(e),
            }
        } else if tag == 2 {
            match read_locator(bytes) {
                Ok(t) => Ok(Operand::ProgramId(Locator::External(t))),
                Err(e) => Err(e),
            }
        } else if tag == 3 {
            Ok(Operand::Caller)
        } else {
            Err(DecodeError { kind: DecodeErrorKind::UnknownTag, offset: start })
        }
    }

    /// The assembly rendering of this operand.
    pub fn assembly(&self) -> (r: String)
        ensures
            r@ == spec_operand_text(self@),
    {
        match self {
            Operand::Literal(l) => l.assembly(),
            Operand::Register(reg) => reg.assembly(),
            Operand::ProgramId(l) => l.assembly(),
            Operand::Caller => String::from_str("caller"),
        }
    }
}

impl Locator {
    /// The assembly rendering of a call target: the bare name of an
    /// internal function, or `program.network.resource` for an external
    /// one.
    pub fn assembly(&self) -> (r: String)
        ensures
            r@ == spec_locator_text(self@),
    {
        match self {
            Locator::Internal(s) => s.clone(),
            Locator::External(t) => {
                let mut s = t.0.clone();
                s.append(".");
                s.append(t.1.as_str());
                s.append(".");
                s.append(t.2.as_str());
                s
            },
        }
    }
}

/// Reads `n` operands in sequence.
#[verifier::loop_isolation(false)]
#[verifier::rlimit(60)]
fn read_operand_list(bytes: &mut ByteCode, n: u8) -> (r: Result<Vec<Operand>, DecodeError>)
    requires
        old(bytes).wf(),
    ensures
        final(bytes).wf(),
        final(bytes).data() == old(bytes).data(),
        old(bytes).pos() <= final(bytes).pos(),
        match spec_read_operand_list(old(bytes).data(), old(bytes).pos(), n as int) {
            Ok(vp) => r matches Ok(v) && v.deep_view() == vp.0 && final(bytes).pos() == vp.1,
            Err(e) => r == Err::<Vec<Operand>, DecodeError>(e),
        },
{
    let ghost d = old(bytes).data();
    let ghost p1 = old(bytes).pos();
    let mut out: Vec<Operand> = Vec::new();
    let mut i: usize = 0;
    proof {
        if spec_read_operand_list(d, p1, n as int) is Ok {
            let vp = spec_read_operand_list(d, p1, n as int)->Ok_0;
            assert(Seq::<OperandV>::empty() + vp.0 =~= vp.0);
        }
    }
    while i < n as usize
        invariant
            bytes.wf(),
            bytes.data() == d,
            i <= n as usize,
            p1 <= bytes.pos(),
            spec_read_operand_list(d, p1, n as int) == (match spec_read_operand_list(
                d,
                bytes.pos(),
                n as int - i,
            ) {
                Ok(vp) => Ok::<(Seq<OperandV>, int), DecodeError>((out.deep_view() + vp.0, vp.1)),
                Err(e) => Err::<(Seq<OperandV>, int), DecodeError>(e),
            }),
        decreases n as int - i,
    {
        match Operand::read(bytes) {
            Ok(v) => {
                let ghost vv = v@;
                proof {
                    if spec_read_operand_list(d, bytes.pos(), n as int - i - 1) is Ok {
                        let lp = spec_read_operand_list(d, bytes.pos(), n as int - i - 1)->Ok_0;
                        assert(out.deep_view() + (seq![vv] + lp.0) =~= (out.deep_view()
                            + seq![vv]) + lp.0);
                    }
                }
                let ghost prev = out.deep_view();
                out.push(v);
                proof {
                    assert(out.deep_view() =~= prev + seq![vv]);
                }
                i = i + 1;
            },
            Err(e) => { return Err(e) },
        }
    }
    proof {
        assert(out.deep_view() + Seq::<OperandV>::empty() =~= out.deep_view());
    }
    Ok(out)
}

/// Reads `n` registers in sequence.
#[verifier::loop_isolation(false)]
fn read_register_list(bytes: &mut ByteCode, n: u8) -> (r: Result<Vec<Register>, DecodeError>)
    requires
        old(bytes).wf(),
    ensures
        final(bytes).wf(),
        final(bytes).data() == old(bytes).data(),
        old(bytes).pos() <= final(bytes).pos(),
        match spec_read_register_list(old(bytes).data(), old(bytes).pos(), n as int) {
            Ok(vp) => r matches Ok(v) && v.deep_view() == vp.0 && final(bytes).pos() == vp.1,
            Err(e) => r == Err::<Vec<Register>, DecodeError>(e),
        },
{
    let ghost d = old(bytes).data();
    let ghost p1 = old(bytes).pos();
    let mut out: Vec<Register> = Vec::new();
    let mut i: usize = 0;
    proof {
        if spec_read_register_list(d, p1, n as int) is Ok {
            let vp = spec_read_register_list(d, p1, n as int)->Ok_0;
            assert(Seq::<RegisterV>::empty() + vp.0 =~= vp.0);
        }
    }
    while i < n as usize
        invariant
            bytes.wf(),
            bytes.data() == d,
            i <= n as usize,
            p1 <= bytes.pos(),
            spec_read_register_list(d, p1, n as int) == (match spec_read_register_list(
                d,
                bytes.pos(),
                n as int - i,
            ) {
                Ok(vp) => Ok::<(Seq<RegisterV>, int), DecodeError>((out.deep_view() + vp.0, vp.1)),
                Err(e) => Err::<(Seq<RegisterV>, int), DecodeError>(e),
            }),
        decreases n as int - i,
    {
        match Register::read(bytes) {
            Ok(v) => {
                let ghost vv = v@;
                proof {
                    if spec_read_register_list(d, bytes.pos(), n as int - i - 1) is Ok {
                        let lp = spec_read_register_list(d, bytes.pos(), n as int - i - 1)->Ok_0;
                        assert(out.deep_view() + (seq![vv] + lp.0) =~= (out.deep_view()
                            + seq![vv]) + lp.0);
                    }
                }
                let ghost prev = out.deep_view();
                out.push(v);
                proof {
                    assert(out.deep_view() =~= prev + seq![vv]);
                }
                i = i + 1;
            },
            Err(e) => { return Err(e) },
        }
    }
    proof {
        assert(out.deep_view() + Seq::<RegisterV>::empty() =~= out.deep_view());
    }
    Ok(out)
}

/// The operands of `v` rendered in order, separated by single spaces.
#[verifier::loop_isolation(false)]
fn operand_strings(v: &Vec<Operand>) -> (r: String)
    ensures
        r@ == spec_join(v.deep_view().map_values(|o: OperandV| spec_operand_text(o)), " "@),
{
    let mut strs: Vec<String> = Vec::new();
    let mut i: usize = 0;
    while i < v.len()
        invariant
            i <= v@.len(),
            strs.deep_view() == v.deep_view().subrange(0, i as int).map_values(
                |o: OperandV| spec_operand_text(o),
            ),
        decreases v@.len() - i,
    {
        let ghost prev = strs.deep_view();
        let s = v[i].assembly();
        let ghost sv = s@;
        strs.push(s);
        proof {
            assert(strs.deep_view() =~= prev + seq![sv]);
            assert(v.deep_view().subrange(0, i + 1).map_values(
                |o: OperandV| spec_operand_text(o),
            ) =~= prev + seq![sv]);
        }
        i = i + 1;
    }
    proof {
        assert(v.deep_view().subrange(0, v.deep_view().len() as int) =~= v.deep_view());
    }
    join_strings(&strs, " ")
}

/// The registers of `v` rendered in order, separated by single spaces.
#[verifier::loop_isolation(false)]
fn register_strings(v: &Vec<Register>) -> (r: String)
    ensures
        r@ == spec_join(v.deep_view().map_values(|x: RegisterV| spec_register_text(x)), " "@),
{
    let mut strs: Vec<String> = Vec::new();
    let mut i: usize = 0;
    while i < v.len()
        invariant
            i <= v@.len(),
            strs.deep_view() == v.deep_view().subrange(0, i as int).map_values(
                |x: RegisterV| spec_register_text(x),
            ),
        decreases v@.len() - i,
    {
        let ghost prev = strs.deep_view();
        let s = v[i].assembly();
        let ghost sv = s@;
        strs.push(s);
        proof {
            assert(strs.deep_view() =~= prev + seq![sv]);
            assert(v.deep_view().subrange(0, i + 1).map_values(
                |x: RegisterV| spec_register_text(x),
            ) =~= prev + seq![sv]);
        }
        i = i + 1;
    }
    proof {
        assert(v.deep_view().subrange(0, v.deep_view().len() as int) =~= v.deep_view());
    }
    join_strings(&strs, " ")
}

impl Output {
    /// The assembly rendering of this output shape.
    pub fn assembly(&self) -> (r: String)
        ensures
            r@ == spec_output_text(self@),
    {
        match self {
            Output::Single(reg) => reg.assembly(),
            Output::Multiple(regs) => register_strings(regs),
            Output::Cast(rt) => {
                let mut s = rt.0.assembly();
                s.append(" as ");
                let ty = rt.1.assembly();
                s.append(ty.as_str());
                s
            },
            Output::Empty => String::new(),
        }
    }
}

impl Instruction {
    /// Reads the trailing bytes of a cast instruction: an operand count
    /// (1 to 8), that many operands, a zero separator byte, the
    /// destination register, and the declared result type.
    fn read_cast_instruction(bytes: &mut ByteCode) -> (r: Result<Instruction, DecodeError>)
        requires
            old(bytes).wf(),
        ensures
            final(bytes).wf(),
            final(bytes).data() == old(bytes).data(),
            old(bytes).pos() <= final(bytes).pos(),
            match spec_read_cast_body(old(bytes).data(), old(bytes).pos()) {
                Ok(vp) => r matches Ok(v) && v@ == vp.0 && final(bytes).pos() == vp.1,
                Err(e) => r == Err::<Instruction, DecodeError>(e),
            },
    {
        let cstart = bytes.position();
        let count = match bytes.read_u8() {
            Ok(v) => v,
            Err(e) => { return Err(e) },
        };
        if count == 0 || count > 8 {
            return Err(
                DecodeError { kind: DecodeErrorKind::StructuralMismatch, offset: cstart },
            );
        }
        let operands = match read_operand_list(bytes, count) {
            Ok(v) => v,
            Err(e) => { return Err(e) },
        };
        let sstart = bytes.position();
        let sep = match bytes.read_u8() {
            Ok(v) => v,
            Err(e) => { return Err(e) },
        };
        if sep != 0 {
            return Err(
                DecodeError { kind: DecodeErrorKind::StructuralMismatch, offset: sstart },
            );
        }
        let reg = match Register::read(bytes) {
            Ok(v) => v,
            Err(e) => { return Err(e) },
        };
        let value_type = match read_plaintext_type(bytes) {
            Ok(t) => t,
            Err(e) => { return Err(e) },
        };
        Ok(
            Instruction {
                opcode: Opcode::Cast,
                operands: Some(operands),
                output: Output::Cast((reg, value_type)),
            },
        )
    }

    /// Reads the trailing bytes of a call instruction: the target, the
    /// input operands (the target prepended as a program reference) and
    /// the output registers.
    fn read_call_instruction(bytes: &mut ByteCode) -> (r: Result<Instruction, DecodeError>)
        requires
            old(bytes).wf(),
        ensures
            final(bytes).wf(),
            final(bytes).data() == old(bytes).data(),
            old(bytes).pos() <= final(bytes).pos(),
            match spec_read_call_body(old(bytes).data(), old(bytes).pos()) {
                Ok(vp) => r matches Ok(v) && v@ == vp.0 && final(bytes).pos() == vp.1,
                Err(e) => r == Err::<Instruction, DecodeError>(e),
            },
    {
        let tag = match bytes.read_u8() {
            Ok(v) => v,
            Err(e) => { return Err(e) },
        };
        let callee = if tag == 1 {
            match read_identifier(bytes) {
                Ok(s) => Locator::Internal(s),
                Err(e) => { return Err(e) },
            }
        } else {
            match read_locator(bytes) {
                Ok(t) => Locator::External(t),
                Err(e) => { return Err(e) },
            }
        };
        let num_inputs = match bytes.read_u8() {
            Ok(v) => v,
            Err(e) => { return Err(e) },
        };
        let mut rest = match read_operand_list(bytes, num_inputs) {
            Ok(v) => v,
            Err(e) => { return Err(e) },
        };
        let ghost cv = callee@;
        let ghost restv = rest.deep_view();
        let mut operands: Vec<Operand> = Vec::new();
        operands.push(Operand::ProgramId(callee));
        operands.append(&mut rest);
        proof {
            assert(operands.deep_view() =~= seq![OperandV::ProgramId(cv)] + restv);
        }
        let num_outputs = match bytes.read_u8() {
            Ok(v) => v,
            Err(e) => { return Err(e) },
        };
        let outs = match read_register_list(bytes, num_outputs) {
            Ok(v) => v,
            Err(e) => { return Err(e) },
        };
        Ok(
            Instruction {
                opcode: Opcode::Call,
                operands: Some(operands),
                output: Output::Multiple(outs),
            },
        )
    }

    /// Reads the trailing bytes of an assert-class instruction: two
    /// operands and no output.
    fn read_assert_instruction(bytes: &mut ByteCode, opcode: Opcode) -> (r: Result<
        Instruction,
        DecodeError,
    >)
        requires
            old(bytes).wf(),
        ensures
            final(bytes).wf(),
            final(bytes).data() == old(bytes).data(),
            old(bytes).pos() <= final(bytes).pos(),
            match spec_read_assert_body(old(bytes).data(), old(bytes).pos(), opcode) {
                Ok(vp) => r matches Ok(v) && v@ == vp.0 && final(bytes).pos() == vp.1,
                Err(e) => r == Err::<Instruction, DecodeError>(e),
            },
    {
        match read_operands(bytes, 2) {
            Ok(ops) => Ok(Instruction { opcode, operands: ops, output: Output::Empty }),
            Err(e) => Err(e),
        }
    }

    /// Reads the trailing bytes of a ternary instruction: three operands,
    /// then a single output register.
    fn read_ternary_instruction(bytes: &mut ByteCode, opcode: Opcode) -> (r: Result<
        Instruction,
        DecodeError,
    >)
        requires
            old(bytes).wf(),
        ensures
            final(bytes).wf(),
            final(bytes).data() == old(bytes).data(),
            old(bytes).pos() <= final(bytes).pos(),
            match spec_read_simple_body(old(bytes).data(), old(bytes).pos(), opcode, 3) {
                Ok(vp) => r matches Ok(v) && v@ == vp.0 && final(bytes).pos() == vp.1,
                Err(e) => r == Err::<Instruction, DecodeError>(e),
            },
    {
        Self::read_simple_instruction(bytes, opcode, 3)
    }

    /// Reads the trailing bytes of a unary instruction: one operand, then
    /// a single output register.
    fn read_unary_instruction(bytes: &mut ByteCode, opcode: Opcode) -> (r: Result<
        Instruction,
        DecodeError,
    >)
        requires
            old(bytes).wf(),
        ensures
            final(bytes).wf(),
            final(bytes).data() == old(bytes).data(),
            old(bytes).pos() <= final(bytes).pos(),
            match spec_read_simple_body(old(bytes).data(), old(bytes).pos(), opcode, 1) {
                Ok(vp) => r matches Ok(v) && v@ == vp.0 && final(bytes).pos() == vp.1,
                Err(e) => r == Err::<Instruction, DecodeError>(e),
            },
    {
        Self::read_simple_instruction(bytes, opcode, 1)
    }

    /// Reads the trailing bytes of a binary instruction: two operands,
    /// then a single output register.
    fn read_binary_instruction(bytes: &mut ByteCode, opcode: Opcode) -> (r: Result<
        Instruction,
        DecodeError,
    >)
        requires
            old(bytes).wf(),
        ensures
            final(bytes).wf(),
            final(bytes).data() == old(bytes).data(),
            old(bytes).pos() <= final(bytes).pos(),
            match spec_read_simple_body(old(bytes).data(), old(bytes).pos(), opcode, 2) {
                Ok(vp) => r matches Ok(v) && v@ == vp.0 && final(bytes).pos() == vp.1,
                Err(e) => r == Err::<Instruction, DecodeError>(e),
            },
    {
        Self::read_simple_instruction(bytes, opcode, 2)
    }

    /// Reads `n` operands and a single output register.
    fn read_simple_instruction(bytes: &mut ByteCode, opcode: Opcode, n: u8) -> (r: Result<
        Instruction,
        DecodeError,
    >)
        requires
            old(bytes).wf(),
        ensures
            final(bytes).wf(),
            final(bytes).data() == old(bytes).data(),
            old(bytes).pos() <= final(bytes).pos(),
            match spec_read_simple_body(old(bytes).data(), old(bytes).pos(), opcode, n as int) {
                Ok(vp) => r matches Ok(v) && v@ == vp.0 && final(bytes).pos() == vp.1,
                Err(e) => r == Err::<Instruction, DecodeError>(e),
            },
    {
        let ops = match read_operands(bytes, n) {
            Ok(v) => v,
            Err(e) => { return Err(e) },
        };
        match Register::read(bytes) {
            Ok(reg) => Ok(Instruction { opcode, operands: ops, output: Output::Single(reg) }),
            Err(e) => Err(e),
        }
    }

    /// Reads a 32-bit instruction count, then exactly that many
    /// instructions.  The count is trusted and returned beside the list.
    #[verifier::loop_isolation(false)]
    #[verifier::rlimit(60)]
    pub fn read_instructions(bytes: &mut ByteCode) -> (r: Result<
        (u32, Vec<Instruction>),
        DecodeError,
    >)
        requires
            old(bytes).wf(),
        ensures
            final(bytes).wf(),
            final(bytes).data() == old(bytes).data(),
            old(bytes).pos() <= final(bytes).pos(),
            match spec_read_instructions(old(bytes).data(), old(bytes).pos()) {
                Ok(vp) => r matches Ok(v) && v.0 as int == vp.0.len() && v.1.deep_view() == vp.0
                    && final(bytes).pos() == vp.1,
                Err(e) => r == Err::<(u32, Vec<Instruction>), DecodeError>(e),
            },
    {
        let ghost d = old(bytes).data();
        let num = match bytes.read_u32() {
            Ok(v) => v,
            Err(e) => { return Err(e) },
        };
        let ghost p1 = bytes.pos();
        let mut out: Vec<Instruction> = Vec::new();
        let mut i: usize = 0;
        proof {
            if spec_read_instruction_list(d, p1, num as int) is Ok {
                let vp = spec_read_instruction_list(d, p1, num as int)->Ok_0;
                assert(Seq::<InstructionV>::empty() + vp.0 =~= vp.0);
            }
        }
        while i < num as usize
            invariant
                bytes.wf(),
                bytes.data() == d,
                i <= num as usize,
                out@.len() == i,
                p1 <= bytes.pos(),
                spec_read_instruction_list(d, p1, num as int) == (match spec_read_instruction_list(
                    d,
                    bytes.pos(),
                    num as int - i,
                ) {
                    Ok(vp) => Ok::<(Seq<InstructionV>, int), DecodeError>(
                        (out.deep_view() + vp.0, vp.1),
                    ),
                    Err(e) => Err::<(Seq<InstructionV>, int), DecodeError>(e),
                }),
            decreases num as int - i,
        {
            match Instruction::read(bytes) {
                Ok(v) => {
                    let ghost vv = v@;
                    proof {
                        if spec_read_instruction_list(d, bytes.pos(), num as int - i - 1) is Ok {
                            let lp = spec_read_instruction_list(
                                d,
                                bytes.pos(),
                                num as int - i - 1,
                            )->Ok_0;
                            assert(out.deep_view() + (seq![vv] + lp.0) =~= (out.deep_view()
                                + seq![vv]) + lp.0);
                        }
                    }
                    let ghost prev = out.deep_view();
                    out.push(v);
                    proof {
                        assert(out.deep_view() =~= prev + seq![vv]);
                    }
                    i = i + 1;
                },
                Err(e) => { return Err(e) },
            }
        }
        proof {
            assert(out.deep_view() + Seq::<InstructionV>::empty() =~= out.deep_view());
        }
        Ok((num, out))
    }

    /// Reads one instruction: a 16-bit opcode tag, then the trailing bytes
    /// that the opcode's shape class fixes.
    pub fn read(bytes: &mut ByteCode) -> (r: Result<Instruction, DecodeError>)
        requires
            old(bytes).wf(),
        ensures
            final(bytes).wf(),
            final(bytes).data() == old(bytes).data(),
            old(bytes).pos() <= final(bytes).pos(),
            match spec_read_instruction(old(bytes).data(), old(bytes).pos()) {
                Ok(vp) => r matches Ok(v) && v@ == vp.0 && final(bytes).pos() == vp.1,
                Err(e) => r == Err::<Instruction, DecodeError>(e),
            },
    {
        proof {
            reveal(spec_read_instruction);
        }
        let start = bytes.position();
        let tag = match bytes.read_u16() {
            Ok(v) => v,
            Err(e) => { return Err(e) },
        };
        match Opcode::from_u16(tag) {
            Some(op) => match op.class_of() {
                OpcodeClass::Unary => Self::read_unary_instruction(bytes, op),
                OpcodeClass::Binary => Self::read_binary_instruction(bytes, op),
                OpcodeClass::Assertion => Self::read_assert_instruction(bytes, op),
                OpcodeClass::Ternary => Self::read_ternary_instruction(bytes, op),
                OpcodeClass::Cast => Self::read_cast_instruction(bytes),
                OpcodeClass::Call => Self::read_call_instruction(bytes),
            },
            None => Err(DecodeError { kind: DecodeErrorKind::UnknownTag, offset: start }),
        }
    }

    /// The assembly rendering of this instruction:
    /// `<opcode> <operands> into <output>`.
    pub fn assembly(&self) -> (r: String)
        ensures
            r@ == spec_instruction_text(self@),
    {
        let mut s = self.opcode.assembly();
        s.append(" ");
        let ops_text = match &self.operands {
            Some(v) => operand_strings(v),
            None => String::new(),
        };
        s.append(ops_text.as_str());
        s.append(" into ");
        let out_text = self.output.assembly();
        s.append(out_text.as_str());
        s
    }
}

/// Reads `n` operands as the optional operand list of an instruction: a
/// count of zero yields no list at all.
fn read_operands(bytes: &mut ByteCode, n: u8) -> (r: Result<Option<Vec<Operand>>, DecodeError>)
    requires
        old(bytes).wf(),
    ensures
        final(bytes).wf(),
        final(bytes).data() == old(bytes).data(),
        old(bytes).pos() <= final(bytes).pos(),
        match spec_read_operands(old(bytes).data(), old(bytes).pos(), n as int) {
            Ok(vp) => r matches Ok(v) && v.deep_view() == vp.0 && final(bytes).pos() == vp.1,
            Err(e) => r == Err::<Option<Vec<Operand>>, DecodeError>(e),
        },
{
    if n == 0 {
        Ok(None)
    } else {
        match read_operand_list(bytes, n) {
            Ok(v) => Ok(Some(v)),
            Err(e) => Err(e),
        }
    }
}

} // verus!

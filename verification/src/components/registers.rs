//! Register addressing and typed input/output register declarations.
//!
//! A register is a variable-length integer locator with an optional dotted
//! field-access path, present when the leading flag byte equals 1.  A typed
//! input or output register carries its declared value type and attribute;
//! its decode shape depends on the owning function's variant, and only the
//! plain-function shape is specified.

use vstd::prelude::*;

use crate::bytecode::spec_read_u8;
use crate::bytecode::ByteCode;
use crate::error::{spec_err, DecodeError, DecodeErrorKind};
use crate::text::{spec_dec_nat, spec_join, dec_u128, join_strings};
use crate::util::{
    spec_read_identifiers, spec_read_varint, read_identifiers, read_variable_length_int,
};
use crate::components::function::FunctionType;
use crate::components::types::{
    spec_read_function_register_type, spec_type_text, read_function_register_type, Attribute,
    Type, TypeV,
};
use vstd::string::StringExecFns;

verus! {

/// A virtual register slot: an integer locator, plus an optional ordered
/// list of field-access identifiers.
#[derive(Debug, Clone)]
pub struct Register {
    pub locator: u64,
    pub identifiers: Vec<String>,
}

/// The spec-level value of a `Register`.
pub struct RegisterV {
    pub locator: u64,
    pub identifiers: Seq<Seq<char>>,
}

impl View for Register {
    type V = RegisterV;

    open spec fn view(&self) -> RegisterV {
        RegisterV { locator: self.locator, identifiers: self.identifiers.deep_view() }
    }
}

impl DeepView for Register {
    type V = RegisterV;

    open spec fn deep_view(&self) -> RegisterV {
        self@
    }
}

/// Whether a typed register declares an input or an output.
#[derive(Debug, Clone, Copy)]
pub enum IOType {
    Input,
    Output,
}

/// A typed input or output register declaration.
#[derive(Debug, Clone)]
pub struct IoRegister {
    pub register: Register,
    pub io_type: IOType,
    pub function_type: FunctionType,
    pub value_type: Type,
    pub attribute_type: Attribute,
}

/// The spec-level value of an `IoRegister`.
pub struct IoRegisterV {
    pub register: RegisterV,
    pub io_type: IOType,
    pub function_type: FunctionType,
    pub value_type: TypeV,
    pub attribute_type: Attribute,
}

impl View for IoRegister {
    type V = IoRegisterV;

    open spec fn view(&self) -> IoRegisterV {
        IoRegisterV {
            register: self.register@,
            io_type: self.io_type,
            function_type: self.function_type,
            value_type: self.value_type@,
            attribute_type: self.attribute_type,
        }
    }
}

impl DeepView for IoRegister {
    type V = IoRegisterV;

    open spec fn deep_view(&self) -> IoRegisterV {
        self@
    }
}

/// Reads a register at `pos`: a flag byte, a variable-length locator, and,
/// when the flag equals 1, a counted list of field-access identifiers.
pub open spec fn spec_read_register(bytes: Seq<u8>, pos: int) -> Result<
    (RegisterV, int),
    DecodeError,
> {
    match spec_read_u8(bytes, pos) {
        Ok(fp) => match spec_read_varint(bytes, fp.1) {
            Ok(lp) => if fp.0 == 1 {
                match spec_read_identifiers(bytes, lp.1) {
                    Ok(ip) => Ok((RegisterV { locator: lp.0, identifiers: ip.0 }, ip.1)),
                    Err(e) => Err(e),
                }
            } else {
                Ok((RegisterV { locator: lp.0, identifiers: Seq::empty() }, lp.1))
            },
            Err(e) => Err(e),
        },
        Err(e) => Err(e),
    }
}

/// Reads a typed register declaration at `pos` for the given function
/// variant.  Only the plain-function shape is specified; closure and
/// finalize shapes fail with `UnsupportedConstruct`.
pub open spec fn spec_read_io_register(
    bytes: Seq<u8>,
    pos: int,
    function_type: FunctionType,
    io_type: IOType,
) -> Result<(IoRegisterV, int), DecodeError> {
    match function_type {
        FunctionType::Function => match spec_read_register(bytes, pos) {
            Ok(rp) => match spec_read_function_register_type(bytes, rp.1) {
                Ok(tp) => Ok(
                    (
                        IoRegisterV {
                            register: rp.0,
                            io_type,
                            function_type,
                            value_type: tp.0.0,
                            attribute_type: tp.0.1,
                        },
                        tp.1,
                    ),
                ),
                Err(e) => Err(e),
            },
            Err(e) => Err(e),
        },
        _ => Err(spec_err(DecodeErrorKind::UnsupportedConstruct, pos)),
    }
}

/// The assembly rendering of a register: `r<locator>`, with its dotted
/// field path appended when one is present.
pub open spec fn spec_register_text(r: RegisterV) -> Seq<char> {
    if r.identifiers.len() == 0 {
        "r"@ + spec_dec_nat(r.locator as int)
    } else {
        "r"@ + spec_dec_nat(r.locator as int) + "."@ + spec_join(r.identifiers, "."@)
    }
}

/// The keyword for an input or output declaration.
pub open spec fn spec_io_text(io: IOType) -> Seq<char> {
    match io {
        IOType::Input => "input"@,
        IOType::Output => "output"@,
    }
}

/// The assembly rendering of a typed register declaration:
/// `<input|output> <register> as <type>.<attribute>`.
pub open spec fn spec_io_register_text(r: IoRegisterV) -> Seq<char> {
    spec_io_text(r.io_type) + " "@ + spec_register_text(r.register) + " as "@ + spec_type_text(
        r.value_type,
    ) + "."@ + crate::components::types::spec_attribute_text(r.attribute_type)
}

/// The source-like rendering of a typed register declaration:
/// `<register>: <type>`.
pub open spec fn spec_io_register_leo(r: IoRegisterV) -> Seq<char> {
    spec_register_text(r.register) + ": "@ + spec_type_text(r.value_type)
}

impl Register {
    /// Reads a register: a flag byte, a variable-length locator, and, when
    /// the flag equals 1, a counted list of field-access identifiers.
    pub fn read(bytes: &mut ByteCode) -> (r: Result<Register, DecodeError>)
        requires
            old(bytes).wf(),
        ensures
            final(bytes).wf(),
            final(bytes).data() == old(bytes).data(),
            old(bytes).pos() <= final(bytes).pos(),
            match spec_read_register(old(bytes).data(), old(bytes).pos()) {
                Ok(vp) => r matches Ok(v) && v@ == vp.0 && final(bytes).pos() == vp.1,
                Err(e) => r == Err::<Register, DecodeError>(e),
            },
    {
        let f = match bytes.read_u8() {
            Ok(v) => v,
            Err(e) => { return Err(e) },
        };
        let locator = match read_variable_length_int(bytes) {
            Ok(v) => v,
            Err(e) => { return Err(e) },
        };
        if f == 1 {
            match read_identifiers(bytes) {
                Ok(ids) => Ok(Register { locator, identifiers: ids }),
                Err(e) => Err(e),
            }
        } else {
            let out = Register { locator, identifiers: Vec::new() };
            proof {
                assert(out@.identifiers =~= Seq::<Seq<char>>::empty());
            }
            Ok(out)
        }
    }

    /// The assembly rendering of this register.
    pub fn assembly(&self) -> (r: String)
        ensures
            r@ == spec_register_text(self@),
    {
        let mut s = String::from_str("r");
        let digits = dec_u128(self.locator as u128);
        s.append(digits.as_str());
        if self.identifiers.len() > 0 {
            s.append(".");
            let path = join_strings(&self.identifiers, ".");
            s.append(path.as_str());
        }
        s
    }
}

impl IoRegister {
    /// Reads a typed register declaration for the given function variant.
    /// Only the plain-function shape is specified; closure and finalize
    /// shapes fail with `UnsupportedConstruct`.
    pub fn read(bytes: &mut ByteCode, function_type: FunctionType, io_type: IOType) -> (r: Result<
        IoRegister,
        DecodeError,
    >)
        requires
            old(bytes).wf(),
        ensures
            final(bytes).wf(),
            final(bytes).data() == old(bytes).data(),
            old(bytes).pos() <= final(bytes).pos(),
            match spec_read_io_register(
                old(bytes).data(),
                old(bytes).pos(),
                function_type,
                io_type,
            ) {
                Ok(vp) => r matches Ok(v) && v@ == vp.0 && final(bytes).pos() == vp.1,
                Err(e) => r == Err::<IoRegister, DecodeError>(e),
            },
    {
        match function_type {
            FunctionType::Function => {
                let register = match Register::read(bytes) {
                    Ok(v) => v,
                    Err(e) => { return Err(e) },
                };
                match read_function_register_type(bytes) {
                    Ok(ta) => Ok(
                        IoRegister {
                            register,
                            io_type,
                            function_type,
                            value_type: ta.0,
                            attribute_type: ta.1,
                        },
                    ),
                    Err(e) => Err(e),
                }
            },
            _ => {
                Err(
                    DecodeError {
                        kind: DecodeErrorKind::UnsupportedConstruct,
                        offset: bytes.position(),
                    },
                )
            },
        }
    }

    /// The assembly rendering of this declaration:
    /// `<input|output> <register> as <type>.<attribute>`.
    pub fn assembly(&self) -> (r: String)
        ensures
            r@ == spec_io_register_text(self@),
    {
        let mut s = match self.io_type {
            IOType::Input => String::from_str("input"),
            IOType::Output => String::from_str("output"),
        };
        s.append(" ");
        let reg = self.register.assembly();
        s.append(reg.as_str());
        s.append(" as ");
        let ty = self.value_type.assembly();
        s.append(ty.as_str());
        s.append(".");
        let attr = self.attribute_type.assembly();
        s.append(attr.as_str());
        s
    }

    /// The source-like rendering of this declaration: `<register>: <type>`.
    pub fn leo(&self) -> (r: String)
        ensures
            r@ == spec_io_register_leo(self@),
    {
        let mut s = self.register.assembly();
        s.append(": ");
        let ty = self.value_type.assembly();
        s.append(ty.as_str());
        s
    }
}

} // verus!

//! Functions: the component kind that owns instructions.
//!
//! A function is decoded as its name, a 16-bit count of typed input
//! registers, a counted instruction sequence, a 16-bit count of typed
//! output registers, and one trailing flag byte that is read and
//! discarded.  The function variant (plain function or closure) selects
//! the register-declaration grammar; only the plain-function grammar is
//! specified, so decoding closure or finalize registers fails with
//! `UnsupportedConstruct`.

use vstd::prelude::*;

use crate::bytecode::spec_read_u16;
use crate::bytecode::{spec_read_u8, ByteCode};
use crate::error::DecodeError;
use crate::text::{spec_join, join_strings};
use crate::util::{spec_read_identifier, read_identifier};
use crate::components::instructions::{
    spec_instruction_text, spec_read_instructions, Instruction, InstructionV,
};
use crate::components::registers::{
    spec_io_register_leo, spec_io_register_text, spec_read_io_register, IOType, IoRegister,
    IoRegisterV,
};
use vstd::string::StringExecFns;

verus! {

/// The variant of a function, which selects its register grammar.
#[derive(Debug, Clone, Copy)]
pub enum FunctionType {
    /// A plain function.
    Function,
    /// A closure; its register grammar is not specified and decoding one
    /// fails with `UnsupportedConstruct`.
    Closure,
    /// A finalize block; its register grammar is not specified and
    /// decoding one fails with `UnsupportedConstruct`.
    Finalize,
    /// A placeholder for a not-yet-decoded function.
    Uninitialized,
}

/// A decoded function: its name, variant, typed inputs, instruction
/// sequence and typed outputs, with the counts carried by the bytecode.
#[derive(Debug)]
pub struct Function {
    pub name: String,
    pub function_type: FunctionType,
    pub num_inputs: u16,
    pub inputs: Vec<IoRegister>,
    pub num_instructions: u32,
    pub instructions: Vec<Instruction>,
    pub num_outputs: u16,
    pub outputs: Vec<IoRegister>,
}

/// The spec-level value of a `Function`.
pub struct FunctionV {
    pub name: Seq<char>,
    pub function_type: FunctionType,
    pub num_inputs: u16,
    pub inputs: Seq<IoRegisterV>,
    pub num_instructions: u32,
    pub instructions: Seq<InstructionV>,
    pub num_outputs: u16,
    pub outputs: Seq<IoRegisterV>,
}

impl View for Function {
    type V = FunctionV;

    open spec fn view(&self) -> FunctionV {
        FunctionV {
            name: self.name@,
            function_type: self.function_type,
            num_inputs: self.num_inputs,
            inputs: self.inputs.deep_view(),
            num_instructions: self.num_instructions,
            instructions: self.instructions.deep_view(),
            num_outputs: self.num_outputs,
            outputs: self.outputs.deep_view(),
        }
    }
}

impl DeepView for Function {
    type V = FunctionV;

    open spec fn deep_view(&self) -> FunctionV {
        self@
    }
}

/// Reads `n` typed register declarations in sequence starting at `pos`.
pub open spec fn spec_read_io_register_list(
    bytes: Seq<u8>,
    pos: int,
    n: int,
    function_type: FunctionType,
    io_type: IOType,
) -> Result<(Seq<IoRegisterV>, int), DecodeError>
    decreases n,
{
    if n <= 0 {
        Ok((Seq::empty(), pos))
    } else {
        match spec_read_io_register(bytes, pos, function_type, io_type) {
            Ok(vp) => match spec_read_io_register_list(bytes, vp.1, n - 1, function_type, io_type) {
                Ok(lp) => Ok((seq![vp.0] + lp.0, lp.1)),
                Err(e) => Err(e),
            },
            Err(e) => Err(e),
        }
    }
}

/// Reads a function at `pos` for the given variant: name, a 16-bit input
/// count and that many typed inputs, the instruction sequence, a 16-bit
/// output count and that many typed outputs, then one trailing flag byte.
#[verifier::opaque]
pub open spec fn spec_read_function(bytes: Seq<u8>, pos: int, function_type: FunctionType) -> Result<
    (FunctionV, int),
    DecodeError,
> {
    match spec_read_identifier(bytes, pos) {
        Ok(np) => match spec_read_u16(bytes, np.1) {
            Ok(icp) => match spec_read_io_register_list(
                bytes,
                icp.1,
                icp.0 as int,
                function_type,
                IOType::Input,
            ) {
                Ok(ip) => match spec_read_instructions(bytes, ip.1) {
                    Ok(sp) => match spec_read_u16(bytes, sp.1) {
                        Ok(ocp) => match spec_read_io_register_list(
                            bytes,
                            ocp.1,
                            ocp.0 as int,
                            function_type,
                            IOType::Output,
                        ) {
                            Ok(op) => match spec_read_u8(bytes, op.1) {
                                Ok(fp) => Ok(
                                    (
                                        FunctionV {
                                            name: np.0,
                                            function_type,
                                            num_inputs: icp.0,
                                            inputs: ip.0,
                                            num_instructions: sp.0.len() as u32,
                                            instructions: sp.0,
                                            num_outputs: ocp.0,
                                            outputs: op.0,
                                        },
                                        fp.1,
                                    ),
                                ),
                                Err(e) => Err(e),
                            },
                            Err(e) => Err(e),
                        },
                        Err(e) => Err(e),
                    },
                    Err(e) => Err(e),
                },
                Err(e) => Err(e),
            },
            Err(e) => Err(e),
        },
        Err(e) => Err(e),
    }
}

/// One tab-indented line per typed register declaration.
pub open spec fn spec_io_lines(rs: Seq<IoRegisterV>) -> Seq<char>
    decreases rs.len(),
{
    if rs.len() == 0 {
        Seq::empty()
    } else {
        spec_io_lines(rs.drop_last()) + "\t"@ + spec_io_register_text(rs.last()) + "\n"@
    }
}

/// The assembly rendering of a function: a `function <name>` header line,
/// one indented line per input, the instructions one per indented line,
/// and one indented line per output.
pub open spec fn spec_function_text(f: FunctionV) -> Seq<char> {
    "function "@ + f.name + "\n"@ + spec_io_lines(f.inputs) + spec_join(
        f.instructions.map_values(|i: InstructionV| "\t"@ + spec_instruction_text(i)),
        "\n"@,
    ) + "\n"@ + spec_io_lines(f.outputs)
}

/// The source-like rendering of a function: a parenthesised input list
/// and a braced body.  The body lines reuse the assembly form of each
/// instruction; this projection is a best-effort reconstruction, not a
/// full source recovery.
pub open spec fn spec_function_leo(f: FunctionV) -> Seq<char> {
    "function "@ + f.name + "("@ + spec_join(
        f.inputs.map_values(|r: IoRegisterV| spec_io_register_leo(r)),
        ", "@,
    ) + ") {\n"@ + spec_join(
        f.instructions.map_values(|i: InstructionV| "\t"@ + spec_instruction_text(i)),
        "\n"@,
    ) + "\n}\n"@
}

/// The instructions of `v`, each as one tab-indented line, joined by
/// newlines.
#[verifier::loop_isolation(false)]
fn instruction_lines(v: &Vec<Instruction>) -> (r: String)
    ensures
        r@ == spec_join(
            v.deep_view().map_values(|i: InstructionV| "\t"@ + spec_instruction_text(i)),
            "\n"@,
        ),
{
    let mut strs: Vec<String> = Vec::new();
    let mut i: usize = 0;
    while i < v.len()
        invariant
            i <= v@.len(),
            strs.deep_view() == v.deep_view().subrange(0, i as int).map_values(
                |x: InstructionV| "\t"@ + spec_instruction_text(x),
            ),
        decreases v@.len() - i,
    {
        let ghost prev = strs.deep_view();
        let mut line = String::from_str("\t");
        let text = v[i].assembly();
        line.append(text.as_str());
        let ghost sv = line@;
        strs.push(line);
        proof {
            assert(strs.deep_view() =~= prev + seq![sv]);
            assert(v.deep_view().subrange(0, i + 1).map_values(
                |x: InstructionV| "\t"@ + spec_instruction_text(x),
            ) =~= prev + seq![sv]);
        }
        i = i + 1;
    }
    proof {
        assert(v.deep_view().subrange(0, v.deep_view().len() as int) =~= v.deep_view());
    }
    join_strings(&strs, "\n")
}

impl Function {
    /// Reads a function for the given variant: name, typed inputs, the
    /// instruction sequence, typed outputs, then one trailing flag byte.
    #[verifier::loop_isolation(false)]
    #[verifier::rlimit(60)]
    pub fn read(bytes: &mut ByteCode, function_type: FunctionType) -> (r: Result<
        Function,
        DecodeError,
    >)
        requires
            old(bytes).wf(),
        ensures
            final(bytes).wf(),
            final(bytes).data() == old(bytes).data(),
            old(bytes).pos() <= final(bytes).pos(),
            match spec_read_function(old(bytes).data(), old(bytes).pos(), function_type) {
                Ok(vp) => r matches Ok(v) && v@ == vp.0 && final(bytes).pos() == vp.1,
                Err(e) => r == Err::<Function, DecodeError>(e),
            },
    {
        proof {
            reveal(spec_read_function);
        }
        let ghost d = old(bytes).data();
        let name = match read_identifier(bytes) {
            Ok(v) => v,
            Err(e) => { return Err(e) },
        };
        let num_inputs = match bytes.read_u16() {
            Ok(v) => v,
            Err(e) => { return Err(e) },
        };
        let inputs = match Self::read_io_registers(bytes, num_inputs, function_type, IOType::Input) {
            Ok(v) => v,
            Err(e) => { return Err(e) },
        };
        let counted = match Instruction::read_instructions(bytes) {
            Ok(v) => v,
            Err(e) => { return Err(e) },
        };
        let num_outputs = match bytes.read_u16() {
            Ok(v) => v,
            Err(e) => { return Err(e) },
        };
        let outputs = match Self::read_io_registers(
            bytes,
            num_outputs,
            function_type,
            IOType::Output,
        ) {
            Ok(v) => v,
            Err(e) => { return Err(e) },
        };
        match bytes.read_u8() {
            Ok(_) => (),
            Err(e) => { return Err(e) },
        };
        Ok(
            Function {
                name,
                function_type,
                num_inputs,
                inputs,
                num_instructions: counted.0,
                instructions: counted.1,
                num_outputs,
                outputs,
            },
        )
    }

    /// Reads `n` typed register declarations in sequence.
    #[verifier::loop_isolation(false)]
    #[verifier::rlimit(60)]
    fn read_io_registers(
        bytes: &mut ByteCode,
        n: u16,
        function_type: FunctionType,
        io_type: IOType,
    ) -> (r: Result<Vec<IoRegister>, DecodeError>)
        requires
            old(bytes).wf(),
        ensures
            final(bytes).wf(),
            final(bytes).data() == old(bytes).data(),
            old(bytes).pos() <= final(bytes).pos(),
            match spec_read_io_register_list(
                old(bytes).data(),
                old(bytes).pos(),
                n as int,
                function_type,
                io_type,
            ) {
                Ok(vp) => r matches Ok(v) && v.deep_view() == vp.0 && final(bytes).pos() == vp.1,
                Err(e) => r == Err::<Vec<IoRegister>, DecodeError>(e),
            },
    {
        let ghost d = old(bytes).data();
        let ghost p1 = old(bytes).pos();
        let mut out: Vec<IoRegister> = Vec::new();
        let mut i: usize = 0;
        proof {
            if spec_read_io_register_list(d, p1, n as int, function_type, io_type) is Ok {
                let vp = spec_read_io_register_list(d, p1, n as int, function_type, io_type)->Ok_0;
                assert(Seq::<IoRegisterV>::empty() + vp.0 =~= vp.0);
            }
        }
        while i < n as usize
            invariant
                bytes.wf(),
                bytes.data() == d,
                i <= n as usize,
                p1 <= bytes.pos(),
                spec_read_io_register_list(d, p1, n as int, function_type, io_type) == (match
                    spec_read_io_register_list(
                    d,
                    bytes.pos(),
                    n as int - i,
                    function_type,
                    io_type,
                ) {
                    Ok(vp) => Ok::<(Seq<IoRegisterV>, int), DecodeError>(
                        (out.deep_view() + vp.0, vp.1),
                    ),
                    Err(e) => Err::<(Seq<IoRegisterV>, int), DecodeError>(e),
                }),
            decreases n as int - i,
        {
            match IoRegister::read(bytes, function_type, io_type) {
                Ok(v) => {
                    let ghost vv = v@;
                    proof {
                        if spec_read_io_register_list(
                            d,
                            bytes.pos(),
                            n as int - i - 1,
                            function_type,
                            io_type,
                        ) is Ok {
                            let lp = spec_read_io_register_list(
                                d,
                                bytes.pos(),
                                n as int - i - 1,
                                function_type,
                                io_type,
                            )->Ok_0;
                            assert(out.deep_view() + (seq![vv] + lp.0) =~= (out.deep_view()
                                + seq![vv]) + lp.0);
                        }
                    }
                    let ghost prev = out.deep_view();
                    out.push(v);
                    proof {
                        assert(out.deep_view() =~= prev + seq![vv]);
                    }
                    i = i + 1;
                },
                Err(e) => { return Err(e) },
            }
        }
        proof {
            assert(out.deep_view() + Seq::<IoRegisterV>::empty() =~= out.deep_view());
        }
        Ok(out)
    }

    /// The assembly rendering of this function.
    #[verifier::loop_isolation(false)]
    pub fn assembly(&self) -> (r: String)
        ensures
            r@ == spec_function_text(self@),
    {
        let mut s = String::from_str("function ");
        s.append(self.name.as_str());
        s.append("\n");
        let mut i: usize = 0;
        while i < self.inputs.len()
            invariant
                i <= self.inputs@.len(),
                s@ == "function "@ + self@.name + "\n"@ + spec_io_lines(
                    self.inputs.deep_view().subrange(0, i as int),
                ),
            decreases self.inputs@.len() - i,
        {
            let ghost prev = s@;
            s.append("\t");
            let line = self.inputs[i].assembly();
            s.append(line.as_str());
            s.append("\n");
            proof {
                let pre = self.inputs.deep_view().subrange(0, i + 1);
                assert(pre.drop_last() =~= self.inputs.deep_view().subrange(0, i as int));
                assert(s@ =~= "function "@ + self@.name + "\n"@ + (spec_io_lines(pre.drop_last())
                    + "\t"@ + spec_io_register_text(pre.last()) + "\n"@));
            }
            i = i + 1;
        }
        proof {
            assert(self.inputs.deep_view().subrange(0, self.inputs.deep_view().len() as int)
                =~= self.inputs.deep_view());
        }
        let body = instruction_lines(&self.instructions);
        s.append(body.as_str());
        s.append("\n");
        let ghost mid = s@;
        let mut j: usize = 0;
        while j < self.outputs.len()
            invariant
                j <= self.outputs@.len(),
                s@ == mid + spec_io_lines(self.outputs.deep_view().subrange(0, j as int)),
            decreases self.outputs@.len() - j,
        {
            let ghost prev = s@;
            s.append("\t");
            let line = self.outputs[j].assembly();
            s.append(line.as_str());
            s.append("\n");
            proof {
                let pre = self.outputs.deep_view().subrange(0, j + 1);
                assert(pre.drop_last() =~= self.outputs.deep_view().subrange(0, j as int));
                assert(s@ =~= mid + (spec_io_lines(pre.drop_last()) + "\t"@
                    + spec_io_register_text(pre.last()) + "\n"@));
            }
            j = j + 1;
        }
        proof {
            assert(self.outputs.deep_view().subrange(0, self.outputs.deep_view().len() as int)
                =~= self.outputs.deep_view());
        }
        s
    }

    /// The source-like rendering of this function: a parenthesised input
    /// list and a braced body of assembly-form instruction lines.
    #[verifier::loop_isolation(false)]
    pub fn leo(&self) -> (r: String)
        ensures
            r@ == spec_function_leo(self@),
    {
        let mut s = String::from_str("function ");
        s.append(self.name.as_str());
        s.append("(");
        let mut strs: Vec<String> = Vec::new();
        let mut i: usize = 0;
        while i < self.inputs.len()
            invariant
                i <= self.inputs@.len(),
                strs.deep_view() == self.inputs.deep_view().subrange(0, i as int).map_values(
                    |x: IoRegisterV| spec_io_register_leo(x),
                ),
            decreases self.inputs@.len() - i,
        {
            let ghost prev = strs.deep_view();
            let line = self.inputs[i].leo();
            let ghost sv = line@;
            strs.push(line);
            proof {
                assert(strs.deep_view() =~= prev + seq![sv]);
                assert(self.inputs.deep_view().subrange(0, i + 1).map_values(
                    |x: IoRegisterV| spec_io_register_leo(x),
                ) =~= prev + seq![sv]);
            }
            i = i + 1;
        }
        proof {
            assert(self.inputs.deep_view().subrange(0, self.inputs.deep_view().len() as int)
                =~= self.inputs.deep_view());
        }
        let args = join_strings(&strs, ", ");
        s.append(args.as_str());
        s.append(") {\n");
        let body = instruction_lines(&self.instructions);
        s.append(body.as_str());
        s.append("\n}\n");
        s
    }
}

} // verus!

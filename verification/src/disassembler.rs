//! The program decoder and the two text renderers.
//!
//! A program is decoded in one forward pass: a 16-bit version, the
//! program id, a counted import list, then a counted component sequence
//! in which each component carries a one-byte kind tag (mapping, struct,
//! record, closure or function) and is dispatched to its own decoder.
//! Components are partitioned by kind into four lists in stream order.
//! The two renderers are independent read-only traversals of the decoded
//! tree: an assembly-style listing, and a best-effort source-like
//! reconstruction of structs and functions.

use vstd::prelude::*;

use crate::bytecode::{spec_read_u16, spec_read_u8, ByteCode};
use crate::error::{spec_err, DecodeError, DecodeErrorKind};
use crate::text::{spec_join, join_strings};
use crate::util::{spec_read_programid, read_programid};
use crate::components::function::{
    spec_function_leo, spec_function_text, spec_read_function, Function, FunctionType, FunctionV,
};
use crate::components::mapping::{spec_mapping_text, spec_read_mapping, Mapping, MappingV};
use crate::components::records::{spec_read_record, spec_record_text, Record, RecordV};
use crate::components::structs::{
    spec_read_struct, spec_struct_leo, spec_struct_text, Struct, StructV,
};
use vstd::string::StringExecFns;

verus! {

/// The spec-level value of a fully decoded program.
pub struct ProgramV {
    pub version: u16,
    pub name: Seq<char>,
    pub network: Seq<char>,
    pub num_imports: u8,
    pub imports: Seq<(Seq<char>, Seq<char>)>,
    pub num_components: u16,
    pub mappings: Seq<MappingV>,
    pub structs: Seq<StructV>,
    pub records: Seq<RecordV>,
    pub functions: Seq<FunctionV>,
}

/// The decoded state before any bytes are read.
pub open spec fn spec_empty_program() -> ProgramV {
    ProgramV {
        version: 0,
        name: Seq::empty(),
        network: Seq::empty(),
        num_imports: 0,
        imports: Seq::empty(),
        num_components: 0,
        mappings: Seq::empty(),
        structs: Seq::empty(),
        records: Seq::empty(),
        functions: Seq::empty(),
    }
}

/// Reads `n` imports (program ids) in sequence starting at `pos`.
pub open spec fn spec_read_import_list(bytes: Seq<u8>, pos: int, n: int) -> Result<
    (Seq<(Seq<char>, Seq<char>)>, int),
    DecodeError,
>
    decreases n,
{
    if n <= 0 {
        Ok((Seq::empty(), pos))
    } else {
        match spec_read_programid(bytes, pos) {
            Ok(vp) => match spec_read_import_list(bytes, vp.1, n - 1) {
                Ok(lp) => Ok((seq![vp.0] + lp.0, lp.1)),
                Err(e) => Err(e),
            },
            Err(e) => Err(e),
        }
    }
}

/// Reads `n` components starting at `pos`, each a one-byte kind tag
/// (0 mapping, 1 struct, 2 record, 3 closure, 4 function; anything else
/// is an `UnknownTag` error) followed by the component body, partitioned
/// into the four kind lists in stream order.
pub open spec fn spec_read_component_list(bytes: Seq<u8>, pos: int, n: int) -> Result<
    ((Seq<MappingV>, Seq<StructV>, Seq<RecordV>, Seq<FunctionV>), int),
    DecodeError,
>
    decreases n,
{
    if n <= 0 {
        Ok(((Seq::empty(), Seq::empty(), Seq::empty(), Seq::empty()), pos))
    } else {
        match spec_read_u8(bytes, pos) {
            Ok(kp) => if kp.0 == 0 {
                match spec_read_mapping(bytes, kp.1) {
                    Ok(mp) => match spec_read_component_list(bytes, mp.1, n - 1) {
                        Ok(rp) => Ok(
                            ((seq![mp.0] + rp.0.0, rp.0.1, rp.0.2, rp.0.3), rp.1),
                        ),
                        Err(e) => Err(e),
                    },
                    Err(e) => Err(e),
                }
            } else if kp.0 == 1 {
                match spec_read_struct(bytes, kp.1) {
                    Ok(sp) => match spec_read_component_list(bytes, sp.1, n - 1) {
                        Ok(rp) => Ok(
                            ((rp.0.0, seq![sp.0] + rp.0.1, rp.0.2, rp.0.3), rp.1),
                        ),
                        Err(e) => Err(e),
                    },
                    Err(e) => Err(e),
                }
            } else if kp.0 == 2 {
                match spec_read_record(bytes, kp.1) {
                    Ok(cp) => match spec_read_component_list(bytes, cp.1, n - 1) {
                        Ok(rp) => Ok(
                            ((rp.0.0, rp.0.1, seq![cp.0] + rp.0.2, rp.0.3), rp.1),
                        ),
                        Err(e) => Err(e),
                    },
                    Err(e) => Err(e),
                }
            } else if kp.0 == 3 {
                match spec_read_function(bytes, kp.1, FunctionType::Closure) {
                    Ok(fp) => match spec_read_component_list(bytes, fp.1, n - 1) {
                        Ok(rp) => Ok(
                            ((rp.0.0, rp.0.1, rp.0.2, seq![fp.0] + rp.0.3), rp.1),
                        ),
                        Err(e) => Err(e),
                    },
                    Err(e) => Err(e),
                }
            } else if kp.0 == 4 {
                match spec_read_function(bytes, kp.1, FunctionType::Function) {
                    Ok(fp) => match spec_read_component_list(bytes, fp.1, n - 1) {
                        Ok(rp) => Ok(
                            ((rp.0.0, rp.0.1, rp.0.2, seq![fp.0] + rp.0.3), rp.1),
                        ),
                        Err(e) => Err(e),
                    },
                    Err(e) => Err(e),
                }
            } else {
                Err(spec_err(DecodeErrorKind::UnknownTag, pos))
            },
            Err(e) => Err(e),
        }
    }
}

/// Reads a whole program at `pos`: a 16-bit version, the program id, a
/// one-byte import count and that many imports, then a 16-bit component
/// count and that many components.  Trailing bytes beyond the last
/// component are not read.
pub open spec fn spec_read_program(bytes: Seq<u8>, pos: int) -> Result<(ProgramV, int), DecodeError> {
    match spec_read_u16(bytes, pos) {
        Ok(vp) => match spec_read_programid(bytes, vp.1) {
            Ok(pp) => match spec_read_u8(bytes, pp.1) {
                Ok(ip) => match spec_read_import_list(bytes, ip.1, ip.0 as int) {
                    Ok(lp) => match spec_read_u16(bytes, lp.1) {
                        Ok(cp) => match spec_read_component_list(bytes, cp.1, cp.0 as int) {
                            Ok(mp) => Ok(
                                (
                                    ProgramV {
                                        version: vp.0,
                                        name: pp.0.0,
                                        network: pp.0.1,
                                        num_imports: ip.0,
                                        imports: lp.0,
                                        num_components: cp.0,
                                        mappings: mp.0.0,
                                        structs: mp.0.1,
                                        records: mp.0.2,
                                        functions: mp.0.3,
                                    },
                                    mp.1,
                                ),
                            ),
                            Err(e) => Err(e),
                        },
                        Err(e) => Err(e),
                    },
                    Err(e) => Err(e),
                },
                Err(e) => Err(e),
            },
            Err(e) => Err(e),
        },
        Err(e) => Err(e),
    }
}

/// The assembly rendering of a program: the header line, then the
/// mappings, records, structs and functions, each group separated by
/// blank lines.
pub open spec fn spec_program_text(p: ProgramV) -> Seq<char> {
    "program "@ + p.name + "."@ + p.network + "\n\n"@ + spec_join(
        p.mappings.map_values(|m: MappingV| spec_mapping_text(m)),
        "\n\n"@,
    ) + "\n"@ + spec_join(p.records.map_values(|r: RecordV| spec_record_text(r)), "\n\n"@) + "\n"@
        + spec_join(p.structs.map_values(|s: StructV| spec_struct_text(s)), "\n\n"@) + "\n"@
        + spec_join(p.functions.map_values(|f: FunctionV| spec_function_text(f)), "\n\n"@) + "\n"@
}

/// The source-like rendering of a program: its structs, then its
/// functions.  Mappings and records contribute no source-like text; this
/// projection is explicitly partial.
pub open spec fn spec_program_leo(p: ProgramV) -> Seq<char> {
    spec_join(p.structs.map_values(|s: StructV| spec_struct_leo(s)), "\n\n"@) + "\n"@ + spec_join(
        p.functions.map_values(|f: FunctionV| spec_function_leo(f)),
        "\n\n"@,
    ) + "\n"@
}

/// The program decoder: a byte cursor together with the decoded header
/// and component lists.
#[derive(Debug)]
pub struct Disassembler {
    bytes: ByteCode,
    version: u16,
    program_name: String,
    network: String,
    num_imports: u8,
    imports: Vec<(String, String)>,
    num_components: u16,
    mappings: Vec<Mapping>,
    structs: Vec<Struct>,
    records: Vec<Record>,
    functions: Vec<Function>,
}

/// The mappings of `v` rendered in order, separated by blank lines.
#[verifier::loop_isolation(false)]
fn mapping_block(v: &Vec<Mapping>) -> (r: String)
    ensures
        r@ == spec_join(v.deep_view().map_values(|m: MappingV| spec_mapping_text(m)), "\n\n"@),
{
    let mut strs: Vec<String> = Vec::new();
    let mut i: usize = 0;
    while i < v.len()
        invariant
            i <= v@.len(),
            strs.deep_view() == v.deep_view().subrange(0, i as int).map_values(
                |m: MappingV| spec_mapping_text(m),
            ),
        decreases v@.len() - i,
    {
        let ghost prev = strs.deep_view();
        let s = v[i].assembly();
        let ghost sv = s@;
        strs.push(s);
        proof {
            assert(strs.deep_view() =~= prev + seq![sv]);
            assert(v.deep_view().subrange(0, i + 1).map_values(
                |m: MappingV| spec_mapping_text(m),
            ) =~= prev + seq![sv]);
        }
        i = i + 1;
    }
    proof {
        assert(v.deep_view().subrange(0, v.deep_view().len() as int) =~= v.deep_view());
    }
    join_strings(&strs, "\n\n")
}

/// The records of `v` rendered in order, separated by blank lines.
#[verifier::loop_isolation(false)]
fn record_block(v: &Vec<Record>) -> (r: String)
    ensures
        r@ == spec_join(v.deep_view().map_values(|x: RecordV| spec_record_text(x)), "\n\n"@),
{
    let mut strs: Vec<String> = Vec::new();
    let mut i: usize = 0;
    while i < v.len()
        invariant
            i <= v@.len(),
            strs.deep_view() == v.deep_view().subrange(0, i as int).map_values(
                |x: RecordV| spec_record_text(x),
            ),
        decreases v@.len() - i,
    {
        let ghost prev = strs.deep_view();
        let s = v[i].assembly();
        let ghost sv = s@;
        strs.push(s);
        proof {
            assert(strs.deep_view() =~= prev + seq![sv]);
            assert(v.deep_view().subrange(0, i + 1).map_values(
                |x: RecordV| spec_record_text(x),
            ) =~= prev + seq![sv]);
        }
        i = i + 1;
    }
    proof {
        assert(v.deep_view().subrange(0, v.deep_view().len() as int) =~= v.deep_view());
    }
    join_strings(&strs, "\n\n")
}

/// The structs of `v` rendered in order, separated by blank lines; the
/// source-like form when `leo` asks for it.
#[verifier::loop_isolation(false)]
fn struct_block(v: &Vec<Struct>, leo: bool) -> (r: String)
    ensures
        leo ==> r@ == spec_join(
            v.deep_view().map_values(|x: StructV| spec_struct_leo(x)),
            "\n\n"@,
        ),
        !leo ==> r@ == spec_join(
            v.deep_view().map_values(|x: StructV| spec_struct_text(x)),
            "\n\n"@,
        ),
{
    let mut strs: Vec<String> = Vec::new();
    let mut i: usize = 0;
    while i < v.len()
        invariant
            i <= v@.len(),
            leo ==> strs.deep_view() == v.deep_view().subrange(0, i as int).map_values(
                |x: StructV| spec_struct_leo(x),
            ),
            !leo ==> strs.deep_view() == v.deep_view().subrange(0, i as int).map_values(
                |x: StructV| spec_struct_text(x),
            ),
        decreases v@.len() - i,
    {
        let ghost prev = strs.deep_view();
        let s = if leo {
            v[i].leo()
        } else {
            v[i].assembly()
        };
        let ghost sv = s@;
        strs.push(s);
        proof {
            assert(strs.deep_view() =~= prev + seq![sv]);
            if leo {
                assert(v.deep_view().subrange(0, i + 1).map_values(
                    |x: StructV| spec_struct_leo(x),
                ) =~= prev + seq![sv]);
            } else {
                assert(v.deep_view().subrange(0, i + 1).map_values(
                    |x: StructV| spec_struct_text(x),
                ) =~= prev + seq![sv]);
            }
        }
        i = i + 1;
    }
    proof {
        assert(v.deep_view().subrange(0, v.deep_view().len() as int) =~= v.deep_view());
    }
    join_strings(&strs, "\n\n")
}

/// The functions of `v` rendered in order, separated by blank lines; the
/// source-like form when `leo` asks for it.
#[verifier::loop_isolation(false)]
fn function_block(v: &Vec<Function>, leo: bool) -> (r: String)
    ensures
        leo ==> r@ == spec_join(
            v.deep_view().map_values(|x: FunctionV| spec_function_leo(x)),
            "\n\n"@,
        ),
        !leo ==> r@ == spec_join(
            v.deep_view().map_values(|x: FunctionV| spec_function_text(x)),
            "\n\n"@,
        ),
{
    let mut strs: Vec<String> = Vec::new();
    let mut i: usize = 0;
    while i < v.len()
        invariant
            i <= v@.len(),
            leo ==> strs.deep_view() == v.deep_view().subrange(0, i as int).map_values(
                |x: FunctionV| spec_function_leo(x),
            ),
            !leo ==> strs.deep_view() == v.deep_view().subrange(0, i as int).map_values(
                |x: FunctionV| spec_function_text(x),
            ),
        decreases v@.len() - i,
    {
        let ghost prev = strs.deep_view();
        let s = if leo {
            v[i].leo()
        } else {
            v[i].assembly()
        };
        let ghost sv = s@;
        strs.push(s);
        proof {
            assert(strs.deep_view() =~= prev + seq![sv]);
            if leo {
                assert(v.deep_view().subrange(0, i + 1).map_values(
                    |x: FunctionV| spec_function_leo(x),
                ) =~= prev + seq![sv]);
            } else {
                assert(v.deep_view().subrange(0, i + 1).map_values(
                    |x: FunctionV| spec_function_text(x),
                ) =~= prev + seq![sv]);
            }
        }
        i = i + 1;
    }
    proof {
        assert(v.deep_view().subrange(0, v.deep_view().len() as int) =~= v.deep_view());
    }
    join_strings(&strs, "\n\n")
}

impl Disassembler {
    /// The underlying byte sequence.
    pub closed spec fn data(&self) -> Seq<u8> {
        self.bytes.data()
    }

    /// The cursor's read position.
    pub closed spec fn pos(&self) -> int {
        self.bytes.pos()
    }

    /// The cursor never runs past the end of the buffer.
    pub open spec fn wf(&self) -> bool {
        0 <= self.pos() <= self.data().len()
    }

    /// The decoded program held by this disassembler.
    pub closed spec fn program(&self) -> ProgramV {
        ProgramV {
            version: self.version,
            name: self.program_name@,
            network: self.network@,
            num_imports: self.num_imports,
            imports: self.imports.deep_view(),
            num_components: self.num_components,
            mappings: self.mappings.deep_view(),
            structs: self.structs.deep_view(),
            records: self.records.deep_view(),
            functions: self.functions.deep_view(),
        }
    }

    /// A disassembler over `buf`, with nothing decoded yet.
    pub fn from_bytes(buf: Vec<u8>) -> (r: Disassembler)
        ensures
            r.wf(),
            r.data() == buf@,
            r.pos() == 0,
            r.program() == spec_empty_program(),
    {
        let d = Disassembler {
            bytes: ByteCode::new(buf),
            version: 0,
            program_name: String::new(),
            network: String::new(),
            num_imports: 0,
            imports: Vec::new(),
            num_components: 0,
            mappings: Vec::new(),
            structs: Vec::new(),
            records: Vec::new(),
            functions: Vec::new(),
        };
        proof {
            assert(d.program().imports =~= spec_empty_program().imports);
            assert(d.program().mappings =~= spec_empty_program().mappings);
            assert(d.program().structs =~= spec_empty_program().structs);
            assert(d.program().records =~= spec_empty_program().records);
            assert(d.program().functions =~= spec_empty_program().functions);
        }
        d
    }

    /// The program version carried by the header.
    pub fn get_version(&self) -> (r: u16)
        ensures
            r == self.program().version,
    {
        self.version
    }

    /// The program's name and network.
    pub fn get_program_id(&self) -> (r: (&str, &str))
        ensures
            r.0@ == self.program().name,
            r.1@ == self.program().network,
    {
        (self.program_name.as_str(), self.network.as_str())
    }

    /// Reads `n` components, each behind its one-byte kind tag, and
    /// partitions them by kind in stream order.
    #[verifier::loop_isolation(false)]
    #[verifier::rlimit(100)]
    fn read_components(bytes: &mut ByteCode, n: u16) -> (r: Result<
        (Vec<Mapping>, Vec<Struct>, Vec<Record>, Vec<Function>),
        DecodeError,
    >)
        requires
            old(bytes).wf(),
        ensures
            final(bytes).wf(),
            final(bytes).data() == old(bytes).data(),
            old(bytes).pos() <= final(bytes).pos(),
            match spec_read_component_list(old(bytes).data(), old(bytes).pos(), n as int) {
                Ok(vp) => r matches Ok(v) && v.0.deep_view() == vp.0.0 && v.1.deep_view()
                    == vp.0.1 && v.2.deep_view() == vp.0.2 && v.3.deep_view() == vp.0.3
                    && final(bytes).pos() == vp.1,
                Err(e) => r == Err::<(Vec<Mapping>, Vec<Struct>, Vec<Record>, Vec<Function>), DecodeError>(
                    e,
                ),
            },
    {
        let ghost d = old(bytes).data();
        let ghost p1 = old(bytes).pos();
        let mut mappings: Vec<Mapping> = Vec::new();
        let mut structs: Vec<Struct> = Vec::new();
        let mut records: Vec<Record> = Vec::new();
        let mut functions: Vec<Function> = Vec::new();
        let mut i: usize = 0;
        proof {
            if spec_read_component_list(d, p1, n as int) is Ok {
                let vp = spec_read_component_list(d, p1, n as int)->Ok_0;
                assert(Seq::<MappingV>::empty() + vp.0.0 =~= vp.0.0);
                assert(Seq::<StructV>::empty() + vp.0.1 =~= vp.0.1);
                assert(Seq::<RecordV>::empty() + vp.0.2 =~= vp.0.2);
                assert(Seq::<FunctionV>::empty() + vp.0.3 =~= vp.0.3);
            }
        }
        while i < n as usize
            invariant
                bytes.wf(),
                bytes.data() == d,
                i <= n as usize,
                p1 <= bytes.pos(),
                spec_read_component_list(d, p1, n as int) == (match spec_read_component_list(
                    d,
                    bytes.pos(),
                    n as int - i,
                ) {
                    Ok(vp) => Ok::<
                        ((Seq<MappingV>, Seq<StructV>, Seq<RecordV>, Seq<FunctionV>), int),
                        DecodeError,
                    >(
                        (
                            (
                                mappings.deep_view() + vp.0.0,
                                structs.deep_view() + vp.0.1,
                                records.deep_view() + vp.0.2,
                                functions.deep_view() + vp.0.3,
                            ),
                            vp.1,
                        ),
                    ),
                    Err(e) => Err::<
                        ((Seq<MappingV>, Seq<StructV>, Seq<RecordV>, Seq<FunctionV>), int),
                        DecodeError,
                    >(e),
                }),
            decreases n as int - i,
        {
            let kind_start = bytes.position();
            let kind = match bytes.read_u8() {
                Ok(v) => v,
                Err(e) => { return Err(e) },
            };
            if kind == 0 {
                match Mapping::read(bytes) {
                    Ok(m) => {
                        let ghost vv = m@;
                        proof {
                            if spec_read_component_list(d, bytes.pos(), n as int - i - 1) is Ok {
                                let rp = spec_read_component_list(
                                    d,
                                    bytes.pos(),
                                    n as int - i - 1,
                                )->Ok_0;
                                assert(mappings.deep_view() + (seq![vv] + rp.0.0) =~= (
                                mappings.deep_view() + seq![vv]) + rp.0.0);
                            }
                        }
                        let ghost prev = mappings.deep_view();
                        mappings.push(m);
                        proof {
                            assert(mappings.deep_view() =~= prev + seq![vv]);
                        }
                    },
                    Err(e) => { return Err(e) },
                }
            } else if kind == 1 {
                match Struct::read(bytes) {
                    Ok(s) => {
                        let ghost vv = s@;
                        proof {
                            if spec_read_component_list(d, bytes.pos(), n as int - i - 1) is Ok {
                                let rp = spec_read_component_list(
                                    d,
                                    bytes.pos(),
                                    n as int - i - 1,
                                )->Ok_0;
                                assert(structs.deep_view() + (seq![vv] + rp.0.1) =~= (
                                structs.deep_view() + seq![vv]) + rp.0.1);
                            }
                        }
                        let ghost prev = structs.deep_view();
                        structs.push(s);
                        proof {
                            assert(structs.deep_view() =~= prev + seq![vv]);
                        }
                    },
                    Err(e) => { return Err(e) },
                }
            } else if kind == 2 {
                match Record::read(bytes) {
                    Ok(c) => {
                        let ghost vv = c@;
                        proof {
                            if spec_read_component_list(d, bytes.pos(), n as int - i - 1) is Ok {
                                let rp = spec_read_component_list(
                                    d,
                                    bytes.pos(),
                                    n as int - i - 1,
                                )->Ok_0;
                                assert(records.deep_view() + (seq![vv] + rp.0.2) =~= (
                                records.deep_view() + seq![vv]) + rp.0.2);
                            }
                        }
                        let ghost prev = records.deep_view();
                        records.push(c);
                        proof {
                            assert(records.deep_view() =~= prev + seq![vv]);
                        }
                    },
                    Err(e) => { return Err(e) },
                }
            } else if kind == 3 {
                match Function::read(bytes, FunctionType::Closure) {
                    Ok(f) => {
                        let ghost vv = f@;
                        proof {
                            if spec_read_component_list(d, bytes.pos(), n as int - i - 1) is Ok {
                                let rp = spec_read_component_list(
                                    d,
                                    bytes.pos(),
                                    n as int - i - 1,
                                )->Ok_0;
                                assert(functions.deep_view() + (seq![vv] + rp.0.3) =~= (
                                functions.deep_view() + seq![vv]) + rp.0.3);
                            }
                        }
                        let ghost prev = functions.deep_view();
                        functions.push(f);
                        proof {
                            assert(functions.deep_view() =~= prev + seq![vv]);
                        }
                    },
                    Err(e) => { return Err(e) },
                }
            } else if kind == 4 {
                match Function::read(bytes, FunctionType::Function) {
                    Ok(f) => {
                        let ghost vv = f@;
                        proof {
                            if spec_read_component_list(d, bytes.pos(), n as int - i - 1) is Ok {
                                let rp = spec_read_component_list(
                                    d,
                                    bytes.pos(),
                                    n as int - i - 1,
                                )->Ok_0;
                                assert(functions.deep_view() + (seq![vv] + rp.0.3) =~= (
                                functions.deep_view() + seq![vv]) + rp.0.3);
                            }
                        }
                        let ghost prev = functions.deep_view();
                        functions.push(f);
                        proof {
                            assert(functions.deep_view() =~= prev + seq![vv]);
                        }
                    },
                    Err(e) => { return Err(e) },
                }
            } else {
                return Err(DecodeError { kind: DecodeErrorKind::UnknownTag, offset: kind_start });
            }
            i = i + 1;
        }
        proof {
            assert(mappings.deep_view() + Seq::<MappingV>::empty() =~= mappings.deep_view());
            assert(structs.deep_view() + Seq::<StructV>::empty() =~= structs.deep_view());
            assert(records.deep_view() + Seq::<RecordV>::empty() =~= records.deep_view());
            assert(functions.deep_view() + Seq::<FunctionV>::empty() =~= functions.deep_view());
        }
        Ok((mappings, structs, records, functions))
    }

    /// Runs the whole decode: the header, the imports and the component
    /// sequence.  On success the decoded program is held by this
    /// disassembler; a malformed or unsupported byte stream aborts the
    /// decode and returns the error, with no partial result promised.
    #[verifier::loop_isolation(false)]
    #[verifier::rlimit(60)]
    pub fn disassemble(&mut self) -> (r: Result<(), DecodeError>)
        requires
            old(self).wf(),
        ensures
            final(self).wf(),
            final(self).data() == old(self).data(),
            old(self).pos() <= final(self).pos(),
            match spec_read_program(old(self).data(), old(self).pos()) {
                Ok(vp) => r is Ok && final(self).program() == vp.0 && final(self).pos() == vp.1,
                Err(e) => r == Err::<(), DecodeError>(e) && final(self).program() == old(
                    self,
                ).program(),
            },
    {
        let ghost d = old(self).data();
        let version = match self.bytes.read_u16() {
            Ok(v) => v,
            Err(e) => { return Err(e) },
        };
        let pid = match read_programid(&mut self.bytes) {
            Ok(v) => v,
            Err(e) => { return Err(e) },
        };
        let num_imports = match self.bytes.read_u8() {
            Ok(v) => v,
            Err(e) => { return Err(e) },
        };
        let ghost p1 = self.bytes.pos();
        let mut imports: Vec<(String, String)> = Vec::new();
        let mut i: usize = 0;
        proof {
            if spec_read_import_list(d, p1, num_imports as int) is Ok {
                let vp = spec_read_import_list(d, p1, num_imports as int)->Ok_0;
                assert(Seq::<(Seq<char>, Seq<char>)>::empty() + vp.0 =~= vp.0);
            }
        }
        while i < num_imports as usize
            invariant
                self.bytes.wf(),
                self.bytes.data() == d,
                self.program() == old(self).program(),
                i <= num_imports as usize,
                p1 <= self.bytes.pos(),
                spec_read_import_list(d, p1, num_imports as int) == (match spec_read_import_list(
                    d,
                    self.bytes.pos(),
                    num_imports as int - i,
                ) {
                    Ok(vp) => Ok::<(Seq<(Seq<char>, Seq<char>)>, int), DecodeError>(
                        (imports.deep_view() + vp.0, vp.1),
                    ),
                    Err(e) => Err::<(Seq<(Seq<char>, Seq<char>)>, int), DecodeError>(e),
                }),
            decreases num_imports as int - i,
        {
            match read_programid(&mut self.bytes) {
                Ok(v) => {
                    let ghost vv = (v.0@, v.1@);
                    proof {
                        if spec_read_import_list(d, self.bytes.pos(), num_imports as int - i - 1)
                            is Ok {
                            let lp = spec_read_import_list(
                                d,
                                self.bytes.pos(),
                                num_imports as int - i - 1,
                            )->Ok_0;
                            assert(imports.deep_view() + (seq![vv] + lp.0) =~= (
                            imports.deep_view() + seq![vv]) + lp.0);
                        }
                    }
                    let ghost prev = imports.deep_view();
                    imports.push(v);
                    proof {
                        assert(imports.deep_view() =~= prev + seq![vv]);
                    }
                    i = i + 1;
                },
                Err(e) => { return Err(e) },
            }
        }
        proof {
            assert(imports.deep_view() + Seq::<(Seq<char>, Seq<char>)>::empty()
                =~= imports.deep_view());
        }
        let num_components = match self.bytes.read_u16() {
            Ok(v) => v,
            Err(e) => { return Err(e) },
        };
        let parts = match Self::read_components(&mut self.bytes, num_components) {
            Ok(v) => v,
            Err(e) => { return Err(e) },
        };
        self.version = version;
        self.program_name = pid.0;
        self.network = pid.1;
        self.num_imports = num_imports;
        self.imports = imports;
        self.num_components = num_components;
        self.mappings = parts.0;
        self.structs = parts.1;
        self.records = parts.2;
        self.functions = parts.3;
        Ok(())
    }

    /// The assembly rendering of the decoded program.
    pub fn assembly(&self) -> (r: String)
        ensures
            r@ == spec_program_text(self.program()),
    {
        let mut s = String::from_str("program ");
        s.append(self.program_name.as_str());
        s.append(".");
        s.append(self.network.as_str());
        s.append("\n\n");
        let mappings = mapping_block(&self.mappings);
        s.append(mappings.as_str());
        s.append("\n");
        let records = record_block(&self.records);
        s.append(records.as_str());
        s.append("\n");
        let structs = struct_block(&self.structs, false);
        s.append(structs.as_str());
        s.append("\n");
        let functions = function_block(&self.functions, false);
        s.append(functions.as_str());
        s.append("\n");
        s
    }

    /// The source-like rendering of the decoded program: its structs and
    /// functions.  This projection is explicitly partial: mappings and
    /// records contribute no text.
    pub fn leo(&self) -> (r: String)
        ensures
            r@ == spec_program_leo(self.program()),
    {
        let mut s = struct_block(&self.structs, true);
        s.append("\n");
        let functions = function_block(&self.functions, true);
        s.append(functions.as_str());
        s.append("\n");
        s
    }
}

} // verus!

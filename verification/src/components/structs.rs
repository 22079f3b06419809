//! Structs: plain data type declarations without attributes.
//!
//! A struct is decoded as its name, a 16-bit entry count, and that many
//! `(name, type)` entries in order.

use vstd::prelude::*;

use crate::bytecode::{spec_read_u16, ByteCode};
use crate::error::DecodeError;
use crate::text::{spec_join, join_strings};
use crate::util::{spec_read_identifier, read_identifier};
use crate::components::types::{
    spec_read_plaintext_type, spec_type_text, read_plaintext_type, Type, TypeV,
};
use vstd::string::StringExecFns;

verus! {

/// One field of a struct: its name and plaintext type.
#[derive(Debug)]
pub struct Entry {
    pub name: String,
    pub value_type: Type,
}

/// The spec-level value of an `Entry`.
pub struct EntryV {
    pub name: Seq<char>,
    pub value_type: TypeV,
}

impl View for Entry {
    type V = EntryV;

    open spec fn view(&self) -> EntryV {
        EntryV { name: self.name@, value_type: self.value_type@ }
    }
}

impl DeepView for Entry {
    type V = EntryV;

    open spec fn deep_view(&self) -> EntryV {
        self@
    }
}

/// A struct declaration: its name and its ordered fields.
#[derive(Debug)]
pub struct Struct {
    pub name: String,
    pub entries: Vec<Entry>,
}

/// The spec-level value of a `Struct`.
pub struct StructV {
    pub name: Seq<char>,
    pub entries: Seq<EntryV>,
}

impl View for Struct {
    type V = StructV;

    open spec fn view(&self) -> StructV {
        StructV { name: self.name@, entries: self.entries.deep_view() }
    }
}

impl DeepView for Struct {
    type V = StructV;

    open spec fn deep_view(&self) -> StructV {
        self@
    }
}

/// Reads one struct field at `pos`: its name, then its plaintext type.
pub open spec fn spec_read_struct_entry(bytes: Seq<u8>, pos: int) -> Result<
    (EntryV, int),
    DecodeError,
> {
    match spec_read_identifier(bytes, pos) {
        Ok(np) => match spec_read_plaintext_type(bytes, np.1) {
            Ok(tp) => Ok((EntryV { name: np.0, value_type: tp.0 }, tp.1)),
            Err(e) => Err(e),
        },
        Err(e) => Err(e),
    }
}

/// Reads `n` struct fields in sequence starting at `pos`.
pub open spec fn spec_read_struct_entry_list(bytes: Seq<u8>, pos: int, n: int) -> Result<
    (Seq<EntryV>, int),
    DecodeError,
>
    decreases n,
{
    if n <= 0 {
        Ok((Seq::empty(), pos))
    } else {
        match spec_read_struct_entry(bytes, pos) {
            Ok(vp) => match spec_read_struct_entry_list(bytes, vp.1, n - 1) {
                Ok(lp) => Ok((seq![vp.0] + lp.0, lp.1)),
                Err(e) => Err(e),
            },
            Err(e) => Err(e),
        }
    }
}

/// Reads a struct at `pos`: its name, a 16-bit entry count, then that
/// many fields.
#[verifier::opaque]
pub open spec fn spec_read_struct(bytes: Seq<u8>, pos: int) -> Result<(StructV, int), DecodeError> {
    match spec_read_identifier(bytes, pos) {
        Ok(np) => match spec_read_u16(bytes, np.1) {
            Ok(cp) => match spec_read_struct_entry_list(bytes, cp.1, cp.0 as int) {
                Ok(lp) => Ok((StructV { name: np.0, entries: lp.0 }, lp.1)),
                Err(e) => Err(e),
            },
            Err(e) => Err(e),
        },
        Err(e) => Err(e),
    }
}

/// The assembly rendering of one field: `<name> as <type>`.
pub open spec fn spec_struct_entry_text(e: EntryV) -> Seq<char> {
    e.name + " as "@ + spec_type_text(e.value_type)
}

/// The source-like rendering of one field: `<name>: <type>,`.
pub open spec fn spec_struct_entry_leo(e: EntryV) -> Seq<char> {
    e.name + ": "@ + spec_type_text(e.value_type) + ","@
}

/// The assembly rendering of a struct: its header line, then one
/// tab-indented, semicolon-terminated line per field.
pub open spec fn spec_struct_text(s: StructV) -> Seq<char> {
    "struct "@ + s.name + ":\n"@ + spec_join(
        s.entries.map_values(|e: EntryV| "\t"@ + spec_struct_entry_text(e) + ";"@),
        "\n"@,
    ) + "\n"@
}

/// The source-like rendering of a struct: a braced field list.
pub open spec fn spec_struct_leo(s: StructV) -> Seq<char> {
    "struct "@ + s.name + " {\n"@ + spec_join(
        s.entries.map_values(|e: EntryV| "\t"@ + spec_struct_entry_leo(e)),
        "\n"@,
    ) + "}\n"@
}

impl Struct {
    /// Reads a struct: its name, a 16-bit entry count, then that many
    /// `(name, type)` fields.
    #[verifier::loop_isolation(false)]
    pub fn read(bytes: &mut ByteCode) -> (r: Result<Struct, DecodeError>)
        requires
            old(bytes).wf(),
        ensures
            final(bytes).wf(),
            final(bytes).data() == old(bytes).data(),
            old(bytes).pos() <= final(bytes).pos(),
            match spec_read_struct(old(bytes).data(), old(bytes).pos()) {
                Ok(vp) => r matches Ok(v) && v@ == vp.0 && final(bytes).pos() == vp.1,
                Err(e) => r == Err::<Struct, DecodeError>(e),
            },
    {
        proof {
            reveal(spec_read_struct);
        }
        let ghost d = old(bytes).data();
        let name = match read_identifier(bytes) {
            Ok(v) => v,
            Err(e) => { return Err(e) },
        };
        let n = match bytes.read_u16() {
            Ok(v) => v,
            Err(e) => { return Err(e) },
        };
        let ghost p1 = bytes.pos();
        let mut entries: Vec<Entry> = Vec::new();
        let mut i: usize = 0;
        proof {
            if spec_read_struct_entry_list(d, p1, n as int) is Ok {
                let vp = spec_read_struct_entry_list(d, p1, n as int)->Ok_0;
                assert(Seq::<EntryV>::empty() + vp.0 =~= vp.0);
            }
        }
        while i < n as usize
            invariant
                bytes.wf(),
                bytes.data() == d,
                i <= n as usize,
                p1 <= bytes.pos(),
                spec_read_struct_entry_list(d, p1, n as int) == (match spec_read_struct_entry_list(
                    d,
                    bytes.pos(),
                    n as int - i,
                ) {
                    Ok(vp) => Ok::<(Seq<EntryV>, int), DecodeError>(
                        (entries.deep_view() + vp.0, vp.1),
                    ),
                    Err(e) => Err::<(Seq<EntryV>, int), DecodeError>(e),
                }),
            decreases n as int - i,
        {
            let ename = match read_identifier(bytes) {
                Ok(v) => v,
                Err(e) => { return Err(e) },
            };
            let etype = match read_plaintext_type(bytes) {
                Ok(v) => v,
                Err(e) => { return Err(e) },
            };
            let entry = Entry { name: ename, value_type: etype };
            let ghost vv = entry@;
            proof {
                if spec_read_struct_entry_list(d, bytes.pos(), n as int - i - 1) is Ok {
                    let lp = spec_read_struct_entry_list(d, bytes.pos(), n as int - i - 1)->Ok_0;
                    assert(entries.deep_view() + (seq![vv] + lp.0) =~= (entries.deep_view()
                        + seq![vv]) + lp.0);
                }
            }
            let ghost prev = entries.deep_view();
            entries.push(entry);
            proof {
                assert(entries.deep_view() =~= prev + seq![vv]);
            }
            i = i + 1;
        }
        proof {
            assert(entries.deep_view() + Seq::<EntryV>::empty() =~= entries.deep_view());
        }
        Ok(Struct { name, entries })
    }

    /// The assembly rendering of this struct.
    #[verifier::loop_isolation(false)]
    pub fn assembly(&self) -> (r: String)
        ensures
            r@ == spec_struct_text(self@),
    {
        let mut s = String::from_str("struct ");
        s.append(self.name.as_str());
        s.append(":\n");
        let mut strs: Vec<String> = Vec::new();
        let mut i: usize = 0;
        while i < self.entries.len()
            invariant
                i <= self.entries@.len(),
                strs.deep_view() == self.entries.deep_view().subrange(0, i as int).map_values(
                    |e: EntryV| "\t"@ + spec_struct_entry_text(e) + ";"@,
                ),
            decreases self.entries@.len() - i,
        {
            let ghost prev = strs.deep_view();
            let mut line = String::from_str("\t");
            line.append(self.entries[i].name.as_str());
            line.append(" as ");
            let ty = self.entries[i].value_type.assembly();
            line.append(ty.as_str());
            line.append(";");
            let ghost sv = line@;
            strs.push(line);
            proof {
                assert(sv =~= "\t"@ + spec_struct_entry_text(self.entries.deep_view()[i as int])
                    + ";"@);
                assert(strs.deep_view() =~= prev + seq![sv]);
                assert(self.entries.deep_view().subrange(0, i + 1).map_values(
                    |e: EntryV| "\t"@ + spec_struct_entry_text(e) + ";"@,
                ) =~= prev + seq![sv]);
            }
            i = i + 1;
        }
        proof {
            assert(self.entries.deep_view().subrange(0, self.entries.deep_view().len() as int)
                =~= self.entries.deep_view());
        }
        let lines = join_strings(&strs, "\n");
        s.append(lines.as_str());
        s.append("\n");
        s
    }

    /// The source-like rendering of this struct: a braced field list.
    #[verifier::loop_isolation(false)]
    pub fn leo(&self) -> (r: String)
        ensures
            r@ == spec_struct_leo(self@),
    {
        let mut s = String::from_str("struct ");
        s.append(self.name.as_str());
        s.append(" {\n");
        let mut strs: Vec<String> = Vec::new();
        let mut i: usize = 0;
        while i < self.entries.len()
            invariant
                i <= self.entries@.len(),
                strs.deep_view() == self.entries.deep_view().subrange(0, i as int).map_values(
                    |e: EntryV| "\t"@ + spec_struct_entry_leo(e),
                ),
            decreases self.entries@.len() - i,
        {
            let ghost prev = strs.deep_view();
            let mut line = String::from_str("\t");
            line.append(self.entries[i].name.as_str());
            line.append(": ");
            let ty = self.entries[i].value_type.assembly();
            line.append(ty.as_str());
            line.append(",");
            let ghost sv = line@;
            strs.push(line);
            proof {
                assert(sv =~= "\t"@ + spec_struct_entry_leo(self.entries.deep_view()[i as int]));
                assert(strs.deep_view() =~= prev + seq![sv]);
                assert(self.entries.deep_view().subrange(0, i + 1).map_values(
                    |e: EntryV| "\t"@ + spec_struct_entry_leo(e),
                ) =~= prev + seq![sv]);
            }
            i = i + 1;
        }
        proof {
            assert(self.entries.deep_view().subrange(0, self.entries.deep_view().len() as int)
                =~= self.entries.deep_view());
        }
        let lines = join_strings(&strs, "\n");
        s.append(lines.as_str());
        s.append("}\n");
        s
    }
}

} // verus!

//! Records: ownership-and-balance-carrying data types with per-field
//! visibility.
//!
//! A record is decoded as its name, an owner attribute and a gates
//! (balance) attribute — each restricted to public or private — then a
//! 16-bit entry count and that many `(name, attribute, type)` entries.

use vstd::prelude::*;

use crate::bytecode::{spec_read_u16, spec_read_u8, ByteCode};
use crate::error::{spec_err, DecodeError, DecodeErrorKind};
use crate::text::{spec_join, join_strings};
use crate::util::{spec_read_identifier, read_identifier};
use crate::components::types::{
    spec_attribute_text, spec_read_attribute, spec_read_plaintext_type, spec_type_text,
    read_attribute, read_plaintext_type, Attribute, Type, TypeV,
};
use vstd::string::StringExecFns;

verus! {

/// One entry of a record: its name, plaintext type and attribute.
#[derive(Debug)]
pub struct Entry {
    pub name: String,
    pub value_type: Type,
    pub attribute_type: Attribute,
}

/// The spec-level value of an `Entry`.
pub struct EntryV {
    pub name: Seq<char>,
    pub value_type: TypeV,
    pub attribute_type: Attribute,
}

impl View for Entry {
    type V = EntryV;

    open spec fn view(&self) -> EntryV {
        EntryV {
            name: self.name@,
            value_type: self.value_type@,
            attribute_type: self.attribute_type,
        }
    }
}

impl DeepView for Entry {
    type V = EntryV;

    open spec fn deep_view(&self) -> EntryV {
        self@
    }
}

/// A record declaration: its name, owner and gates attributes, and its
/// ordered entries.
#[derive(Debug)]
pub struct Record {
    pub name: String,
    pub owner_attribute: Attribute,
    pub gates_attribute: Attribute,
    pub entries: Vec<Entry>,
}

/// The spec-level value of a `Record`.
pub struct RecordV {
    pub name: Seq<char>,
    pub owner_attribute: Attribute,
    pub gates_attribute: Attribute,
    pub entries: Seq<EntryV>,
}

impl View for Record {
    type V = RecordV;

    open spec fn view(&self) -> RecordV {
        RecordV {
            name: self.name@,
            owner_attribute: self.owner_attribute,
            gates_attribute: self.gates_attribute,
            entries: self.entries.deep_view(),
        }
    }
}

impl DeepView for Record {
    type V = RecordV;

    open spec fn deep_view(&self) -> RecordV {
        self@
    }
}

/// Reads an owner or gates attribute tag at `pos`: 0 selects public and
/// 1 private; any other tag is an `UnknownTag` error.
pub open spec fn spec_read_record_attribute(bytes: Seq<u8>, pos: int) -> Result<
    (Attribute, int),
    DecodeError,
> {
    match spec_read_u8(bytes, pos) {
        Ok(tp) => if tp.0 == 0 {
            Ok((Attribute::Public, tp.1))
        } else if tp.0 == 1 {
            Ok((Attribute::Private, tp.1))
        } else {
            Err(spec_err(DecodeErrorKind::UnknownTag, pos))
        },
        Err(e) => Err(e),
    }
}

/// Reads one record entry at `pos`: its name, its attribute, then its
/// plaintext type.
pub open spec fn spec_read_record_entry(bytes: Seq<u8>, pos: int) -> Result<
    (EntryV, int),
    DecodeError,
> {
    match spec_read_identifier(bytes, pos) {
        Ok(np) => match spec_read_attribute(bytes, np.1) {
            Ok(ap) => match spec_read_plaintext_type(bytes, ap.1) {
                Ok(tp) => Ok(
                    (
                        EntryV { name: np.0, value_type: tp.0, attribute_type: ap.0 },
                        tp.1,
                    ),
                ),
                Err(e) => Err(e),
            },
            Err(e) => Err(e),
        },
        Err(e) => Err(e),
    }
}

/// Reads `n` record entries in sequence starting at `pos`.
pub open spec fn spec_read_record_entry_list(bytes: Seq<u8>, pos: int, n: int) -> Result<
    (Seq<EntryV>, int),
    DecodeError,
>
    decreases n,
{
    if n <= 0 {
        Ok((Seq::empty(), pos))
    } else {
        match spec_read_record_entry(bytes, pos) {
            Ok(vp) => match spec_read_record_entry_list(bytes, vp.1, n - 1) {
                Ok(lp) => Ok((seq![vp.0] + lp.0, lp.1)),
                Err(e) => Err(e),
            },
            Err(e) => Err(e),
        }
    }
}

/// Reads a record at `pos`: its name, its owner and gates attributes,
/// then a 16-bit entry count and that many entries.
#[verifier::opaque]
pub open spec fn spec_read_record(bytes: Seq<u8>, pos: int) -> Result<(RecordV, int), DecodeError> {
    match spec_read_identifier(bytes, pos) {
        Ok(np) => match spec_read_record_attribute(bytes, np.1) {
            Ok(op) => match spec_read_record_attribute(bytes, op.1) {
                Ok(gp) => match spec_read_u16(bytes, gp.1) {
                    Ok(cp) => match spec_read_record_entry_list(bytes, cp.1, cp.0 as int) {
                        Ok(lp) => Ok(
                            (
                                RecordV {
                                    name: np.0,
                                    owner_attribute: op.0,
                                    gates_attribute: gp.0,
                                    entries: lp.0,
                                },
                                lp.1,
                            ),
                        ),
                        Err(e) => Err(e),
                    },
                    Err(e) => Err(e),
                },
                Err(e) => Err(e),
            },
            Err(e) => Err(e),
        },
        Err(e) => Err(e),
    }
}

/// The assembly rendering of one entry: `<name> as <type>.<attribute>`.
pub open spec fn spec_record_entry_text(e: EntryV) -> Seq<char> {
    e.name + " as "@ + spec_type_text(e.value_type) + "."@ + spec_attribute_text(e.attribute_type)
}

/// The assembly rendering of a record: its header line, the owner and
/// gates lines, then one tab-indented line per entry.
pub open spec fn spec_record_text(rec: RecordV) -> Seq<char> {
    "record "@ + rec.name + ":\n\towner as address."@ + spec_attribute_text(rec.owner_attribute)
        + "\n\tgates as u64."@ + spec_attribute_text(rec.gates_attribute) + "\n"@ + spec_join(
        rec.entries.map_values(|e: EntryV| "\t"@ + spec_record_entry_text(e)),
        "\n"@,
    )
}

impl Entry {
    /// Reads one record entry: its name, its attribute, then its type.
    pub fn read(bytes: &mut ByteCode) -> (r: Result<Entry, DecodeError>)
        requires
            old(bytes).wf(),
        ensures
            final(bytes).wf(),
            final(bytes).data() == old(bytes).data(),
            old(bytes).pos() <= final(bytes).pos(),
            match spec_read_record_entry(old(bytes).data(), old(bytes).pos()) {
                Ok(vp) => r matches Ok(v) && v@ == vp.0 && final(bytes).pos() == vp.1,
                Err(e) => r == Err::<Entry, DecodeError>(e),
            },
    {
        let name = match read_identifier(bytes) {
            Ok(v) => v,
            Err(e) => { return Err(e) },
        };
        let attribute_type = match read_attribute(bytes) {
            Ok(v) => v,
            Err(e) => { return Err(e) },
        };
        match read_plaintext_type(bytes) {
            Ok(value_type) => Ok(Entry { name, value_type, attribute_type }),
            Err(e) => Err(e),
        }
    }

    /// The assembly rendering of this entry:
    /// `<name> as <type>.<attribute>`.
    pub fn assembly(&self) -> (r: String)
        ensures
            r@ == spec_record_entry_text(self@),
    {
        let mut s = self.name.clone();
        s.append(" as ");
        let ty = self.value_type.assembly();
        s.append(ty.as_str());
        s.append(".");
        let attr = self.attribute_type.assembly();
        s.append(attr.as_str());
        s
    }
}

impl Record {
    /// Reads a record: its name, its owner and gates attributes (each
    /// public or private), then its counted entries.
    #[verifier::loop_isolation(false)]
    pub fn read(bytes: &mut ByteCode) -> (r: Result<Record, DecodeError>)
        requires
            old(bytes).wf(),
        ensures
            final(bytes).wf(),
            final(bytes).data() == old(bytes).data(),
            old(bytes).pos() <= final(bytes).pos(),
            match spec_read_record(old(bytes).data(), old(bytes).pos()) {
                Ok(vp) => r matches Ok(v) && v@ == vp.0 && final(bytes).pos() == vp.1,
                Err(e) => r == Err::<Record, DecodeError>(e),
            },
    {
        proof {
            reveal(spec_read_record);
        }
        let ghost d = old(bytes).data();
        let name = match read_identifier(bytes) {
            Ok(v) => v,
            Err(e) => { return Err(e) },
        };
        let owner_attribute = match Self::read_owner_attribute(bytes) {
            Ok(v) => v,
            Err(e) => { return Err(e) },
        };
        let gates_attribute = match Self::read_owner_attribute(bytes) {
            Ok(v) => v,
            Err(e) => { return Err(e) },
        };
        let n = match bytes.read_u16() {
            Ok(v) => v,
            Err(e) => { return Err(e) },
        };
        let ghost p1 = bytes.pos();
        let mut entries: Vec<Entry> = Vec::new();
        let mut i: usize = 0;
        proof {
            if spec_read_record_entry_list(d, p1, n as int) is Ok {
                let vp = spec_read_record_entry_list(d, p1, n as int)->Ok_0;
                assert(Seq::<EntryV>::empty() + vp.0 =~= vp.0);
            }
        }
        while i < n as usize
            invariant
                bytes.wf(),
                bytes.data() == d,
                i <= n as usize,
                p1 <= bytes.pos(),
                spec_read_record_entry_list(d, p1, n as int) == (match spec_read_record_entry_list(
                    d,
                    bytes.pos(),
                    n as int - i,
                ) {
                    Ok(vp) => Ok::<(Seq<EntryV>, int), DecodeError>(
                        (entries.deep_view() + vp.0, vp.1),
                    ),
                    Err(e) => Err::<(Seq<EntryV>, int), DecodeError>(e),
                }),
            decreases n as int - i,
        {
            match Entry::read(bytes) {
                Ok(v) => {
                    let ghost vv = v@;
                    proof {
                        if spec_read_record_entry_list(d, bytes.pos(), n as int - i - 1) is Ok {
                            let lp = spec_read_record_entry_list(
                                d,
                                bytes.pos(),
                                n as int - i - 1,
                            )->Ok_0;
                            assert(entries.deep_view() + (seq![vv] + lp.0) =~= (
                            entries.deep_view() + seq![vv]) + lp.0);
                        }
                    }
                    let ghost prev = entries.deep_view();
                    entries.push(v);
                    proof {
                        assert(entries.deep_view() =~= prev + seq![vv]);
                    }
                    i = i + 1;
                },
                Err(e) => { return Err(e) },
            }
        }
        proof {
            assert(entries.deep_view() + Seq::<EntryV>::empty() =~= entries.deep_view());
        }
        Ok(Record { name, owner_attribute, gates_attribute, entries })
    }

    /// Reads an owner or gates attribute tag: 0 selects public and 1
    /// private.
    fn read_owner_attribute(bytes: &mut ByteCode) -> (r: Result<Attribute, DecodeError>)
        requires
            old(bytes).wf(),
        ensures
            final(bytes).wf(),
            final(bytes).data() == old(bytes).data(),
            old(bytes).pos() <= final(bytes).pos(),
            match spec_read_record_attribute(old(bytes).data(), old(bytes).pos()) {
                Ok(vp) => r == Ok::<Attribute, DecodeError>(vp.0) && final(bytes).pos() == vp.1,
                Err(e) => r == Err::<Attribute, DecodeError>(e),
            },
    {
        let start = bytes.position();
        let tag = match bytes.read_u8() {
            Ok(v) => v,
            Err(e) => { return Err(e) },
        };
        if tag == 0 {
            Ok(Attribute::Public)
        } else if tag == 1 {
            Ok(Attribute::Private)
        } else {
            Err(DecodeError { kind: DecodeErrorKind::UnknownTag, offset: start })
        }
    }

    /// The assembly rendering of this record.
    #[verifier::loop_isolation(false)]
    pub fn assembly(&self) -> (r: String)
        ensures
            r@ == spec_record_text(self@),
    {
        let mut s = String::from_str("record ");
        s.append(self.name.as_str());
        s.append(":\n\towner as address.");
        let owner = self.owner_attribute.assembly();
        s.append(owner.as_str());
        s.append("\n\tgates as u64.");
        let gates = self.gates_attribute.assembly();
        s.append(gates.as_str());
        s.append("\n");
        let mut strs: Vec<String> = Vec::new();
        let mut i: usize = 0;
        while i < self.entries.len()
            invariant
                i <= self.entries@.len(),
                strs.deep_view() == self.entries.deep_view().subrange(0, i as int).map_values(
                    |e: EntryV| "\t"@ + spec_record_entry_text(e),
                ),
            decreases self.entries@.len() - i,
        {
            let ghost prev = strs.deep_view();
            let mut line = String::from_str("\t");
            let text = self.entries[i].assembly();
            line.append(text.as_str());
            let ghost sv = line@;
            strs.push(line);
            proof {
                assert(strs.deep_view() =~= prev + seq![sv]);
                assert(self.entries.deep_view().subrange(0, i + 1).map_values(
                    |e: EntryV| "\t"@ + spec_record_entry_text(e),
                ) =~= prev + seq![sv]);
            }
            i = i + 1;
        }
        proof {
            assert(self.entries.deep_view().subrange(0, self.entries.deep_view().len() as int)
                =~= self.entries.deep_view());
        }
        let lines = join_strings(&strs, "\n");
        s.append(lines.as_str());
        s
    }
}

} // verus!

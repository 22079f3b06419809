//! Mappings: persistent on-chain key/value storage declarations.
//!
//! A mapping is decoded as its name followed by exactly one key
//! declaration and one value declaration.  The key and value attribute
//! tags admit only a subset of the attributes (public, record,
//! external-record), enforced by explicit matching.

use vstd::prelude::*;

use crate::bytecode::{spec_read_u8, ByteCode};
use crate::error::{spec_err, DecodeError, DecodeErrorKind};
use crate::util::{spec_read_identifier, read_identifier};
use crate::components::types::{
    spec_attribute_text, spec_read_plaintext_type, spec_type_text, read_plaintext_type,
    Attribute, Type, TypeV,
};
use vstd::string::StringExecFns;

verus! {

/// One key or value declaration of a mapping: its name, attribute and
/// plaintext type.
#[derive(Debug)]
pub struct KeyValue {
    pub name: String,
    pub attribute_type: Attribute,
    pub value_type: Type,
}

/// The spec-level value of a `KeyValue`.
pub struct KeyValueV {
    pub name: Seq<char>,
    pub attribute_type: Attribute,
    pub value_type: TypeV,
}

impl View for KeyValue {
    type V = KeyValueV;

    open spec fn view(&self) -> KeyValueV {
        KeyValueV {
            name: self.name@,
            attribute_type: self.attribute_type,
            value_type: self.value_type@,
        }
    }
}

/// A mapping declaration: its name, one key and one value.
#[derive(Debug)]
pub struct Mapping {
    pub name: String,
    pub key: KeyValue,
    pub value: KeyValue,
}

/// The spec-level value of a `Mapping`.
pub struct MappingV {
    pub name: Seq<char>,
    pub key: KeyValueV,
    pub value: KeyValueV,
}

impl View for Mapping {
    type V = MappingV;

    open spec fn view(&self) -> MappingV {
        MappingV { name: self.name@, key: self.key@, value: self.value@ }
    }
}

impl DeepView for Mapping {
    type V = MappingV;

    open spec fn deep_view(&self) -> MappingV {
        self@
    }
}

/// Reads a mapping key or value declaration at `pos`: its name, an
/// attribute tag restricted to public (0), record (1) or external-record
/// (2), and its plaintext type.
pub open spec fn spec_read_keyvalue(bytes: Seq<u8>, pos: int) -> Result<
    (KeyValueV, int),
    DecodeError,
> {
    match spec_read_identifier(bytes, pos) {
        Ok(np) => match spec_read_u8(bytes, np.1) {
            Ok(tp) => {
                let attribute = if tp.0 == 0 {
                    Some(Attribute::Public)
                } else if tp.0 == 1 {
                    Some(Attribute::Record)
                } else if tp.0 == 2 {
                    Some(Attribute::ExternalRecord)
                } else {
                    None
                };
                match attribute {
                    Some(a) => match spec_read_plaintext_type(bytes, tp.1) {
                        Ok(vp) => Ok(
                            (KeyValueV { name: np.0, attribute_type: a, value_type: vp.0 }, vp.1),
                        ),
                        Err(e) => Err(e),
                    },
                    None => Err(spec_err(DecodeErrorKind::UnknownTag, np.1)),
                }
            },
            Err(e) => Err(e),
        },
        Err(e) => Err(e),
    }
}

/// Reads a mapping at `pos`: its name, then one key and one value
/// declaration.
#[verifier::opaque]
pub open spec fn spec_read_mapping(bytes: Seq<u8>, pos: int) -> Result<
    (MappingV, int),
    DecodeError,
> {
    match spec_read_identifier(bytes, pos) {
        Ok(np) => match spec_read_keyvalue(bytes, np.1) {
            Ok(kp) => match spec_read_keyvalue(bytes, kp.1) {
                Ok(vp) => Ok((MappingV { name: np.0, key: kp.0, value: vp.0 }, vp.1)),
                Err(e) => Err(e),
            },
            Err(e) => Err(e),
        },
        Err(e) => Err(e),
    }
}

/// The assembly rendering of a key or value declaration:
/// `<name> as <type>.<attribute>`.
pub open spec fn spec_keyvalue_text(kv: KeyValueV) -> Seq<char> {
    kv.name + " as "@ + spec_type_text(kv.value_type) + "."@ + spec_attribute_text(
        kv.attribute_type,
    )
}

/// The assembly rendering of a mapping: its name, then one indented key
/// line and one indented value line.
pub open spec fn spec_mapping_text(m: MappingV) -> Seq<char> {
    "mapping "@ + m.name + "\n\tkey "@ + spec_keyvalue_text(m.key) + "\n\tvalue "@
        + spec_keyvalue_text(m.value) + "\n"@
}

/// The source-like rendering of a mapping:
/// `mapping <name>: <key type> => <value type>;`.
pub open spec fn spec_mapping_leo(m: MappingV) -> Seq<char> {
    "mapping "@ + m.name + ": "@ + spec_type_text(m.key.value_type) + " => "@ + spec_type_text(
        m.value.value_type,
    ) + ";\n"@
}

impl KeyValue {
    /// Reads a key or value declaration: its name, an attribute tag
    /// restricted to public, record or external-record, and its type.
    pub fn read(bytes: &mut ByteCode) -> (r: Result<KeyValue, DecodeError>)
        requires
            old(bytes).wf(),
        ensures
            final(bytes).wf(),
            final(bytes).data() == old(bytes).data(),
            old(bytes).pos() <= final(bytes).pos(),
            match spec_read_keyvalue(old(bytes).data(), old(bytes).pos()) {
                Ok(vp) => r matches Ok(v) && v@ == vp.0 && final(bytes).pos() == vp.1,
                Err(e) => r == Err::<KeyValue, DecodeError>(e),
            },
    {
        let name = match read_identifier(bytes) {
            Ok(v) => v,
            Err(e) => { return Err(e) },
        };
        let tag_start = bytes.position();
        let tag = match bytes.read_u8() {
            Ok(v) => v,
            Err(e) => { return Err(e) },
        };
        let attribute_type = if tag == 0 {
            Attribute::Public
        } else if tag == 1 {
            Attribute::Record
        } else if tag == 2 {
            Attribute::ExternalRecord
        } else {
            return Err(DecodeError { kind: DecodeErrorKind::UnknownTag, offset: tag_start });
        };
        match read_plaintext_type(bytes) {
            Ok(value_type) => Ok(KeyValue { name, attribute_type, value_type }),
            Err(e) => Err(e),
        }
    }

    /// The assembly rendering of this declaration:
    /// `<name> as <type>.<attribute>`.
    pub fn assembly(&self) -> (r: String)
        ensures
            r@ == spec_keyvalue_text(self@),
    {
        let mut s = self.name.clone();
        s.append(" as ");
        let ty = self.value_type.assembly();
        s.append(ty.as_str());
        s.append(".");
        let attr = self.attribute_type.assembly();
        s.append(attr.as_str());
        s
    }
}

impl Mapping {
    /// Reads a mapping: its name, then one key and one value declaration.
    pub fn read(bytes: &mut ByteCode) -> (r: Result<Mapping, DecodeError>)
        requires
            old(bytes).wf(),
        ensures
            final(bytes).wf(),
            final(bytes).data() == old(bytes).data(),
            old(bytes).pos() <= final(bytes).pos(),
            match spec_read_mapping(old(bytes).data(), old(bytes).pos()) {
                Ok(vp) => r matches Ok(v) && v@ == vp.0 && final(bytes).pos() == vp.1,
                Err(e) => r == Err::<Mapping, DecodeError>(e),
            },
    {
        proof {
            reveal(spec_read_mapping);
        }
        let name = match read_identifier(bytes) {
            Ok(v) => v,
            Err(e) => { return Err(e) },
        };
        let key = match KeyValue::read(bytes) {
            Ok(v) => v,
            Err(e) => { return Err(e) },
        };
        let value = match KeyValue::read(bytes) {
            Ok(v) => v,
            Err(e) => { return Err(e) },
        };
        Ok(Mapping { name, key, value })
    }

    /// The assembly rendering of this mapping.
    pub fn assembly(&self) -> (r: String)
        ensures
            r@ == spec_mapping_text(self@),
    {
        let mut s = String::from_str("mapping ");
        s.append(self.name.as_str());
        s.append("\n\tkey ");
        let key = self.key.assembly();
        s.append(key.as_str());
        s.append("\n\tvalue ");
        let value = self.value.assembly();
        s.append(value.as_str());
        s.append("\n");
        s
    }

    /// The source-like rendering of this mapping:
    /// `mapping <name>: <key type> => <value type>;`.
    pub fn leo(&self) -> (r: String)
        ensures
            r@ == spec_mapping_leo(self@),
    {
        let mut s = String::from_str("mapping ");
        s.append(self.name.as_str());
        s.append(": ");
        let kt = self.key.value_type.assembly();
        s.append(kt.as_str());
        s.append(" => ");
        let vt = self.value.value_type.assembly();
        s.append(vt.as_str());
        s.append(";\n");
        s
    }
}

} // verus!

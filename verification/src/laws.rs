//! Laws of the decoder, proved over the spec-level grammar.
//!
//! The central theorem is `lemma_program_truncation`: cutting the byte
//! buffer of a decodable program anywhere strictly before its last
//! consumed byte makes the decode fail with a `Truncated` error — never
//! another outcome.  It rests on one prefix lemma per grammar production,
//! each showing that a production consumes bytes monotonically, behaves
//! identically on a prefix that still contains all its bytes, and fails
//! with `Truncated` on one that does not.  Beside it stand the
//! variable-length integer round-trip law, the determinism of decoding
//! and rendering, the literal width law, the cast argument-count law and
//! the instruction rendering law.

use vstd::prelude::*;

use crate::bytecode::{
    spec_read_i128, spec_read_i16, spec_read_i32, spec_read_i64, spec_read_i8, spec_read_n,
    spec_read_u128, spec_read_u16, spec_read_u32, spec_read_u64, spec_read_u8,
};
use crate::error::DecodeErrorKind;
use crate::util::{
    spec_read_ident_list, spec_read_identifier, spec_read_identifiers, spec_read_locator,
    spec_read_programid, spec_read_varint,
};
use crate::components::types::{
    spec_read_attribute, spec_read_function_register_type, spec_read_literal,
    spec_read_plaintext_type,
};
use crate::components::registers::{spec_read_io_register, spec_read_register};
use crate::components::instructions::{
    spec_opcode_class, spec_opcode_of_tag, spec_read_assert_body, spec_read_call_body,
    spec_read_cast_body, spec_read_instruction, spec_read_instruction_list,
    spec_read_instructions, spec_read_operand, spec_read_operand_list, spec_read_operands,
    spec_read_register_list, OpcodeClass,
};
use crate::components::function::FunctionType;
use crate::components::registers::IOType;
use crate::components::function::{
    spec_function_text, spec_read_function, spec_read_io_register_list, FunctionV,
};
use crate::components::instructions::{
    spec_instruction_text, spec_opcode_text, spec_operands_text, spec_output_text, Opcode,
};
use crate::components::mapping::{spec_mapping_text, spec_read_keyvalue, spec_read_mapping, MappingV};
use crate::components::records::{
    spec_read_record, spec_read_record_attribute, spec_read_record_entry,
    spec_read_record_entry_list, spec_record_text, RecordV,
};
use crate::components::structs::{
    spec_read_struct, spec_read_struct_entry, spec_read_struct_entry_list, spec_struct_text,
    StructV,
};
use crate::disassembler::{
    spec_program_text, spec_read_component_list, spec_read_import_list, spec_read_program,
    ProgramV,
};
use crate::error::DecodeError;
use crate::text::spec_join;
use crate::util::spec_encode_varint;

verus! {

proof fn lemma_prefix_u8(bytes: Seq<u8>, pos: int, m: int)
    requires
        0 <= pos <= m <= bytes.len(),
        spec_read_u8(bytes, pos) is Ok,
    ensures
        ({
            let vp = spec_read_u8(bytes, pos)->Ok_0;
            &&& pos <= vp.1 <= bytes.len()
            &&& vp.1 <= m ==> spec_read_u8(bytes.take(m), pos) == spec_read_u8(bytes, pos)
            &&& vp.1 > m ==> (spec_read_u8(bytes.take(m), pos) matches Err(e) && e.kind == DecodeErrorKind::Truncated)
        }),
{
}

proof fn lemma_prefix_u16(bytes: Seq<u8>, pos: int, m: int)
    requires
        0 <= pos <= m <= bytes.len(),
        spec_read_u16(bytes, pos) is Ok,
    ensures
        ({
            let vp = spec_read_u16(bytes, pos)->Ok_0;
            &&& pos <= vp.1 <= bytes.len()
            &&& vp.1 <= m ==> spec_read_u16(bytes.take(m), pos) == spec_read_u16(bytes, pos)
            &&& vp.1 > m ==> (spec_read_u16(bytes.take(m), pos) matches Err(e) && e.kind == DecodeErrorKind::Truncated)
        }),
{
}

proof fn lemma_prefix_u32(bytes: Seq<u8>, pos: int, m: int)
    requires
        0 <= pos <= m <= bytes.len(),
        spec_read_u32(bytes, pos) is Ok,
    ensures
        ({
            let vp = spec_read_u32(bytes, pos)->Ok_0;
            &&& pos <= vp.1 <= bytes.len()
            &&& vp.1 <= m ==> spec_read_u32(bytes.take(m), pos) == spec_read_u32(bytes, pos)
            &&& vp.1 > m ==> (spec_read_u32(bytes.take(m), pos) matches Err(e) && e.kind == DecodeErrorKind::Truncated)
        }),
{
}

proof fn lemma_prefix_u64(bytes: Seq<u8>, pos: int, m: int)
    requires
        0 <= pos <= m <= bytes.len(),
        spec_read_u64(bytes, pos) is Ok,
    ensures
        ({
            let vp = spec_read_u64(bytes, pos)->Ok_0;
            &&& pos <= vp.1 <= bytes.len()
            &&& vp.1 <= m ==> spec_read_u64(bytes.take(m), pos) == spec_read_u64(bytes, pos)
            &&& vp.1 > m ==> (spec_read_u64(bytes.take(m), pos) matches Err(e) && e.kind == DecodeErrorKind::Truncated)
        }),
{
}

proof fn lemma_prefix_u128(bytes: Seq<u8>, pos: int, m: int)
    requires
        0 <= pos <= m <= bytes.len(),
        spec_read_u128(bytes, pos) is Ok,
    ensures
        ({
            let vp = spec_read_u128(bytes, pos)->Ok_0;
            &&& pos <= vp.1 <= bytes.len()
            &&& vp.1 <= m ==> spec_read_u128(bytes.take(m), pos) == spec_read_u128(bytes, pos)
            &&& vp.1 > m ==> (spec_read_u128(bytes.take(m), pos) matches Err(e) && e.kind == DecodeErrorKind::Truncated)
        }),
{
}

proof fn lemma_prefix_read_n(bytes: Seq<u8>, pos: int, n: int, m: int)
    requires
        0 <= pos <= m <= bytes.len(),
        spec_read_n(bytes, pos, n) is Ok,
    ensures
        ({
            let vp = spec_read_n(bytes, pos, n)->Ok_0;
            &&& pos <= vp.1 <= bytes.len()
            &&& vp.1 <= m ==> spec_read_n(bytes.take(m), pos, n) == spec_read_n(bytes, pos, n)
            &&& vp.1 > m ==> (spec_read_n(bytes.take(m), pos, n) matches Err(e) && e.kind == DecodeErrorKind::Truncated)
        }),
{
    let vp = spec_read_n(bytes, pos, n)->Ok_0;
    if vp.1 <= m {
        assert(bytes.take(m).subrange(pos, pos + n) =~= bytes.subrange(pos, pos + n));
    }
}

proof fn lemma_prefix_i8(bytes: Seq<u8>, pos: int, m: int)
    requires
        0 <= pos <= m <= bytes.len(),
        spec_read_i8(bytes, pos) is Ok,
    ensures
        ({
            let vp = spec_read_i8(bytes, pos)->Ok_0;
            &&& pos <= vp.1 <= bytes.len()
            &&& vp.1 <= m ==> spec_read_i8(bytes.take(m), pos) == spec_read_i8(bytes, pos)
            &&& vp.1 > m ==> (spec_read_i8(bytes.take(m), pos) matches Err(e) && e.kind == DecodeErrorKind::Truncated)
        }),
{
    lemma_prefix_u8(bytes, pos, m);
}

proof fn lemma_prefix_i16(bytes: Seq<u8>, pos: int, m: int)
    requires
        0 <= pos <= m <= bytes.len(),
        spec_read_i16(bytes, pos) is Ok,
    ensures
        ({
            let vp = spec_read_i16(bytes, pos)->Ok_0;
            &&& pos <= vp.1 <= bytes.len()
            &&& vp.1 <= m ==> spec_read_i16(bytes.take(m), pos) == spec_read_i16(bytes, pos)
            &&& vp.1 > m ==> (spec_read_i16(bytes.take(m), pos) matches Err(e) && e.kind == DecodeErrorKind::Truncated)
        }),
{
    lemma_prefix_u16(bytes, pos, m);
}

proof fn lemma_prefix_i32(bytes: Seq<u8>, pos: int, m: int)
    requires
        0 <= pos <= m <= bytes.len(),
        spec_read_i32(bytes, pos) is Ok,
    ensures
        ({
            let vp = spec_read_i32(bytes, pos)->Ok_0;
            &&& pos <= vp.1 <= bytes.len()
            &&& vp.1 <= m ==> spec_read_i32(bytes.take(m), pos) == spec_read_i32(bytes, pos)
            &&& vp.1 > m ==> (spec_read_i32(bytes.take(m), pos) matches Err(e) && e.kind == DecodeErrorKind::Truncated)
        }),
{
    lemma_prefix_u32(bytes, pos, m);
}

proof fn lemma_prefix_i64(bytes: Seq<u8>, pos: int, m: int)
    requires
        0 <= pos <= m <= bytes.len(),
        spec_read_i64(bytes, pos) is Ok,
    ensures
        ({
            let vp = spec_read_i64(bytes, pos)->Ok_0;
            &&& pos <= vp.1 <= bytes.len()
            &&& vp.1 <= m ==> spec_read_i64(bytes.take(m), pos) == spec_read_i64(bytes, pos)
            &&& vp.1 > m ==> (spec_read_i64(bytes.take(m), pos) matches Err(e) && e.kind == DecodeErrorKind::Truncated)
        }),
{
    lemma_prefix_u64(bytes, pos, m);
}

proof fn lemma_prefix_i128(bytes: Seq<u8>, pos: int, m: int)
    requires
        0 <= pos <= m <= bytes.len(),
        spec_read_i128(bytes, pos) is Ok,
    ensures
        ({
            let vp = spec_read_i128(bytes, pos)->Ok_0;
            &&& pos <= vp.1 <= bytes.len()
            &&& vp.1 <= m ==> spec_read_i128(bytes.take(m), pos) == spec_read_i128(bytes, pos)
            &&& vp.1 > m ==> (spec_read_i128(bytes.take(m), pos) matches Err(e) && e.kind == DecodeErrorKind::Truncated)
        }),
{
    lemma_prefix_u128(bytes, pos, m);
}

proof fn lemma_prefix_identifier(bytes: Seq<u8>, pos: int, m: int)
    requires
        0 <= pos <= m <= bytes.len(),
        spec_read_identifier(bytes, pos) is Ok,
    ensures
        ({
            let vp = spec_read_identifier(bytes, pos)->Ok_0;
            &&& pos <= vp.1 <= bytes.len()
            &&& vp.1 <= m ==> spec_read_identifier(bytes.take(m), pos) == spec_read_identifier(bytes, pos)
            &&& vp.1 > m ==> (spec_read_identifier(bytes.take(m), pos) matches Err(e) && e.kind == DecodeErrorKind::Truncated)
        }),
{
    lemma_prefix_u8(bytes, pos, m);
    let np = spec_read_u8(bytes, pos)->Ok_0;
    if np.1 <= m {
        lemma_prefix_read_n(bytes, np.1, np.0 as int, m);
    } else {
        lemma_prefix_read_n(bytes, np.1, np.0 as int, bytes.len() as int);
    }
}

proof fn lemma_prefix_varint(bytes: Seq<u8>, pos: int, m: int)
    requires
        0 <= pos <= m <= bytes.len(),
        spec_read_varint(bytes, pos) is Ok,
    ensures
        ({
            let vp = spec_read_varint(bytes, pos)->Ok_0;
            &&& pos <= vp.1 <= bytes.len()
            &&& vp.1 <= m ==> spec_read_varint(bytes.take(m), pos) == spec_read_varint(bytes, pos)
            &&& vp.1 > m ==> (spec_read_varint(bytes.take(m), pos) matches Err(e) && e.kind == DecodeErrorKind::Truncated)
        }),
{
    lemma_prefix_u8(bytes, pos, m);
    let fp = spec_read_u8(bytes, pos)->Ok_0;
    let mm = if fp.1 <= m { m } else { bytes.len() as int };
    if fp.0 == 253 {
        lemma_prefix_u16(bytes, fp.1, mm);
    } else if fp.0 == 254 {
        lemma_prefix_u32(bytes, fp.1, mm);
    } else if fp.0 == 255 {
        lemma_prefix_u64(bytes, fp.1, mm);
    }
}

proof fn lemma_prefix_programid(bytes: Seq<u8>, pos: int, m: int)
    requires
        0 <= pos <= m <= bytes.len(),
        spec_read_programid(bytes, pos) is Ok,
    ensures
        ({
            let vp = spec_read_programid(bytes, pos)->Ok_0;
            &&& pos <= vp.1 <= bytes.len()
            &&& vp.1 <= m ==> spec_read_programid(bytes.take(m), pos) == spec_read_programid(bytes, pos)
            &&& vp.1 > m ==> (spec_read_programid(bytes.take(m), pos) matches Err(e) && e.kind == DecodeErrorKind::Truncated)
        }),
{
    lemma_prefix_identifier(bytes, pos, m);
    let np = spec_read_identifier(bytes, pos)->Ok_0;
    let mm = if np.1 <= m { m } else { bytes.len() as int };
    lemma_prefix_identifier(bytes, np.1, mm);
}

proof fn lemma_prefix_ident_list(bytes: Seq<u8>, pos: int, n: int, m: int)
    requires
        0 <= pos <= m <= bytes.len(),
        spec_read_ident_list(bytes, pos, n) is Ok,
    ensures
        ({
            let vp = spec_read_ident_list(bytes, pos, n)->Ok_0;
            &&& pos <= vp.1 <= bytes.len()
            &&& vp.1 <= m ==> spec_read_ident_list(bytes.take(m), pos, n) == spec_read_ident_list(bytes, pos, n)
            &&& vp.1 > m ==> (spec_read_ident_list(bytes.take(m), pos, n) matches Err(e) && e.kind == DecodeErrorKind::Truncated)
        }),
    decreases n,
{
    if n > 0 {
        lemma_prefix_identifier(bytes, pos, m);
        let vp = spec_read_identifier(bytes, pos)->Ok_0;
        let mm = if vp.1 <= m { m } else { bytes.len() as int };
        lemma_prefix_ident_list(bytes, vp.1, n - 1, mm);
    }
}

proof fn lemma_prefix_identifiers(bytes: Seq<u8>, pos: int, m: int)
    requires
        0 <= pos <= m <= bytes.len(),
        spec_read_identifiers(bytes, pos) is Ok,
    ensures
        ({
            let vp = spec_read_identifiers(bytes, pos)->Ok_0;
            &&& pos <= vp.1 <= bytes.len()
            &&& vp.1 <= m ==> spec_read_identifiers(bytes.take(m), pos) == spec_read_identifiers(bytes, pos)
            &&& vp.1 > m ==> (spec_read_identifiers(bytes.take(m), pos) matches Err(e) && e.kind == DecodeErrorKind::Truncated)
        }),
{
    lemma_prefix_u16(bytes, pos, m);
    let np = spec_read_u16(bytes, pos)->Ok_0;
    let mm = if np.1 <= m { m } else { bytes.len() as int };
    lemma_prefix_ident_list(bytes, np.1, np.0 as int, mm);
}

proof fn lemma_prefix_locator(bytes: Seq<u8>, pos: int, m: int)
    requires
        0 <= pos <= m <= bytes.len(),
        spec_read_locator(bytes, pos) is Ok,
    ensures
        ({
            let vp = spec_read_locator(bytes, pos)->Ok_0;
            &&& pos <= vp.1 <= bytes.len()
            &&& vp.1 <= m ==> spec_read_locator(bytes.take(m), pos) == spec_read_locator(bytes, pos)
            &&& vp.1 > m ==> (spec_read_locator(bytes.take(m), pos) matches Err(e) && e.kind == DecodeErrorKind::Truncated)
        }),
{
    lemma_prefix_programid(bytes, pos, m);
    let pp = spec_read_programid(bytes, pos)->Ok_0;
    let mm = if pp.1 <= m { m } else { bytes.len() as int };
    lemma_prefix_identifier(bytes, pp.1, mm);
}


proof fn lemma_prefix_attribute(bytes: Seq<u8>, pos: int, m: int)
    requires
        0 <= pos <= m <= bytes.len(),
        spec_read_attribute(bytes, pos) is Ok,
    ensures
        ({
            let vp = spec_read_attribute(bytes, pos)->Ok_0;
            &&& pos <= vp.1 <= bytes.len()
            &&& vp.1 <= m ==> spec_read_attribute(bytes.take(m), pos) == spec_read_attribute(bytes, pos)
            &&& vp.1 > m ==> (spec_read_attribute(bytes.take(m), pos) matches Err(e) && e.kind == DecodeErrorKind::Truncated)
        }),
{
    lemma_prefix_u8(bytes, pos, m);
}

proof fn lemma_prefix_plaintext_type(bytes: Seq<u8>, pos: int, m: int)
    requires
        0 <= pos <= m <= bytes.len(),
        spec_read_plaintext_type(bytes, pos) is Ok,
    ensures
        ({
            let vp = spec_read_plaintext_type(bytes, pos)->Ok_0;
            &&& pos < vp.1 <= bytes.len()
            &&& vp.1 <= m ==> spec_read_plaintext_type(bytes.take(m), pos) == spec_read_plaintext_type(bytes, pos)
            &&& vp.1 > m ==> (spec_read_plaintext_type(bytes.take(m), pos) matches Err(e) && e.kind == DecodeErrorKind::Truncated)
        }),
{
    lemma_prefix_u8(bytes, pos, m);
    let dp = spec_read_u8(bytes, pos)->Ok_0;
    let mm = if dp.1 <= m { m } else { bytes.len() as int };
    if dp.0 == 0 {
        lemma_prefix_u16(bytes, dp.1, mm);
    } else {
        lemma_prefix_identifier(bytes, dp.1, mm);
    }
}

proof fn lemma_prefix_frt(bytes: Seq<u8>, pos: int, m: int)
    requires
        0 <= pos <= m <= bytes.len(),
        spec_read_function_register_type(bytes, pos) is Ok,
    ensures
        ({
            let vp = spec_read_function_register_type(bytes, pos)->Ok_0;
            &&& pos <= vp.1 <= bytes.len()
            &&& vp.1 <= m ==> spec_read_function_register_type(bytes.take(m), pos) == spec_read_function_register_type(bytes, pos)
            &&& vp.1 > m ==> (spec_read_function_register_type(bytes.take(m), pos) matches Err(e) && e.kind == DecodeErrorKind::Truncated)
        }),
{
    lemma_prefix_attribute(bytes, pos, m);
    let ap = spec_read_attribute(bytes, pos)->Ok_0;
    let mm = if ap.1 <= m { m } else { bytes.len() as int };
    lemma_prefix_plaintext_type(bytes, ap.1, mm);
}

proof fn lemma_prefix_literal(bytes: Seq<u8>, pos: int, m: int)
    requires
        0 <= pos <= m <= bytes.len(),
        spec_read_literal(bytes, pos) is Ok,
    ensures
        ({
            let vp = spec_read_literal(bytes, pos)->Ok_0;
            &&& pos <= vp.1 <= bytes.len()
            &&& vp.1 <= m ==> spec_read_literal(bytes.take(m), pos) == spec_read_literal(bytes, pos)
            &&& vp.1 > m ==> (spec_read_literal(bytes.take(m), pos) matches Err(e) && e.kind == DecodeErrorKind::Truncated)
        }),
{
    lemma_prefix_u16(bytes, pos, m);
    let tp = spec_read_u16(bytes, pos)->Ok_0;
    let mm = if tp.1 <= m { m } else { bytes.len() as int };
    let t = tp.0;
    if t == 0 || t == 2 || t == 14 {
        lemma_prefix_read_n(bytes, tp.1, 32, mm);
    } else if t == 1 {
        lemma_prefix_u8(bytes, tp.1, mm);
    } else if t == 4 {
        lemma_prefix_i8(bytes, tp.1, mm);
    } else if t == 5 {
        lemma_prefix_i16(bytes, tp.1, mm);
    } else if t == 6 {
        lemma_prefix_i32(bytes, tp.1, mm);
    } else if t == 7 {
        lemma_prefix_i64(bytes, tp.1, mm);
    } else if t == 8 {
        lemma_prefix_i128(bytes, tp.1, mm);
    } else if t == 9 {
        lemma_prefix_u8(bytes, tp.1, mm);
    } else if t == 10 {
        lemma_prefix_u16(bytes, tp.1, mm);
    } else if t == 11 {
        lemma_prefix_u32(bytes, tp.1, mm);
    } else if t == 12 {
        lemma_prefix_u64(bytes, tp.1, mm);
    } else if t == 13 {
        lemma_prefix_u128(bytes, tp.1, mm);
    }
}

proof fn lemma_prefix_register(bytes: Seq<u8>, pos: int, m: int)
    requires
        0 <= pos <= m <= bytes.len(),
        spec_read_register(bytes, pos) is Ok,
    ensures
        ({
            let vp = spec_read_register(bytes, pos)->Ok_0;
            &&& pos <= vp.1 <= bytes.len()
            &&& vp.1 <= m ==> spec_read_register(bytes.take(m), pos) == spec_read_register(bytes, pos)
            &&& vp.1 > m ==> (spec_read_register(bytes.take(m), pos) matches Err(e) && e.kind == DecodeErrorKind::Truncated)
        }),
{
    lemma_prefix_u8(bytes, pos, m);
    let fp = spec_read_u8(bytes, pos)->Ok_0;
    let m1 = if fp.1 <= m { m } else { bytes.len() as int };
    lemma_prefix_varint(bytes, fp.1, m1);
    let lp = spec_read_varint(bytes, fp.1)->Ok_0;
    if fp.0 == 1 {
        let m2 = if lp.1 <= m { m } else { bytes.len() as int };
        lemma_prefix_identifiers(bytes, lp.1, m2);
    }
}

proof fn lemma_prefix_io_register(
    bytes: Seq<u8>,
    pos: int,
    function_type: FunctionType,
    io_type: IOType,
    m: int,
)
    requires
        0 <= pos <= m <= bytes.len(),
        spec_read_io_register(bytes, pos, function_type, io_type) is Ok,
    ensures
        ({
            let vp = spec_read_io_register(bytes, pos, function_type, io_type)->Ok_0;
            &&& pos <= vp.1 <= bytes.len()
            &&& vp.1 <= m ==> spec_read_io_register(bytes.take(m), pos, function_type, io_type) == spec_read_io_register(bytes, pos, function_type, io_type)
            &&& vp.1 > m ==> (spec_read_io_register(bytes.take(m), pos, function_type, io_type) matches Err(e) && e.kind == DecodeErrorKind::Truncated)
        }),
{
    lemma_prefix_register(bytes, pos, m);
    let rp = spec_read_register(bytes, pos)->Ok_0;
    let mm = if rp.1 <= m { m } else { bytes.len() as int };
    lemma_prefix_frt(bytes, rp.1, mm);
}

proof fn lemma_prefix_operand(bytes: Seq<u8>, pos: int, m: int)
    requires
        0 <= pos <= m <= bytes.len(),
        spec_read_operand(bytes, pos) is Ok,
    ensures
        ({
            let vp = spec_read_operand(bytes, pos)->Ok_0;
            &&& pos <= vp.1 <= bytes.len()
            &&& vp.1 <= m ==> spec_read_operand(bytes.take(m), pos) == spec_read_operand(bytes, pos)
            &&& vp.1 > m ==> (spec_read_operand(bytes.take(m), pos) matches Err(e) && e.kind == DecodeErrorKind::Truncated)
        }),
{
    lemma_prefix_u8(bytes, pos, m);
    let tp = spec_read_u8(bytes, pos)->Ok_0;
    let mm = if tp.1 <= m { m } else { bytes.len() as int };
    if tp.0 == 0 {
        lemma_prefix_literal(bytes, tp.1, mm);
    } else if tp.0 == 1 {
        lemma_prefix_register(bytes, tp.1, mm);
    } else if tp.0 == 2 {
        lemma_prefix_locator(bytes, tp.1, mm);
    }
}

proof fn lemma_prefix_operand_list(bytes: Seq<u8>, pos: int, n: int, m: int)
    requires
        0 <= pos <= m <= bytes.len(),
        spec_read_operand_list(bytes, pos, n) is Ok,
    ensures
        ({
            let vp = spec_read_operand_list(bytes, pos, n)->Ok_0;
            &&& pos <= vp.1 <= bytes.len()
            &&& vp.1 <= m ==> spec_read_operand_list(bytes.take(m), pos, n) == spec_read_operand_list(bytes, pos, n)
            &&& vp.1 > m ==> (spec_read_operand_list(bytes.take(m), pos, n) matches Err(e) && e.kind == DecodeErrorKind::Truncated)
        }),
    decreases n,
{
    if n > 0 {
        lemma_prefix_operand(bytes, pos, m);
        let vp = spec_read_operand(bytes, pos)->Ok_0;
        let mm = if vp.1 <= m { m } else { bytes.len() as int };
        lemma_prefix_operand_list(bytes, vp.1, n - 1, mm);
    }
}

proof fn lemma_prefix_register_list(bytes: Seq<u8>, pos: int, n: int, m: int)
    requires
        0 <= pos <= m <= bytes.len(),
        spec_read_register_list(bytes, pos, n) is Ok,
    ensures
        ({
            let vp = spec_read_register_list(bytes, pos, n)->Ok_0;
            &&& pos <= vp.1 <= bytes.len()
            &&& vp.1 <= m ==> spec_read_register_list(bytes.take(m), pos, n) == spec_read_register_list(bytes, pos, n)
            &&& vp.1 > m ==> (spec_read_register_list(bytes.take(m), pos, n) matches Err(e) && e.kind == DecodeErrorKind::Truncated)
        }),
    decreases n,
{
    if n > 0 {
        lemma_prefix_register(bytes, pos, m);
        let vp = spec_read_register(bytes, pos)->Ok_0;
        let mm = if vp.1 <= m { m } else { bytes.len() as int };
        lemma_prefix_register_list(bytes, vp.1, n - 1, mm);
    }
}

proof fn lemma_prefix_operands(bytes: Seq<u8>, pos: int, n: int, m: int)
    requires
        0 <= pos <= m <= bytes.len(),
        spec_read_operands(bytes, pos, n) is Ok,
    ensures
        ({
            let vp = spec_read_operands(bytes, pos, n)->Ok_0;
            &&& pos <= vp.1 <= bytes.len()
            &&& vp.1 <= m ==> spec_read_operands(bytes.take(m), pos, n) == spec_read_operands(bytes, pos, n)
            &&& vp.1 > m ==> (spec_read_operands(bytes.take(m), pos, n) matches Err(e) && e.kind == DecodeErrorKind::Truncated)
        }),
{
    if n > 0 {
        lemma_prefix_operand_list(bytes, pos, n, m);
    }
}

proof fn lemma_prefix_cast_body(bytes: Seq<u8>, pos: int, m: int)
    requires
        0 <= pos <= m <= bytes.len(),
        spec_read_cast_body(bytes, pos) is Ok,
    ensures
        ({
            let vp = spec_read_cast_body(bytes, pos)->Ok_0;
            &&& pos <= vp.1 <= bytes.len()
            &&& vp.1 <= m ==> spec_read_cast_body(bytes.take(m), pos) == spec_read_cast_body(bytes, pos)
            &&& vp.1 > m ==> (spec_read_cast_body(bytes.take(m), pos) matches Err(e) && e.kind == DecodeErrorKind::Truncated)
        }),
{
    lemma_prefix_u8(bytes, pos, m);
    let cp = spec_read_u8(bytes, pos)->Ok_0;
    let m1 = if cp.1 <= m { m } else { bytes.len() as int };
    lemma_prefix_operand_list(bytes, cp.1, cp.0 as int, m1);
    let op = spec_read_operand_list(bytes, cp.1, cp.0 as int)->Ok_0;
    let m2 = if op.1 <= m { m } else { bytes.len() as int };
    lemma_prefix_u8(bytes, op.1, m2);
    let sp = spec_read_u8(bytes, op.1)->Ok_0;
    let m3 = if sp.1 <= m { m } else { bytes.len() as int };
    lemma_prefix_register(bytes, sp.1, m3);
    let rp = spec_read_register(bytes, sp.1)->Ok_0;
    let m4 = if rp.1 <= m { m } else { bytes.len() as int };
    lemma_prefix_plaintext_type(bytes, rp.1, m4);
}

proof fn lemma_prefix_call_body(bytes: Seq<u8>, pos: int, m: int)
    requires
        0 <= pos <= m <= bytes.len(),
        spec_read_call_body(bytes, pos) is Ok,
    ensures
        ({
            let vp = spec_read_call_body(bytes, pos)->Ok_0;
            &&& pos <= vp.1 <= bytes.len()
            &&& vp.1 <= m ==> spec_read_call_body(bytes.take(m), pos) == spec_read_call_body(bytes, pos)
            &&& vp.1 > m ==> (spec_read_call_body(bytes.take(m), pos) matches Err(e) && e.kind == DecodeErrorKind::Truncated)
        }),
{
    lemma_prefix_u8(bytes, pos, m);
    let tp = spec_read_u8(bytes, pos)->Ok_0;
    let m1 = if tp.1 <= m { m } else { bytes.len() as int };
    let c: int = if tp.0 == 1 {
        lemma_prefix_identifier(bytes, tp.1, m1);
        spec_read_identifier(bytes, tp.1)->Ok_0.1
    } else {
        lemma_prefix_locator(bytes, tp.1, m1);
        spec_read_locator(bytes, tp.1)->Ok_0.1
    };
    let m2 = if c <= m { m } else { bytes.len() as int };
    lemma_prefix_u8(bytes, c, m2);
    let np = spec_read_u8(bytes, c)->Ok_0;
    let m3 = if np.1 <= m { m } else { bytes.len() as int };
    lemma_prefix_operand_list(bytes, np.1, np.0 as int, m3);
    let op = spec_read_operand_list(bytes, np.1, np.0 as int)->Ok_0;
    let m4 = if op.1 <= m { m } else { bytes.len() as int };
    lemma_prefix_u8(bytes, op.1, m4);
    let mp = spec_read_u8(bytes, op.1)->Ok_0;
    let m5 = if mp.1 <= m { m } else { bytes.len() as int };
    lemma_prefix_register_list(bytes, mp.1, mp.0 as int, m5);
}

proof fn lemma_prefix_simple_body(bytes: Seq<u8>, pos: int, op: crate::components::instructions::Opcode, n: int, m: int)
    requires
        0 <= pos <= m <= bytes.len(),
        crate::components::instructions::spec_read_simple_body(bytes, pos, op, n) is Ok,
    ensures
        ({
            let vp = crate::components::instructions::spec_read_simple_body(bytes, pos, op, n)->Ok_0;
            &&& pos <= vp.1 <= bytes.len()
            &&& vp.1 <= m ==> crate::components::instructions::spec_read_simple_body(bytes.take(m), pos, op, n) == crate::components::instructions::spec_read_simple_body(bytes, pos, op, n)
            &&& vp.1 > m ==> (crate::components::instructions::spec_read_simple_body(bytes.take(m), pos, op, n) matches Err(e) && e.kind == DecodeErrorKind::Truncated)
        }),
{
    lemma_prefix_operands(bytes, pos, n, m);
    let op_p = spec_read_operands(bytes, pos, n)->Ok_0;
    let mm = if op_p.1 <= m { m } else { bytes.len() as int };
    lemma_prefix_register(bytes, op_p.1, mm);
}

proof fn lemma_prefix_assert_body(bytes: Seq<u8>, pos: int, op: crate::components::instructions::Opcode, m: int)
    requires
        0 <= pos <= m <= bytes.len(),
        spec_read_assert_body(bytes, pos, op) is Ok,
    ensures
        ({
            let vp = spec_read_assert_body(bytes, pos, op)->Ok_0;
            &&& pos <= vp.1 <= bytes.len()
            &&& vp.1 <= m ==> spec_read_assert_body(bytes.take(m), pos, op) == spec_read_assert_body(bytes, pos, op)
            &&& vp.1 > m ==> (spec_read_assert_body(bytes.take(m), pos, op) matches Err(e) && e.kind == DecodeErrorKind::Truncated)
        }),
{
    lemma_prefix_operands(bytes, pos, 2, m);
}

proof fn lemma_prefix_instruction(bytes: Seq<u8>, pos: int, m: int)
    requires
        0 <= pos <= m <= bytes.len(),
        spec_read_instruction(bytes, pos) is Ok,
    ensures
        ({
            let vp = spec_read_instruction(bytes, pos)->Ok_0;
            &&& pos <= vp.1 <= bytes.len()
            &&& vp.1 <= m ==> spec_read_instruction(bytes.take(m), pos) == spec_read_instruction(bytes, pos)
            &&& vp.1 > m ==> (spec_read_instruction(bytes.take(m), pos) matches Err(e) && e.kind == DecodeErrorKind::Truncated)
        }),
{
    reveal(spec_read_instruction);
    lemma_prefix_u16(bytes, pos, m);
    let tp = spec_read_u16(bytes, pos)->Ok_0;
    let m1 = if tp.1 <= m { m } else { bytes.len() as int };
    match spec_opcode_of_tag(tp.0) {
        Some(op) => {
            match spec_opcode_class(op) {
                OpcodeClass::Unary => lemma_prefix_simple_body(bytes, tp.1, op, 1, m1),
                OpcodeClass::Binary => lemma_prefix_simple_body(bytes, tp.1, op, 2, m1),
                OpcodeClass::Assertion => lemma_prefix_assert_body(bytes, tp.1, op, m1),
                OpcodeClass::Ternary => lemma_prefix_simple_body(bytes, tp.1, op, 3, m1),
                OpcodeClass::Cast => lemma_prefix_cast_body(bytes, tp.1, m1),
                OpcodeClass::Call => lemma_prefix_call_body(bytes, tp.1, m1),
            }
        },
        None => {},
    }
}

proof fn lemma_prefix_instruction_list(bytes: Seq<u8>, pos: int, n: int, m: int)
    requires
        0 <= pos <= m <= bytes.len(),
        spec_read_instruction_list(bytes, pos, n) is Ok,
    ensures
        ({
            let vp = spec_read_instruction_list(bytes, pos, n)->Ok_0;
            &&& pos <= vp.1 <= bytes.len()
            &&& vp.1 <= m ==> spec_read_instruction_list(bytes.take(m), pos, n) == spec_read_instruction_list(bytes, pos, n)
            &&& vp.1 > m ==> (spec_read_instruction_list(bytes.take(m), pos, n) matches Err(e) && e.kind == DecodeErrorKind::Truncated)
        }),
    decreases n,
{
    if n > 0 {
        lemma_prefix_instruction(bytes, pos, m);
        let vp = spec_read_instruction(bytes, pos)->Ok_0;
        let mm = if vp.1 <= m { m } else { bytes.len() as int };
        lemma_prefix_instruction_list(bytes, vp.1, n - 1, mm);
    }
}

proof fn lemma_prefix_instructions(bytes: Seq<u8>, pos: int, m: int)
    requires
        0 <= pos <= m <= bytes.len(),
        spec_read_instructions(bytes, pos) is Ok,
    ensures
        ({
            let vp = spec_read_instructions(bytes, pos)->Ok_0;
            &&& pos <= vp.1 <= bytes.len()
            &&& vp.1 <= m ==> spec_read_instructions(bytes.take(m), pos) == spec_read_instructions(bytes, pos)
            &&& vp.1 > m ==> (spec_read_instructions(bytes.take(m), pos) matches Err(e) && e.kind == DecodeErrorKind::Truncated)
        }),
{
    lemma_prefix_u32(bytes, pos, m);
    let np = spec_read_u32(bytes, pos)->Ok_0;
    let mm = if np.1 <= m { m } else { bytes.len() as int };
    lemma_prefix_instruction_list(bytes, np.1, np.0 as int, mm);
}


proof fn lemma_prefix_keyvalue(bytes: Seq<u8>, pos: int, m: int)
    requires
        0 <= pos <= m <= bytes.len(),
        spec_read_keyvalue(bytes, pos) is Ok,
    ensures
        ({
            let vp = spec_read_keyvalue(bytes, pos)->Ok_0;
            &&& pos <= vp.1 <= bytes.len()
            &&& vp.1 <= m ==> spec_read_keyvalue(bytes.take(m), pos) == spec_read_keyvalue(bytes, pos)
            &&& vp.1 > m ==> (spec_read_keyvalue(bytes.take(m), pos) matches Err(e) && e.kind == DecodeErrorKind::Truncated)
        }),
{
    lemma_prefix_identifier(bytes, pos, m);
    let np = spec_read_identifier(bytes, pos)->Ok_0;
    let m1 = if np.1 <= m { m } else { bytes.len() as int };
    lemma_prefix_u8(bytes, np.1, m1);
    let tp = spec_read_u8(bytes, np.1)->Ok_0;
    let m2 = if tp.1 <= m { m } else { bytes.len() as int };
    lemma_prefix_plaintext_type(bytes, tp.1, m2);
}

proof fn lemma_prefix_mapping(bytes: Seq<u8>, pos: int, m: int)
    requires
        0 <= pos <= m <= bytes.len(),
        spec_read_mapping(bytes, pos) is Ok,
    ensures
        ({
            let vp = spec_read_mapping(bytes, pos)->Ok_0;
            &&& pos <= vp.1 <= bytes.len()
            &&& vp.1 <= m ==> spec_read_mapping(bytes.take(m), pos) == spec_read_mapping(bytes, pos)
            &&& vp.1 > m ==> (spec_read_mapping(bytes.take(m), pos) matches Err(e) && e.kind == DecodeErrorKind::Truncated)
        }),
{
    reveal(spec_read_mapping);
    lemma_prefix_identifier(bytes, pos, m);
    let np = spec_read_identifier(bytes, pos)->Ok_0;
    let m1 = if np.1 <= m { m } else { bytes.len() as int };
    lemma_prefix_keyvalue(bytes, np.1, m1);
    let kp = spec_read_keyvalue(bytes, np.1)->Ok_0;
    let m2 = if kp.1 <= m { m } else { bytes.len() as int };
    lemma_prefix_keyvalue(bytes, kp.1, m2);
}

proof fn lemma_prefix_struct_entry(bytes: Seq<u8>, pos: int, m: int)
    requires
        0 <= pos <= m <= bytes.len(),
        spec_read_struct_entry(bytes, pos) is Ok,
    ensures
        ({
            let vp = spec_read_struct_entry(bytes, pos)->Ok_0;
            &&& pos <= vp.1 <= bytes.len()
            &&& vp.1 <= m ==> spec_read_struct_entry(bytes.take(m), pos) == spec_read_struct_entry(bytes, pos)
            &&& vp.1 > m ==> (spec_read_struct_entry(bytes.take(m), pos) matches Err(e) && e.kind == DecodeErrorKind::Truncated)
        }),
{
    lemma_prefix_identifier(bytes, pos, m);
    let np = spec_read_identifier(bytes, pos)->Ok_0;
    let mm = if np.1 <= m { m } else { bytes.len() as int };
    lemma_prefix_plaintext_type(bytes, np.1, mm);
}

proof fn lemma_prefix_struct_entry_list(bytes: Seq<u8>, pos: int, n: int, m: int)
    requires
        0 <= pos <= m <= bytes.len(),
        spec_read_struct_entry_list(bytes, pos, n) is Ok,
    ensures
        ({
            let vp = spec_read_struct_entry_list(bytes, pos, n)->Ok_0;
            &&& pos <= vp.1 <= bytes.len()
            &&& vp.1 <= m ==> spec_read_struct_entry_list(bytes.take(m), pos, n) == spec_read_struct_entry_list(bytes, pos, n)
            &&& vp.1 > m ==> (spec_read_struct_entry_list(bytes.take(m), pos, n) matches Err(e) && e.kind == DecodeErrorKind::Truncated)
        }),
    decreases n,
{
    if n > 0 {
        lemma_prefix_struct_entry(bytes, pos, m);
        let vp = spec_read_struct_entry(bytes, pos)->Ok_0;
        let mm = if vp.1 <= m { m } else { bytes.len() as int };
        lemma_prefix_struct_entry_list(bytes, vp.1, n - 1, mm);
    }
}

proof fn lemma_prefix_struct(bytes: Seq<u8>, pos: int, m: int)
    requires
        0 <= pos <= m <= bytes.len(),
        spec_read_struct(bytes, pos) is Ok,
    ensures
        ({
            let vp = spec_read_struct(bytes, pos)->Ok_0;
            &&& pos <= vp.1 <= bytes.len()
            &&& vp.1 <= m ==> spec_read_struct(bytes.take(m), pos) == spec_read_struct(bytes, pos)
            &&& vp.1 > m ==> (spec_read_struct(bytes.take(m), pos) matches Err(e) && e.kind == DecodeErrorKind::Truncated)
        }),
{
    reveal(spec_read_struct);
    lemma_prefix_identifier(bytes, pos, m);
    let np = spec_read_identifier(bytes, pos)->Ok_0;
    let m1 = if np.1 <= m { m } else { bytes.len() as int };
    lemma_prefix_u16(bytes, np.1, m1);
    let cp = spec_read_u16(bytes, np.1)->Ok_0;
    let m2 = if cp.1 <= m { m } else { bytes.len() as int };
    lemma_prefix_struct_entry_list(bytes, cp.1, cp.0 as int, m2);
}

proof fn lemma_prefix_record_attribute(bytes: Seq<u8>, pos: int, m: int)
    requires
        0 <= pos <= m <= bytes.len(),
        spec_read_record_attribute(bytes, pos) is Ok,
    ensures
        ({
            let vp = spec_read_record_attribute(bytes, pos)->Ok_0;
            &&& pos <= vp.1 <= bytes.len()
            &&& vp.1 <= m ==> spec_read_record_attribute(bytes.take(m), pos) == spec_read_record_attribute(bytes, pos)
            &&& vp.1 > m ==> (spec_read_record_attribute(bytes.take(m), pos) matches Err(e) && e.kind == DecodeErrorKind::Truncated)
        }),
{
    lemma_prefix_u8(bytes, pos, m);
}

proof fn lemma_prefix_record_entry(bytes: Seq<u8>, pos: int, m: int)
    requires
        0 <= pos <= m <= bytes.len(),
        spec_read_record_entry(bytes, pos) is Ok,
    ensures
        ({
            let vp = spec_read_record_entry(bytes, pos)->Ok_0;
            &&& pos <= vp.1 <= bytes.len()
            &&& vp.1 <= m ==> spec_read_record_entry(bytes.take(m), pos) == spec_read_record_entry(bytes, pos)
            &&& vp.1 > m ==> (spec_read_record_entry(bytes.take(m), pos) matches Err(e) && e.kind == DecodeErrorKind::Truncated)
        }),
{
    lemma_prefix_identifier(bytes, pos, m);
    let np = spec_read_identifier(bytes, pos)->Ok_0;
    let m1 = if np.1 <= m { m } else { bytes.len() as int };
    lemma_prefix_attribute(bytes, np.1, m1);
    let ap = spec_read_attribute(bytes, np.1)->Ok_0;
    let m2 = if ap.1 <= m { m } else { bytes.len() as int };
    lemma_prefix_plaintext_type(bytes, ap.1, m2);
}

proof fn lemma_prefix_record_entry_list(bytes: Seq<u8>, pos: int, n: int, m: int)
    requires
        0 <= pos <= m <= bytes.len(),
        spec_read_record_entry_list(bytes, pos, n) is Ok,
    ensures
        ({
            let vp = spec_read_record_entry_list(bytes, pos, n)->Ok_0;
            &&& pos <= vp.1 <= bytes.len()
            &&& vp.1 <= m ==> spec_read_record_entry_list(bytes.take(m), pos, n) == spec_read_record_entry_list(bytes, pos, n)
            &&& vp.1 > m ==> (spec_read_record_entry_list(bytes.take(m), pos, n) matches Err(e) && e.kind == DecodeErrorKind::Truncated)
        }),
    decreases n,
{
    if n > 0 {
        lemma_prefix_record_entry(bytes, pos, m);
        let vp = spec_read_record_entry(bytes, pos)->Ok_0;
        let mm = if vp.1 <= m { m } else { bytes.len() as int };
        lemma_prefix_record_entry_list(bytes, vp.1, n - 1, mm);
    }
}

proof fn lemma_prefix_record(bytes: Seq<u8>, pos: int, m: int)
    requires
        0 <= pos <= m <= bytes.len(),
        spec_read_record(bytes, pos) is Ok,
    ensures
        ({
            let vp = spec_read_record(bytes, pos)->Ok_0;
            &&& pos <= vp.1 <= bytes.len()
            &&& vp.1 <= m ==> spec_read_record(bytes.take(m), pos) == spec_read_record(bytes, pos)
            &&& vp.1 > m ==> (spec_read_record(bytes.take(m), pos) matches Err(e) && e.kind == DecodeErrorKind::Truncated)
        }),
{
    reveal(spec_read_record);
    lemma_prefix_identifier(bytes, pos, m);
    let np = spec_read_identifier(bytes, pos)->Ok_0;
    let m1 = if np.1 <= m { m } else { bytes.len() as int };
    lemma_prefix_record_attribute(bytes, np.1, m1);
    let op = spec_read_record_attribute(bytes, np.1)->Ok_0;
    let m2 = if op.1 <= m { m } else { bytes.len() as int };
    lemma_prefix_record_attribute(bytes, op.1, m2);
    let gp = spec_read_record_attribute(bytes, op.1)->Ok_0;
    let m3 = if gp.1 <= m { m } else { bytes.len() as int };
    lemma_prefix_u16(bytes, gp.1, m3);
    let cp = spec_read_u16(bytes, gp.1)->Ok_0;
    let m4 = if cp.1 <= m { m } else { bytes.len() as int };
    lemma_prefix_record_entry_list(bytes, cp.1, cp.0 as int, m4);
}

proof fn lemma_prefix_io_register_list(
    bytes: Seq<u8>,
    pos: int,
    n: int,
    function_type: FunctionType,
    io_type: IOType,
    m: int,
)
    requires
        0 <= pos <= m <= bytes.len(),
        spec_read_io_register_list(bytes, pos, n, function_type, io_type) is Ok,
    ensures
        ({
            let vp = spec_read_io_register_list(bytes, pos, n, function_type, io_type)->Ok_0;
            &&& pos <= vp.1 <= bytes.len()
            &&& vp.1 <= m ==> spec_read_io_register_list(bytes.take(m), pos, n, function_type, io_type) == spec_read_io_register_list(bytes, pos, n, function_type, io_type)
            &&& vp.1 > m ==> (spec_read_io_register_list(bytes.take(m), pos, n, function_type, io_type) matches Err(e) && e.kind == DecodeErrorKind::Truncated)
        }),
    decreases n,
{
    if n > 0 {
        lemma_prefix_io_register(bytes, pos, function_type, io_type, m);
        let vp = spec_read_io_register(bytes, pos, function_type, io_type)->Ok_0;
        let mm = if vp.1 <= m { m } else { bytes.len() as int };
        lemma_prefix_io_register_list(bytes, vp.1, n - 1, function_type, io_type, mm);
    }
}

proof fn lemma_prefix_function(bytes: Seq<u8>, pos: int, function_type: FunctionType, m: int)
    requires
        0 <= pos <= m <= bytes.len(),
        spec_read_function(bytes, pos, function_type) is Ok,
    ensures
        ({
            let vp = spec_read_function(bytes, pos, function_type)->Ok_0;
            &&& pos <= vp.1 <= bytes.len()
            &&& vp.1 <= m ==> spec_read_function(bytes.take(m), pos, function_type) == spec_read_function(bytes, pos, function_type)
            &&& vp.1 > m ==> (spec_read_function(bytes.take(m), pos, function_type) matches Err(e) && e.kind == DecodeErrorKind::Truncated)
        }),
{
    reveal(spec_read_function);
    lemma_prefix_identifier(bytes, pos, m);
    let np = spec_read_identifier(bytes, pos)->Ok_0;
    let m1 = if np.1 <= m { m } else { bytes.len() as int };
    lemma_prefix_u16(bytes, np.1, m1);
    let icp = spec_read_u16(bytes, np.1)->Ok_0;
    let m2 = if icp.1 <= m { m } else { bytes.len() as int };
    lemma_prefix_io_register_list(bytes, icp.1, icp.0 as int, function_type, IOType::Input, m2);
    let ip = spec_read_io_register_list(bytes, icp.1, icp.0 as int, function_type, IOType::Input)->Ok_0;
    let m3 = if ip.1 <= m { m } else { bytes.len() as int };
    lemma_prefix_instructions(bytes, ip.1, m3);
    let sp = spec_read_instructions(bytes, ip.1)->Ok_0;
    let m4 = if sp.1 <= m { m } else { bytes.len() as int };
    lemma_prefix_u16(bytes, sp.1, m4);
    let ocp = spec_read_u16(bytes, sp.1)->Ok_0;
    let m5 = if ocp.1 <= m { m } else { bytes.len() as int };
    lemma_prefix_io_register_list(bytes, ocp.1, ocp.0 as int, function_type, IOType::Output, m5);
    let op = spec_read_io_register_list(bytes, ocp.1, ocp.0 as int, function_type, IOType::Output)->Ok_0;
    let m6 = if op.1 <= m { m } else { bytes.len() as int };
    lemma_prefix_u8(bytes, op.1, m6);
}

proof fn lemma_prefix_import_list(bytes: Seq<u8>, pos: int, n: int, m: int)
    requires
        0 <= pos <= m <= bytes.len(),
        spec_read_import_list(bytes, pos, n) is Ok,
    ensures
        ({
            let vp = spec_read_import_list(bytes, pos, n)->Ok_0;
            &&& pos <= vp.1 <= bytes.len()
            &&& vp.1 <= m ==> spec_read_import_list(bytes.take(m), pos, n) == spec_read_import_list(bytes, pos, n)
            &&& vp.1 > m ==> (spec_read_import_list(bytes.take(m), pos, n) matches Err(e) && e.kind == DecodeErrorKind::Truncated)
        }),
    decreases n,
{
    if n > 0 {
        lemma_prefix_programid(bytes, pos, m);
        let vp = spec_read_programid(bytes, pos)->Ok_0;
        let mm = if vp.1 <= m { m } else { bytes.len() as int };
        lemma_prefix_import_list(bytes, vp.1, n - 1, mm);
    }
}

proof fn lemma_prefix_component_list(bytes: Seq<u8>, pos: int, n: int, m: int)
    requires
        0 <= pos <= m <= bytes.len(),
        spec_read_component_list(bytes, pos, n) is Ok,
    ensures
        ({
            let vp = spec_read_component_list(bytes, pos, n)->Ok_0;
            &&& pos <= vp.1 <= bytes.len()
            &&& vp.1 <= m ==> spec_read_component_list(bytes.take(m), pos, n) == spec_read_component_list(bytes, pos, n)
            &&& vp.1 > m ==> (spec_read_component_list(bytes.take(m), pos, n) matches Err(e) && e.kind == DecodeErrorKind::Truncated)
        }),
    decreases n,
{
    if n > 0 {
        lemma_prefix_u8(bytes, pos, m);
        let kp = spec_read_u8(bytes, pos)->Ok_0;
        let m1 = if kp.1 <= m { m } else { bytes.len() as int };
        if kp.0 == 0 {
            lemma_prefix_mapping(bytes, kp.1, m1);
            let cp = spec_read_mapping(bytes, kp.1)->Ok_0;
            let m2 = if cp.1 <= m { m } else { bytes.len() as int };
            lemma_prefix_component_list(bytes, cp.1, n - 1, m2);
        } else if kp.0 == 1 {
            lemma_prefix_struct(bytes, kp.1, m1);
            let cp = spec_read_struct(bytes, kp.1)->Ok_0;
            let m2 = if cp.1 <= m { m } else { bytes.len() as int };
            lemma_prefix_component_list(bytes, cp.1, n - 1, m2);
        } else if kp.0 == 2 {
            lemma_prefix_record(bytes, kp.1, m1);
            let cp = spec_read_record(bytes, kp.1)->Ok_0;
            let m2 = if cp.1 <= m { m } else { bytes.len() as int };
            lemma_prefix_component_list(bytes, cp.1, n - 1, m2);
        } else if kp.0 == 3 {
            lemma_prefix_function(bytes, kp.1, FunctionType::Closure, m1);
            let cp = spec_read_function(bytes, kp.1, FunctionType::Closure)->Ok_0;
            let m2 = if cp.1 <= m { m } else { bytes.len() as int };
            lemma_prefix_component_list(bytes, cp.1, n - 1, m2);
        } else if kp.0 == 4 {
            lemma_prefix_function(bytes, kp.1, FunctionType::Function, m1);
            let cp = spec_read_function(bytes, kp.1, FunctionType::Function)->Ok_0;
            let m2 = if cp.1 <= m { m } else { bytes.len() as int };
            lemma_prefix_component_list(bytes, cp.1, n - 1, m2);
        }
    }
}

proof fn lemma_prefix_program(bytes: Seq<u8>, pos: int, m: int)
    requires
        0 <= pos <= m <= bytes.len(),
        spec_read_program(bytes, pos) is Ok,
    ensures
        ({
            let vp = spec_read_program(bytes, pos)->Ok_0;
            &&& pos <= vp.1 <= bytes.len()
            &&& vp.1 <= m ==> spec_read_program(bytes.take(m), pos) == spec_read_program(bytes, pos)
            &&& vp.1 > m ==> (spec_read_program(bytes.take(m), pos) matches Err(e) && e.kind == DecodeErrorKind::Truncated)
        }),
{
    lemma_prefix_u16(bytes, pos, m);
    let vp = spec_read_u16(bytes, pos)->Ok_0;
    let m1 = if vp.1 <= m { m } else { bytes.len() as int };
    lemma_prefix_programid(bytes, vp.1, m1);
    let pp = spec_read_programid(bytes, vp.1)->Ok_0;
    let m2 = if pp.1 <= m { m } else { bytes.len() as int };
    lemma_prefix_u8(bytes, pp.1, m2);
    let ip = spec_read_u8(bytes, pp.1)->Ok_0;
    let m3 = if ip.1 <= m { m } else { bytes.len() as int };
    lemma_prefix_import_list(bytes, ip.1, ip.0 as int, m3);
    let lp = spec_read_import_list(bytes, ip.1, ip.0 as int)->Ok_0;
    let m4 = if lp.1 <= m { m } else { bytes.len() as int };
    lemma_prefix_u16(bytes, lp.1, m4);
    let cp = spec_read_u16(bytes, lp.1)->Ok_0;
    let m5 = if cp.1 <= m { m } else { bytes.len() as int };
    lemma_prefix_component_list(bytes, cp.1, cp.0 as int, m5);
}

/// Law: truncating the byte buffer of a decodable program anywhere
/// strictly before its last consumed byte makes the decode fail with a
/// `Truncated` error — never a panic, another error kind, or a partial
/// program.
pub proof fn lemma_program_truncation(bytes: Seq<u8>, m: int)
    requires
        spec_read_program(bytes, 0) is Ok,
        0 <= m <= bytes.len(),
        m < spec_read_program(bytes, 0)->Ok_0.1,
    ensures
        spec_read_program(bytes.take(m), 0) matches Err(e) && e.kind
            == DecodeErrorKind::Truncated,
{
    lemma_prefix_program(bytes, 0, m);
}

/// Law: decoding and rendering are functions of the byte buffer alone —
/// two decodes of the same buffer yield the same program, and the same
/// assembly text.
pub proof fn lemma_decode_deterministic(bytes: Seq<u8>, first: ProgramV, second: ProgramV)
    requires
        spec_read_program(bytes, 0) matches Ok(a) && a.0 == first,
        spec_read_program(bytes, 0) matches Ok(b) && b.0 == second,
    ensures
        first == second,
        spec_program_text(first) == spec_program_text(second),
{
}

/// Law: after its two-byte kind tag, a literal consumes exactly the
/// payload width its kind fixes — one byte for an 8-bit unsigned
/// integer, sixteen for the 128-bit integers, thirty-two for address,
/// field and scalar payloads — and a `group` tag never decodes.
pub proof fn lemma_literal_widths(bytes: Seq<u8>, pos: int)
    requires
        spec_read_u16(bytes, pos) is Ok,
    ensures
        ({
            let tp = spec_read_u16(bytes, pos)->Ok_0;
            &&& tp.0 == 9 && spec_read_literal(bytes, pos) is Ok ==> spec_read_literal(
                bytes,
                pos,
            )->Ok_0.1 == pos + 3
            &&& (tp.0 == 8 || tp.0 == 13) && spec_read_literal(bytes, pos) is Ok
                ==> spec_read_literal(bytes, pos)->Ok_0.1 == pos + 18
            &&& (tp.0 == 0 || tp.0 == 2 || tp.0 == 14) && spec_read_literal(bytes, pos) is Ok
                ==> spec_read_literal(bytes, pos)->Ok_0.1 == pos + 34
            &&& tp.0 == 3 ==> (spec_read_literal(bytes, pos) matches Err(e) && e.kind
                == DecodeErrorKind::UnknownTag)
        }),
{
}

proof fn lemma_operand_list_len(bytes: Seq<u8>, pos: int, n: int)
    requires
        n >= 0,
        spec_read_operand_list(bytes, pos, n) is Ok,
    ensures
        spec_read_operand_list(bytes, pos, n)->Ok_0.0.len() == n,
    decreases n,
{
    if n > 0 {
        let vp = spec_read_operand(bytes, pos)->Ok_0;
        lemma_operand_list_len(bytes, vp.1, n - 1);
    }
}

/// Law: a cast instruction's argument count must lie between 1 and 8 —
/// any other count fails with `StructuralMismatch` — and a successful
/// decode is a cast carrying exactly that many operands in stream order,
/// with a register-and-type output.
pub proof fn lemma_cast_argument_count(bytes: Seq<u8>, pos: int)
    requires
        spec_read_u8(bytes, pos) is Ok,
    ensures
        ({
            let cp = spec_read_u8(bytes, pos)->Ok_0;
            &&& (cp.0 == 0 || cp.0 > 8) ==> (spec_read_cast_body(bytes, pos) matches Err(e)
                && e.kind == DecodeErrorKind::StructuralMismatch)
            &&& (spec_read_cast_body(bytes, pos) matches Ok(vp) ==> 1 <= cp.0 <= 8 && (
            vp.0.operands matches Some(ops) && ops.len() == cp.0) && vp.0.opcode == Opcode::Cast
                && vp.0.output is Cast)
        }),
{
    let cp = spec_read_u8(bytes, pos)->Ok_0;
    if 1 <= cp.0 <= 8 && spec_read_cast_body(bytes, pos) is Ok {
        lemma_operand_list_len(bytes, cp.1, cp.0 as int);
    }
}

/// Law: decoding any instruction yields exactly the opcode selected by
/// its leading 16-bit tag; the operand count and output shape follow the
/// opcode's class (one, two or three operands with a single output
/// register, two operands with no output for asserts, an explicit count
/// of one to eight for casts, and at least the call target for calls);
/// and the instruction's assembly rendering is that opcode's lowercase
/// name, its operands, the keyword `into` and its output, in that order.
#[verifier::rlimit(100)]
pub proof fn lemma_instruction_decode_render(bytes: Seq<u8>, pos: int)
    requires
        spec_read_instruction(bytes, pos) is Ok,
    ensures
        ({
            let v = spec_read_instruction(bytes, pos)->Ok_0.0;
            &&& spec_read_u16(bytes, pos) matches Ok(tp) && spec_opcode_of_tag(tp.0) == Some(
                v.opcode,
            )
            &&& spec_opcode_class(v.opcode) == OpcodeClass::Unary ==> (v.operands matches Some(
                ops,
            ) && ops.len() == 1) && v.output is Single
            &&& spec_opcode_class(v.opcode) == OpcodeClass::Binary ==> (v.operands matches Some(
                ops,
            ) && ops.len() == 2) && v.output is Single
            &&& spec_opcode_class(v.opcode) == OpcodeClass::Assertion ==> (v.operands matches Some(
                ops,
            ) && ops.len() == 2) && v.output is Empty
            &&& spec_opcode_class(v.opcode) == OpcodeClass::Ternary ==> (v.operands matches Some(
                ops,
            ) && ops.len() == 3) && v.output is Single
            &&& spec_opcode_class(v.opcode) == OpcodeClass::Cast ==> (v.operands matches Some(ops)
                && 1 <= ops.len() <= 8) && v.output is Cast
            &&& spec_opcode_class(v.opcode) == OpcodeClass::Call ==> (v.operands matches Some(ops)
                && ops.len() >= 1) && v.output is Multiple
            &&& spec_instruction_text(v) == spec_opcode_text(v.opcode) + " "@
                + spec_operands_text(v.operands) + " into "@ + spec_output_text(v.output)
        }),
{
    reveal(spec_read_instruction);
    let tp = spec_read_u16(bytes, pos)->Ok_0;
    match spec_opcode_of_tag(tp.0) {
        Some(op) => {
            match spec_opcode_class(op) {
                OpcodeClass::Unary => {
                    lemma_operand_list_len(bytes, tp.1, 1);
                },
                OpcodeClass::Binary => {
                    lemma_operand_list_len(bytes, tp.1, 2);
                },
                OpcodeClass::Assertion => {
                    lemma_operand_list_len(bytes, tp.1, 2);
                },
                OpcodeClass::Ternary => {
                    lemma_operand_list_len(bytes, tp.1, 3);
                },
                OpcodeClass::Cast => {
                    lemma_cast_argument_count(bytes, tp.1);
                },
                OpcodeClass::Call => {},
            }
        },
        None => {},
    }
}

/// Law: every encoded variable-length integer reads back as the value it
/// encodes, consuming exactly its own bytes, whatever follows it in the
/// buffer.
pub proof fn lemma_varint_round_trip(v: u64, rest: Seq<u8>)
    ensures
        spec_read_varint(spec_encode_varint(v) + rest, 0) == Ok::<(u64, int), DecodeError>(
            (v, spec_encode_varint(v).len() as int),
        ),
{
    let enc = spec_encode_varint(v);
    let b = enc + rest;
    if v <= 252 {
        assert(b[0] == v as u8);
    } else if v <= 0xffff {
        assert(b[0] == 253);
        assert(b[1] == (v % 0x100) as u8);
        assert(b[2] == ((v / 0x100) % 0x100) as u8);
        assert(v <= 0xffff ==> (v % 0x100) + ((v / 0x100) % 0x100) * 0x100 == v) by (bit_vector);
    } else if v <= 0xffff_ffff {
        assert(b[0] == 254);
        assert(b[1] == (v % 0x100) as u8);
        assert(b[2] == ((v / 0x100) % 0x100) as u8);
        assert(b[3] == ((v / 0x1_0000) % 0x100) as u8);
        assert(b[4] == ((v / 0x100_0000) % 0x100) as u8);
        assert(252 < v <= 0xffff_ffff ==> (v % 0x100) + ((v / 0x100) % 0x100) * 0x100 + ((v
            / 0x1_0000) % 0x100) * 0x1_0000 + ((v / 0x100_0000) % 0x100) * 0x100_0000 == v)
            by (bit_vector);
    } else {
        assert(b[0] == 255);
        assert(b[1] == (v % 0x100) as u8);
        assert(b[2] == ((v / 0x100) % 0x100) as u8);
        assert(b[3] == ((v / 0x1_0000) % 0x100) as u8);
        assert(b[4] == ((v / 0x100_0000) % 0x100) as u8);
        assert(b[5] == ((v / 0x1_0000_0000) % 0x100) as u8);
        assert(b[6] == ((v / 0x100_0000_0000) % 0x100) as u8);
        assert(b[7] == ((v / 0x1_0000_0000_0000) % 0x100) as u8);
        assert(b[8] == ((v / 0x100_0000_0000_0000) % 0x100) as u8);
        assert((v % 0x100) + ((v / 0x100) % 0x100) * 0x100 + ((v / 0x1_0000) % 0x100) * 0x1_0000
            + ((v / 0x100_0000) % 0x100) * 0x100_0000 + ((v / 0x1_0000_0000) % 0x100)
            * 0x1_0000_0000 + ((v / 0x100_0000_0000) % 0x100) * 0x100_0000_0000 + ((v
            / 0x1_0000_0000_0000) % 0x100) * 0x1_0000_0000_0000 + ((v / 0x100_0000_0000_0000)
            % 0x100) * 0x100_0000_0000_0000 == v) by (bit_vector);
    }
}

/// Law: the assembly rendering of a program that holds exactly one
/// function and no mappings, records or structs is its header line, the
/// three empty group sections' newlines, the function's own rendering
/// and a final newline, in that order.  With the renderer contracts this
/// settles the shape of any minimal single-function listing.
pub proof fn lemma_single_function_program_text(p: ProgramV)
    requires
        p.mappings.len() == 0,
        p.records.len() == 0,
        p.structs.len() == 0,
        p.functions.len() == 1,
    ensures
        spec_program_text(p) == "program "@ + p.name + "."@ + p.network + "\n\n"@ + "\n"@
            + "\n"@ + "\n"@ + spec_function_text(p.functions[0]) + "\n"@,
{
    let mtext = spec_join(p.mappings.map_values(|m: MappingV| spec_mapping_text(m)), "\n\n"@);
    let rtext = spec_join(p.records.map_values(|x: RecordV| spec_record_text(x)), "\n\n"@);
    let stext = spec_join(p.structs.map_values(|x: StructV| spec_struct_text(x)), "\n\n"@);
    let fm = p.functions.map_values(|f: FunctionV| spec_function_text(f));
    let ftext = spec_join(fm, "\n\n"@);
    assert(mtext == Seq::<char>::empty());
    assert(rtext == Seq::<char>::empty());
    assert(stext == Seq::<char>::empty());
    assert(ftext == spec_function_text(p.functions[0]));
    assert(spec_program_text(p) =~= "program "@ + p.name + "."@ + p.network + "\n\n"@ + "\n"@
        + "\n"@ + "\n"@ + spec_function_text(p.functions[0]) + "\n"@);
}

} // verus!

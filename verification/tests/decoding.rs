use avm_disasm::bytecode::ByteCode;
use avm_disasm::components::function::{Function, FunctionType};
use avm_disasm::components::instructions::{Instruction, Opcode, Output};
use avm_disasm::components::mapping::Mapping;
use avm_disasm::components::records::Record;
use avm_disasm::components::registers::{IOType, IoRegister, Register};
use avm_disasm::components::structs::Struct;
use avm_disasm::components::types::{read_attribute, read_plaintext_type, Literal, Type};
use avm_disasm::util::{
    read_identifier, read_identifiers, read_locator, read_programid, read_variable_length_int,
};
use avm_disasm::{DecodeError, DecodeErrorKind, Disassembler};

fn ident(s: &str) -> Vec<u8> {
    let mut v = vec![s.len() as u8];
    v.extend_from_slice(s.as_bytes());
    v
}

/// A plain-function input/output register declaration: flag 0, a one-byte
/// locator, the private attribute and the u32 type.
fn io_reg_u32(loc: u8) -> Vec<u8> {
    vec![0x00, loc, 0x02, 0x00, 0x0b, 0x00]
}

/// A register operand r<loc>.
fn reg_operand(loc: u8) -> Vec<u8> {
    vec![0x01, 0x00, loc]
}

/// A minimal single-function program: `function main` with inputs r0 and
/// r1, one `add r0 r1 into r2` instruction, and output r2.
fn single_add_program() -> Vec<u8> {
    let mut v = vec![0x01, 0x00];
    v.extend(ident("foo"));
    v.extend(ident("aleo"));
    v.push(0x00);
    v.extend([0x01, 0x00]);
    v.push(0x04);
    v.extend(ident("main"));
    v.extend([0x02, 0x00]);
    v.extend(io_reg_u32(0));
    v.extend(io_reg_u32(1));
    v.extend([0x01, 0x00, 0x00, 0x00]);
    v.extend([0x02, 0x00]);
    v.extend(reg_operand(0));
    v.extend(reg_operand(1));
    v.extend([0x00, 0x02]);
    v.extend([0x01, 0x00]);
    v.extend(io_reg_u32(2));
    v.push(0x00);
    v
}

#[test]
fn varint_boundary_values_round_trip() {
    let cases: Vec<(u64, Vec<u8>)> = vec![
        (0, vec![0x00]),
        (252, vec![0xfc]),
        (253, vec![0xfd, 0xfd, 0x00]),
        (65535, vec![0xfd, 0xff, 0xff]),
        (65536, vec![0xfe, 0x00, 0x00, 0x01, 0x00]),
        (4294967295, vec![0xfe, 0xff, 0xff, 0xff, 0xff]),
    ];
    for (value, bytes) in cases {
        let len = bytes.len();
        let mut cursor = ByteCode::new(bytes);
        assert_eq!(read_variable_length_int(&mut cursor), Ok(value));
        assert_eq!(cursor.position(), len);
    }
}

#[test]
fn varint_u64_flag_round_trips() {
    let mut bytes = vec![0xff];
    bytes.extend(4294967296u64.to_le_bytes());
    let mut cursor = ByteCode::new(bytes);
    assert_eq!(read_variable_length_int(&mut cursor), Ok(4294967296));
    assert_eq!(cursor.position(), 9);
}

#[test]
fn varint_truncated_payload_fails() {
    let mut cursor = ByteCode::new(vec![0xfd, 0x01]);
    assert_eq!(
        read_variable_length_int(&mut cursor),
        Err(DecodeError { kind: DecodeErrorKind::Truncated, offset: 1 })
    );
}

#[test]
fn identifier_decodes_utf8() {
    let mut bytes = vec![2];
    bytes.extend("é".as_bytes());
    let mut cursor = ByteCode::new(bytes);
    assert_eq!(read_identifier(&mut cursor), Ok(String::from("é")));
    assert_eq!(cursor.position(), 3);
}

#[test]
fn identifier_rejects_invalid_utf8() {
    let mut cursor = ByteCode::new(vec![2, 0xff, 0xfe]);
    assert_eq!(
        read_identifier(&mut cursor),
        Err(DecodeError { kind: DecodeErrorKind::InvalidUtf8, offset: 1 })
    );
}

#[test]
fn identifier_truncated_run_fails() {
    let mut cursor = ByteCode::new(vec![5, b'a', b'b']);
    assert_eq!(
        read_identifier(&mut cursor),
        Err(DecodeError { kind: DecodeErrorKind::Truncated, offset: 1 })
    );
}

#[test]
fn programid_and_locator_decode() {
    let mut bytes = ident("foo");
    bytes.extend(ident("aleo"));
    let mut cursor = ByteCode::new(bytes);
    assert_eq!(
        read_programid(&mut cursor),
        Ok((String::from("foo"), String::from("aleo")))
    );

    let mut bytes = ident("foo");
    bytes.extend(ident("aleo"));
    bytes.extend(ident("bar"));
    let mut cursor = ByteCode::new(bytes);
    assert_eq!(
        read_locator(&mut cursor),
        Ok((String::from("foo"), String::from("aleo"), String::from("bar")))
    );
}

#[test]
fn identifiers_reads_counted_list() {
    let mut bytes = vec![0x02, 0x00];
    bytes.extend(ident("owner"));
    bytes.extend(ident("gates"));
    let mut cursor = ByteCode::new(bytes);
    assert_eq!(
        read_identifiers(&mut cursor),
        Ok(vec![String::from("owner"), String::from("gates")])
    );
}

#[test]
fn cursor_reads_little_endian_integers() {
    let mut cursor = ByteCode::new(vec![0x01, 0x02, 0x03, 0x04]);
    assert_eq!(cursor.read_u32(), Ok(0x04030201));
    let mut cursor = ByteCode::new(vec![0xff, 0xff]);
    assert_eq!(cursor.read_i16(), Ok(-1));
    let mut cursor = ByteCode::new(vec![0x80]);
    assert_eq!(cursor.read_i8(), Ok(-128));
    let mut cursor = ByteCode::new(vec![]);
    assert_eq!(
        cursor.read_u8(),
        Err(DecodeError { kind: DecodeErrorKind::Truncated, offset: 0 })
    );
}

#[test]
fn literal_u8_consumes_one_byte() {
    let mut cursor = ByteCode::new(vec![0x09, 0x00, 42]);
    let lit = Literal::read(&mut cursor).unwrap();
    assert!(matches!(lit, Literal::U8(42)));
    assert_eq!(cursor.position(), 3);
    assert!(matches!(lit.literal_type(), Type::U8));
}

#[test]
fn literal_i128_u128_consume_sixteen_bytes() {
    let mut bytes = vec![0x08, 0x00];
    bytes.extend((-1i128).to_le_bytes());
    let mut cursor = ByteCode::new(bytes);
    assert!(matches!(Literal::read(&mut cursor).unwrap(), Literal::I128(-1)));
    assert_eq!(cursor.position(), 18);

    let mut bytes = vec![0x0d, 0x00];
    bytes.extend(u128::MAX.to_le_bytes());
    let mut cursor = ByteCode::new(bytes);
    assert!(matches!(Literal::read(&mut cursor).unwrap(), Literal::U128(u128::MAX)));
    assert_eq!(cursor.position(), 18);
}

#[test]
fn literal_address_field_scalar_consume_thirty_two_bytes() {
    for tag in [0x00u8, 0x02, 0x0e] {
        let mut bytes = vec![tag, 0x00];
        bytes.extend([0xabu8; 32]);
        let mut cursor = ByteCode::new(bytes);
        assert!(Literal::read(&mut cursor).is_ok());
        assert_eq!(cursor.position(), 34);
    }
}

#[test]
fn literal_group_tag_fails_with_unknown_tag() {
    let mut bytes = vec![0x03, 0x00];
    bytes.extend([0u8; 32]);
    let mut cursor = ByteCode::new(bytes);
    assert_eq!(
        Literal::read(&mut cursor).map(|_| ()),
        Err(DecodeError { kind: DecodeErrorKind::UnknownTag, offset: 0 })
    );
}

#[test]
fn literal_out_of_range_tag_fails() {
    let mut cursor = ByteCode::new(vec![0x0f, 0x00, 0x00]);
    assert_eq!(
        Literal::read(&mut cursor).map(|_| ()),
        Err(DecodeError { kind: DecodeErrorKind::UnknownTag, offset: 0 })
    );
}

#[test]
fn attribute_and_type_tags_decode() {
    let mut cursor = ByteCode::new(vec![0x05]);
    assert_eq!(
        read_attribute(&mut cursor),
        Err(DecodeError { kind: DecodeErrorKind::UnknownTag, offset: 0 })
    );
    let mut cursor = ByteCode::new(vec![0x00, 0x10, 0x00]);
    assert_eq!(
        read_plaintext_type(&mut cursor).map(|_| ()),
        Err(DecodeError { kind: DecodeErrorKind::UnknownTag, offset: 1 })
    );
    let mut bytes = vec![0x01];
    bytes.extend(ident("token"));
    let mut cursor = ByteCode::new(bytes);
    assert!(matches!(read_plaintext_type(&mut cursor), Ok(Type::Other(s)) if s == "token"));
    let mut cursor = ByteCode::new(vec![0x02]);
    assert_eq!(
        read_plaintext_type(&mut cursor).map(|_| ()),
        Err(DecodeError { kind: DecodeErrorKind::UnknownTag, offset: 0 })
    );
}

#[test]
fn cast_count_zero_fails_with_structural_mismatch() {
    let mut bytes = vec![0x08, 0x00];
    bytes.push(0);
    let mut cursor = ByteCode::new(bytes);
    assert_eq!(
        Instruction::read(&mut cursor).map(|_| ()),
        Err(DecodeError { kind: DecodeErrorKind::StructuralMismatch, offset: 2 })
    );
}

#[test]
fn cast_count_nine_fails_with_structural_mismatch() {
    let mut bytes = vec![0x08, 0x00];
    bytes.push(9);
    let mut cursor = ByteCode::new(bytes);
    assert_eq!(
        Instruction::read(&mut cursor).map(|_| ()),
        Err(DecodeError { kind: DecodeErrorKind::StructuralMismatch, offset: 2 })
    );
}

#[test]
fn cast_counts_one_to_eight_succeed_with_matching_operands() {
    for count in 1u8..=8 {
        let mut bytes = vec![0x08, 0x00];
        bytes.push(count);
        for loc in 0..count {
            bytes.extend(reg_operand(loc));
        }
        bytes.push(0x00);
        bytes.extend([0x00, count]);
        bytes.extend([0x00, 0x0b, 0x00]);
        let mut cursor = ByteCode::new(bytes);
        let instr = Instruction::read(&mut cursor).unwrap();
        assert!(matches!(instr.opcode, Opcode::Cast));
        assert_eq!(instr.operands.as_ref().unwrap().len(), count as usize);
        assert!(matches!(instr.output, Output::Cast(_)));
    }
}

#[test]
fn cast_nonzero_separator_fails() {
    let mut bytes = vec![0x08, 0x00, 0x01];
    bytes.extend(reg_operand(0));
    bytes.push(0x07);
    let offset = bytes.len() - 1;
    bytes.extend([0x00, 0x01, 0x00, 0x0b, 0x00]);
    let mut cursor = ByteCode::new(bytes);
    assert_eq!(
        Instruction::read(&mut cursor).map(|_| ()),
        Err(DecodeError { kind: DecodeErrorKind::StructuralMismatch, offset })
    );
}

#[test]
fn opcode_tag_out_of_range_fails() {
    let mut cursor = ByteCode::new(vec![0x38, 0x00]);
    assert_eq!(
        Instruction::read(&mut cursor).map(|_| ()),
        Err(DecodeError { kind: DecodeErrorKind::UnknownTag, offset: 0 })
    );
}

#[test]
fn operand_tag_out_of_range_fails() {
    let mut bytes = vec![0x02, 0x00];
    bytes.push(0x04);
    let mut cursor = ByteCode::new(bytes);
    assert_eq!(
        Instruction::read(&mut cursor).map(|_| ()),
        Err(DecodeError { kind: DecodeErrorKind::UnknownTag, offset: 2 })
    );
}

#[test]
fn closure_register_shape_is_unsupported() {
    let mut cursor = ByteCode::new(vec![0x00, 0x00]);
    let r = IoRegister::read(&mut cursor, FunctionType::Closure, IOType::Input);
    assert_eq!(
        r.map(|_| ()),
        Err(DecodeError { kind: DecodeErrorKind::UnsupportedConstruct, offset: 0 })
    );
}

#[test]
fn record_attribute_in_function_register_is_unsupported() {
    let mut bytes = vec![0x00, 0x00];
    bytes.push(0x03);
    bytes.extend([0x00, 0x0b, 0x00]);
    let mut cursor = ByteCode::new(bytes);
    let r = IoRegister::read(&mut cursor, FunctionType::Function, IOType::Input);
    assert_eq!(
        r.map(|_| ()),
        Err(DecodeError { kind: DecodeErrorKind::UnsupportedConstruct, offset: 2 })
    );
}

#[test]
fn register_with_field_path_decodes() {
    let mut bytes = vec![0x01, 0x00, 0x02, 0x00];
    bytes.extend(ident("owner"));
    bytes.extend(ident("balance"));
    let mut cursor = ByteCode::new(bytes);
    let reg = Register::read(&mut cursor).unwrap();
    assert_eq!(reg.locator, 0);
    assert_eq!(reg.identifiers, vec![String::from("owner"), String::from("balance")]);
}

#[test]
fn mapping_decodes_with_restricted_attributes() {
    let mut bytes = ident("balances");
    bytes.extend(ident("account"));
    bytes.extend([0x00, 0x00, 0x00, 0x00]);
    bytes.extend(ident("amount"));
    bytes.extend([0x00, 0x00, 0x0c, 0x00]);
    let mut cursor = ByteCode::new(bytes);
    let mapping = Mapping::read(&mut cursor).unwrap();
    assert_eq!(mapping.name, "balances");
    assert_eq!(mapping.key.name, "account");
    assert_eq!(mapping.value.name, "amount");
}

#[test]
fn mapping_attribute_tag_three_fails() {
    let mut bytes = ident("balances");
    bytes.extend(ident("account"));
    let offset = bytes.len();
    bytes.push(0x03);
    bytes.extend([0x00, 0x00, 0x00]);
    let mut cursor = ByteCode::new(bytes);
    assert_eq!(
        Mapping::read(&mut cursor).map(|_| ()),
        Err(DecodeError { kind: DecodeErrorKind::UnknownTag, offset })
    );
}

#[test]
fn record_owner_attribute_restricted_to_public_private() {
    let mut bytes = ident("token");
    let offset = bytes.len();
    bytes.push(0x02);
    bytes.extend([0x00, 0x00, 0x00]);
    let mut cursor = ByteCode::new(bytes);
    assert_eq!(
        Record::read(&mut cursor).map(|_| ()),
        Err(DecodeError { kind: DecodeErrorKind::UnknownTag, offset })
    );
}

#[test]
fn struct_with_no_entries_decodes() {
    let mut bytes = ident("unit");
    bytes.extend([0x00, 0x00]);
    let mut cursor = ByteCode::new(bytes);
    let s = Struct::read(&mut cursor).unwrap();
    assert_eq!(s.name, "unit");
    assert_eq!(s.entries.len(), 0);
}

#[test]
fn function_decodes_counts_and_registers() {
    let mut bytes = ident("main");
    bytes.extend([0x01, 0x00]);
    bytes.extend(io_reg_u32(0));
    bytes.extend([0x01, 0x00, 0x00, 0x00]);
    bytes.extend([0x00, 0x00]);
    bytes.extend(reg_operand(0));
    bytes.extend([0x00, 0x01]);
    bytes.extend([0x00, 0x00]);
    bytes.push(0x00);
    let mut cursor = ByteCode::new(bytes);
    let f = Function::read(&mut cursor, FunctionType::Function).unwrap();
    assert_eq!(f.name, "main");
    assert_eq!(f.num_inputs, 1);
    assert_eq!(f.num_instructions, 1);
    assert_eq!(f.instructions.len(), 1);
    assert_eq!(f.num_outputs, 0);
}

#[test]
fn read_instructions_trusts_its_count() {
    let mut bytes = vec![0x02, 0x00, 0x00, 0x00];
    bytes.extend([0x00, 0x00]);
    bytes.extend(reg_operand(0));
    bytes.extend([0x00, 0x01]);
    bytes.extend([0x32, 0x00]);
    bytes.extend(reg_operand(1));
    bytes.extend([0x00, 0x02]);
    let mut cursor = ByteCode::new(bytes);
    let (count, instructions) = Instruction::read_instructions(&mut cursor).unwrap();
    assert_eq!(count, 2);
    assert_eq!(instructions.len(), 2);
    assert!(matches!(instructions[0].opcode, Opcode::Abs));
    assert!(matches!(instructions[1].opcode, Opcode::Square));
}

#[test]
fn program_decodes_header_and_components() {
    let mut d = Disassembler::from_bytes(single_add_program());
    assert!(d.disassemble().is_ok());
    assert_eq!(d.get_version(), 1);
    assert_eq!(d.get_program_id(), ("foo", "aleo"));
}

#[test]
fn program_with_unknown_component_kind_fails() {
    let mut bytes = vec![0x01, 0x00];
    bytes.extend(ident("foo"));
    bytes.extend(ident("aleo"));
    bytes.push(0x00);
    bytes.extend([0x01, 0x00]);
    let offset = bytes.len();
    bytes.push(0x05);
    let mut d = Disassembler::from_bytes(bytes);
    assert_eq!(
        d.disassemble(),
        Err(DecodeError { kind: DecodeErrorKind::UnknownTag, offset })
    );
}

#[test]
fn empty_buffer_fails_truncated() {
    let mut d = Disassembler::from_bytes(Vec::new());
    assert_eq!(
        d.disassemble(),
        Err(DecodeError { kind: DecodeErrorKind::Truncated, offset: 0 })
    );
}

#[test]
fn every_strict_prefix_of_a_valid_program_fails_truncated() {
    let bytes = single_add_program();
    for m in 0..bytes.len() {
        let mut d = Disassembler::from_bytes(bytes[..m].to_vec());
        match d.disassemble() {
            Err(e) => assert_eq!(e.kind, DecodeErrorKind::Truncated),
            Ok(()) => panic!("prefix of length {} decoded", m),
        }
    }
}

#[test]
fn repeated_decodes_of_the_same_buffer_agree() {
    let bytes = single_add_program();
    let mut d1 = Disassembler::from_bytes(bytes.clone());
    let mut d2 = Disassembler::from_bytes(bytes);
    assert!(d1.disassemble().is_ok());
    assert!(d2.disassemble().is_ok());
    assert_eq!(d1.get_version(), d2.get_version());
    assert_eq!(d1.get_program_id(), d2.get_program_id());
    assert_eq!(d1.assembly(), d2.assembly());
    assert_eq!(d1.leo(), d2.leo());
}

use avm_disasm::bytecode::ByteCode;
use avm_disasm::components::instructions::Instruction;
use avm_disasm::components::mapping::Mapping;
use avm_disasm::components::records::Record;
use avm_disasm::components::structs::Struct;
use avm_disasm::components::types::Literal;
use avm_disasm::Disassembler;

fn ident(s: &str) -> Vec<u8> {
    let mut v = vec![s.len() as u8];
    v.extend_from_slice(s.as_bytes());
    v
}

fn io_reg_u32(loc: u8) -> Vec<u8> {
    vec![0x00, loc, 0x02, 0x00, 0x0b, 0x00]
}

fn reg_operand(loc: u8) -> Vec<u8> {
    vec![0x01, 0x00, loc]
}

fn single_add_program() -> Vec<u8> {
    let mut v = vec![0x01, 0x00];
    v.extend(ident("foo"));
    v.extend(ident("aleo"));
    v.push(0x00);
    v.extend([0x01, 0x00]);
    v.push(0x04);
    v.extend(ident("main"));
    v.extend([0x02, 0x00]);
    v.extend(io_reg_u32(0));
    v.extend(io_reg_u32(1));
    v.extend([0x01, 0x00, 0x00, 0x00]);
    v.extend([0x02, 0x00]);
    v.extend(reg_operand(0));
    v.extend(reg_operand(1));
    v.extend([0x00, 0x02]);
    v.extend([0x01, 0x00]);
    v.extend(io_reg_u32(2));
    v.push(0x00);
    v
}

fn read_instruction(bytes: Vec<u8>) -> Instruction {
    let mut cursor = ByteCode::new(bytes);
    Instruction::read(&mut cursor).unwrap()
}

#[test]
fn single_add_program_renders_documented_assembly() {
    let mut d = Disassembler::from_bytes(single_add_program());
    assert!(d.disassemble().is_ok());
    let expected = "program foo.aleo\n\n\n\n\nfunction main\n\tinput r0 as u32.private\n\tinput r1 as u32.private\n\tadd r0 r1 into r2\n\toutput r2 as u32.private\n\n";
    assert_eq!(d.assembly(), expected);
}

#[test]
fn single_add_program_renders_source_like_text() {
    let mut d = Disassembler::from_bytes(single_add_program());
    assert!(d.disassemble().is_ok());
    let expected = "\nfunction main(r0: u32, r1: u32) {\n\tadd r0 r1 into r2\n}\n\n";
    assert_eq!(d.leo(), expected);
}

#[test]
fn unary_instruction_renders_lowercase_name_operand_output() {
    let mut bytes = vec![0x00, 0x00];
    bytes.extend(reg_operand(0));
    bytes.extend([0x00, 0x01]);
    assert_eq!(read_instruction(bytes).assembly(), "abs r0 into r1");
}

#[test]
fn hash_opcode_is_unary_and_renders() {
    let mut bytes = vec![0x1a, 0x00];
    bytes.extend(reg_operand(0));
    bytes.extend([0x00, 0x01]);
    assert_eq!(read_instruction(bytes).assembly(), "hashpsd2 r0 into r1");
}

#[test]
fn commit_opcode_is_binary_and_renders() {
    let mut bytes = vec![0x09, 0x00];
    bytes.extend(reg_operand(0));
    bytes.extend(reg_operand(1));
    bytes.extend([0x00, 0x02]);
    assert_eq!(read_instruction(bytes).assembly(), "commitbhp256 r0 r1 into r2");
}

#[test]
fn comparison_opcode_renders_long_lowercase_name() {
    let mut bytes = vec![0x13, 0x00];
    bytes.extend(reg_operand(0));
    bytes.extend(reg_operand(1));
    bytes.extend([0x00, 0x02]);
    assert_eq!(
        read_instruction(bytes).assembly(),
        "greaterthanorequal r0 r1 into r2"
    );
}

#[test]
fn assert_instruction_renders_without_output() {
    let mut bytes = vec![0x05, 0x00];
    bytes.extend(reg_operand(0));
    bytes.extend(reg_operand(1));
    assert_eq!(read_instruction(bytes).assembly(), "asserteq r0 r1 into ");
}

#[test]
fn ternary_instruction_renders_three_operands() {
    let mut bytes = vec![0x36, 0x00];
    bytes.extend(reg_operand(0));
    bytes.extend(reg_operand(1));
    bytes.extend(reg_operand(2));
    bytes.extend([0x00, 0x03]);
    assert_eq!(read_instruction(bytes).assembly(), "ternary r0 r1 r2 into r3");
}

#[test]
fn cast_instruction_renders_target_type() {
    let mut bytes = vec![0x08, 0x00, 0x02];
    bytes.extend(reg_operand(0));
    bytes.extend(reg_operand(1));
    bytes.push(0x00);
    bytes.extend([0x00, 0x05]);
    bytes.extend([0x00, 0x0b, 0x00]);
    assert_eq!(read_instruction(bytes).assembly(), "cast r0 r1 into r5 as u32");
}

#[test]
fn cast_to_user_defined_type_renders_its_name() {
    let mut bytes = vec![0x08, 0x00, 0x01];
    bytes.extend(reg_operand(0));
    bytes.push(0x00);
    bytes.extend([0x00, 0x02]);
    bytes.push(0x01);
    bytes.extend(ident("token"));
    assert_eq!(read_instruction(bytes).assembly(), "cast r0 into r2 as token");
}

#[test]
fn cast_destination_carries_a_field_path() {
    let mut bytes = vec![0x08, 0x00, 0x01];
    bytes.extend(reg_operand(0));
    bytes.push(0x00);
    bytes.extend([0x01, 0x02, 0x01, 0x00]);
    bytes.extend(ident("data"));
    bytes.extend([0x00, 0x0b, 0x00]);
    assert_eq!(read_instruction(bytes).assembly(), "cast r0 into r2.data as u32");
}

#[test]
fn external_call_renders_locator_inputs_and_output() {
    let mut bytes = vec![0x07, 0x00];
    bytes.push(0x00);
    bytes.extend(ident("foo"));
    bytes.extend(ident("aleo"));
    bytes.extend(ident("bar"));
    bytes.push(0x02);
    bytes.extend(reg_operand(0));
    bytes.extend(reg_operand(1));
    bytes.push(0x01);
    bytes.extend([0x00, 0x02]);
    assert_eq!(
        read_instruction(bytes).assembly(),
        "call foo.aleo.bar r0 r1 into r2"
    );
}

#[test]
fn internal_call_renders_bare_function_name() {
    let mut bytes = vec![0x07, 0x00];
    bytes.push(0x01);
    bytes.extend(ident("helper"));
    bytes.push(0x01);
    bytes.extend(reg_operand(0));
    bytes.push(0x01);
    bytes.extend([0x00, 0x01]);
    assert_eq!(read_instruction(bytes).assembly(), "call helper r0 into r1");
}

#[test]
fn caller_and_literal_operands_render() {
    let mut bytes = vec![0x02, 0x00];
    bytes.push(0x03);
    bytes.push(0x00);
    bytes.extend([0x09, 0x00, 0x07]);
    bytes.extend([0x00, 0x02]);
    assert_eq!(read_instruction(bytes).assembly(), "add caller 7 into r2");
}

#[test]
fn register_with_field_path_renders_dotted() {
    let mut bytes = vec![0x02, 0x00];
    bytes.extend([0x01, 0x01, 0x01, 0x01, 0x00]);
    bytes.extend(ident("owner"));
    bytes.extend(reg_operand(0));
    bytes.extend([0x00, 0x02]);
    assert_eq!(read_instruction(bytes).assembly(), "add r1.owner r0 into r2");
}

#[test]
fn signed_literals_render_in_decimal() {
    let mut bytes = vec![0x02, 0x00];
    bytes.push(0x00);
    bytes.extend([0x04, 0x00]);
    bytes.extend((-5i8).to_le_bytes());
    bytes.push(0x00);
    bytes.extend([0x08, 0x00]);
    bytes.extend(i128::MIN.to_le_bytes());
    bytes.extend([0x00, 0x02]);
    assert_eq!(
        read_instruction(bytes).assembly(),
        "add -5 -170141183460469231731687303715884105728 into r2"
    );
}

#[test]
fn unsigned_and_boolean_literals_render() {
    let mut bytes = vec![0x02, 0x00];
    bytes.push(0x00);
    bytes.extend([0x0d, 0x00]);
    bytes.extend(u128::MAX.to_le_bytes());
    bytes.push(0x00);
    bytes.extend([0x01, 0x00, 0x01]);
    bytes.extend([0x00, 0x02]);
    assert_eq!(
        read_instruction(bytes).assembly(),
        "add 340282366920938463463374607431768211455 true into r2"
    );
}

#[test]
fn boolean_zero_renders_false() {
    let mut cursor = ByteCode::new(vec![0x01, 0x00, 0x00]);
    let lit = Literal::read(&mut cursor).unwrap();
    assert_eq!(lit.assembly(), "false");
}

#[test]
fn address_renders_hex_in_stream_order() {
    let mut bytes = vec![0x00, 0x00];
    let mut payload: Vec<u8> = Vec::new();
    for i in 0..32u8 {
        payload.push(i);
    }
    bytes.extend(&payload);
    let mut cursor = ByteCode::new(bytes);
    let lit = Literal::read(&mut cursor).unwrap();
    let mut expected = String::new();
    for b in &payload {
        expected.push_str(&format!("{:02x}", b));
    }
    assert_eq!(lit.assembly(), expected);
}

#[test]
fn field_and_scalar_render_byte_reversed_hex() {
    for tag in [0x02u8, 0x0e] {
        let mut bytes = vec![tag, 0x00];
        let mut payload: Vec<u8> = Vec::new();
        for i in 0..32u8 {
            payload.push(i);
        }
        bytes.extend(&payload);
        let mut cursor = ByteCode::new(bytes);
        let lit = Literal::read(&mut cursor).unwrap();
        let mut expected = String::new();
        for b in payload.iter().rev() {
            expected.push_str(&format!("{:02x}", b));
        }
        assert_eq!(lit.assembly(), expected);
    }
}

#[test]
fn mapping_renders_assembly_and_source_forms() {
    let mut bytes = ident("balances");
    bytes.extend(ident("account"));
    bytes.extend([0x00, 0x00, 0x00, 0x00]);
    bytes.extend(ident("amount"));
    bytes.extend([0x00, 0x00, 0x0c, 0x00]);
    let mut cursor = ByteCode::new(bytes);
    let mapping = Mapping::read(&mut cursor).unwrap();
    assert_eq!(
        mapping.assembly(),
        "mapping balances\n\tkey account as address.public\n\tvalue amount as u64.public\n"
    );
    assert_eq!(mapping.leo(), "mapping balances: address => u64;\n");
}

#[test]
fn record_renders_owner_gates_and_entries() {
    let mut bytes = ident("token");
    bytes.extend([0x00, 0x01]);
    bytes.extend([0x01, 0x00]);
    bytes.extend(ident("amount"));
    bytes.push(0x02);
    bytes.extend([0x00, 0x0c, 0x00]);
    let mut cursor = ByteCode::new(bytes);
    let record = Record::read(&mut cursor).unwrap();
    assert_eq!(
        record.assembly(),
        "record token:\n\towner as address.public\n\tgates as u64.private\n\tamount as u64.private"
    );
}

#[test]
fn record_attribute_renders_as_record_keyword() {
    let mut bytes = ident("token");
    bytes.extend([0x00, 0x00]);
    bytes.extend([0x01, 0x00]);
    bytes.extend(ident("inner"));
    bytes.push(0x03);
    bytes.extend([0x00, 0x0c, 0x00]);
    let mut cursor = ByteCode::new(bytes);
    let record = Record::read(&mut cursor).unwrap();
    assert_eq!(
        record.assembly(),
        "record token:\n\towner as address.public\n\tgates as u64.public\n\tinner as u64.record"
    );
}

#[test]
fn struct_renders_assembly_and_source_forms() {
    let mut bytes = ident("point");
    bytes.extend([0x02, 0x00]);
    bytes.extend(ident("x"));
    bytes.extend([0x00, 0x0b, 0x00]);
    bytes.extend(ident("y"));
    bytes.extend([0x00, 0x0b, 0x00]);
    let mut cursor = ByteCode::new(bytes);
    let s = Struct::read(&mut cursor).unwrap();
    assert_eq!(s.assembly(), "struct point:\n\tx as u32;\n\ty as u32;\n");
    assert_eq!(s.leo(), "struct point {\n\tx: u32,\n\ty: u32,}\n");
}

#[test]
fn program_with_struct_contributes_to_both_renderings() {
    let mut v = vec![0x01, 0x00];
    v.extend(ident("demo"));
    v.extend(ident("aleo"));
    v.push(0x00);
    v.extend([0x01, 0x00]);
    v.push(0x01);
    v.extend(ident("point"));
    v.extend([0x01, 0x00]);
    v.extend(ident("x"));
    v.extend([0x00, 0x0b, 0x00]);
    let mut d = Disassembler::from_bytes(v);
    assert!(d.disassemble().is_ok());
    assert_eq!(
        d.assembly(),
        "program demo.aleo\n\n\n\nstruct point:\n\tx as u32;\n\n\n"
    );
    assert_eq!(d.leo(), "struct point {\n\tx: u32,}\n\n\n");
}

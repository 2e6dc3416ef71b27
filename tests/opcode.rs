use stack_vm::opcode::{OpCode, OperandKind};

#[test]
fn test_opcode_conversion() {
    assert_eq!(OpCode::convert_from_u8(0), Some(OpCode::Add));
    assert_eq!(OpCode::convert_from_u8(5), Some(OpCode::Halt));
    assert_eq!(OpCode::convert_from_u8(50), None);

    assert_eq!(OpCode::Add.convert_to_u8(), 0);
    assert_eq!(OpCode::Push.convert_to_u8(), 4);
}

#[test]
fn every_tag_round_trips() {
    for byte in 0u8..=255 {
        match OpCode::convert_from_u8(byte) {
            Some(op) => assert_eq!(op.convert_to_u8(), byte),
            None => assert!(byte > 22),
        }
    }
}

#[test]
fn mnemonics_and_operand_kinds() {
    assert_eq!(OpCode::JumpIfFalse.name(), "JUMP_IF_FALSE");
    assert_eq!(OpCode::PrintVal.name(), "PRINT_VAL");
    assert_eq!(OpCode::Push.operand_kind(), OperandKind::Literal);
    assert_eq!(OpCode::StoreLocal.operand_kind(), OperandKind::Name);
    assert_eq!(OpCode::Call.operand_kind(), OperandKind::Address);
    assert_eq!(OpCode::Return.operand_kind(), OperandKind::NoOperand);
}

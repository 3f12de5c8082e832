use synacor_vm::ops::OP;

#[test]
fn test_values() {
    assert_eq!(OP::from_u16(0), Some(OP::Halt));
    assert_eq!(OP::from_u16(21), Some(OP::NoOp));
}

#[test]
fn codes_past_the_last_are_not_operations() {
    assert_eq!(OP::from_u16(22), None);
    assert_eq!(OP::from_u16(65535), None);
}

#[test]
fn codes_round_trip() {
    for w in 0u16..22 {
        let op = OP::from_u16(w).unwrap();
        assert_eq!(op.to_u16(), w);
    }
    assert_eq!(OP::Add.operand_count(), 3);
    assert_eq!(OP::Ret.operand_count(), 0);
}

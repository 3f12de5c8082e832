use synacor_vm::util::u8s_to_u16;

#[test]
fn test_u8s_to_u16() {
    let lo: u8 = 0x34;
    let hi: u8 = 0x12;
    assert_eq!(u8s_to_u16(lo, hi), 0x1234);
}

#[test]
fn high_byte_only() {
    assert_eq!(u8s_to_u16(0x00, 0xff), 0xff00);
    assert_eq!(u8s_to_u16(0xff, 0x00), 0x00ff);
}

use secure_file_share::ident::ObjectId;

#[test]
fn hex_of_known_bytes() {
    let id = ObjectId::from_bytes([0x00, 0x01, 0x02, 0x03, 0x0a, 0x0b, 0x0c, 0x0d, 0xfc, 0xfd, 0xfe, 0xff]);
    assert_eq!(id.to_hex(), "000102030a0b0c0dfcfdfeff");
    assert_eq!(id.bytes(), [0x00, 0x01, 0x02, 0x03, 0x0a, 0x0b, 0x0c, 0x0d, 0xfc, 0xfd, 0xfe, 0xff]);
}

#[test]
fn parse_reads_both_cases() {
    let lower = ObjectId::parse_str("65a1b2c3d4e5f60718293a4b").unwrap();
    let upper = ObjectId::parse_str("65A1B2C3D4E5F60718293A4B").unwrap();
    assert_eq!(lower, upper);
    assert_eq!(lower.to_hex(), "65a1b2c3d4e5f60718293a4b");
}

#[test]
fn parse_refuses_other_text() {
    assert!(ObjectId::parse_str("").is_none());
    assert!(ObjectId::parse_str("65a1b2c3d4e5f60718293a4").is_none());
    assert!(ObjectId::parse_str("65a1b2c3d4e5f60718293a4b0").is_none());
    assert!(ObjectId::parse_str("65a1b2c3d4e5f60718293a4g").is_none());
    assert!(ObjectId::parse_str("65a1b2c3d4e5f60718293a4é").is_none());
}

#[test]
fn parse_undoes_to_hex() {
    let id = ObjectId { hi: 0xdead_beef, mid: 0, lo: 0x0000_0001 };
    assert_eq!(id.to_hex(), "deadbeef0000000000000001");
    assert_eq!(ObjectId::parse_str(&id.to_hex()), Some(id));
}

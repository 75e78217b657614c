use ion_macro_table::IonType;
use ion_macro_table::LengthType;
use ion_macro_table::Opcode;
use ion_macro_table::OpcodeType;
use ion_macro_table::opcode::init_opcode_cache;

#[test]
fn from_byte_classifies_the_known_opcodes() {
    let ivm = Opcode::from_byte(0xE0);
    assert_eq!(ivm.opcode_type, OpcodeType::IonVersionMarker);
    assert_eq!(ivm.ion_type, None);
    assert_eq!(ivm.length_code, 0x0);

    let null = Opcode::from_byte(0xEA);
    assert_eq!(null.opcode_type, OpcodeType::NullNull);
    assert_eq!(null.ion_type, Some(IonType::Null));
    assert_eq!(null.length_code, 0xA);

    for byte in [0xEC, 0xED] {
        let nop = Opcode::from_byte(byte);
        assert_eq!(nop.opcode_type, OpcodeType::Nop);
        assert_eq!(nop.ion_type, None);
    }

    let other = Opcode::from_byte(0x42);
    assert_eq!(other.opcode_type, OpcodeType::Boolean);
    assert_eq!(other.ion_type, Some(IonType::Bool));
    assert_eq!(other.length_code, 0x2);
}

#[test]
fn opcode_predicates() {
    assert!(Opcode::from_byte(0xEA).is_null());
    assert!(!Opcode::from_byte(0xEA).is_nop());
    assert!(Opcode::from_byte(0xEC).is_nop());
    assert!(Opcode::from_byte(0xE0).is_ivm_start());
    assert!(!Opcode::from_byte(0x00).is_ivm_start());
    assert!(!Opcode::from_byte(0xEA).is_annotation_wrapper());
}

#[test]
fn to_header_requires_an_announced_type() {
    assert!(Opcode::from_byte(0xE0).to_header().is_none());
    assert!(Opcode::from_byte(0xEC).to_header().is_none());
    let header = Opcode::from_byte(0xEA).to_header().unwrap();
    assert_eq!(header.ion_type(), IonType::Null);
    assert_eq!(header.type_code(), OpcodeType::NullNull);
    assert_eq!(header.length_code(), 0xA);
    assert!(header.is_null());
    let bool_header = Opcode::from_byte(0x41).to_header().unwrap();
    assert_eq!(bool_header.ion_type(), IonType::Bool);
    assert!(!bool_header.is_null());
}

#[test]
fn length_type_is_in_opcode_only_for_nop_and_null() {
    let null_header = Opcode::from_byte(0xEA).to_header().unwrap();
    assert_eq!(null_header.length_type(), LengthType::InOpcode(0));
    let bool_header = Opcode::from_byte(0x4C).to_header().unwrap();
    assert_eq!(bool_header.length_type(), LengthType::FlexUIntFollows);
}

#[test]
fn opcode_cache_matches_from_byte() {
    let cache = init_opcode_cache();
    assert_eq!(cache.len(), 256);
    for byte in 0..=255u8 {
        assert_eq!(cache[byte as usize], Opcode::from_byte(byte));
    }
}

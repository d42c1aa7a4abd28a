use bouffalo::bitfield::BitField;

#[test]
fn struct_register_field() {
    type Field1 = BitField<2, 6, u8>;
    type Field2 = BitField<2, 7, u16>;
    type Field3 = BitField<1, 0, u32>;
    type Field4 = BitField<3, 6, u32>;
    type Field5 = BitField<2, 62, u64>;

    // tests for register with 8 bits width
    let mut field = Field1::from(0);

    assert_eq!(field.get_len(), 2);
    assert_eq!(field.get_shift(), 6);
    assert_eq!(field.get_mask(), 0xC0);

    field = Field1::from(field.set(2));
    assert_eq!(field.v, 0x80);
    assert_eq!(field.get(), 2);

    field = Field1::from(field.set(5));
    assert_eq!(field.get(), 1);
    assert_eq!(field.v, 0x40);

    let field = match field.checked_set(5) {
        Some(val) => Field1::from(val),
        None => Field1::from(0xF0),
    };
    assert_eq!(field.get(), 3);
    assert_eq!(field.v, 0xF0);

    // tests for register with 16 bits width
    let mut field = Field2::from(0x0040);

    field = Field2::from(field.set(1));
    assert_eq!(field.get(), 1);
    assert_eq!(field.v, 0x00C0);

    field = Field2::from(field.set(7));
    assert_eq!(field.get(), 3);
    assert_eq!(field.v, 0x01C0);

    // tests for register with 32 bits width
    let mut field = Field3::from(0);

    field = Field3::from(field.enable());
    assert_eq!(field.get(), 1);
    assert!(field.is_enabled());
    assert_eq!(field.v, 1);

    field = Field3::from(field.disable());
    assert_eq!(field.get(), 0);
    assert!(!field.is_enabled());
    assert_eq!(field.v, 0);

    field = Field3::from(field.set(2));
    assert_eq!(field.get(), 0);
    assert_eq!(field.v, 0);

    let mut field = Field4::from(0);

    field = Field4::from(field.set(2));
    assert_eq!(field.get(), 2);
    assert_eq!(field.v, 0x0000_0080);

    field = Field4::from(field.set(9));
    assert_eq!(field.get(), 1);
    assert_eq!(field.v, 0x0000_0040);

    field = Field4::from(field.clear());
    assert_eq!(field.get(), 0);
    assert_eq!(field.v, 0x0000_0000);

    // tests for register with 64 bits width
    let mut field = Field5::from(0x2000_0000_0000_0000u64);

    field = Field5::from(field.set(2));
    assert_eq!(field.get(), 2);
    assert_eq!(field.v, 0xA000_0000_0000_0000);

    field = Field5::from(field.set(9));
    assert_eq!(field.get(), 1);
    assert_eq!(field.v, 0x6000_0000_0000_0000);
}

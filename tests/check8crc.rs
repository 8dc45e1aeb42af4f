use check8::{Check8, Check8Crc};

#[test]
fn test_crc8_standard_poly() {
    // Standard CRC-8 polynomial 0x07 (e.g. SMBus)
    let mut crc = Check8Crc::new(0x07);
    crc.init(0);
    let result = crc.calculate_from_byte_array(&[1, 2, 3]);
    assert_eq!(result, 72);

    let mut crc = Check8Crc::new(0x07);
    // "123" in bytes: [49, 50, 51]
    let res = crc.calculate_from_string("123");
    // CRC-8 (poly 0x07, init 0) of "123" under this convention is 0xC0
    assert_eq!(res, 0xC0);
}

#[test]
fn test_init_works() {
    let mut crc = Check8Crc::new(0x07);
    crc.init(0xFF);
    assert_eq!(crc.get_accum(), 0xFF);
}

#[test]
fn crc_new_starts_at_zero() {
    let crc = Check8Crc::new(0x31);
    assert_eq!(crc.get_accum(), 0);
}

#[test]
fn crc_single_byte_poly_07() {
    let mut crc = Check8Crc::new(0x07);
    crc.init(0x00);
    let result = crc.add(0x01);
    assert_eq!(result, 0x07);
    assert_eq!(crc.get_accum(), 0x07);
}

#[test]
fn crc_table_entries_poly_07() {
    let table = Check8Crc::generate_table(0x07);
    assert_eq!(table[0], 0x00);
    assert_eq!(table[1], 0x07);
    assert_eq!(table[2], 0x0E);
    assert_eq!(table[0x80], 0x89);
    assert_eq!(table[0xFF], 0xF3);
}

#[test]
fn crc_table_of_zero_poly_shifts_out() {
    let table = Check8Crc::generate_table(0);
    for i in 0..256 {
        assert_eq!(table[i], 0);
    }
}

#[test]
fn crc_two_engines_same_poly_agree() {
    let bytes = [0x10u8, 0xAB, 0x00, 0xFF, 0x42];
    let mut a = Check8Crc::new(0x1D);
    let mut b = Check8Crc::new(0x1D);
    assert_eq!(a.calculate_from_byte_array(&bytes), b.calculate_from_byte_array(&bytes));
    assert_eq!(Check8Crc::generate_table(0x1D), Check8Crc::generate_table(0x1D));
}

#[test]
fn crc_two_calls_equal_one_concatenated() {
    let mut a = Check8Crc::new(0x07);
    a.calculate_from_byte_array(&[1, 2]);
    let split = a.calculate_from_byte_array(&[3]);
    let mut b = Check8Crc::new(0x07);
    let whole = b.calculate_from_byte_array(&[1, 2, 3]);
    assert_eq!(split, whole);
    assert_eq!(whole, 72);
}

#[test]
fn crc_string_equals_its_utf8_bytes() {
    let text = "h\u{e9}llo \u{20ac}";
    let mut a = Check8Crc::new(0x07);
    let mut b = Check8Crc::new(0x07);
    assert_eq!(a.calculate_from_string(text), b.calculate_from_byte_array(text.as_bytes()));
}

#[test]
fn crc_empty_input_keeps_register() {
    let mut crc = Check8Crc::new(0x07);
    crc.init(0x5A);
    assert_eq!(crc.calculate_from_byte_array(&[]), 0x5A);
    assert_eq!(crc.calculate_from_string(""), 0x5A);
}

use gameboy::util::{
    combine_bytes, get_as_bits, get_lower_bits, get_lower_byte, get_upper_bits, get_upper_byte,
    sign_extend,
};

#[test]
fn test_get_as_bits() {
    let byte = 0b1010_1010;
    assert_eq!(get_as_bits(byte), [1, 0, 1, 0, 1, 0, 1, 0])
}

#[test]
fn test_get_upper_bits() {
    let byte = 0xF5;
    assert_eq!(get_upper_bits(byte), 0x0F)
}

#[test]
fn test_get_lower_bits() {
    let byte = 0xF5;
    assert_eq!(get_lower_bits(byte), 0x05)
}

#[test]
fn test_get_upper_byte() {
    let data = 0xABCD;
    assert_eq!(get_upper_byte(data), 0xAB);
}

#[test]
fn test_get_lower_byte() {
    let data = 0xABCD;
    assert_eq!(get_lower_byte(data), 0xCD);
}

#[test]
fn test_combine_bytes() {
    assert_eq!(combine_bytes(0xAB, 0xCD), 0xABCD)
}

#[test]
fn test_sign_extend() {
    assert_eq!(sign_extend(0), 0);
    assert_eq!(sign_extend(0x7F), 0x007F);
    assert_eq!(sign_extend(0x80), 0xFF80);
    assert_eq!(sign_extend(0xFF), 0xFFFF);
}

#[test]
fn test_split_and_combine_every_word() {
    for data in 0..=u16::MAX {
        assert_eq!(combine_bytes(get_upper_byte(data), get_lower_byte(data)), data);
    }
}

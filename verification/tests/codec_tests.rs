use oceania_theme::{format_radix, string_from_col, string_to_color, RgbColor, ThemeError};

#[test]
fn decode_lowercase() {
    let c = string_to_color(String::from("8aadf4")).unwrap();
    assert_eq!(c, RgbColor { red: 0x8a, green: 0xad, blue: 0xf4 });
}

#[test]
fn decode_uppercase_and_mixed() {
    let c = string_to_color(String::from("8AADF4")).unwrap();
    assert_eq!(c, RgbColor { red: 0x8a, green: 0xad, blue: 0xf4 });
    let c = string_to_color(String::from("CaD3f5")).unwrap();
    assert_eq!(c, RgbColor { red: 0xca, green: 0xd3, blue: 0xf5 });
}

#[test]
fn decode_extremes() {
    assert_eq!(
        string_to_color(String::from("000000")).unwrap(),
        RgbColor { red: 0, green: 0, blue: 0 }
    );
    assert_eq!(
        string_to_color(String::from("ffffff")).unwrap(),
        RgbColor { red: 255, green: 255, blue: 255 }
    );
}

#[test]
fn decode_rejects_wrong_length() {
    assert_eq!(string_to_color(String::from("")), Err(ThemeError::ColorFormatError));
    assert_eq!(string_to_color(String::from("8aadf")), Err(ThemeError::ColorFormatError));
    assert_eq!(string_to_color(String::from("8aadf44")), Err(ThemeError::ColorFormatError));
}

#[test]
fn decode_rejects_non_hex() {
    assert_eq!(string_to_color(String::from("8aadfg")), Err(ThemeError::ColorFormatError));
    assert_eq!(string_to_color(String::from("#aadf4")), Err(ThemeError::ColorFormatError));
    assert_eq!(string_to_color(String::from("8aad f")), Err(ThemeError::ColorFormatError));
}

#[test]
fn encode_is_zero_padded_lowercase() {
    assert_eq!(string_from_col(&RgbColor { red: 0, green: 15, blue: 255 }), "000fff");
    assert_eq!(string_from_col(&RgbColor { red: 0x18, green: 0x19, blue: 0x26 }), "181926");
    assert_eq!(string_from_col(&RgbColor { red: 0xca, green: 0xd3, blue: 0xf5 }), "cad3f5");
}

#[test]
fn encode_length_is_six() {
    for v in [0u8, 1, 15, 16, 127, 128, 254, 255] {
        let s = string_from_col(&RgbColor { red: v, green: v, blue: v });
        assert_eq!(s.len(), 6);
    }
}

#[test]
fn decode_of_encode_round_trip() {
    for v in [0u8, 1, 15, 16, 100, 255] {
        let c = RgbColor { red: v, green: 255 - v, blue: v / 2 };
        assert_eq!(string_to_color(string_from_col(&c)).unwrap(), c);
    }
}

#[test]
fn encode_of_decode_normalizes() {
    let c = string_to_color(String::from("8AADF4")).unwrap();
    assert_eq!(string_from_col(&c), "8aadf4");
    let c = string_to_color(String::from("00000F")).unwrap();
    assert_eq!(string_from_col(&c), "00000f");
}

#[test]
fn format_radix_hex() {
    assert_eq!(format_radix(255, 16), "ff");
    assert_eq!(format_radix(0, 16), "0");
    assert_eq!(format_radix(10, 16), "a");
    assert_eq!(format_radix(16, 16), "10");
}

#[test]
fn format_radix_other_bases() {
    assert_eq!(format_radix(5, 2), "101");
    assert_eq!(format_radix(35, 36), "z");
    assert_eq!(format_radix(36, 36), "10");
    assert_eq!(format_radix(1234, 10), "1234");
}

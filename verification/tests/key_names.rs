use inputshare::key_names::{decode_utf16, is_oem_name, key_name_of_code, to_title_case, white_space};
use inputshare::virtual_key::VirtualKey;

fn utf16(s: &str) -> Vec<u16> {
    s.encode_utf16().collect()
}

#[test]
fn key_names_of_codes() {
    assert_eq!(key_name_of_code(0x01), Some("Left Button"));
    assert_eq!(key_name_of_code(0x08), Some("Backspace"));
    assert_eq!(key_name_of_code(0x07), None);
    assert_eq!(VirtualKey::LButton.name(), Some("Left Button"));
    assert_eq!(VirtualKey::Oem1.name(), Some("OEM_1 (: ;)"));
}

#[test]
fn display_names() {
    assert_eq!(VirtualKey::Tab.display_name(&[]), "Tab");
    assert_eq!(VirtualKey::Oem1.display_name(&utf16("SEMICOLON")), "Semicolon");
    assert_eq!(VirtualKey::Oem102.display_name(&utf16("oem  back slash")), "Oem  Back Slash");
    assert_eq!(VirtualKey::OemPa1.display_name(&utf16("ignored")), "OemPa1");
}

#[test]
fn oem_names() {
    assert!(is_oem_name("OEM_PLUS (+ =)"));
    assert!(!is_oem_name("OemClr"));
    assert!(!is_oem_name("OE"));
    assert!(is_oem_name("xxOEM"));
}

#[test]
fn utf16_decoding() {
    assert_eq!(decode_utf16(&utf16("a😀b")), vec!['a', '😀', 'b']);
    assert_eq!(decode_utf16(&[0xd800, 0x61]), vec!['\u{fffd}', 'a']);
    assert_eq!(decode_utf16(&[0xdc00]), vec!['\u{fffd}']);
    assert_eq!(decode_utf16(&[0xd83d]), vec!['\u{fffd}']);
    let units = [0xd800, 0xd83d, 0xde00, 0xdfff, 0x20ac];
    let expected: Vec<char> = char::decode_utf16(units).map(|r| r.unwrap_or('\u{fffd}')).collect();
    assert_eq!(decode_utf16(&units), expected);
}

#[test]
fn title_case_words() {
    assert_eq!(to_title_case(&"hELLO wORLD".chars().collect()), "Hello World".chars().collect::<Vec<_>>());
    assert_eq!(to_title_case(&"\u{3000}éA".chars().collect()), "\u{3000}éa".chars().collect::<Vec<_>>());
    assert!(white_space('\u{2009}'));
    assert!(!white_space('x'));
}

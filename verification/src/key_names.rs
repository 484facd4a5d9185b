use vstd::prelude::*;
use vstd::string::{StrSliceExecFns, StringExecFns};

use crate::virtual_key::VirtualKey;

verus! {

/// The name of the key with virtual key code `code`, where it has one.
pub open spec fn spec_key_name(code: u8) -> Option<Seq<char>> {
    match code {
        0x01 => Some("Left Button"@),
        0x02 => Some("Right Button"@),
        0x03 => Some("Break"@),
        0x04 => Some("Middle Button"@),
        0x05 => Some("X Button 1"@),
        0x06 => Some("X Button 2"@),
        0x08 => Some("Backspace"@),
        0x09 => Some("Tab"@),
        0x0c => Some("Clear"@),
        0x0d => Some("Enter"@),
        0x13 => Some("Pause"@),
        0x14 => Some("Caps Lock"@),
        0x15 => Some("Kana"@),
        0x17 => Some("Junja"@),
        0x18 => Some("Final"@),
        0x19 => Some("Kanji"@),
        0x1b => Some("Esc"@),
        0x1c => Some("Convert"@),
        0x1d => Some("Non Convert"@),
        0x1e => Some("Accept"@),
        0x1f => Some("Mode Change"@),
        0x20 => Some("Space"@),
        0x21 => Some("Page Up"@),
        0x22 => Some("Page Down"@),
        0x23 => Some("End"@),
        0x24 => Some("Home"@),
        0x25 => Some("Arrow Left"@),
        0x26 => Some("Arrow Up"@),
        0x27 => Some("Arrow Right"@),
        0x28 => Some("Arrow Down"@),
        0x29 => Some("Select"@),
        0x2a => Some("Print"@),
        0x2b => Some("Execute"@),
        0x2c => Some("Print Screen"@),
        0x2d => Some("Insert"@),
        0x2e => Some("Delete"@),
        0x2f => Some("Help"@),
        0x30 => Some("0"@),
        0x31 => Some("1"@),
        0x32 => Some("2"@),
        0x33 => Some("3"@),
        0x34 => Some("4"@),
        0x35 => Some("5"@),
        0x36 => Some("6"@),
        0x37 => Some("7"@),
        0x38 => Some("8"@),
        0x39 => Some("9"@),
        0x41 => Some("A"@),
        0x42 => Some("B"@),
        0x43 => Some("C"@),
        0x44 => Some("D"@),
        0x45 => Some("E"@),
        0x46 => Some("F"@),
        0x47 => Some("G"@),
        0x48 => Some("H"@),
        0x49 => Some("I"@),
        0x4a => Some("J"@),
        0x4b => Some("K"@),
        0x4c => Some("L"@),
        0x4d => Some("M"@),
        0x4e => Some("N"@),
        0x4f => Some("O"@),
        0x50 => Some("P"@),
        0x51 => Some("Q"@),
        0x52 => Some("R"@),
        0x53 => Some("S"@),
        0x54 => Some("T"@),
        0x55 => Some("U"@),
        0x56 => Some("V"@),
        0x57 => Some("W"@),
        0x58 => Some("X"@),
        0x59 => Some("Y"@),
        0x5a => Some("Z"@),
        0x5b => Some("Left Win"@),
        0x5c => Some("Right Win"@),
        0x5d => Some("Context Menu"@),
        0x5f => Some("Sleep"@),
        0x60 => Some("Numpad 0"@),
        0x61 => Some("Numpad 1"@),
        0x62 => Some("Numpad 2"@),
        0x63 => Some("Numpad 3"@),
        0x64 => Some("Numpad 4"@),
        0x65 => Some("Numpad 5"@),
        0x66 => Some("Numpad 6"@),
        0x67 => Some("Numpad 7"@),
        0x68 => Some("Numpad 8"@),
        0x69 => Some("Numpad 9"@),
        0x6a => Some("Numpad *"@),
        0x6b => Some("Numpad +"@),
        0x6c => Some("Separator"@),
        0x6d => Some("Num -"@),
        0x6e => Some("Numpad ."@),
        0x6f => Some("Numpad /"@),
        0x70 => Some("F1"@),
        0x71 => Some("F2"@),
        0x72 => Some("F3"@),
        0x73 => Some("F4"@),
        0x74 => Some("F5"@),
        0x75 => Some("F6"@),
        0x76 => Some("F7"@),
        0x77 => Some("F8"@),
        0x78 => Some("F9"@),
        0x79 => Some("F10"@),
        0x7a => Some("F11"@),
        0x7b => Some("F12"@),
        0x7c => Some("F13"@),
        0x7d => Some("F14"@),
        0x7e => Some("F15"@),
        0x7f => Some("F16"@),
        0x80 => Some("F17"@),
        0x81 => Some("F18"@),
        0x82 => Some("F19"@),
        0x83 => Some("F20"@),
        0x84 => Some("F21"@),
        0x85 => Some("F22"@),
        0x86 => Some("F23"@),
        0x87 => Some("F24"@),
        0x90 => Some("Num Lock"@),
        0x91 => Some("Scrol Lock"@),
        0x92 => Some("Jisho"@),
        0x93 => Some("Mashu"@),
        0x94 => Some("Touroku"@),
        0x95 => Some("Loya"@),
        0x96 => Some("Roya"@),
        0xa0 => Some("Left Shift"@),
        0xa1 => Some("Right Shift"@),
        0xa2 => Some("Left Ctrl"@),
        0xa3 => Some("Right Ctrl"@),
        0xa4 => Some("Left Alt"@),
        0xa5 => Some("Right Alt"@),
        0xa6 => Some("Browser Back"@),
        0xa7 => Some("Browser Forward"@),
        0xa8 => Some("Browser Refresh"@),
        0xa9 => Some("Browser Stop"@),
        0xaa => Some("Browser Search"@),
        0xab => Some("Browser Favorites"@),
        0xac => Some("Browser Home"@),
        0xad => Some("Volume Mute"@),
        0xae => Some("Volume Down"@),
        0xaf => Some("Volume Up"@),
        0xb0 => Some("Next Track"@),
        0xb1 => Some("Previous Track"@),
        0xb2 => Some("Stop"@),
        0xb3 => Some("Play / Pause"@),
        0xb4 => Some("Mail"@),
        0xb5 => Some("Media"@),
        0xb6 => Some("App1"@),
        0xb7 => Some("App2"@),
        0xba => Some("OEM_1 (: ;)"@),
        0xbb => Some("OEM_PLUS (+ =)"@),
        0xbc => Some("OEM_COMMA (< ,)"@),
        0xbd => Some("OEM_MINUS (_ -)"@),
        0xbe => Some("OEM_PERIOD (> .)"@),
        0xbf => Some("OEM_2 (? /)"@),
        0xc0 => Some("OEM_3 (~ `)"@),
        0xc1 => Some("Abnt C1"@),
        0xc2 => Some("Abnt C2"@),
        0xdb => Some("OEM_4 ({ [)"@),
        0xdc => Some("OEM_5 (| \\)"@),
        0xdd => Some("OEM_6 (} ])"@),
        0xde => Some("OEM_7 (\" ')"@),
        0xdf => Some("OEM_8 (§ !)"@),
        0xe1 => Some("Ax"@),
        0xe2 => Some("OEM_102 (> <)"@),
        0xe3 => Some("IcoHlp"@),
        0xe4 => Some("Ico00"@),
        0xe5 => Some("Process"@),
        0xe6 => Some("IcoClr"@),
        0xe7 => Some("Packet"@),
        0xe9 => Some("Reset"@),
        0xea => Some("Jump"@),
        0xeb => Some("OemPa1"@),
        0xec => Some("OemPa2"@),
        0xed => Some("OemPa3"@),
        0xee => Some("WsCtrl"@),
        0xef => Some("Cu Sel"@),
        0xf0 => Some("Oem Attn"@),
        0xf1 => Some("Finish"@),
        0xf2 => Some("Copy"@),
        0xf3 => Some("Auto"@),
        0xf4 => Some("Enlw"@),
        0xf5 => Some("Back Tab"@),
        0xf6 => Some("Attn"@),
        0xf7 => Some("Cr Sel"@),
        0xf8 => Some("Ex Sel"@),
        0xf9 => Some("Er Eof"@),
        0xfa => Some("Play"@),
        0xfb => Some("Zoom"@),
        0xfc => Some("NoName"@),
        0xfd => Some("Pa1"@),
        0xfe => Some("OemClr"@),
        0xff => Some("no VK mapping"@),
        _ => None,
    }
}

/// Returns the name of the key with virtual key code `code`, where it has one.
pub fn key_name_of_code(code: u8) -> (r: Option<&'static str>)
    ensures
        match r {
            Some(s) => spec_key_name(code) == Some(s@),
            None => spec_key_name(code) is None,
        },
{
    match code {
        0x01 => Some("Left Button"),
        0x02 => Some("Right Button"),
        0x03 => Some("Break"),
        0x04 => Some("Middle Button"),
        0x05 => Some("X Button 1"),
        0x06 => Some("X Button 2"),
        0x08 => Some("Backspace"),
        0x09 => Some("Tab"),
        0x0c => Some("Clear"),
        0x0d => Some("Enter"),
        0x13 => Some("Pause"),
        0x14 => Some("Caps Lock"),
        0x15 => Some("Kana"),
        0x17 => Some("Junja"),
        0x18 => Some("Final"),
        0x19 => Some("Kanji"),
        0x1b => Some("Esc"),
        0x1c => Some("Convert"),
        0x1d => Some("Non Convert"),
        0x1e => Some("Accept"),
        0x1f => Some("Mode Change"),
        0x20 => Some("Space"),
        0x21 => Some("Page Up"),
        0x22 => Some("Page Down"),
        0x23 => Some("End"),
        0x24 => Some("Home"),
        0x25 => Some("Arrow Left"),
        0x26 => Some("Arrow Up"),
        0x27 => Some("Arrow Right"),
        0x28 => Some("Arrow Down"),
        0x29 => Some("Select"),
        0x2a => Some("Print"),
        0x2b => Some("Execute"),
        0x2c => Some("Print Screen"),
        0x2d => Some("Insert"),
        0x2e => Some("Delete"),
        0x2f => Some("Help"),
        0x30 => Some("0"),
        0x31 => Some("1"),
        0x32 => Some("2"),
        0x33 => Some("3"),
        0x34 => Some("4"),
        0x35 => Some("5"),
        0x36 => Some("6"),
        0x37 => Some("7"),
        0x38 => Some("8"),
        0x39 => Some("9"),
        0x41 => Some("A"),
        0x42 => Some("B"),
        0x43 => Some("C"),
        0x44 => Some("D"),
        0x45 => Some("E"),
        0x46 => Some("F"),
        0x47 => Some("G"),
        0x48 => Some("H"),
        0x49 => Some("I"),
        0x4a => Some("J"),
        0x4b => Some("K"),
        0x4c => Some("L"),
        0x4d => Some("M"),
        0x4e => Some("N"),
        0x4f => Some("O"),
        0x50 => Some("P"),
        0x51 => Some("Q"),
        0x52 => Some("R"),
        0x53 => Some("S"),
        0x54 => Some("T"),
        0x55 => Some("U"),
        0x56 => Some("V"),
        0x57 => Some("W"),
        0x58 => Some("X"),
        0x59 => Some("Y"),
        0x5a => Some("Z"),
        0x5b => Some("Left Win"),
        0x5c => Some("Right Win"),
        0x5d => Some("Context Menu"),
        0x5f => Some("Sleep"),
        0x60 => Some("Numpad 0"),
        0x61 => Some("Numpad 1"),
        0x62 => Some("Numpad 2"),
        0x63 => Some("Numpad 3"),
        0x64 => Some("Numpad 4"),
        0x65 => Some("Numpad 5"),
        0x66 => Some("Numpad 6"),
        0x67 => Some("Numpad 7"),
        0x68 => Some("Numpad 8"),
        0x69 => Some("Numpad 9"),
        0x6a => Some("Numpad *"),
        0x6b => Some("Numpad +"),
        0x6c => Some("Separator"),
        0x6d => Some("Num -"),
        0x6e => Some("Numpad ."),
        0x6f => Some("Numpad /"),
        0x70 => Some("F1"),
        0x71 => Some("F2"),
        0x72 => Some("F3"),
        0x73 => Some("F4"),
        0x74 => Some("F5"),
        0x75 => Some("F6"),
        0x76 => Some("F7"),
        0x77 => Some("F8"),
        0x78 => Some("F9"),
        0x79 => Some("F10"),
        0x7a => Some("F11"),
        0x7b => Some("F12"),
        0x7c => Some("F13"),
        0x7d => Some("F14"),
        0x7e => Some("F15"),
        0x7f => Some("F16"),
        0x80 => Some("F17"),
        0x81 => Some("F18"),
        0x82 => Some("F19"),
        0x83 => Some("F20"),
        0x84 => Some("F21"),
        0x85 => Some("F22"),
        0x86 => Some("F23"),
        0x87 => Some("F24"),
        0x90 => Some("Num Lock"),
        0x91 => Some("Scrol Lock"),
        0x92 => Some("Jisho"),
        0x93 => Some("Mashu"),
        0x94 => Some("Touroku"),
        0x95 => Some("Loya"),
        0x96 => Some("Roya"),
        0xa0 => Some("Left Shift"),
        0xa1 => Some("Right Shift"),
        0xa2 => Some("Left Ctrl"),
        0xa3 => Some("Right Ctrl"),
        0xa4 => Some("Left Alt"),
        0xa5 => Some("Right Alt"),
        0xa6 => Some("Browser Back"),
        0xa7 => Some("Browser Forward"),
        0xa8 => Some("Browser Refresh"),
        0xa9 => Some("Browser Stop"),
        0xaa => Some("Browser Search"),
        0xab => Some("Browser Favorites"),
        0xac => Some("Browser Home"),
        0xad => Some("Volume Mute"),
        0xae => Some("Volume Down"),
        0xaf => Some("Volume Up"),
        0xb0 => Some("Next Track"),
        0xb1 => Some("Previous Track"),
        0xb2 => Some("Stop"),
        0xb3 => Some("Play / Pause"),
        0xb4 => Some("Mail"),
        0xb5 => Some("Media"),
        0xb6 => Some("App1"),
        0xb7 => Some("App2"),
        0xba => Some("OEM_1 (: ;)"),
        0xbb => Some("OEM_PLUS (+ =)"),
        0xbc => Some("OEM_COMMA (< ,)"),
        0xbd => Some("OEM_MINUS (_ -)"),
        0xbe => Some("OEM_PERIOD (> .)"),
        0xbf => Some("OEM_2 (? /)"),
        0xc0 => Some("OEM_3 (~ `)"),
        0xc1 => Some("Abnt C1"),
        0xc2 => Some("Abnt C2"),
        0xdb => Some("OEM_4 ({ [)"),
        0xdc => Some("OEM_5 (| \\)"),
        0xdd => Some("OEM_6 (} ])"),
        0xde => Some("OEM_7 (\" ')"),
        0xdf => Some("OEM_8 (§ !)"),
        0xe1 => Some("Ax"),
        0xe2 => Some("OEM_102 (> <)"),
        0xe3 => Some("IcoHlp"),
        0xe4 => Some("Ico00"),
        0xe5 => Some("Process"),
        0xe6 => Some("IcoClr"),
        0xe7 => Some("Packet"),
        0xe9 => Some("Reset"),
        0xea => Some("Jump"),
        0xeb => Some("OemPa1"),
        0xec => Some("OemPa2"),
        0xed => Some("OemPa3"),
        0xee => Some("WsCtrl"),
        0xef => Some("Cu Sel"),
        0xf0 => Some("Oem Attn"),
        0xf1 => Some("Finish"),
        0xf2 => Some("Copy"),
        0xf3 => Some("Auto"),
        0xf4 => Some("Enlw"),
        0xf5 => Some("Back Tab"),
        0xf6 => Some("Attn"),
        0xf7 => Some("Cr Sel"),
        0xf8 => Some("Ex Sel"),
        0xf9 => Some("Er Eof"),
        0xfa => Some("Play"),
        0xfb => Some("Zoom"),
        0xfc => Some("NoName"),
        0xfd => Some("Pa1"),
        0xfe => Some("OemClr"),
        0xff => Some("no VK mapping"),
        _ => None,
    }
}

/// Whether `c` has the Unicode White_Space property.
pub open spec fn is_white_space(c: char) -> bool {
    let v = c as u32;
    ||| 0x09 <= v <= 0x0d
    ||| v == 0x20
    ||| v == 0x85
    ||| v == 0xa0
    ||| v == 0x1680
    ||| 0x2000 <= v <= 0x200a
    ||| v == 0x2028
    ||| v == 0x2029
    ||| v == 0x202f
    ||| v == 0x205f
    ||| v == 0x3000
}

/// Returns whether `c` has the Unicode White_Space property.
pub fn white_space(c: char) -> (r: bool)
    ensures
        r == is_white_space(c),
{
    let v = c as u32;
    (0x09 <= v && v <= 0x0d) || v == 0x20 || v == 0x85 || v == 0xa0 || v == 0x1680 || (0x2000 <= v
        && v <= 0x200a) || v == 0x2028 || v == 0x2029 || v == 0x202f || v == 0x205f || v == 0x3000
}

/// `c` with an ASCII lowercase letter made uppercase.
pub open spec fn ascii_upper(c: char) -> char {
    if 'a' <= c <= 'z' {
        ((c as u32) - 32) as char
    } else {
        c
    }
}

/// `c` with an ASCII uppercase letter made lowercase.
pub open spec fn ascii_lower(c: char) -> char {
    if 'A' <= c <= 'Z' {
        ((c as u32) + 32) as char
    } else {
        c
    }
}

/// The characters of `chars` with each word begun by an uppercase letter and
/// continued in lowercase (ASCII letters only); words are separated by white
/// space.
pub open spec fn title_case(chars: Seq<char>) -> Seq<char> {
    Seq::new(
        chars.len(),
        |i: int|
            if is_white_space(chars[i]) {
                chars[i]
            } else if i == 0 || is_white_space(chars[i - 1]) {
                ascii_upper(chars[i])
            } else {
                ascii_lower(chars[i])
            },
    )
}

/// The characters of UTF-16 code units; each unpaired surrogate becomes U+FFFD.
pub open spec fn decode_utf16_lossy(units: Seq<u16>) -> Seq<char>
    decreases units.len(),
{
    if units.len() == 0 {
        Seq::empty()
    } else {
        let u = units[0];
        if u < 0xd800 || u > 0xdfff {
            seq![u as char] + decode_utf16_lossy(units.drop_first())
        } else if u <= 0xdbff && units.len() >= 2 && 0xdc00 <= units[1] <= 0xdfff {
            seq![((0x10000 + (u - 0xd800) * 0x400 + (units[1] - 0xdc00)) as u32) as char]
                + decode_utf16_lossy(units.subrange(2, units.len() as int))
        } else {
            seq!['\u{fffd}'] + decode_utf16_lossy(units.drop_first())
        }
    }
}

/// Calls `char::from_u32`, which the documentation says gives the character
/// with that code, or `None` for a surrogate or a code beyond U+10FFFF.
#[verifier::external_body]
fn char_from_u32(v: u32) -> (r: Option<char>)
    ensures
        (v < 0xd800 || (0xe000 <= v <= 0x10ffff)) ==> r == Some(v as char),
        !(v < 0xd800 || (0xe000 <= v <= 0x10ffff)) ==> r is None,
{
    char::from_u32(v)
}

/// Calls `String::from_iter` on the characters, which gives the string of
/// those characters in order.
#[verifier::external_body]
fn string_from_chars(chars: &Vec<char>) -> (r: String)
    ensures
        r@ == chars@,
{
    String::from_iter(chars.iter())
}

/// Returns the characters of UTF-16 code units; each unpaired surrogate
/// becomes U+FFFD.
pub fn decode_utf16(units: &[u16]) -> (r: Vec<char>)
    ensures
        r@ == decode_utf16_lossy(units@),
{
    let mut out: Vec<char> = Vec::new();
    let mut i: usize = 0;
    let n = units.len();
    assert(units@.subrange(0, n as int) =~= units@);
    assert(out@ + decode_utf16_lossy(units@) =~= decode_utf16_lossy(units@));
    while i < n
        invariant
            n == units@.len(),
            i <= n,
            out@ + decode_utf16_lossy(units@.subrange(i as int, n as int)) == decode_utf16_lossy(
                units@,
            ),
        decreases n - i,
    {
        let ghost rest = units@.subrange(i as int, n as int);
        let u = units[i];
        if u < 0xd800 || u > 0xdfff {
            let c = char_from_u32(u as u32);
            proof {
                assert(rest.drop_first() =~= units@.subrange(i + 1, n as int));
            }
            out.push(c.unwrap());
            i += 1;
        } else if u <= 0xdbff && i + 1 < n && 0xdc00 <= units[i + 1] && units[i + 1] <= 0xdfff {
            let lo = units[i + 1];
            let v: u32 = 0x10000 + ((u - 0xd800) as u32) * 0x400 + ((lo - 0xdc00) as u32);
            let c = char_from_u32(v);
            proof {
                assert(rest.subrange(2, rest.len() as int) =~= units@.subrange(i + 2, n as int));
            }
            out.push(c.unwrap());
            i += 2;
        } else {
            proof {
                assert(rest.drop_first() =~= units@.subrange(i + 1, n as int));
            }
            out.push('\u{fffd}');
            i += 1;
        }
        proof {
            assert(out@ + decode_utf16_lossy(units@.subrange(i as int, n as int)) =~= decode_utf16_lossy(units@));
        }
    }
    proof {
        assert(units@.subrange(n as int, n as int) =~= Seq::<u16>::empty());
    }
    out
}

/// Returns `chars` with each word begun by an uppercase letter and continued
/// in lowercase; see `title_case`.
pub fn to_title_case(chars: &Vec<char>) -> (r: Vec<char>)
    ensures
        r@ == title_case(chars@),
{
    let mut out: Vec<char> = Vec::new();
    let mut start = true;
    let mut i: usize = 0;
    while i < chars.len()
        invariant
            i <= chars@.len(),
            out@ == title_case(chars@).take(i as int),
            start == (i == 0 || is_white_space(chars@[i - 1])),
        decreases chars@.len() - i,
    {
        let c = chars[i];
        let d = if white_space(c) {
            c
        } else if start {
            if 'a' <= c && c <= 'z' {
                ((c as u8) - 32) as char
            } else {
                c
            }
        } else {
            if 'A' <= c && c <= 'Z' {
                ((c as u8) + 32) as char
            } else {
                c
            }
        };
        start = white_space(c);
        out.push(d);
        proof {
            assert(out@ =~= title_case(chars@).take(i + 1));
        }
        i += 1;
    }
    assert(title_case(chars@).take(chars@.len() as int) =~= title_case(chars@));
    out
}

/// Whether `s` holds the text `OEM`.
pub open spec fn names_oem_key(s: Seq<char>) -> bool {
    exists|i: int| 0 <= i && i + 3 <= s.len() && #[trigger] s.subrange(i, i + 3) == seq!['O', 'E', 'M']
}

/// Returns whether `s` holds the text `OEM`: such keys are named by the system.
pub fn is_oem_name(s: &str) -> (r: bool)
    ensures
        r == names_oem_key(s@),
{
    let n = s.unicode_len();
    if n < 3 {
        proof {
            assert forall|i: int| 0 <= i && i + 3 <= s@.len() implies #[trigger] s@.subrange(i, i + 3)
                != seq!['O', 'E', 'M'] by {}
        }
        return false;
    }
    let mut i: usize = 0;
    while i < n - 2
        invariant
            n == s@.len(),
            n >= 3,
            i <= n - 2,
            forall|j: int| 0 <= j < i ==> #[trigger] s@.subrange(j, j + 3) != seq!['O', 'E', 'M'],
        decreases n - i,
    {
        if s.get_char(i) == 'O' && s.get_char(i + 1) == 'E' && s.get_char(i + 2) == 'M' {
            assert(s@.subrange(i as int, i + 3) =~= seq!['O', 'E', 'M']);
            return true;
        }
        proof {
            if s@.subrange(i as int, i + 3) == seq!['O', 'E', 'M'] {
                assert(s@.subrange(i as int, i + 3)[0] == s@[i as int]);
                assert(s@.subrange(i as int, i + 3)[1] == s@[i + 1]);
                assert(s@.subrange(i as int, i + 3)[2] == s@[i + 2]);
            }
        }
        i += 1;
    }
    false
}

/// The text that names `key`: `<UNKNOWN>` for a key without a name, the
/// system's name of the key (`system_name`, in UTF-16) in title case for an
/// OEM key, and the key's name otherwise.
pub open spec fn display_name_spec(key: VirtualKey, system_name: Seq<u16>) -> Seq<char> {
    match spec_key_name(key.spec_to_u8()) {
        None => "<UNKNOWN>"@,
        Some(name) => if names_oem_key(name) {
            title_case(decode_utf16_lossy(system_name))
        } else {
            name
        },
    }
}

impl VirtualKey {
    /// Returns the name of the key, where it has one.
    pub fn name(self) -> (r: Option<&'static str>)
        ensures
            match r {
                Some(s) => spec_key_name(self.spec_to_u8()) == Some(s@),
                None => spec_key_name(self.spec_to_u8()) is None,
            },
    {
        key_name_of_code(self.to_u8())
    }

    /// Returns the text that names the key; `system_name` is what the system
    /// calls the key, which OEM keys use. See `display_name_spec`.
    pub fn display_name(self, system_name: &[u16]) -> (r: String)
        ensures
            r@ == display_name_spec(self, system_name@),
    {
        match self.name() {
            None => String::from_str("<UNKNOWN>"),
            Some(name) => if is_oem_name(name) {
                let chars = decode_utf16(system_name);
                string_from_chars(&to_title_case(&chars))
            } else {
                String::from_str(name)
            },
        }
    }
}

} // verus!

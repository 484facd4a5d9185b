use vstd::prelude::*;
use vstd::string::StrSliceExecFns;

use crate::events::{Input, KeyState, ScrollDirection};
use crate::virtual_key::VirtualKey;

verus! {

/// Keyboard input flag: the key goes up.
pub const KEYEVENTF_KEYUP: u32 = 0x0002;
/// Keyboard input flag: the scan code is a UTF-16 code unit.
pub const KEYEVENTF_UNICODE: u32 = 0x0004;
/// Mouse input flag: the mouse moved.
pub const MOUSEEVENTF_MOVE: u32 = 0x0001;
pub const MOUSEEVENTF_LEFTDOWN: u32 = 0x0002;
pub const MOUSEEVENTF_LEFTUP: u32 = 0x0004;
pub const MOUSEEVENTF_RIGHTDOWN: u32 = 0x0008;
pub const MOUSEEVENTF_RIGHTUP: u32 = 0x0010;
pub const MOUSEEVENTF_MIDDLEDOWN: u32 = 0x0020;
pub const MOUSEEVENTF_MIDDLEUP: u32 = 0x0040;
pub const MOUSEEVENTF_XDOWN: u32 = 0x0080;
pub const MOUSEEVENTF_XUP: u32 = 0x0100;
/// Mouse input flag: the vertical wheel moved.
pub const MOUSEEVENTF_WHEEL: u32 = 0x0800;
/// Mouse input flag: the horizontal wheel moved.
pub const MOUSEEVENTF_HWHEEL: u32 = 0x1000;
/// Mouse input flag: the coordinates are absolute, scaled to 0..65536.
pub const MOUSEEVENTF_ABSOLUTE: u32 = 0x8000;
/// The mouse data that names the first extra button.
pub const XBUTTON1: i32 = 1;
/// The mouse data that names the second extra button.
pub const XBUTTON2: i32 = 2;

/// One record of the system's input injection call.
#[derive(Debug, Clone, Copy, PartialEq, Eq, Structural)]
pub enum RawInput {
    Keyboard { vk: u16, scan: u16, flags: u32 },
    Mouse { dx: i32, dy: i32, mouse_data: i32, flags: u32 },
}

/// The UTF-16 code units of one character.
pub open spec fn utf16_of_char(c: char) -> Seq<u16> {
    let v = c as int;
    if v < 0x10000 {
        seq![v as u16]
    } else {
        seq![(0xD800 + (v - 0x10000) / 0x400) as u16, (0xDC00 + (v - 0x10000) % 0x400) as u16]
    }
}

/// The UTF-16 code units of a string.
pub open spec fn utf16_of(s: Seq<char>) -> Seq<u16>
    decreases s.len(),
{
    if s.len() == 0 {
        Seq::empty()
    } else {
        utf16_of(s.drop_last()) + utf16_of_char(s.last())
    }
}

/// A press and a release of each code unit, in order.
pub open spec fn unicode_key_inputs(units: Seq<u16>) -> Seq<RawInput>
    decreases units.len(),
{
    if units.len() == 0 {
        Seq::empty()
    } else {
        let c = units.last();
        unicode_key_inputs(units.drop_last()) + seq![
            RawInput::Keyboard { vk: 0, scan: c, flags: KEYEVENTF_UNICODE },
            RawInput::Keyboard { vk: 0, scan: c, flags: KEYEVENTF_UNICODE | KEYEVENTF_KEYUP },
        ]
    }
}

/// The mouse flags of a button press or release; an unsupported key gives the
/// vertical wheel flag with no movement.
pub open spec fn mouse_button_flags(key: VirtualKey, state: KeyState) -> u32 {
    match (key, state) {
        (VirtualKey::LButton, KeyState::Pressed) => MOUSEEVENTF_LEFTDOWN,
        (VirtualKey::LButton, KeyState::Released) => MOUSEEVENTF_LEFTUP,
        (VirtualKey::RButton, KeyState::Pressed) => MOUSEEVENTF_RIGHTDOWN,
        (VirtualKey::RButton, KeyState::Released) => MOUSEEVENTF_RIGHTUP,
        (VirtualKey::MButton, KeyState::Pressed) => MOUSEEVENTF_MIDDLEDOWN,
        (VirtualKey::MButton, KeyState::Released) => MOUSEEVENTF_MIDDLEUP,
        (VirtualKey::XButton1, KeyState::Pressed) => MOUSEEVENTF_XDOWN,
        (VirtualKey::XButton1, KeyState::Released) => MOUSEEVENTF_XUP,
        (VirtualKey::XButton2, KeyState::Pressed) => MOUSEEVENTF_XDOWN,
        (VirtualKey::XButton2, KeyState::Released) => MOUSEEVENTF_XUP,
        _ => MOUSEEVENTF_WHEEL,
    }
}

/// The mouse data of a button: which extra button, or 0.
pub open spec fn mouse_button_data(key: VirtualKey) -> i32 {
    match key {
        VirtualKey::XButton1 => XBUTTON1,
        VirtualKey::XButton2 => XBUTTON2,
        _ => 0,
    }
}

/// The coordinate of an absolute move, scaled from pixels on a screen of
/// `extent` pixels to the range 0..65536.
pub open spec fn absolute_coordinate(p: i32, extent: i32) -> int {
    crate::reports::trunc_div(p * 65536, extent as int)
}

/// Whether an input can be turned into records on a screen of the given size:
/// absolute positions must scale without overflow.
pub open spec fn input_fits(input: Input, screen_width: i32, screen_height: i32) -> bool {
    input matches Input::AbsoluteMouseMoveInput(x, y) ==> {
        &&& screen_width > 0
        &&& screen_height > 0
        &&& -32768 <= x < 32768
        &&& -32768 <= y < 32768
    }
}

/// The records that simulate one input.
pub open spec fn raw_inputs_of(input: Input, screen_width: i32, screen_height: i32) -> Seq<
    RawInput,
> {
    match input {
        Input::KeyboardKeyInput(key, state) => seq![
            RawInput::Keyboard {
                vk: key.spec_to_u8() as u16,
                scan: 0,
                flags: match state {
                    KeyState::Pressed => 0,
                    KeyState::Released => KEYEVENTF_KEYUP,
                },
            },
        ],
        Input::StringInput(s) => unicode_key_inputs(utf16_of(s@)),
        Input::MouseButtonInput(key, state) => seq![
            RawInput::Mouse {
                dx: 0,
                dy: 0,
                mouse_data: mouse_button_data(key),
                flags: mouse_button_flags(key, state),
            },
        ],
        Input::MouseScrollInput(dir) => match dir {
            ScrollDirection::Horizontal(x) => seq![
                RawInput::Mouse { dx: 0, dy: 0, mouse_data: x as i32, flags: MOUSEEVENTF_HWHEEL },
            ],
            ScrollDirection::Vertical(x) => seq![
                RawInput::Mouse { dx: 0, dy: 0, mouse_data: x as i32, flags: MOUSEEVENTF_WHEEL },
            ],
        },
        Input::RelativeMouseMoveInput(dx, dy) => seq![
            RawInput::Mouse { dx, dy, mouse_data: 0, flags: MOUSEEVENTF_MOVE },
        ],
        Input::AbsoluteMouseMoveInput(x, y) => seq![
            RawInput::Mouse {
                dx: absolute_coordinate(x, screen_width) as i32,
                dy: absolute_coordinate(y, screen_height) as i32,
                mouse_data: 0,
                flags: MOUSEEVENTF_MOVE | MOUSEEVENTF_ABSOLUTE,
            },
        ],
    }
}

/// The records of a list of inputs, one after the other.
pub open spec fn raw_inputs_of_all(inputs: Seq<Input>, screen_width: i32, screen_height: i32) -> Seq<
    RawInput,
>
    decreases inputs.len(),
{
    if inputs.len() == 0 {
        Seq::empty()
    } else {
        raw_inputs_of_all(inputs.drop_last(), screen_width, screen_height) + raw_inputs_of(
            inputs.last(),
            screen_width,
            screen_height,
        )
    }
}

/// The press and release flags of a mouse button, for the buttons that can
/// be simulated.
pub open spec fn button_down_up_flags(key: VirtualKey) -> Option<(u32, u32)> {
    match key {
        VirtualKey::LButton => Some((MOUSEEVENTF_LEFTDOWN, MOUSEEVENTF_LEFTUP)),
        VirtualKey::RButton => Some((MOUSEEVENTF_RIGHTDOWN, MOUSEEVENTF_RIGHTUP)),
        VirtualKey::MButton => Some((MOUSEEVENTF_MIDDLEDOWN, MOUSEEVENTF_MIDDLEUP)),
        VirtualKey::XButton1 => Some((MOUSEEVENTF_XDOWN, MOUSEEVENTF_XUP)),
        VirtualKey::XButton2 => Some((MOUSEEVENTF_XDOWN, MOUSEEVENTF_XUP)),
        _ => None,
    }
}

/// A button input is one mouse record without movement: a release carries
/// the button's up flag and not its down flag, a press the down flag and
/// not the up flag, so the records of a press and a release differ.
pub proof fn lemma_button_records(key: VirtualKey, w: i32, h: i32)
    requires
        button_down_up_flags(key) is Some,
    ensures
        ({
            let (down, up) = button_down_up_flags(key)->0;
            let pressed = raw_inputs_of(Input::MouseButtonInput(key, KeyState::Pressed), w, h);
            let released = raw_inputs_of(Input::MouseButtonInput(key, KeyState::Released), w, h);
            &&& pressed.len() == 1 && released.len() == 1
            &&& pressed[0] matches RawInput::Mouse { dx, dy, mouse_data, flags } && dx == 0 && dy == 0
                && flags & down == down && flags & up == 0
            &&& released[0] matches RawInput::Mouse { dx, dy, mouse_data, flags } && dx == 0 && dy == 0
                && flags & up == up && flags & down == 0
            &&& pressed[0] != released[0]
            &&& pressed[0]->mouse_data == released[0]->mouse_data
            &&& pressed[0]->mouse_data == (if key == VirtualKey::XButton1 {
                XBUTTON1
            } else if key == VirtualKey::XButton2 {
                XBUTTON2
            } else {
                0
            })
        }),
{
    assert(MOUSEEVENTF_LEFTDOWN & MOUSEEVENTF_LEFTDOWN == MOUSEEVENTF_LEFTDOWN && MOUSEEVENTF_LEFTDOWN
        & MOUSEEVENTF_LEFTUP == 0 && MOUSEEVENTF_LEFTUP & MOUSEEVENTF_LEFTUP == MOUSEEVENTF_LEFTUP)
        by (bit_vector);
    assert(MOUSEEVENTF_RIGHTDOWN & MOUSEEVENTF_RIGHTDOWN == MOUSEEVENTF_RIGHTDOWN && MOUSEEVENTF_RIGHTDOWN
        & MOUSEEVENTF_RIGHTUP == 0 && MOUSEEVENTF_RIGHTUP & MOUSEEVENTF_RIGHTUP == MOUSEEVENTF_RIGHTUP
        && MOUSEEVENTF_RIGHTUP & MOUSEEVENTF_RIGHTDOWN == 0) by (bit_vector);
    assert(MOUSEEVENTF_MIDDLEDOWN & MOUSEEVENTF_MIDDLEDOWN == MOUSEEVENTF_MIDDLEDOWN && MOUSEEVENTF_MIDDLEDOWN
        & MOUSEEVENTF_MIDDLEUP == 0 && MOUSEEVENTF_MIDDLEUP & MOUSEEVENTF_MIDDLEUP == MOUSEEVENTF_MIDDLEUP
        && MOUSEEVENTF_MIDDLEUP & MOUSEEVENTF_MIDDLEDOWN == 0) by (bit_vector);
    assert(MOUSEEVENTF_XDOWN & MOUSEEVENTF_XDOWN == MOUSEEVENTF_XDOWN && MOUSEEVENTF_XDOWN & MOUSEEVENTF_XUP
        == 0 && MOUSEEVENTF_XUP & MOUSEEVENTF_XUP == MOUSEEVENTF_XUP && MOUSEEVENTF_XUP & MOUSEEVENTF_XDOWN
        == 0 && MOUSEEVENTF_LEFTUP & MOUSEEVENTF_LEFTDOWN == 0) by (bit_vector);
}

/// A key input is one keyboard record naming the key: a release carries the
/// key-up flag, a press does not.
pub proof fn lemma_key_records(key: VirtualKey, w: i32, h: i32)
    ensures
        ({
            let pressed = raw_inputs_of(Input::KeyboardKeyInput(key, KeyState::Pressed), w, h);
            let released = raw_inputs_of(Input::KeyboardKeyInput(key, KeyState::Released), w, h);
            &&& pressed.len() == 1 && released.len() == 1
            &&& pressed[0] matches RawInput::Keyboard { vk, scan, flags } && vk == key.spec_to_u8() && flags
                & KEYEVENTF_KEYUP == 0
            &&& released[0] matches RawInput::Keyboard { vk, scan, flags } && vk == key.spec_to_u8() && flags
                & KEYEVENTF_KEYUP == KEYEVENTF_KEYUP
        }),
{
    assert(0u32 & KEYEVENTF_KEYUP == 0 && KEYEVENTF_KEYUP & KEYEVENTF_KEYUP == KEYEVENTF_KEYUP) by (bit_vector);
}

/// Returns the UTF-16 code units of one character.
pub fn encode_char_utf16(c: char) -> (r: Vec<u16>)
    ensures
        r@ == utf16_of_char(c),
{
    let v: u32 = c as u32;
    if v < 0x10000 {
        let mut r = Vec::new();
        r.push(v as u16);
        r
    } else {
        let w: u32 = v - 0x10000;
        let mut r = Vec::new();
        r.push((0xD800 + w / 0x400) as u16);
        r.push((0xDC00 + w % 0x400) as u16);
        r
    }
}

/// Appends a press and a release of each UTF-16 code unit of `s` to `vec`.
fn push_string_input(vec: &mut Vec<RawInput>, s: &str)
    ensures
        final(vec)@ == old(vec)@ + unicode_key_inputs(utf16_of(s@)),
{
    let n = s.unicode_len();
    let mut i: usize = 0;
    let ghost start = vec@;
    while i < n
        invariant
            n == s@.len(),
            i <= n,
            vec@ == start + unicode_key_inputs(utf16_of(s@.subrange(0, i as int))),
        decreases n - i,
    {
        let c = s.get_char(i);
        let units = encode_char_utf16(c);
        let ghost before = vec@;
        let ghost done = utf16_of(s@.subrange(0, i as int));
        let mut j: usize = 0;
        while j < units.len()
            invariant
                j <= units.len(),
                units@ == utf16_of_char(c),
                vec@ == before + unicode_key_inputs(units@.subrange(0, j as int)),
            decreases units.len() - j,
        {
            let u = units[j];
            vec.push(RawInput::Keyboard { vk: 0, scan: u, flags: KEYEVENTF_UNICODE });
            vec.push(RawInput::Keyboard { vk: 0, scan: u, flags: KEYEVENTF_UNICODE | KEYEVENTF_KEYUP });
            proof {
                let p = units@.subrange(0, j + 1);
                assert(p.drop_last() =~= units@.subrange(0, j as int));
                assert(p.last() == u);
            }
            j = j + 1;
        }
        proof {
            assert(units@.subrange(0, units@.len() as int) =~= units@);
            let next = s@.subrange(0, i + 1);
            assert(next.drop_last() =~= s@.subrange(0, i as int));
            assert(next.last() == c);
            lemma_unicode_key_inputs_concat(done, units@);
        }
        i = i + 1;
    }
    proof {
        assert(s@.subrange(0, n as int) =~= s@);
    }
}

/// The key records of two runs of code units are those of each, one after the other.
proof fn lemma_unicode_key_inputs_concat(a: Seq<u16>, b: Seq<u16>)
    ensures
        unicode_key_inputs(a + b) == unicode_key_inputs(a) + unicode_key_inputs(b),
    decreases b.len(),
{
    if b.len() == 0 {
        assert(a + b =~= a);
        assert(unicode_key_inputs(a) + unicode_key_inputs(b) =~= unicode_key_inputs(a));
    } else {
        lemma_unicode_key_inputs_concat(a, b.drop_last());
        assert((a + b).drop_last() =~= a + b.drop_last());
        assert((a + b).last() == b.last());
        let tail = unicode_key_inputs(seq![b.last()]);
        assert(unicode_key_inputs(a + b) =~= unicode_key_inputs(a) + unicode_key_inputs(b));
    }
}

/// Appends to `vec` the records that simulate `input`; absolute positions are
/// scaled to a screen of `screen_width` by `screen_height` pixels.
pub fn add_to_vec(vec: &mut Vec<RawInput>, input: Input, screen_width: i32, screen_height: i32)
    requires
        input_fits(input, screen_width, screen_height),
    ensures
        final(vec)@ == old(vec)@ + raw_inputs_of(input, screen_width, screen_height),
{
    match input {
        Input::KeyboardKeyInput(key, state) => {
            let flags: u32 = match state {
                KeyState::Pressed => 0,
                KeyState::Released => KEYEVENTF_KEYUP,
            };
            vec.push(RawInput::Keyboard { vk: key.to_u8() as u16, scan: 0, flags });
        },
        Input::StringInput(s) => {
            push_string_input(vec, s);
        },
        Input::MouseButtonInput(key, state) => {
            let mouse_data: i32 = match key {
                VirtualKey::XButton1 => XBUTTON1,
                VirtualKey::XButton2 => XBUTTON2,
                _ => 0,
            };
            let flags: u32 = match (key, state) {
                (VirtualKey::LButton, KeyState::Pressed) => MOUSEEVENTF_LEFTDOWN,
                (VirtualKey::LButton, KeyState::Released) => MOUSEEVENTF_LEFTUP,
                (VirtualKey::RButton, KeyState::Pressed) => MOUSEEVENTF_RIGHTDOWN,
                (VirtualKey::RButton, KeyState::Released) => MOUSEEVENTF_RIGHTUP,
                (VirtualKey::MButton, KeyState::Pressed) => MOUSEEVENTF_MIDDLEDOWN,
                (VirtualKey::MButton, KeyState::Released) => MOUSEEVENTF_MIDDLEUP,
                (VirtualKey::XButton1, KeyState::Pressed) => MOUSEEVENTF_XDOWN,
                (VirtualKey::XButton1, KeyState::Released) => MOUSEEVENTF_XUP,
                (VirtualKey::XButton2, KeyState::Pressed) => MOUSEEVENTF_XDOWN,
                (VirtualKey::XButton2, KeyState::Released) => MOUSEEVENTF_XUP,
                _ => MOUSEEVENTF_WHEEL,
            };
            vec.push(RawInput::Mouse { dx: 0, dy: 0, mouse_data, flags });
        },
        Input::MouseScrollInput(dir) => {
            match dir {
                ScrollDirection::Horizontal(x) => {
                    vec.push(
                        RawInput::Mouse {
                            dx: 0,
                            dy: 0,
                            mouse_data: x as i32,
                            flags: MOUSEEVENTF_HWHEEL,
                        },
                    );
                },
                ScrollDirection::Vertical(x) => {
                    vec.push(
                        RawInput::Mouse {
                            dx: 0,
                            dy: 0,
                            mouse_data: x as i32,
                            flags: MOUSEEVENTF_WHEEL,
                        },
                    );
                },
            }
        },
        Input::RelativeMouseMoveInput(dx, dy) => {
            vec.push(RawInput::Mouse { dx, dy, mouse_data: 0, flags: MOUSEEVENTF_MOVE });
        },
        Input::AbsoluteMouseMoveInput(x, y) => {
            let ax: i32 = x * 65536 / screen_width;
            let ay: i32 = y * 65536 / screen_height;
            assert(ax == absolute_coordinate(x, screen_width));
            assert(ay == absolute_coordinate(y, screen_height));
            vec.push(
                RawInput::Mouse {
                    dx: ax,
                    dy: ay,
                    mouse_data: 0,
                    flags: MOUSEEVENTF_MOVE | MOUSEEVENTF_ABSOLUTE,
                },
            );
        },
    }
}

/// Returns the records that simulate `inputs`, one input after the other.
pub fn raw_inputs(inputs: &Vec<Input>, screen_width: i32, screen_height: i32) -> (r: Vec<
    RawInput,
>)
    requires
        forall|i: int|
            0 <= i < inputs@.len() ==> input_fits(#[trigger] inputs@[i], screen_width, screen_height),
    ensures
        r@ == raw_inputs_of_all(inputs@, screen_width, screen_height),
{
    let mut vec: Vec<RawInput> = Vec::new();
    let mut i: usize = 0;
    while i < inputs.len()
        invariant
            i <= inputs@.len(),
            forall|k: int|
                0 <= k < inputs@.len() ==> input_fits(
                    #[trigger] inputs@[k],
                    screen_width,
                    screen_height,
                ),
            vec@ == raw_inputs_of_all(inputs@.subrange(0, i as int), screen_width, screen_height),
        decreases inputs@.len() - i,
    {
        add_to_vec(&mut vec, inputs[i], screen_width, screen_height);
        proof {
            let next = inputs@.subrange(0, i + 1);
            assert(next.drop_last() =~= inputs@.subrange(0, i as int));
            assert(next.last() == inputs@[i as int]);
        }
        i = i + 1;
    }
    proof {
        assert(inputs@.subrange(0, inputs@.len() as int) =~= inputs@);
    }
    vec
}

} // verus!

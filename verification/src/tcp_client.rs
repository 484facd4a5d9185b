use vstd::prelude::*;

use crate::common::PackageIds;
use crate::events::{Input, InputEvent, KeyEvent, KeyState, ScrollDirection, WindowsScanCode};
use crate::hid::{
    convert_win2hid, modifier_key_order, mouse_button_order, spec_convert_win2hid, HidModifierKeys,
    HidMouseButtons, HidScanCode,
};
use crate::virtual_key::VirtualKey;
use crate::wire::{i16_le_bytes, le_bytes16};

verus! {

/// Which machine receives the input.
#[derive(Debug, Clone, Copy, PartialEq, Eq, Structural)]
pub enum Side {
    Local,
    Remote,
}

/// A packet of the direct TCP protocol.
#[derive(Debug, Clone, Copy, PartialEq, Eq)]
pub enum Packet {
    /// The modifier flags and up to six pressed keys.
    Keyboard(HidModifierKeys, [Option<HidScanCode>; 6]),
    /// The pressed buttons, the movement, and the vertical and horizontal wheel movement.
    Mouse(HidMouseButtons, i16, i16, i8, i8),
    /// Input now goes to the given machine.
    SwitchDevice(Side),
}

impl Packet {
    /// A keyboard packet with nothing pressed.
    pub fn reset_keyboard() -> (r: Self)
        ensures
            r matches Packet::Keyboard(m, keys) && m.bits == 0 && keys@ == seq![None::<HidScanCode>, None, None, None, None, None],
    {
        let r = Packet::Keyboard(HidModifierKeys::empty(), [None; 6]);
        proof {
            if let Packet::Keyboard(_, keys) = r {
                assert(keys@ =~= seq![None::<HidScanCode>, None, None, None, None, None]);
            }
        }
        r
    }

    /// A mouse packet with no button pressed and no movement.
    pub fn reset_mouse() -> (r: Self)
        ensures
            r == Packet::Mouse(HidMouseButtons { bits: 0 }, 0, 0, 0, 0),
    {
        Packet::Mouse(HidMouseButtons::empty(), 0, 0, 0, 0)
    }
}

/// The bytes of a packet on the wire.
pub open spec fn packet_bytes(p: Packet) -> Seq<u8> {
    match p {
        Packet::Keyboard(m, keys) => seq![1u8, m.bits, 0u8] + Seq::new(
            6,
            |i: int|
                match keys[i] {
                    Some(k) => k,
                    None => 0u8,
                },
        ),
        Packet::Mouse(b, dx, dy, dv, dh) => seq![2u8, b.bits] + le_bytes16(dx as u16) + le_bytes16(dy as u16) + seq![
            dv as u8,
            dh as u8,
        ],
        Packet::SwitchDevice(side) => seq![
            3u8,
            match side {
                Side::Local => 0u8,
                Side::Remote => 255u8,
            },
        ],
    }
}

/// Returns the bytes that a stream writes for `packet`.
pub fn packet_to_bytes(packet: &Packet) -> (r: Vec<u8>)
    ensures
        r@ == packet_bytes(*packet),
{
    let mut out: Vec<u8> = Vec::new();
    match packet {
        Packet::Keyboard(modifiers, keys) => {
            out.push(PackageIds::KEYBOARD);
            out.push(modifiers.to_byte());
            out.push(0);
            let mut i: usize = 0;
            while i < 6
                invariant
                    i <= 6,
                    out@ == seq![1u8, modifiers.bits, 0u8] + Seq::new(
                        i as nat,
                        |j: int|
                            match keys[j] {
                                Some(k) => k,
                                None => 0u8,
                            },
                    ),
                decreases 6 - i,
            {
                match keys[i] {
                    None => out.push(0),
                    Some(kc) => out.push(kc),
                }
                i += 1;
                proof {
                    assert(out@ =~= seq![1u8, modifiers.bits, 0u8] + Seq::new(
                        i as nat,
                        |j: int|
                            match keys[j] {
                                Some(k) => k,
                                None => 0u8,
                            },
                    ));
                }
            }
        },
        Packet::Mouse(buttons, dx, dy, dv, dh) => {
            out.push(PackageIds::MOUSE);
            out.push(buttons.to_byte());
            let x = i16_le_bytes(*dx);
            out.push(x[0]);
            out.push(x[1]);
            let y = i16_le_bytes(*dy);
            out.push(y[0]);
            out.push(y[1]);
            out.push(*dv as u8);
            out.push(*dh as u8);
            assert(out@ =~= packet_bytes(*packet));
        },
        Packet::SwitchDevice(side) => {
            out.push(PackageIds::SWITCH);
            out.push(
                match side {
                    Side::Local => u8::MIN,
                    Side::Remote => u8::MAX,
                },
            );
            assert(out@ =~= packet_bytes(*packet));
        },
    }
    out
}

/// Whether the local input should be released (`Wipe`) or pressed again (`Restore`).
#[derive(Debug, Clone, Copy, PartialEq, Eq, Structural)]
pub enum ChangeType {
    Wipe,
    Restore,
}

/// The index of the first pressed key with HID code `hid`, if any.
pub open spec fn index_of_code(keys: Seq<(VirtualKey, HidScanCode)>, hid: HidScanCode) -> Option<int>
    decreases keys.len(),
{
    if keys.len() == 0 {
        None
    } else if keys[0].1 == hid {
        Some(0)
    } else {
        match index_of_code(keys.drop_first(), hid) {
            Some(i) => Some(i + 1),
            None => None,
        }
    }
}

proof fn lemma_index_of_code(keys: Seq<(VirtualKey, HidScanCode)>, hid: HidScanCode)
    ensures
        index_of_code(keys, hid) matches Some(i) ==> 0 <= i < keys.len() && keys[i].1 == hid && forall|j: int| 0 <= j < i ==> keys[j].1 != hid,
        index_of_code(keys, hid) is None ==> forall|j: int| 0 <= j < keys.len() ==> keys[j].1 != hid,
    decreases keys.len(),
{
    if keys.len() > 0 {
        lemma_index_of_code(keys.drop_first(), hid);
        if keys[0].1 != hid {
            assert forall|j: int| 1 <= j < keys.len() implies keys[j] == keys.drop_first()[j - 1] by {}
        }
    }
}

fn position_of_code(keys: &Vec<(VirtualKey, HidScanCode)>, hid: HidScanCode) -> (r: Option<usize>)
    ensures
        r matches Some(i) ==> i < keys.len() && index_of_code(keys@, hid) == Some(i as int),
        r is None ==> index_of_code(keys@, hid) is None,
{
    let mut i: usize = 0;
    while i < keys.len()
        invariant
            i <= keys.len(),
            forall|j: int| 0 <= j < i ==> keys@[j].1 != hid,
        decreases keys.len() - i,
    {
        if keys[i].1 == hid {
            proof {
                lemma_index_of_code(keys@, hid);
            }
            return Some(i);
        }
        i += 1;
    }
    proof {
        lemma_index_of_code(keys@, hid);
    }
    None
}

/// The keyboard slots: the codes of the last six pressed keys (fewer where
/// fewer are pressed), in the order in which they were pressed, then `None`.
pub open spec fn keyboard_slots(keys: Seq<(VirtualKey, HidScanCode)>) -> Seq<Option<HidScanCode>> {
    let m = if keys.len() < 6 {
        keys.len() as int
    } else {
        6
    };
    Seq::new(6, |i: int| if i < m { Some(keys[keys.len() - m + i].1) } else { None })
}

/// The keys and buttons that the client holds down.
pub struct KeyButtonState {
    pub modifiers: HidModifierKeys,
    pub pressed_buttons: HidMouseButtons,
    pub pressed_keys: Vec<(VirtualKey, HidScanCode)>,
}

/// How a key event changes the pressed keys, and whether it changed them.
pub open spec fn key_step(keys: Seq<(VirtualKey, HidScanCode)>, key: VirtualKey, hid: HidScanCode, state: KeyState) -> (Seq<(VirtualKey, HidScanCode)>, bool) {
    match state {
        KeyState::Pressed => match index_of_code(keys, hid) {
            None => (keys.push((key, hid)), true),
            Some(_) => (keys, false),
        },
        KeyState::Released => match index_of_code(keys, hid) {
            Some(i) => (keys.remove(i), true),
            None => (keys, false),
        },
    }
}

/// What a `KeyButtonState` holds: the modifiers, the mouse buttons, and the
/// other pressed keys in the order in which they were pressed.
pub struct KeyButtonView {
    pub modifiers: HidModifierKeys,
    pub buttons: HidMouseButtons,
    pub keys: Seq<(VirtualKey, HidScanCode)>,
}

impl View for KeyButtonState {
    type V = KeyButtonView;

    open spec fn view(&self) -> KeyButtonView {
        KeyButtonView {
            modifiers: self.modifiers,
            buttons: self.pressed_buttons,
            keys: self.pressed_keys@,
        }
    }
}

/// How an input event changes the held keys and buttons, and whether it
/// changed them (always for wheel and movement events).
pub open spec fn kb_event_step(s: KeyButtonView, event: InputEvent) -> (KeyButtonView, bool) {
    match event {
        InputEvent::KeyboardKeyEvent(key, scancode, state) => match HidModifierKeys::spec_from_virtual_key(key) {
            Some(m) => {
                let bits = match state {
                    KeyState::Pressed => s.modifiers.bits | m.bits,
                    KeyState::Released => s.modifiers.bits & !m.bits,
                };
                (
                    KeyButtonView { modifiers: HidModifierKeys { bits }, buttons: s.buttons, keys: s.keys },
                    bits != s.modifiers.bits,
                )
            },
            None => match spec_convert_win2hid(scancode) {
                Some(hid) => {
                    let (keys, changed) = key_step(s.keys, key, hid, state);
                    (KeyButtonView { modifiers: s.modifiers, buttons: s.buttons, keys }, changed)
                },
                None => (s, false),
            },
        },
        InputEvent::MouseButtonEvent(key, state) => match HidMouseButtons::spec_from_virtual_key(key) {
            Some(b) => {
                let bits = match state {
                    KeyState::Pressed => s.buttons.bits | b.bits,
                    KeyState::Released => s.buttons.bits & !b.bits,
                };
                (
                    KeyButtonView { modifiers: s.modifiers, buttons: HidMouseButtons { bits }, keys: s.keys },
                    bits != s.buttons.bits,
                )
            },
            None => (s, false),
        },
        _ => (s, true),
    }
}

/// Whether no two held keys share a HID code.
pub open spec fn distinct_codes(keys: Seq<(VirtualKey, HidScanCode)>) -> bool {
    forall|i: int, j: int| 0 <= i < j < keys.len() ==> keys[i].1 != keys[j].1
}

/// The state with nothing held.
pub open spec fn kb_initial() -> KeyButtonView {
    KeyButtonView {
        modifiers: HidModifierKeys { bits: 0 },
        buttons: HidMouseButtons { bits: 0 },
        keys: Seq::empty(),
    }
}

/// The state after handling `events` in order, from nothing held.
pub open spec fn kb_after(events: Seq<InputEvent>) -> KeyButtonView
    decreases events.len(),
{
    if events.len() == 0 {
        kb_initial()
    } else {
        kb_event_step(kb_after(events.drop_last()), events.last()).0
    }
}

/// One event keeps the held keys free of repeated HID codes.
pub proof fn lemma_kb_step_keeps_distinct_codes(s: KeyButtonView, event: InputEvent)
    requires
        distinct_codes(s.keys),
    ensures
        distinct_codes(kb_event_step(s, event).0.keys),
{
    if let InputEvent::KeyboardKeyEvent(key, scancode, state) = event {
        if HidModifierKeys::spec_from_virtual_key(key) is None {
            if let Some(hid) = spec_convert_win2hid(scancode) {
                lemma_index_of_code(s.keys, hid);
                let keys = key_step(s.keys, key, hid, state).0;
                match state {
                    KeyState::Pressed => {
                        if index_of_code(s.keys, hid) is None {
                            assert forall|i: int, j: int| 0 <= i < j < keys.len() implies keys[i].1
                                != keys[j].1 by {
                                if j == s.keys.len() {
                                    assert(keys[j].1 == hid);
                                    assert(keys[i] == s.keys[i]);
                                } else {
                                    assert(keys[i] == s.keys[i] && keys[j] == s.keys[j]);
                                }
                            }
                        }
                    },
                    KeyState::Released => {
                        if let Some(k) = index_of_code(s.keys, hid) {
                            assert forall|i: int, j: int| 0 <= i < j < keys.len() implies keys[i].1
                                != keys[j].1 by {
                                let oi = if i < k { i } else { i + 1 };
                                let oj = if j < k { j } else { j + 1 };
                                assert(keys[i] == s.keys[oi]);
                                assert(keys[j] == s.keys[oj]);
                            }
                        }
                    },
                }
            }
        }
    }
}

/// Whatever events came, no two held keys share a HID code, so each
/// keyboard packet names a key at most once.
pub proof fn lemma_kb_codes_distinct(events: Seq<InputEvent>)
    ensures
        distinct_codes(kb_after(events).keys),
    decreases events.len(),
{
    if events.len() > 0 {
        lemma_kb_codes_distinct(events.drop_last());
        lemma_kb_step_keeps_distinct_codes(kb_after(events.drop_last()), events.last());
    }
}

/// Releasing a non-modifier key whose HID code `h` is held removes exactly
/// the entry holding `h` (the first one, the only one where codes are
/// distinct): the other held keys stay, in order, and the modifiers and
/// buttons are untouched.
pub proof fn lemma_key_release_removes_its_entry(
    s: KeyButtonView,
    key: VirtualKey,
    scancode: WindowsScanCode,
    h: HidScanCode,
    i: int,
)
    requires
        HidModifierKeys::spec_from_virtual_key(key) is None,
        spec_convert_win2hid(scancode) == Some(h),
        0 <= i < s.keys.len(),
        s.keys[i].1 == h,
        forall|j: int| 0 <= j < i ==> s.keys[j].1 != h,
    ensures
        ({
            let (n, changed) = kb_event_step(s, InputEvent::KeyboardKeyEvent(key, scancode, KeyState::Released));
            &&& changed
            &&& n.modifiers == s.modifiers
            &&& n.buttons == s.buttons
            &&& n.keys.len() == s.keys.len() - 1
            &&& forall|j: int| 0 <= j < i ==> n.keys[j] == s.keys[j]
            &&& forall|j: int| i < j < s.keys.len() ==> n.keys[j - 1] == s.keys[j]
        }),
{
    lemma_index_of_code(s.keys, h);
}

/// Releasing a non-modifier key whose HID code no held key has changes
/// nothing.
pub proof fn lemma_key_release_not_held(s: KeyButtonView, key: VirtualKey, scancode: WindowsScanCode, h: HidScanCode)
    requires
        HidModifierKeys::spec_from_virtual_key(key) is None,
        spec_convert_win2hid(scancode) == Some(h),
        forall|j: int| 0 <= j < s.keys.len() ==> s.keys[j].1 != h,
    ensures
        kb_event_step(s, InputEvent::KeyboardKeyEvent(key, scancode, KeyState::Released)) == (s, false),
{
    lemma_index_of_code(s.keys, h);
}

/// Pressing a non-modifier key adds it, with its HID code, after the keys
/// already held, unless a held key has that code already; nothing else
/// changes.
pub proof fn lemma_key_press_appends(s: KeyButtonView, key: VirtualKey, scancode: WindowsScanCode, h: HidScanCode)
    requires
        HidModifierKeys::spec_from_virtual_key(key) is None,
        spec_convert_win2hid(scancode) == Some(h),
    ensures
        ({
            let (n, changed) = kb_event_step(s, InputEvent::KeyboardKeyEvent(key, scancode, KeyState::Pressed));
            let held = exists|j: int| 0 <= j < s.keys.len() && s.keys[j].1 == h;
            &&& n.modifiers == s.modifiers
            &&& n.buttons == s.buttons
            &&& changed == !held
            &&& held ==> n.keys == s.keys
            &&& !held ==> n.keys.len() == s.keys.len() + 1 && n.keys.last() == (key, h) && n.keys.drop_last() == s.keys
        }),
{
    lemma_index_of_code(s.keys, h);
    let n = kb_event_step(s, InputEvent::KeyboardKeyEvent(key, scancode, KeyState::Pressed)).0;
    if index_of_code(s.keys, h) is None {
        assert(n.keys.drop_last() =~= s.keys);
    }
}

/// A key whose scan code has no HID code changes nothing.
pub proof fn lemma_unmapped_key_ignored(s: KeyButtonView, key: VirtualKey, scancode: WindowsScanCode, state: KeyState)
    requires
        HidModifierKeys::spec_from_virtual_key(key) is None,
        spec_convert_win2hid(scancode) is None,
    ensures
        kb_event_step(s, InputEvent::KeyboardKeyEvent(key, scancode, state)) == (s, false),
{
}

/// Pressing and then releasing a non-modifier key that was not held leaves
/// the held state as it was.
pub proof fn lemma_key_press_release_undo(s: KeyButtonView, key: VirtualKey, scancode: WindowsScanCode, h: HidScanCode)
    requires
        HidModifierKeys::spec_from_virtual_key(key) is None,
        spec_convert_win2hid(scancode) == Some(h),
        forall|j: int| 0 <= j < s.keys.len() ==> s.keys[j].1 != h,
    ensures
        kb_event_step(
            kb_event_step(s, InputEvent::KeyboardKeyEvent(key, scancode, KeyState::Pressed)).0,
            InputEvent::KeyboardKeyEvent(key, scancode, KeyState::Released),
        ).0 == s,
{
    lemma_index_of_code(s.keys, h);
    let n = kb_event_step(s, InputEvent::KeyboardKeyEvent(key, scancode, KeyState::Pressed)).0;
    assert(n.keys == s.keys.push((key, h)));
    lemma_index_of_code(n.keys, h);
    assert(n.keys[s.keys.len() as int].1 == h);
    assert(index_of_code(n.keys, h) == Some(s.keys.len() as int));
    assert(n.keys.remove(s.keys.len() as int) =~= s.keys);
}

/// A modifier key press sets its flag and a release clears it, leaving the
/// other modifiers, the buttons and the held keys as they were.
pub proof fn lemma_modifier_press_release(s: KeyButtonView, key: VirtualKey, scancode: WindowsScanCode, state: KeyState)
    requires
        HidModifierKeys::spec_from_virtual_key(key) is Some,
    ensures
        ({
            let f = HidModifierKeys::spec_from_virtual_key(key)->0.bits;
            let n = kb_event_step(s, InputEvent::KeyboardKeyEvent(key, scancode, state)).0;
            &&& n.keys == s.keys
            &&& n.buttons == s.buttons
            &&& n.modifiers.bits & !f == s.modifiers.bits & !f
            &&& state == KeyState::Pressed ==> n.modifiers.bits & f == f
            &&& state == KeyState::Released ==> n.modifiers.bits & f == 0
        }),
{
    let f = HidModifierKeys::spec_from_virtual_key(key)->0.bits;
    let b = s.modifiers.bits;
    assert((b | f) & !f == b & !f && (b | f) & f == f && (b & !f) & !f == b & !f && (b & !f) & f == 0)
        by (bit_vector);
}

/// A mouse button press sets its flag and a release clears it, leaving the
/// other buttons, the modifiers and the held keys as they were.
pub proof fn lemma_button_press_release(s: KeyButtonView, key: VirtualKey, state: KeyState)
    requires
        HidMouseButtons::spec_from_virtual_key(key) is Some,
    ensures
        ({
            let f = HidMouseButtons::spec_from_virtual_key(key)->0.bits;
            let n = kb_event_step(s, InputEvent::MouseButtonEvent(key, state)).0;
            &&& n.keys == s.keys
            &&& n.modifiers == s.modifiers
            &&& n.buttons.bits & !f == s.buttons.bits & !f
            &&& state == KeyState::Pressed ==> n.buttons.bits & f == f
            &&& state == KeyState::Released ==> n.buttons.bits & f == 0
        }),
{
    let f = HidMouseButtons::spec_from_virtual_key(key)->0.bits;
    let b = s.buttons.bits;
    assert((b | f) & !f == b & !f && (b | f) & f == f && (b & !f) & !f == b & !f && (b & !f) & f == 0)
        by (bit_vector);
}

/// For a key or mouse button event, the returned flag tells exactly whether
/// the held state changed.
pub proof fn lemma_kb_step_flag(s: KeyButtonView, event: InputEvent)
    requires
        event is KeyboardKeyEvent || event is MouseButtonEvent,
    ensures
        kb_event_step(s, event).1 == (kb_event_step(s, event).0 != s),
{
    if let InputEvent::KeyboardKeyEvent(key, scancode, state) = event {
        if HidModifierKeys::spec_from_virtual_key(key) is None {
            if let Some(hid) = spec_convert_win2hid(scancode) {
                lemma_index_of_code(s.keys, hid);
                let (keys, changed) = key_step(s.keys, key, hid, state);
                if changed {
                    assert(keys.len() != s.keys.len());
                }
            }
        }
    }
}

impl KeyButtonState {
    /// Nothing pressed.
    pub fn new() -> (r: Self)
        ensures
            r.modifiers.bits == 0,
            r.pressed_buttons.bits == 0,
            r.pressed_keys@ == Seq::<(VirtualKey, HidScanCode)>::empty(),
            r@ == kb_initial(),
    {
        KeyButtonState {
            modifiers: HidModifierKeys::empty(),
            pressed_buttons: HidMouseButtons::empty(),
            pressed_keys: Vec::new(),
        }
    }

    /// The keyboard packet for the held keys.
    pub fn create_keyboard_packet(&self) -> (r: Packet)
        ensures
            r matches Packet::Keyboard(m, slots) && m == self.modifiers && slots@ == keyboard_slots(self.pressed_keys@),
    {
        let len = self.pressed_keys.len();
        let m: usize = if len < 6 {
            len
        } else {
            6
        };
        let mut slots: [Option<HidScanCode>; 6] = [None; 6];
        let mut i: usize = 0;
        while i < m
            invariant
                m <= 6,
                m <= len,
                len == self.pressed_keys@.len(),
                m == (if len < 6 { len } else { 6 }),
                i <= m,
                forall|j: int| 0 <= j < 6 ==> slots[j] == (if j < i {
                    Some(self.pressed_keys@[len - m + j].1)
                } else {
                    None::<HidScanCode>
                }),
            decreases m - i,
        {
            slots[i] = Some(self.pressed_keys[len - m + i].1);
            i += 1;
        }
        assert(slots@ =~= keyboard_slots(self.pressed_keys@));
        Packet::Keyboard(self.modifiers, slots)
    }

    /// The mouse packet for the held buttons and the given movement.
    pub fn create_mouse_packet(&self, dx: i16, dy: i16, dv: i8, dh: i8) -> (r: Packet)
        ensures
            r == Packet::Mouse(self.pressed_buttons, dx, dy, dv, dh),
    {
        Packet::Mouse(self.pressed_buttons, dx, dy, dv, dh)
    }

    /// Takes a key or button event into account; returns whether the state
    /// changed (always `true` for wheel and movement events). A key without a
    /// HID code, and a key whose code is already held, change nothing.
    pub fn handle_event(&mut self, event: &InputEvent) -> (r: bool)
        ensures
            (final(self)@, r) == kb_event_step(old(self)@, *event),
    {
        match event {
            InputEvent::KeyboardKeyEvent(key, scancode, state) => match HidModifierKeys::from_virtual_key(key) {
                Some(m) => {
                    let old_bits = self.modifiers.bits;
                    match state {
                        KeyState::Pressed => self.modifiers.insert(m),
                        KeyState::Released => self.modifiers.remove(m),
                    }
                    self.modifiers.bits != old_bits
                },
                None => match convert_win2hid(scancode) {
                    Some(hid) => match state {
                        KeyState::Pressed => match position_of_code(&self.pressed_keys, hid) {
                            None => {
                                self.pressed_keys.push((*key, hid));
                                true
                            },
                            Some(_) => false,
                        },
                        KeyState::Released => match position_of_code(&self.pressed_keys, hid) {
                            Some(index) => {
                                self.pressed_keys.remove(index);
                                true
                            },
                            None => false,
                        },
                    },
                    None => false,
                },
            },
            InputEvent::MouseButtonEvent(key, state) => match HidMouseButtons::from_virtual_key(key) {
                Some(mb) => {
                    let old_bits = self.pressed_buttons.bits;
                    match state {
                        KeyState::Pressed => self.pressed_buttons.insert(mb),
                        KeyState::Released => self.pressed_buttons.remove(mb),
                    }
                    old_bits != self.pressed_buttons.bits
                },
                None => false,
            },
            _ => true,
        }
    }

    /// The inputs that release (`Wipe`) or press again (`Restore`) everything
    /// held: the modifiers, the pressed keys in the order they were pressed,
    /// then the mouse buttons.
    pub fn change_local_state<'a>(&self, change: ChangeType) -> (r: Vec<Input<'a>>)
        ensures
            r@ == local_state_inputs_spec(self.modifiers, self.pressed_keys@, self.pressed_buttons, change),
    {
        let state = match change {
            ChangeType::Wipe => KeyState::Released,
            ChangeType::Restore => KeyState::Pressed,
        };
        let mods = self.modifiers.to_virtual_keys();
        let buttons = self.pressed_buttons.to_virtual_keys();
        let mut k: Vec<Input<'a>> = Vec::new();
        let mut i: usize = 0;
        while i < mods.len()
            invariant
                i <= mods.len(),
                k@ == mods@.take(i as int).map_values(|key: VirtualKey| Input::KeyboardKeyInput(key, state)),
            decreases mods.len() - i,
        {
            k.push(Input::KeyboardKeyInput(mods[i], state));
            proof {
                assert(mods@.take(i + 1) == mods@.take(i as int).push(mods@[i as int]));
                assert(k@ =~= mods@.take(i + 1).map_values(|key: VirtualKey| Input::KeyboardKeyInput(key, state)));
            }
            i += 1;
        }
        assert(mods@.take(mods.len() as int) == mods@);
        let ghost k1 = k@;
        let mut i: usize = 0;
        while i < self.pressed_keys.len()
            invariant
                i <= self.pressed_keys.len(),
                k@ == k1 + self.pressed_keys@.take(i as int).map_values(
                    |p: (VirtualKey, HidScanCode)| Input::KeyboardKeyInput(p.0, state),
                ),
            decreases self.pressed_keys.len() - i,
        {
            k.push(Input::KeyboardKeyInput(self.pressed_keys[i].0, state));
            proof {
                assert(self.pressed_keys@.take(i + 1) == self.pressed_keys@.take(i as int).push(self.pressed_keys@[i as int]));
                assert(k@ =~= k1 + self.pressed_keys@.take(i + 1).map_values(
                    |p: (VirtualKey, HidScanCode)| Input::KeyboardKeyInput(p.0, state),
                ));
            }
            i += 1;
        }
        assert(self.pressed_keys@.take(self.pressed_keys.len() as int) == self.pressed_keys@);
        let ghost k2 = k@;
        let mut i: usize = 0;
        while i < buttons.len()
            invariant
                i <= buttons.len(),
                k@ == k2 + buttons@.take(i as int).map_values(|key: VirtualKey| Input::MouseButtonInput(key, state)),
            decreases buttons.len() - i,
        {
            k.push(Input::MouseButtonInput(buttons[i], state));
            proof {
                assert(buttons@.take(i + 1) == buttons@.take(i as int).push(buttons@[i as int]));
                assert(k@ =~= k2 + buttons@.take(i + 1).map_values(|key: VirtualKey| Input::MouseButtonInput(key, state)));
            }
            i += 1;
        }
        assert(buttons@.take(buttons.len() as int) == buttons@);
        k
    }
}

/// The key state that a change applies.
pub open spec fn change_state(change: ChangeType) -> KeyState {
    match change {
        ChangeType::Wipe => KeyState::Released,
        ChangeType::Restore => KeyState::Pressed,
    }
}

/// The inputs that apply `change` to the held modifiers, keys and buttons.
pub open spec fn local_state_inputs_spec<'a>(
    modifiers: HidModifierKeys,
    keys: Seq<(VirtualKey, HidScanCode)>,
    buttons: HidMouseButtons,
    change: ChangeType,
) -> Seq<Input<'a>> {
    let state = change_state(change);
    modifier_key_order().filter(|k: VirtualKey| modifiers.holds_key(k)).map_values(
        |key: VirtualKey| Input::KeyboardKeyInput(key, state),
    ) + keys.map_values(|p: (VirtualKey, HidScanCode)| Input::KeyboardKeyInput(p.0, state))
        + mouse_button_order().filter(|k: VirtualKey| buttons.holds_key(k)).map_values(
        |key: VirtualKey| Input::MouseButtonInput(key, state),
    )
}

/// The hotkey of the direct client: a single key whose press swaps the
/// capture state once until it is released.
pub struct HotKey {
    pub key: VirtualKey,
    pub available: bool,
}

impl HotKey {
    /// A hotkey on `key`, ready to trigger.
    pub fn new(key: VirtualKey) -> (r: Self)
        ensures
            r.key == key,
            r.available,
    {
        HotKey { key, available: true }
    }

    /// For an event of the hotkey, returns whether it triggers (a press while
    /// available; a release makes the hotkey available again); for any other
    /// event, `None`.
    pub fn triggered(&mut self, event: &InputEvent) -> (r: Option<bool>)
        ensures
            final(self).key == old(self).key,
            match event.spec_to_key_event() {
                Some(e) => if e.key == old(self).key {
                    match e.state {
                        KeyState::Pressed => r == Some(old(self).available) && !final(self).available,
                        KeyState::Released => r == Some(false) && final(self).available,
                    }
                } else {
                    r is None && final(self).available == old(self).available
                },
                None => r is None && final(self).available == old(self).available,
            },
    {
        if let Some(event) = event.to_key_event() {
            if self.key == event.key {
                match event.state {
                    KeyState::Pressed => {
                        if self.available {
                            self.available = false;
                            return Some(true);
                        }
                    },
                    KeyState::Released => self.available = true,
                }
                return Some(false);
            }
        }
        None
    }
}

/// The wheel movement of a mouse packet: whole notches of 120 units, rounded
/// toward zero and held to the range of `i8`.
pub open spec fn wheel_notches(raw: i16) -> i8 {
    let q = crate::reports::trunc_div(raw as int, 120);
    if q > 127 {
        127i8
    } else if q < -128 {
        -128i8
    } else {
        q as i8
    }
}

/// Returns the wheel movement of a mouse packet for `raw` wheel units.
pub fn to_wheel_notches(raw: i16) -> (r: i8)
    ensures
        r == wheel_notches(raw),
{
    let q: i16 = raw / 120;
    assert(q == crate::reports::trunc_div(raw as int, 120));
    if q > 127 {
        127
    } else if q < -128 {
        -128
    } else {
        q as i8
    }
}

/// Whether `p` is the keyboard packet of the held keys `v`.
pub open spec fn is_keyboard_packet(p: Packet, v: KeyButtonView) -> bool {
    p matches Packet::Keyboard(m, slots) && m == v.modifiers && slots@ == keyboard_slots(v.keys)
}

/// Whether `p` is a keyboard packet with nothing pressed.
pub open spec fn is_reset_keyboard(p: Packet) -> bool {
    p matches Packet::Keyboard(m, slots) && m.bits == 0 && slots@ == seq![
        None::<HidScanCode>,
        None,
        None,
        None,
        None,
        None,
    ]
}

/// What the direct client holds between two hook events.
pub struct DirectModel {
    pub kb: KeyButtonView,
    pub captured: bool,
    pub hotkey: VirtualKey,
    pub hotkey_available: bool,
    pub pos: Option<(i32, i32)>,
    pub blacklist: Seq<VirtualKey>,
}

/// The packets that the direct client sends for an event that changed the
/// held state `kb` from `before`, while the input is captured.
pub open spec fn captured_packets(event: InputEvent, kb: KeyButtonView, pos: Option<(i32, i32)>, packets: Seq<Packet>) -> bool {
    match event {
        InputEvent::KeyboardKeyEvent(_, _, _) => packets.len() == 1 && is_keyboard_packet(packets[0], kb),
        InputEvent::MouseButtonEvent(_, _) => packets == seq![Packet::Mouse(kb.buttons, 0, 0, 0, 0)],
        InputEvent::MouseWheelEvent(dir) => match dir {
            ScrollDirection::Horizontal(am) => packets == seq![Packet::Mouse(kb.buttons, 0, 0, 0, wheel_notches(am))],
            ScrollDirection::Vertical(am) => packets == seq![Packet::Mouse(kb.buttons, 0, 0, wheel_notches(am), 0)],
        },
        InputEvent::MouseMoveEvent(px, py) => {
            let (dx, dy) = match pos {
                None => (0int, 0int),
                Some((ox, oy)) => (px - ox, py - oy),
            };
            if dx != 0 || dy != 0 {
                packets == seq![Packet::Mouse(kb.buttons, dx as i16, dy as i16, 0, 0)]
            } else {
                packets.len() == 0
            }
        },
    }
}

/// One step of the direct client: from state `m` and a hook event to state
/// `n`, whether the event passes on to the local machine, the local inputs to
/// simulate and the packets to send, in that order.
pub open spec fn direct_step<'a>(
    m: DirectModel,
    event: InputEvent,
    n: DirectModel,
    pass: bool,
    inputs: Seq<Input<'a>>,
    packets: Seq<Packet>,
) -> bool {
    let ke = event.spec_to_key_event();
    if ke is Some && ke->0.key == m.hotkey {
        let e = ke->0;
        let fires = e.state == KeyState::Pressed && m.hotkey_available;
        &&& !pass
        &&& n.kb == m.kb && n.hotkey == m.hotkey && n.pos == m.pos && n.blacklist == m.blacklist
        &&& n.hotkey_available == (e.state == KeyState::Released)
        &&& n.captured == (if fires { !m.captured } else { m.captured })
        &&& if !fires {
            inputs.len() == 0 && packets.len() == 0
        } else if n.captured {
            &&& inputs == local_state_inputs_spec(m.kb.modifiers, m.kb.keys, m.kb.buttons, ChangeType::Wipe)
            &&& packets.len() == 3
            &&& packets[0] == Packet::SwitchDevice(Side::Remote)
            &&& is_keyboard_packet(packets[1], m.kb)
            &&& packets[2] == Packet::Mouse(m.kb.buttons, 0, 0, 0, 0)
        } else {
            &&& inputs == local_state_inputs_spec(m.kb.modifiers, m.kb.keys, m.kb.buttons, ChangeType::Restore)
            &&& packets.len() == 3
            &&& packets[0] == Packet::Mouse(HidMouseButtons { bits: 0 }, 0, 0, 0, 0)
            &&& is_reset_keyboard(packets[1])
            &&& packets[2] == Packet::SwitchDevice(Side::Local)
        }
    } else if ke is Some && m.blacklist.contains(ke->0.key) {
        pass && n == m && inputs.len() == 0 && packets.len() == 0
    } else if m.pos is None && event is MouseMoveEvent {
        let (px, py) = (event->MouseMoveEvent_0, event->MouseMoveEvent_1);
        &&& pass
        &&& n == DirectModel { pos: Some((px, py)), ..m }
        &&& inputs.len() == 0 && packets.len() == 0
    } else {
        let (kb, changed) = kb_event_step(m.kb, event);
        &&& pass == !m.captured
        &&& inputs.len() == 0
        &&& n.kb == kb && n.captured == m.captured && n.hotkey == m.hotkey
        &&& n.hotkey_available == m.hotkey_available && n.blacklist == m.blacklist
        &&& n.pos == (if changed && !m.captured && event is MouseMoveEvent {
            Some((event->MouseMoveEvent_0, event->MouseMoveEvent_1))
        } else {
            m.pos
        })
        &&& if changed && m.captured {
            captured_packets(event, kb, m.pos, packets)
        } else {
            packets.len() == 0
        }
    }
}

/// While the input is not captured, a mouse move passes on to the local
/// machine, sends nothing, and remembers the new cursor position.
pub proof fn lemma_direct_local_move_tracked<'a>(
    m: DirectModel,
    px: i32,
    py: i32,
    n: DirectModel,
    pass: bool,
    inputs: Seq<Input<'a>>,
    packets: Seq<Packet>,
)
    requires
        direct_step(m, InputEvent::MouseMoveEvent(px, py), n, pass, inputs, packets),
        !m.captured,
    ensures
        pass,
        packets.len() == 0,
        n.pos == Some((px, py)),
        n.kb == m.kb,
{
}

/// While captured, a mouse move away from the remembered position sends one
/// mouse packet with the held buttons and the movement from that position.
pub proof fn lemma_direct_captured_move<'a>(
    m: DirectModel,
    px: i32,
    py: i32,
    n: DirectModel,
    pass: bool,
    inputs: Seq<Input<'a>>,
    packets: Seq<Packet>,
)
    requires
        direct_step(m, InputEvent::MouseMoveEvent(px, py), n, pass, inputs, packets),
        m.captured,
        m.pos matches Some((ox, oy)) && (px, py) != (ox, oy),
    ensures
        !pass,
        n.pos == m.pos,
        packets == seq![
            Packet::Mouse(m.kb.buttons, (px - (m.pos->0).0) as i16, (py - (m.pos->0).1) as i16, 0, 0),
        ],
{
}

/// Whether a movement while captured fits in a packet: the hook hands the
/// client positions, and the packet carries their difference as `i16`.
pub open spec fn move_fits(m: DirectModel, event: InputEvent) -> bool {
    m.captured && m.pos is Some && event is MouseMoveEvent ==> {
        let (ox, oy) = m.pos->0;
        &&& i16::MIN <= event->MouseMoveEvent_0 - ox <= i16::MAX
        &&& i16::MIN <= event->MouseMoveEvent_1 - oy <= i16::MAX
    }
}

/// What the direct client answers to one hook event.
pub struct DirectReaction<'a> {
    /// Whether the event passes on to the local machine.
    pub pass: bool,
    /// The inputs to simulate locally, before the packets are sent.
    pub local_inputs: Vec<Input<'a>>,
    /// The packets to send to the server.
    pub packets: Vec<Packet>,
}

/// The client of the direct TCP protocol: the hotkey swaps between local and
/// remote input; while the input is captured, the held keys and mouse
/// movements go to the server as packets.
pub struct DirectClient {
    pub kb_state: KeyButtonState,
    pub captured: bool,
    pub hotkey: HotKey,
    pub pos: Option<(i32, i32)>,
    pub blacklist: Vec<VirtualKey>,
}

impl View for DirectClient {
    type V = DirectModel;

    open spec fn view(&self) -> DirectModel {
        DirectModel {
            kb: self.kb_state@,
            captured: self.captured,
            hotkey: self.hotkey.key,
            hotkey_available: self.hotkey.available,
            pos: self.pos,
            blacklist: self.blacklist@,
        }
    }
}

impl DirectClient {
    /// A client with nothing held, not captured, and no known mouse position.
    pub fn new(hotkey: VirtualKey, blacklist: &Vec<VirtualKey>) -> (r: Self)
        ensures
            r@ == (DirectModel {
                kb: KeyButtonView {
                    modifiers: HidModifierKeys { bits: 0 },
                    buttons: HidMouseButtons { bits: 0 },
                    keys: Seq::empty(),
                },
                captured: false,
                hotkey,
                hotkey_available: true,
                pos: None,
                blacklist: blacklist@,
            }),
    {
        let r = DirectClient {
            kb_state: KeyButtonState::new(),
            captured: false,
            hotkey: HotKey::new(hotkey),
            pos: None,
            blacklist: blacklist.clone(),
        };
        assert(r@.kb.keys =~= Seq::<(VirtualKey, HidScanCode)>::empty());
        r
    }

    fn blacklisted(&self, key: VirtualKey) -> (r: bool)
        ensures
            r == self.blacklist@.contains(key),
    {
        let mut i: usize = 0;
        while i < self.blacklist.len()
            invariant
                i <= self.blacklist.len(),
                forall|j: int| 0 <= j < i ==> self.blacklist@[j] != key,
            decreases self.blacklist.len() - i,
        {
            if self.blacklist[i] == key {
                assert(self.blacklist@[i as int] == key);
                return true;
            }
            i += 1;
        }
        false
    }

    /// Handles one hook event: see `direct_step`.
    pub fn handle<'a>(&mut self, event: InputEvent) -> (r: DirectReaction<'a>)
        requires
            move_fits(old(self)@, event),
        ensures
            direct_step(old(self)@, event, final(self)@, r.pass, r.local_inputs@, r.packets@),
    {
        let mut packets: Vec<Packet> = Vec::new();
        let ghost kb0 = self.kb_state@;
        if let Some(triggered) = self.hotkey.triggered(&event) {
            let mut local_inputs: Vec<Input<'a>> = Vec::new();
            if triggered {
                self.captured = !self.captured;
                if self.captured {
                    local_inputs = self.kb_state.change_local_state(ChangeType::Wipe);
                    packets.push(Packet::SwitchDevice(Side::Remote));
                    packets.push(self.kb_state.create_keyboard_packet());
                    packets.push(self.kb_state.create_mouse_packet(0, 0, 0, 0));
                } else {
                    local_inputs = self.kb_state.change_local_state(ChangeType::Restore);
                    packets.push(Packet::reset_mouse());
                    packets.push(Packet::reset_keyboard());
                    packets.push(Packet::SwitchDevice(Side::Local));
                }
            }
            return DirectReaction { pass: false, local_inputs, packets };
        }
        if let Some(e) = event.to_key_event() {
            if self.blacklisted(e.key) {
                return DirectReaction { pass: true, local_inputs: Vec::new(), packets };
            }
        }
        if self.pos.is_none() {
            if let InputEvent::MouseMoveEvent(px, py) = event {
                self.pos = Some((px, py));
                return DirectReaction { pass: true, local_inputs: Vec::new(), packets };
            }
        }
        if self.kb_state.handle_event(&event) {
            match event {
                InputEvent::KeyboardKeyEvent(_, _, _) => if self.captured {
                    packets.push(self.kb_state.create_keyboard_packet());
                },
                InputEvent::MouseButtonEvent(_, _) => if self.captured {
                    packets.push(self.kb_state.create_mouse_packet(0, 0, 0, 0));
                },
                InputEvent::MouseWheelEvent(dir) => if self.captured {
                    match dir {
                        ScrollDirection::Horizontal(am) => packets.push(
                            self.kb_state.create_mouse_packet(0, 0, 0, to_wheel_notches(am)),
                        ),
                        ScrollDirection::Vertical(am) => packets.push(
                            self.kb_state.create_mouse_packet(0, 0, to_wheel_notches(am), 0),
                        ),
                    }
                },
                InputEvent::MouseMoveEvent(px, py) => if self.captured {
                    let (dx, dy): (i32, i32) = match self.pos {
                        None => (0, 0),
                        Some((ox, oy)) => (px - ox, py - oy),
                    };
                    if dx != 0 || dy != 0 {
                        packets.push(self.kb_state.create_mouse_packet(dx as i16, dy as i16, 0, 0));
                    }
                } else {
                    self.pos = Some((px, py));
                },
            }
        }
        DirectReaction { pass: !self.captured, local_inputs: Vec::new(), packets }
    }
}

/// While the input is captured and the mouse position is known, every event
/// that is not a blacklisted key is kept from the local machine.
pub proof fn lemma_direct_captured_blocks<'a>(
    m: DirectModel,
    event: InputEvent,
    n: DirectModel,
    pass: bool,
    inputs: Seq<Input<'a>>,
    packets: Seq<Packet>,
)
    requires
        direct_step(m, event, n, pass, inputs, packets),
        m.captured,
        m.pos is Some,
        !(event.spec_to_key_event() matches Some(e) && m.blacklist.contains(e.key)),
    ensures
        !pass,
{
}

/// A blacklisted key passes on to the local machine and changes nothing.
pub proof fn lemma_direct_blacklist_ignored<'a>(
    m: DirectModel,
    event: InputEvent,
    n: DirectModel,
    pass: bool,
    inputs: Seq<Input<'a>>,
    packets: Seq<Packet>,
)
    requires
        direct_step(m, event, n, pass, inputs, packets),
        event.spec_to_key_event() matches Some(e) && m.blacklist.contains(e.key) && e.key != m.hotkey,
    ensures
        pass,
        n == m,
        inputs.len() == 0,
        packets.len() == 0,
{
}

/// A swap to remote input releases locally exactly what a swap back presses
/// again: the same keys, in the same order.
pub proof fn lemma_wipe_restore_same_keys<'a>(
    modifiers: HidModifierKeys,
    keys: Seq<(VirtualKey, HidScanCode)>,
    buttons: HidMouseButtons,
)
    ensures
        ({
            let w = local_state_inputs_spec::<'a>(modifiers, keys, buttons, ChangeType::Wipe);
            let r = local_state_inputs_spec::<'a>(modifiers, keys, buttons, ChangeType::Restore);
            &&& w.len() == r.len()
            &&& forall|i: int|
                0 <= i < w.len() ==> match (#[trigger] w[i], r[i]) {
                    (Input::KeyboardKeyInput(a, sa), Input::KeyboardKeyInput(b, sb)) => a == b && sa
                        == KeyState::Released && sb == KeyState::Pressed,
                    (Input::MouseButtonInput(a, sa), Input::MouseButtonInput(b, sb)) => a == b && sa
                        == KeyState::Released && sb == KeyState::Pressed,
                    _ => false,
                }
        }),
{
}

} // verus!

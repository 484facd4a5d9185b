use vstd::prelude::*;
use vstd::string::{StrSliceExecFns, StringExecFns};

use crate::events::{Input, InputEvent, KeyState, ScrollDirection};
use crate::hid::{HidModifierKeys, HidMouseButtons};
use crate::misc::{kb_packet_spec, make_kb_packet, make_ms_packet, ms_packet_spec, Message};
use crate::tcp_client::{
    kb_event_step, local_state_inputs_spec, to_wheel_notches, wheel_notches, ChangeType,
    KeyButtonState, KeyButtonView,
};
use crate::virtual_key::VirtualKey;

verus! {

/// The media keys that always stay with the local machine.
pub open spec fn gui_blacklisted(key: VirtualKey) -> bool {
    ||| key == VirtualKey::VolumeDown
    ||| key == VirtualKey::VolumeUp
    ||| key == VirtualKey::VolumeMute
    ||| key == VirtualKey::MediaStop
    ||| key == VirtualKey::MediaPrevTrack
    ||| key == VirtualKey::MediaPlayPause
    ||| key == VirtualKey::MediaNextTrack
}

/// Returns whether `key` is one of the media keys that stay local.
pub fn is_gui_blacklisted(key: VirtualKey) -> (r: bool)
    ensures
        r == gui_blacklisted(key),
{
    match key {
        VirtualKey::VolumeDown | VirtualKey::VolumeUp | VirtualKey::VolumeMute
        | VirtualKey::MediaStop | VirtualKey::MediaPrevTrack | VirtualKey::MediaPlayPause
        | VirtualKey::MediaNextTrack => true,
        _ => false,
    }
}

/// The key that swaps between local and remote input.
pub open spec fn gui_hotkey() -> VirtualKey {
    VirtualKey::Apps
}

/// What the client of the settings window holds between two hook events.
pub struct GuiModel {
    pub kb: KeyButtonView,
    pub captured: bool,
    pub hotkey_available: bool,
    pub pos: Option<(i32, i32)>,
}

/// The bytes of each packet, in order.
pub open spec fn packet_views(packets: Seq<[u8; 9]>) -> Seq<Seq<u8>> {
    packets.map_values(|p: [u8; 9]| p@)
}

/// One step of the client of the settings window: from state `m` and a hook
/// event to state `n`, whether the event passes on to the local machine, the
/// local inputs to simulate, the packets to write, and whether the inputs go
/// before the packets.
pub open spec fn gui_step<'a>(
    m: GuiModel,
    event: InputEvent,
    n: GuiModel,
    pass: bool,
    inputs: Seq<Input<'a>>,
    packets: Seq<Seq<u8>>,
    inputs_first: bool,
) -> bool {
    match event {
        InputEvent::KeyboardKeyEvent(key, _, state) => if gui_blacklisted(key) {
            pass && n == m && inputs.len() == 0 && packets.len() == 0
        } else if key == gui_hotkey() {
            let fires = state == KeyState::Pressed && m.hotkey_available;
            &&& !pass
            &&& n.kb == m.kb && n.pos == m.pos
            &&& n.hotkey_available == (state == KeyState::Released)
            &&& n.captured == (if fires { !m.captured } else { m.captured })
            &&& if !fires {
                inputs.len() == 0 && packets.len() == 0
            } else if n.captured {
                &&& inputs_first
                &&& inputs == local_state_inputs_spec(
                    m.kb.modifiers,
                    m.kb.keys,
                    m.kb.buttons,
                    ChangeType::Wipe,
                )
                &&& packets == seq![
                    kb_packet_spec(m.kb.modifiers.bits, Some(m.kb.keys)),
                    ms_packet_spec(m.kb.buttons.bits, 0, 0, 0, 0),
                ]
            } else {
                &&& !inputs_first
                &&& inputs == local_state_inputs_spec(
                    m.kb.modifiers,
                    m.kb.keys,
                    m.kb.buttons,
                    ChangeType::Restore,
                )
                &&& packets == seq![kb_packet_spec(0, None), ms_packet_spec(0, 0, 0, 0, 0)]
            }
        } else {
            let (kb, fresh) = kb_event_step(m.kb, event);
            &&& n == GuiModel { kb, ..m }
            &&& pass == !m.captured
            &&& inputs.len() == 0
            &&& packets == (if m.captured && fresh {
                seq![kb_packet_spec(kb.modifiers.bits, Some(kb.keys))]
            } else {
                Seq::empty()
            })
        },
        InputEvent::MouseButtonEvent(_, _) => {
            let kb = kb_event_step(m.kb, event).0;
            &&& n == GuiModel { kb, ..m }
            &&& pass == !m.captured
            &&& inputs.len() == 0
            &&& packets == (if m.captured {
                seq![ms_packet_spec(kb.buttons.bits, 0, 0, 0, 0)]
            } else {
                Seq::empty()
            })
        },
        InputEvent::MouseWheelEvent(dir) => {
            &&& n == m
            &&& pass == !m.captured
            &&& inputs.len() == 0
            &&& packets == (if m.captured {
                match dir {
                    ScrollDirection::Horizontal(am) => seq![
                        ms_packet_spec(m.kb.buttons.bits, 0, 0, 0, wheel_notches(am)),
                    ],
                    ScrollDirection::Vertical(am) => seq![
                        ms_packet_spec(m.kb.buttons.bits, 0, 0, wheel_notches(am), 0),
                    ],
                }
            } else {
                Seq::empty()
            })
        },
        InputEvent::MouseMoveEvent(px, py) => if m.pos is None {
            pass && n == GuiModel { pos: Some((px, py)), ..m } && inputs.len() == 0 && packets.len()
                == 0
        } else if m.captured {
            let (ox, oy) = m.pos->0;
            let (dx, dy) = (px - ox, py - oy);
            &&& !pass
            &&& n == m
            &&& inputs.len() == 0
            &&& packets == (if dx != 0 || dy != 0 {
                seq![ms_packet_spec(m.kb.buttons.bits, dx as i16, dy as i16, 0, 0)]
            } else {
                Seq::empty()
            })
        } else {
            pass && n == GuiModel { pos: Some((px, py)), ..m } && inputs.len() == 0 && packets.len()
                == 0
        },
    }
}

/// Whether a movement while captured fits in a packet.
pub open spec fn gui_move_fits(m: GuiModel, event: InputEvent) -> bool {
    m.captured && m.pos is Some && event is MouseMoveEvent ==> {
        let (ox, oy) = m.pos->0;
        &&& i16::MIN <= event->MouseMoveEvent_0 - ox <= i16::MAX
        &&& i16::MIN <= event->MouseMoveEvent_1 - oy <= i16::MAX
    }
}

/// What the client of the settings window answers to one hook event.
pub struct GuiReaction<'a> {
    /// Whether the event passes on to the local machine.
    pub pass: bool,
    /// The inputs to simulate locally.
    pub local_inputs: Vec<Input<'a>>,
    /// The packets to write to the server.
    pub packets: Vec<[u8; 9]>,
    /// Whether the local inputs go before the packets.
    pub inputs_first: bool,
}

/// The client that the settings window starts: the Apps key swaps between
/// local and remote input, the media keys always stay local.
pub struct GuiClient {
    pub kb_state: KeyButtonState,
    pub captured: bool,
    pub hotkey_available: bool,
    pub pos: Option<(i32, i32)>,
}

impl View for GuiClient {
    type V = GuiModel;

    open spec fn view(&self) -> GuiModel {
        GuiModel {
            kb: self.kb_state@,
            captured: self.captured,
            hotkey_available: self.hotkey_available,
            pos: self.pos,
        }
    }
}

impl GuiClient {
    /// A client with nothing held, not captured, and no known mouse position.
    pub fn new() -> (r: Self)
        ensures
            r@ == (GuiModel {
                kb: KeyButtonView {
                    modifiers: HidModifierKeys { bits: 0 },
                    buttons: HidMouseButtons { bits: 0 },
                    keys: Seq::empty(),
                },
                captured: false,
                hotkey_available: true,
                pos: None,
            }),
    {
        let r = GuiClient {
            kb_state: KeyButtonState::new(),
            captured: false,
            hotkey_available: true,
            pos: None,
        };
        assert(r@.kb.keys =~= Seq::<(VirtualKey, u8)>::empty());
        r
    }

    /// Handles one hook event: see `gui_step`.
    pub fn handle<'a>(&mut self, event: InputEvent) -> (r: GuiReaction<'a>)
        requires
            gui_move_fits(old(self)@, event),
        ensures
            gui_step(
                old(self)@,
                event,
                final(self)@,
                r.pass,
                r.local_inputs@,
                packet_views(r.packets@),
                r.inputs_first,
            ),
    {
        let mut packets: Vec<[u8; 9]> = Vec::new();
        let mut local_inputs: Vec<Input<'a>> = Vec::new();
        match event {
            InputEvent::KeyboardKeyEvent(key, _, state) => {
                if is_gui_blacklisted(key) {
                    return GuiReaction { pass: true, local_inputs, packets, inputs_first: true };
                }
                if key == VirtualKey::Apps {
                    let mut inputs_first = true;
                    match state {
                        KeyState::Pressed => if self.hotkey_available {
                            self.hotkey_available = false;
                            self.captured = !self.captured;
                            if self.captured {
                                local_inputs = self.kb_state.change_local_state(ChangeType::Wipe);
                                packets.push(
                                    make_kb_packet(
                                        self.kb_state.modifiers,
                                        Some(&self.kb_state.pressed_keys),
                                    ),
                                );
                                packets.push(
                                    make_ms_packet(self.kb_state.pressed_buttons, 0, 0, 0, 0),
                                );
                                assert(packet_views(packets@) =~= seq![
                                    kb_packet_spec(self.kb_state@.modifiers.bits, Some(self.kb_state@.keys)),
                                    ms_packet_spec(self.kb_state@.buttons.bits, 0, 0, 0, 0),
                                ]);
                            } else {
                                inputs_first = false;
                                packets.push(make_kb_packet(HidModifierKeys::empty(), None));
                                packets.push(make_ms_packet(HidMouseButtons::empty(), 0, 0, 0, 0));
                                assert(packet_views(packets@) =~= seq![
                                    kb_packet_spec(0, None),
                                    ms_packet_spec(0, 0, 0, 0, 0),
                                ]);
                                local_inputs = self.kb_state.change_local_state(
                                    ChangeType::Restore,
                                );
                            }
                        },
                        KeyState::Released => self.hotkey_available = true,
                    }
                    assert(packets@.len() == 0 ==> packet_views(packets@) =~= Seq::<Seq<u8>>::empty());
                    return GuiReaction { pass: false, local_inputs, packets, inputs_first };
                }
                let fresh = self.kb_state.handle_event(&event);
                if self.captured {
                    if fresh {
                        packets.push(
                            make_kb_packet(self.kb_state.modifiers, Some(&self.kb_state.pressed_keys)),
                        );
                    }
                    assert(packet_views(packets@) =~= (if fresh {
                        seq![kb_packet_spec(self.kb_state@.modifiers.bits, Some(self.kb_state@.keys))]
                    } else {
                        Seq::empty()
                    }));
                    GuiReaction { pass: false, local_inputs, packets, inputs_first: true }
                } else {
                    assert(packet_views(packets@) =~= Seq::<Seq<u8>>::empty());
                    GuiReaction { pass: true, local_inputs, packets, inputs_first: true }
                }
            },
            InputEvent::MouseButtonEvent(_, _) => {
                let _ = self.kb_state.handle_event(&event);
                if self.captured {
                    packets.push(make_ms_packet(self.kb_state.pressed_buttons, 0, 0, 0, 0));
                }
                assert(packet_views(packets@) =~= (if self.captured {
                    seq![ms_packet_spec(self.kb_state@.buttons.bits, 0, 0, 0, 0)]
                } else {
                    Seq::empty()
                }));
                GuiReaction { pass: !self.captured, local_inputs, packets, inputs_first: true }
            },
            InputEvent::MouseWheelEvent(dir) => {
                if self.captured {
                    match dir {
                        ScrollDirection::Horizontal(am) => packets.push(
                            make_ms_packet(
                                self.kb_state.pressed_buttons,
                                0,
                                0,
                                0,
                                to_wheel_notches(am),
                            ),
                        ),
                        ScrollDirection::Vertical(am) => packets.push(
                            make_ms_packet(
                                self.kb_state.pressed_buttons,
                                0,
                                0,
                                to_wheel_notches(am),
                                0,
                            ),
                        ),
                    }
                }
                assert(packet_views(packets@) =~= (if self.captured {
                    match dir {
                        ScrollDirection::Horizontal(am) => seq![
                            ms_packet_spec(self.kb_state@.buttons.bits, 0, 0, 0, wheel_notches(am)),
                        ],
                        ScrollDirection::Vertical(am) => seq![
                            ms_packet_spec(self.kb_state@.buttons.bits, 0, 0, wheel_notches(am), 0),
                        ],
                    }
                } else {
                    Seq::empty()
                }));
                GuiReaction { pass: !self.captured, local_inputs, packets, inputs_first: true }
            },
            InputEvent::MouseMoveEvent(px, py) => {
                match self.pos {
                    None => {
                        self.pos = Some((px, py));
                        assert(packet_views(packets@) =~= Seq::<Seq<u8>>::empty());
                        GuiReaction { pass: true, local_inputs, packets, inputs_first: true }
                    },
                    Some((ox, oy)) => {
                        if self.captured {
                            let dx: i32 = px - ox;
                            let dy: i32 = py - oy;
                            if dx != 0 || dy != 0 {
                                packets.push(
                                    make_ms_packet(
                                        self.kb_state.pressed_buttons,
                                        dx as i16,
                                        dy as i16,
                                        0,
                                        0,
                                    ),
                                );
                            }
                            assert(packet_views(packets@) =~= (if dx != 0 || dy != 0 {
                                seq![
                                    ms_packet_spec(
                                        self.kb_state@.buttons.bits,
                                        dx as i16,
                                        dy as i16,
                                        0,
                                        0,
                                    ),
                                ]
                            } else {
                                Seq::empty()
                            }));
                            GuiReaction { pass: false, local_inputs, packets, inputs_first: true }
                        } else {
                            self.pos = Some((px, py));
                            assert(packet_views(packets@) =~= Seq::<Seq<u8>>::empty());
                            GuiReaction { pass: true, local_inputs, packets, inputs_first: true }
                        }
                    },
                }
            },
        }
    }
}

/// While the input is captured and the mouse position is known, every event
/// but a media key is kept from the local machine.
pub proof fn lemma_gui_captured_blocks<'a>(
    m: GuiModel,
    event: InputEvent,
    n: GuiModel,
    pass: bool,
    inputs: Seq<Input<'a>>,
    packets: Seq<Seq<u8>>,
    inputs_first: bool,
)
    requires
        gui_step(m, event, n, pass, inputs, packets, inputs_first),
        m.captured,
        m.pos is Some,
        !(event matches InputEvent::KeyboardKeyEvent(key, _, _) && gui_blacklisted(key)),
    ensures
        !pass,
{
}

/// The remembered cursor position follows the local cursor: a mouse move
/// while not captured (or before any position is known) remembers the new
/// position; a captured move and every other event keep it.
pub proof fn lemma_gui_cursor_tracked<'a>(
    m: GuiModel,
    event: InputEvent,
    n: GuiModel,
    pass: bool,
    inputs: Seq<Input<'a>>,
    packets: Seq<Seq<u8>>,
    inputs_first: bool,
)
    requires
        gui_step(m, event, n, pass, inputs, packets, inputs_first),
    ensures
        n.pos == (match event {
            InputEvent::MouseMoveEvent(px, py) => if m.captured && m.pos is Some {
                m.pos
            } else {
                Some((px, py))
            },
            _ => m.pos,
        }),
{
}

/// While captured, a mouse move away from the remembered position is kept
/// from the local machine and sent as one mouse packet with the held buttons
/// and the movement from that position.
pub proof fn lemma_gui_captured_move<'a>(
    m: GuiModel,
    px: i32,
    py: i32,
    n: GuiModel,
    pass: bool,
    inputs: Seq<Input<'a>>,
    packets: Seq<Seq<u8>>,
    inputs_first: bool,
)
    requires
        gui_step(m, InputEvent::MouseMoveEvent(px, py), n, pass, inputs, packets, inputs_first),
        m.captured,
        m.pos matches Some((ox, oy)) && (px, py) != (ox, oy),
    ensures
        !pass,
        inputs.len() == 0,
        packets == seq![
            ms_packet_spec(m.kb.buttons.bits, (px - (m.pos->0).0) as i16, (py - (m.pos->0).1) as i16, 0, 0),
        ],
{
}

/// Whether every character of `s` is an ASCII digit.
pub open spec fn all_digits(s: Seq<char>) -> bool {
    forall|i: int| 0 <= i < s.len() ==> '0' <= #[trigger] s[i] <= '9'
}

/// The number that the decimal digits `s` spell; the empty text spells 0.
pub open spec fn decimal_value(s: Seq<char>) -> int
    decreases s.len(),
{
    if s.len() == 0 {
        0
    } else {
        decimal_value(s.drop_last()) * 10 + (s.last() as int - '0' as int)
    }
}

/// The port that the settings field `s` holds: its digits, read after a
/// leading zero (so that an empty field is port 0), where they fit a `u16`.
pub open spec fn port_of_field(s: Seq<char>) -> Option<u16> {
    if all_digits(s) && decimal_value(s) <= u16::MAX {
        Some(decimal_value(s) as u16)
    } else {
        None
    }
}

proof fn lemma_decimal_value_nonneg(s: Seq<char>)
    requires
        all_digits(s),
    ensures
        decimal_value(s) >= 0,
    decreases s.len(),
{
    if s.len() > 0 {
        let init = s.drop_last();
        assert(all_digits(init)) by {
            assert forall|i: int| 0 <= i < init.len() implies '0' <= #[trigger] init[i] <= '9' by {
                assert(init[i] == s[i]);
            }
        }
        lemma_decimal_value_nonneg(init);
        assert('0' <= s[s.len() - 1] <= '9');
    }
}

/// Returns the port that the settings field `s` holds; see `port_of_field`.
pub fn parse_port_field(s: &str) -> (r: Option<u16>)
    ensures
        r == port_of_field(s@),
{
    let n = s.unicode_len();
    let mut value: u32 = 0;
    let mut i: usize = 0;
    while i < n
        invariant
            n == s@.len(),
            i <= n,
            all_digits(s@.take(i as int)),
            value == (if decimal_value(s@.take(i as int)) <= u16::MAX {
                decimal_value(s@.take(i as int))
            } else {
                u16::MAX + 1
            }),
        decreases n - i,
    {
        let c = s.get_char(i);
        let ghost prefix = s@.take(i as int);
        let ghost next = s@.take(i + 1);
        assert(next.drop_last() =~= prefix);
        assert(next.last() == c);
        if !('0' <= c && c <= '9') {
            proof {
                assert(!all_digits(s@)) by {
                    assert(s@[i as int] == c);
                }
            }
            return None;
        }
        proof {
            lemma_decimal_value_nonneg(prefix);
            assert forall|j: int| 0 <= j < next.len() implies '0' <= #[trigger] next[j] <= '9' by {
                if j < i {
                    assert(next[j] == prefix[j]);
                }
            }
        }
        let d = (c as u32) - ('0' as u32);
        if value > 65535 {
            value = 65536;
        } else {
            let v = value * 10 + d;
            value = if v > 65535 {
                65536
            } else {
                v
            };
        }
        i += 1;
    }
    assert(s@.take(n as int) =~= s@);
    if value <= 65535 {
        Some(value as u16)
    } else {
        None
    }
}

/// The settings that the settings window edits.
#[derive(Debug)]
pub struct GuiConfig {
    pub host: String,
    pub port: u16,
}

impl Default for GuiConfig {
    /// The Raspberry Pi's usual name and the server's port.
    fn default() -> (r: Self)
        ensures
            r.host@ == "raspberrypi.local"@,
            r.port == 12351,
    {
        GuiConfig { host: String::from_str("raspberrypi.local"), port: 12351 }
    }
}

/// The page that the settings window shows.
pub enum GuiScreen {
    /// The connection page.
    Default,
    /// The settings page, with the settings being edited.
    Settings(GuiConfig),
}

/// What the settings window must do after a message, beyond the page state.
#[derive(Debug)]
pub enum ScreenAction {
    /// Nothing.
    Nothing,
    /// Load the settings and show them on a settings page.
    OpenSettings,
    /// Store these edited settings; the connection page is shown again.
    SaveSettings(GuiConfig),
    /// The connection page is shown again (and connects anew).
    OpenDefault,
}

/// What a page holds: which page, and the host and port being edited.
pub enum ScreenView {
    Default,
    Settings(Seq<char>, u16),
}

impl View for GuiScreen {
    type V = ScreenView;

    open spec fn view(&self) -> ScreenView {
        match self {
            GuiScreen::Default => ScreenView::Default,
            GuiScreen::Settings(c) => ScreenView::Settings(c.host@, c.port),
        }
    }
}

impl GuiScreen {
    /// Takes a message of the window into account: the connection page only
    /// opens the settings; the settings page saves or discards its settings
    /// (showing the connection page again) and takes edits of the host and
    /// of the port, where the port field holds a port.
    pub fn update(&mut self, message: Message) -> (r: ScreenAction)
        ensures
            match (old(self)@, message) {
                (ScreenView::Default, Message::OpenSettings) => r == ScreenAction::OpenSettings
                    && final(self)@ == old(self)@,
                (ScreenView::Default, _) => r == ScreenAction::Nothing && final(self)@ == old(self)@,
                (ScreenView::Settings(host, port), Message::SaveSettings) => (r matches ScreenAction::SaveSettings(c)
                    && c.host@ == host && c.port == port) && final(self)@ == ScreenView::Default,
                (ScreenView::Settings(_, _), Message::DiscardSettings) => r
                    == ScreenAction::OpenDefault && final(self)@ == ScreenView::Default,
                (ScreenView::Settings(host, port), Message::ChangePortNumber(field)) => r
                    == ScreenAction::Nothing && final(self)@ == ScreenView::Settings(
                    host,
                    match port_of_field(field@) {
                        Some(p) => p,
                        None => port,
                    },
                ),
                (ScreenView::Settings(_, port), Message::ChangeHostAddress(h)) => r
                    == ScreenAction::Nothing && final(self)@ == ScreenView::Settings(h@, port),
                (ScreenView::Settings(_, _), _) => r == ScreenAction::Nothing && final(self)@ == old(
                    self,
                )@,
            },
    {
        if let Message::SaveSettings = message {
            if let GuiScreen::Settings(_) = self {
                let mut page = GuiScreen::Default;
                std::mem::swap(&mut page, self);
                return match page {
                    GuiScreen::Settings(config) => ScreenAction::SaveSettings(config),
                    GuiScreen::Default => ScreenAction::Nothing,
                };
            }
        }
        match self {
            GuiScreen::Default => match message {
                Message::OpenSettings => ScreenAction::OpenSettings,
                _ => ScreenAction::Nothing,
            },
            GuiScreen::Settings(config) => match message {
                Message::DiscardSettings => {
                    *self = GuiScreen::Default;
                    ScreenAction::OpenDefault
                },
                Message::ChangePortNumber(field) => {
                    match parse_port_field(field.as_str()) {
                        Some(port) => config.port = port,
                        None => {},
                    }
                    ScreenAction::Nothing
                },
                Message::ChangeHostAddress(host) => {
                    config.host = host;
                    ScreenAction::Nothing
                },
                _ => ScreenAction::Nothing,
            },
        }
    }
}

} // verus!

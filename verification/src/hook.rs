use vstd::prelude::*;

use crate::events::{HookAction, Input, InputEvent, KeyEvent, KeyState};
use crate::keyset::{sorted_by_code, VirtualKeySet};
use crate::virtual_key::VirtualKey;

verus! {

/// What the hook reports to the rest of the client.
#[derive(Debug, Clone, Copy, PartialEq, Eq, Structural)]
pub enum HookEvent {
    /// The input is now captured (`true`) or released to the local machine (`false`).
    Captured(bool),
    /// An input event that goes to the remote machine; mouse movements are relative.
    Input(InputEvent),
}

/// Whether the key of `event` is on the blacklist.
pub open spec fn spec_is_blacklisted(blacklist: Set<VirtualKey>, event: Option<KeyEvent>) -> bool {
    event matches Some(e) && blacklist.contains(e.key)
}

/// Returns whether `event` is a key event whose key is on the blacklist.
pub fn is_blacklisted(blacklist: VirtualKeySet, event: Option<KeyEvent>) -> (r: bool)
    ensures
        r == spec_is_blacklisted(blacklist@, event),
{
    match event {
        Some(event) => blacklist.contains(event.key),
        None => false,
    }
}

/// The pressed keys after `event`, and whether the event should be handled:
/// a press of a key that is not down, a release of a key that is down, or an
/// event that is no key event. Repeated presses and stray releases are not.
pub open spec fn repeated_step(pressed: Set<VirtualKey>, event: Option<KeyEvent>) -> (Set<VirtualKey>, bool) {
    match event {
        Some(e) => if !pressed.contains(e.key) && e.state == KeyState::Pressed {
            (pressed.insert(e.key), true)
        } else if pressed.contains(e.key) && e.state == KeyState::Released {
            (pressed.remove(e.key), true)
        } else {
            (pressed, false)
        },
        None => (pressed, true),
    }
}

/// Tracks the pressed keys and returns whether `event` should be handled; see `repeated_step`.
pub fn is_repeated_event(pressed_keys: &mut VirtualKeySet, event: Option<KeyEvent>) -> (r: bool)
    ensures
        (final(pressed_keys)@, r) == repeated_step(old(pressed_keys)@, event),
{
    match event {
        Some(event) => {
            let down = pressed_keys.contains(event.key);
            match (down, event.state) {
                (false, KeyState::Pressed) => {
                    pressed_keys.insert(event.key);
                    true
                },
                (true, KeyState::Released) => {
                    pressed_keys.remove(event.key);
                    true
                },
                _ => false,
            }
        },
        None => true,
    }
}

/// The input that releases `key` on the local machine.
pub open spec fn release_input<'a>(key: VirtualKey) -> Input<'a> {
    if key.spec_is_mouse_button() {
        Input::MouseButtonInput(key, KeyState::Released)
    } else {
        Input::KeyboardKeyInput(key, KeyState::Released)
    }
}

/// The inputs that release the keys of `keys` other than `trigger`, in ascending order of code.
pub open spec fn release_inputs<'a>(keys: Set<VirtualKey>, trigger: VirtualKey) -> Seq<Input<'a>> {
    sorted_by_code(keys).filter(other_than(trigger)).map_values(release_fn())
}

/// Whether a key is not `trigger`.
pub open spec fn other_than(trigger: VirtualKey) -> spec_fn(VirtualKey) -> bool {
    |k: VirtualKey| k != trigger
}

/// `release_input` as a function value.
pub open spec fn release_fn<'a>() -> spec_fn(VirtualKey) -> Input<'a> {
    |k: VirtualKey| release_input(k)
}

/// Returns the inputs that release every key of `keys` except `trigger`.
pub fn try_release_all<'a>(keys: VirtualKeySet, trigger: VirtualKey) -> (r: Vec<Input<'a>>)
    ensures
        r@ == release_inputs(keys@, trigger),
{
    let list = keys.iter();
    let mut r: Vec<Input<'a>> = Vec::new();
    let mut i: usize = 0;
    while i < list.len()
        invariant
            i <= list.len(),
            r@ == list@.take(i as int).filter(other_than(trigger)).map_values(release_fn()),
        decreases list.len() - i,
    {
        let k = list[i];
        proof {
            assert(list@.take(i + 1) == list@.take(i as int).push(k));
            list@.take(i as int).lemma_filter_push(k, other_than(trigger));
        }
        if k != trigger {
            let input = if k.is_mouse_button() {
                Input::MouseButtonInput(k, KeyState::Released)
            } else {
                Input::KeyboardKeyInput(k, KeyState::Released)
            };
            r.push(input);
            proof {
                let f = list@.take(i as int).filter(other_than(trigger));
                assert(f.push(k).map_values(release_fn()) =~= f.map_values(release_fn()).push(
                    release_input(k),
                ));
            }
        }
        i += 1;
    }
    assert(list@.take(list.len() as int) == list@);
    r
}

/// What the hook callback knows between events.
pub struct HookModel {
    pub blacklist: Set<VirtualKey>,
    pub modifiers: Set<VirtualKey>,
    pub trigger: VirtualKey,
    pub captured: bool,
    pub pressed: Set<VirtualKey>,
    pub hotkey_pressed: bool,
    pub old_mouse_pos: (i32, i32),
}

/// What the hook callback does with one event.
pub struct HookOutcome<'a> {
    /// Whether the event goes on to the local machine.
    pub action: HookAction,
    /// What is reported to the rest of the client, if anything.
    pub event: Option<HookEvent>,
    /// The inputs to simulate locally before the input is captured.
    pub release: Vec<Input<'a>>,
    /// Whether the capture state changed; the swap timer restarts then.
    pub swapped: bool,
}

/// A press of a key that is up is handled and marks it down; its release is
/// then handled and marks it up again, so the pressed keys are as before.
pub proof fn lemma_press_then_release_handled(pressed: Set<VirtualKey>, key: VirtualKey)
    requires
        !pressed.contains(key),
    ensures
        ({
            let (p1, h1) = repeated_step(pressed, Some(KeyEvent { key, state: KeyState::Pressed }));
            let (p2, h2) = repeated_step(p1, Some(KeyEvent { key, state: KeyState::Released }));
            &&& h1 && p1.contains(key)
            &&& h2 && !p2.contains(key)
            &&& p2 == pressed
        }),
{
    let p1 = pressed.insert(key);
    assert(p1.remove(key) =~= pressed);
}

/// A release of a key that is not down is not handled and changes nothing.
pub proof fn lemma_stray_release_ignored(pressed: Set<VirtualKey>, key: VirtualKey)
    requires
        !pressed.contains(key),
    ensures
        repeated_step(pressed, Some(KeyEvent { key, state: KeyState::Released })) == (pressed, false),
{
}

/// The action for an event that is not the hotkey: block while captured.
pub open spec fn pass_action(captured: bool) -> HookAction {
    if captured {
        HookAction::Block
    } else {
        HookAction::Continue
    }
}

/// One event through the hook callback: the new state, the action, the
/// report, and whether the captured keys must be released locally.
/// `swap_allowed` says whether enough time has passed since the last swap.
pub open spec fn hook_step(m: HookModel, event: InputEvent, swap_allowed: bool) -> (HookModel, HookAction, Option<HookEvent>, bool) {
    let ke = event.spec_to_key_event();
    if spec_is_blacklisted(m.blacklist, ke) {
        (m, HookAction::Continue, None, false)
    } else {
        let (pressed, handle) = repeated_step(m.pressed, ke);
        let m1 = HookModel { pressed, ..m };
        if !handle {
            (m1, pass_action(m.captured), None, false)
        } else if ke matches Some(e) && m.modifiers.subset_of(pressed) && e.key == m.trigger && e.state
            == KeyState::Pressed {
            let m2 = HookModel { hotkey_pressed: true, ..m1 };
            if swap_allowed {
                (HookModel { captured: !m.captured, ..m2 }, HookAction::Block, Some(HookEvent::Captured(!m.captured)), !m.captured)
            } else {
                (m2, HookAction::Block, None, false)
            }
        } else if ke matches Some(e) && m.hotkey_pressed && e.key == m.trigger && e.state == KeyState::Released {
            (HookModel { hotkey_pressed: false, ..m1 }, HookAction::Block, None, false)
        } else if m.captured {
            match event {
                InputEvent::MouseMoveEvent(x, y) => if (x, y) != m.old_mouse_pos {
                    (
                        m1,
                        HookAction::Block,
                        Some(HookEvent::Input(InputEvent::MouseMoveEvent((x - m.old_mouse_pos.0) as i32, (y - m.old_mouse_pos.1) as i32))),
                        false,
                    )
                } else {
                    (m1, HookAction::Block, None, false)
                },
                _ => (m1, HookAction::Block, Some(HookEvent::Input(event)), false),
            }
        } else {
            match event {
                InputEvent::MouseMoveEvent(x, y) => (HookModel { old_mouse_pos: (x, y), ..m1 }, HookAction::Continue, None, false),
                _ => (m1, HookAction::Continue, None, false),
            }
        }
    }
}

/// The movement relative to the last position fits an `i32`.
pub open spec fn hook_step_defined(m: HookModel, event: InputEvent) -> bool {
    event matches InputEvent::MouseMoveEvent(x, y) ==> {
        &&& i32::MIN <= x - m.old_mouse_pos.0 <= i32::MAX
        &&& i32::MIN <= y - m.old_mouse_pos.1 <= i32::MAX
    }
}

/// The state of the client's input hook: it swaps between local and remote
/// input on the hotkey, tracks the pressed keys, and forwards input while
/// captured.
pub struct HookState {
    blacklist: VirtualKeySet,
    modifiers: VirtualKeySet,
    trigger: VirtualKey,
    captured: bool,
    pressed_keys: VirtualKeySet,
    hotkey_pressed: bool,
    old_mouse_pos: (i32, i32),
}

impl View for HookState {
    type V = HookModel;

    closed spec fn view(&self) -> HookModel {
        HookModel {
            blacklist: self.blacklist@,
            modifiers: self.modifiers@,
            trigger: self.trigger,
            captured: self.captured,
            pressed: self.pressed_keys@,
            hotkey_pressed: self.hotkey_pressed,
            old_mouse_pos: self.old_mouse_pos,
        }
    }
}

impl HookState {
    /// A hook that is not capturing, with nothing pressed, and the cursor at `cursor_pos`.
    pub fn new(blacklist: VirtualKeySet, modifiers: VirtualKeySet, trigger: VirtualKey, cursor_pos: (i32, i32)) -> (r: Self)
        ensures
            r@ == (HookModel {
                blacklist: blacklist@,
                modifiers: modifiers@,
                trigger,
                captured: false,
                pressed: Set::empty(),
                hotkey_pressed: false,
                old_mouse_pos: cursor_pos,
            }),
    {
        HookState {
            blacklist,
            modifiers,
            trigger,
            captured: false,
            pressed_keys: VirtualKeySet::new(),
            hotkey_pressed: false,
            old_mouse_pos: cursor_pos,
        }
    }

    /// Returns whether the input is captured.
    pub fn captured(&self) -> (r: bool)
        ensures
            r == self@.captured,
    {
        self.captured
    }

    /// The report that the hook gives when it is set up: whether the input
    /// is captured (a new hook's is not).
    pub fn initial_report(&self) -> (r: HookEvent)
        ensures
            r == HookEvent::Captured(self@.captured),
    {
        HookEvent::Captured(self.captured)
    }

    /// Handles one event; see `hook_step`. Where the input becomes captured,
    /// `release` holds the inputs that release the pressed keys locally.
    pub fn handle<'a>(&mut self, event: InputEvent, swap_allowed: bool) -> (r: HookOutcome<'a>)
        requires
            hook_step_defined(old(self)@, event),
        ensures
            ({
                let (m, action, ev, release) = hook_step(old(self)@, event, swap_allowed);
                &&& final(self)@ == m
                &&& r.action == action
                &&& r.event == ev
                &&& r.swapped == (final(self)@.captured != old(self)@.captured)
                &&& r.release@ == (if release {
                    release_inputs(m.pressed, m.trigger)
                } else {
                    Seq::empty()
                })
            }),
    {
        let key_event = event.to_key_event();
        if is_blacklisted(self.blacklist, key_event) {
            return HookOutcome { action: HookAction::Continue, event: None, release: Vec::new(), swapped: false };
        }
        let should_handle = is_repeated_event(&mut self.pressed_keys, key_event);
        if should_handle {
            if let Some(KeyEvent { key, state }) = key_event {
                if self.pressed_keys.is_superset(self.modifiers) && key == self.trigger && state == KeyState::Pressed {
                    self.hotkey_pressed = true;
                    if swap_allowed {
                        let release = if !self.captured {
                            try_release_all(self.pressed_keys, self.trigger)
                        } else {
                            Vec::new()
                        };
                        self.captured = !self.captured;
                        return HookOutcome {
                            action: HookAction::Block,
                            event: Some(HookEvent::Captured(self.captured)),
                            release,
                            swapped: true,
                        };
                    }
                    return HookOutcome { action: HookAction::Block, event: None, release: Vec::new(), swapped: false };
                }
                if self.hotkey_pressed && key == self.trigger && state == KeyState::Released {
                    self.hotkey_pressed = false;
                    return HookOutcome { action: HookAction::Block, event: None, release: Vec::new(), swapped: false };
                }
            }
            if self.captured {
                if let InputEvent::MouseMoveEvent(x, y) = event {
                    let (ox, oy) = self.old_mouse_pos;
                    if x != ox || y != oy {
                        return HookOutcome {
                            action: HookAction::Block,
                            event: Some(HookEvent::Input(InputEvent::MouseMoveEvent(x - ox, y - oy))),
                            release: Vec::new(),
                            swapped: false,
                        };
                    }
                    return HookOutcome { action: HookAction::Block, event: None, release: Vec::new(), swapped: false };
                } else {
                    return HookOutcome {
                        action: HookAction::Block,
                        event: Some(HookEvent::Input(event)),
                        release: Vec::new(),
                        swapped: false,
                    };
                }
            } else if let InputEvent::MouseMoveEvent(x, y) = event {
                self.old_mouse_pos = (x, y);
            }
        }
        let action = if self.captured {
            HookAction::Block
        } else {
            HookAction::Continue
        };
        HookOutcome { action, event: None, release: Vec::new(), swapped: false }
    }
}

/// The hook of the key picker: the first key pressed is taken; its presses
/// are kept from the local machine, and its release picks it, once.
pub struct KeyPicker {
    pub found: Option<VirtualKey>,
    pub picked: bool,
}

impl KeyPicker {
    /// A picker that has seen no key.
    pub fn new() -> (r: Self)
        ensures
            r.found is None,
            !r.picked,
    {
        KeyPicker { found: None, picked: false }
    }

    /// Handles one event: returns the hook's action and the key, when this
    /// event picks it.
    pub fn handle(&mut self, event: InputEvent) -> (r: (HookAction, Option<VirtualKey>))
        ensures
            match event.spec_to_key_event() {
                Some(e) => if e.state == KeyState::Pressed && (old(self).found is None || old(
                    self,
                ).found == Some(e.key)) {
                    &&& r == (HookAction::Block, None::<VirtualKey>)
                    &&& final(self).found == Some(e.key)
                    &&& final(self).picked == old(self).picked
                } else if e.state == KeyState::Released && old(self).found == Some(e.key) {
                    &&& r == (HookAction::Block, if old(self).picked {
                        None
                    } else {
                        Some(e.key)
                    })
                    &&& final(self).found == old(self).found
                    &&& final(self).picked
                } else {
                    r == (HookAction::Continue, None::<VirtualKey>) && *final(self) == *old(self)
                },
                None => r == (HookAction::Continue, None::<VirtualKey>) && *final(self) == *old(self),
            },
    {
        match event.to_key_event() {
            Some(KeyEvent { key, state: KeyState::Pressed }) => {
                let take = match self.found {
                    None => true,
                    Some(f) => f == key,
                };
                if take {
                    self.found = Some(key);
                    (HookAction::Block, None)
                } else {
                    (HookAction::Continue, None)
                }
            },
            Some(KeyEvent { key, state: KeyState::Released }) => {
                let same = match self.found {
                    None => false,
                    Some(f) => f == key,
                };
                if same {
                    if self.picked {
                        (HookAction::Block, None)
                    } else {
                        self.picked = true;
                        (HookAction::Block, Some(key))
                    }
                } else {
                    (HookAction::Continue, None)
                }
            },
            None => (HookAction::Continue, None),
        }
    }
}

/// The capture state changes only on a press of the trigger key, with every
/// modifier of the hotkey held, when a swap is allowed and the key is not
/// blacklisted.
pub proof fn lemma_swap_only_on_hotkey(m: HookModel, event: InputEvent, swap_allowed: bool)
    ensures
        hook_step(m, event, swap_allowed).0.captured != m.captured ==> {
            &&& swap_allowed
            &&& !spec_is_blacklisted(m.blacklist, event.spec_to_key_event())
            &&& event.spec_to_key_event() matches Some(e)
            &&& e.key == m.trigger
            &&& e.state == KeyState::Pressed
            &&& !m.pressed.contains(e.key)
            &&& m.modifiers.subset_of(m.pressed.insert(e.key))
        },
{
}

/// The remembered cursor position follows the local cursor: while the input
/// is not captured a mouse move to `(x, y)` remembers `(x, y)`; every other
/// event, and every event while captured, keeps the remembered position.
pub proof fn lemma_cursor_position_tracked(m: HookModel, event: InputEvent, swap_allowed: bool)
    ensures
        hook_step(m, event, swap_allowed).0.old_mouse_pos == (match event {
            InputEvent::MouseMoveEvent(x, y) => if m.captured {
                m.old_mouse_pos
            } else {
                (x, y)
            },
            _ => m.old_mouse_pos,
        }),
{
}

/// While captured, a mouse move to `(x, y)` away from the remembered position
/// is blocked and forwarded as the movement from that position, which stays
/// remembered; a move to the remembered position forwards nothing.
pub proof fn lemma_captured_move_relative(m: HookModel, x: i32, y: i32, swap_allowed: bool)
    requires
        m.captured,
        hook_step_defined(m, InputEvent::MouseMoveEvent(x, y)),
    ensures
        ({
            let (n, action, ev, release) = hook_step(m, InputEvent::MouseMoveEvent(x, y), swap_allowed);
            &&& action == HookAction::Block
            &&& n.old_mouse_pos == m.old_mouse_pos
            &&& n.captured
            &&& !release
            &&& if (x, y) == m.old_mouse_pos {
                ev is None
            } else {
                ev matches Some(HookEvent::Input(InputEvent::MouseMoveEvent(dx, dy))) && dx == x
                    - m.old_mouse_pos.0 && dy == y - m.old_mouse_pos.1
            }
        }),
{
}

/// The state after handling `events` in order from `m`.
pub open spec fn hook_run(m: HookModel, events: Seq<InputEvent>, swap_allowed: bool) -> HookModel
    decreases events.len(),
{
    if events.len() == 0 {
        m
    } else {
        hook_step(hook_run(m, events.drop_last(), swap_allowed), events.last(), swap_allowed).0
    }
}

/// Events that are no mouse moves keep the remembered cursor position.
pub proof fn lemma_run_keeps_cursor(m: HookModel, events: Seq<InputEvent>, swap_allowed: bool)
    requires
        forall|i: int| 0 <= i < events.len() ==> !(events[i] is MouseMoveEvent),
    ensures
        hook_run(m, events, swap_allowed).old_mouse_pos == m.old_mouse_pos,
    decreases events.len(),
{
    if events.len() > 0 {
        lemma_run_keeps_cursor(m, events.drop_last(), swap_allowed);
        lemma_cursor_position_tracked(hook_run(m, events.drop_last(), swap_allowed), events.last(), swap_allowed);
    }
}

/// A local move to `(x, y)`, then key events that capture the input (the
/// hotkey), then a captured move to `(x2, y2)`: the forwarded movement is
/// `(x2 - x, y2 - y)`, measured from where the local cursor was last seen.
pub proof fn lemma_first_captured_move(
    m: HookModel,
    x: i32,
    y: i32,
    events: Seq<InputEvent>,
    x2: i32,
    y2: i32,
    swap_allowed: bool,
)
    requires
        !m.captured,
        forall|i: int| 0 <= i < events.len() ==> !(events[i] is MouseMoveEvent),
        hook_run(hook_step(m, InputEvent::MouseMoveEvent(x, y), swap_allowed).0, events, swap_allowed).captured,
        (x2, y2) != (x, y),
        i32::MIN <= x2 - x <= i32::MAX,
        i32::MIN <= y2 - y <= i32::MAX,
    ensures
        ({
            let m1 = hook_step(m, InputEvent::MouseMoveEvent(x, y), swap_allowed).0;
            let m2 = hook_run(m1, events, swap_allowed);
            hook_step(m2, InputEvent::MouseMoveEvent(x2, y2), swap_allowed).2 matches Some(
                HookEvent::Input(InputEvent::MouseMoveEvent(dx, dy)),
            ) && dx == x2 - x && dy == y2 - y
        }),
{
    let m1 = hook_step(m, InputEvent::MouseMoveEvent(x, y), swap_allowed).0;
    lemma_cursor_position_tracked(m, InputEvent::MouseMoveEvent(x, y), swap_allowed);
    lemma_run_keeps_cursor(m1, events, swap_allowed);
    let m2 = hook_run(m1, events, swap_allowed);
    lemma_captured_move_relative(m2, x2, y2, swap_allowed);
}

/// While the input is captured, every event that is not blacklisted is kept
/// from the local machine.
pub proof fn lemma_captured_blocks(m: HookModel, event: InputEvent, swap_allowed: bool)
    requires
        m.captured,
        !spec_is_blacklisted(m.blacklist, event.spec_to_key_event()),
    ensures
        hook_step(m, event, swap_allowed).1 == HookAction::Block,
{
}

/// While the input is not captured, no input event is forwarded; at most the
/// capture itself is reported.
pub proof fn lemma_released_forwards_nothing(m: HookModel, event: InputEvent, swap_allowed: bool)
    requires
        !m.captured,
    ensures
        hook_step(m, event, swap_allowed).2 matches Some(ev) ==> ev == HookEvent::Captured(true),
{
}

/// A press of a key that is already down (a key repeat) is neither
/// forwarded nor able to swap the capture state.
pub proof fn lemma_repeat_ignored(m: HookModel, key: VirtualKey, event: InputEvent, swap_allowed: bool)
    requires
        event.spec_to_key_event() == Some(KeyEvent { key, state: KeyState::Pressed }),
        m.pressed.contains(key),
    ensures
        hook_step(m, event, swap_allowed).2 is None,
        hook_step(m, event, swap_allowed).0.captured == m.captured,
        hook_step(m, event, swap_allowed).0.pressed == m.pressed,
{
}

/// A blacklisted key is ignored: it passes on to the local machine, nothing
/// is reported, and the state stays as it was.
pub proof fn lemma_blacklist_ignored(m: HookModel, event: InputEvent, swap_allowed: bool)
    requires
        spec_is_blacklisted(m.blacklist, event.spec_to_key_event()),
    ensures
        hook_step(m, event, swap_allowed) == (m, HookAction::Continue, None::<HookEvent>, false),
{
}

} // verus!

use vstd::prelude::*;

use crate::common::{ConsumerDeviceCode, HidButtonCode, HidKeyCode};
use crate::hid::{ConsumerDeviceButtons, HidModifierKeys, HidMouseButtons};
use crate::protocol::InputEvent;

verus! {

/// The keyboard report: the modifier byte, a reserved byte, then the codes of
/// the first six pressed keys, padded with zeros.
pub open spec fn keyboard_report(modifiers: u8, keys: Seq<HidKeyCode>) -> Seq<u8> {
    Seq::new(
        8,
        |i: int|
            if i == 0 {
                modifiers
            } else if 2 <= i < 8 && i - 2 < keys.len() {
                keys[i - 2].spec_to_u8()
            } else {
                0u8
            },
    )
}

/// How pressing `key` changes the modifier byte and the pressed keys: a
/// modifier sets its flag, any other key is appended.
pub open spec fn press_step(mods: u8, keys: Seq<HidKeyCode>, key: HidKeyCode) -> (u8, Seq<HidKeyCode>) {
    match HidModifierKeys::spec_try_from_key_code(key) {
        Some(m) => (mods | m.bits, keys),
        None => (mods, keys.push(key)),
    }
}

/// How releasing `key` changes the modifier byte and the pressed keys: a
/// modifier clears its flag, any other key leaves the pressed keys wherever
/// it occurs.
pub open spec fn release_step(mods: u8, keys: Seq<HidKeyCode>, key: HidKeyCode) -> (u8, Seq<HidKeyCode>) {
    match HidModifierKeys::spec_try_from_key_code(key) {
        Some(m) => (mods & !m.bits, keys),
        None => (mods, keys.filter(other_key(key))),
    }
}

/// The test that keeps every key but `key`.
pub open spec fn other_key(key: HidKeyCode) -> spec_fn(HidKeyCode) -> bool {
    |k: HidKeyCode| k != key
}

/// Whether `key` is held: its modifier flag is set, or it is among the keys.
pub open spec fn key_held(mods: u8, keys: Seq<HidKeyCode>, key: HidKeyCode) -> bool {
    match HidModifierKeys::spec_try_from_key_code(key) {
        Some(m) => mods & m.bits != 0,
        None => keys.contains(key),
    }
}

/// Releasing a key undoes pressing it, where it was not held before.
pub proof fn lemma_release_undoes_press(mods: u8, keys: Seq<HidKeyCode>, key: HidKeyCode)
    requires
        !key_held(mods, keys, key),
    ensures
        ({
            let (m1, k1) = press_step(mods, keys, key);
            release_step(m1, k1, key)
        }) == (mods, keys),
{
    match HidModifierKeys::spec_try_from_key_code(key) {
        Some(m) => {
            let b = m.bits;
            assert((mods & b) == 0 ==> ((mods | b) & !b) == mods) by (bit_vector);
        },
        None => {
            keys.lemma_filter_push(key, other_key(key));
            lemma_filter_keeps_all(keys, key);
            assert(keys.push(key).filter(other_key(key)) =~= keys);
        },
    }
}

/// After a press the key is held, and after a release it is not.
pub proof fn lemma_press_holds_release_frees(mods: u8, keys: Seq<HidKeyCode>, key: HidKeyCode)
    ensures
        ({
            let (m1, k1) = press_step(mods, keys, key);
            key_held(m1, k1, key)
        }),
        ({
            let (m2, k2) = release_step(mods, keys, key);
            !key_held(m2, k2, key)
        }),
{
    match HidModifierKeys::spec_try_from_key_code(key) {
        Some(m) => {
            let b = m.bits;
            assert(b != 0);
            assert(b != 0 ==> (mods | b) & b != 0 && (mods & !b) & b == 0) by (bit_vector);
        },
        None => {
            assert(keys.push(key)[keys.len() as int] == key);
            let f = keys.filter(other_key(key));
            if f.contains(key) {
                let i = choose|i: int| 0 <= i < f.len() && f[i] == key;
                keys.lemma_filter_pred(other_key(key), i);
            }
        },
    }
}

/// Filtering out a key that does not occur keeps every key.
proof fn lemma_filter_keeps_all(keys: Seq<HidKeyCode>, key: HidKeyCode)
    requires
        !keys.contains(key),
    ensures
        keys.filter(other_key(key)) == keys,
    decreases keys.len(),
{
    let pred = other_key(key);
    if keys.len() > 0 {
        let init = keys.drop_last();
        assert(!init.contains(key)) by {
            if init.contains(key) {
                let i = choose|i: int| 0 <= i < init.len() && init[i] == key;
                assert(keys[i] == key);
            }
        }
        lemma_filter_keeps_all(init, key);
        assert(keys == init.push(keys.last()));
        init.lemma_filter_push(keys.last(), pred);
        assert(keys.last() != key) by {
            assert(keys[keys.len() - 1] == keys.last());
        }
    } else {
        assert(keys.filter(pred) =~= keys);
    }
}

/// The state of the emulated keyboard.
pub struct KeyboardState {
    pub pressed_keys: Vec<HidKeyCode>,
    pub pressed_modifiers: HidModifierKeys,
}

impl KeyboardState {
    /// A keyboard with nothing pressed.
    pub fn new() -> (r: Self)
        ensures
            r.pressed_keys@ == Seq::<HidKeyCode>::empty(),
            r.pressed_modifiers.bits == 0,
    {
        KeyboardState { pressed_keys: Vec::new(), pressed_modifiers: HidModifierKeys::empty() }
    }

    /// Releases everything.
    pub fn reset(&mut self)
        ensures
            final(self).pressed_keys@ == Seq::<HidKeyCode>::empty(),
            final(self).pressed_modifiers.bits == 0,
    {
        self.pressed_keys.clear();
        self.pressed_modifiers = HidModifierKeys::empty();
    }

    /// Presses `key`: a modifier sets its flag, any other key is appended to the pressed keys.
    pub fn press_key(&mut self, key: HidKeyCode)
        ensures
            (final(self).pressed_modifiers.bits, final(self).pressed_keys@) == press_step(
                old(self).pressed_modifiers.bits,
                old(self).pressed_keys@,
                key,
            ),
    {
        match HidModifierKeys::try_from_key_code(key) {
            Some(modifier) => self.pressed_modifiers.insert(modifier),
            None => self.pressed_keys.push(key),
        }
    }

    /// Releases `key`: a modifier clears its flag, any other key leaves the
    /// pressed keys wherever it occurs.
    pub fn release_key(&mut self, key: HidKeyCode)
        ensures
            (final(self).pressed_modifiers.bits, final(self).pressed_keys@) == release_step(
                old(self).pressed_modifiers.bits,
                old(self).pressed_keys@,
                key,
            ),
    {
        match HidModifierKeys::try_from_key_code(key) {
            Some(modifier) => self.pressed_modifiers.remove(modifier),
            None => {
                let ghost old_keys = self.pressed_keys@;
                let mut kept: Vec<HidKeyCode> = Vec::new();
                let mut i: usize = 0;
                while i < self.pressed_keys.len()
                    invariant
                        i <= self.pressed_keys.len(),
                        self.pressed_keys@ == old_keys,
                        kept@ == old_keys.take(i as int).filter(other_key(key)),
                    decreases self.pressed_keys.len() - i,
                {
                    let k = self.pressed_keys[i];
                    proof {
                        assert(old_keys.take(i + 1) == old_keys.take(i as int).push(k));
                        old_keys.take(i as int).lemma_filter_push(k, other_key(key));
                    }
                    if k != key {
                        kept.push(k);
                    }
                    i += 1;
                }
                assert(old_keys.take(old_keys.len() as int) == old_keys);
                self.pressed_keys = kept;
            },
        }
    }

    /// The report that describes the keyboard.
    pub fn report(&self) -> (r: [u8; 8])
        ensures
            r@ == keyboard_report(self.pressed_modifiers.bits, self.pressed_keys@),
    {
        let mut report = [0u8; 8];
        report[0] = self.pressed_modifiers.bits();
        let mut i: usize = 0;
        while i < self.pressed_keys.len() && i < 6
            invariant
                i <= 6,
                i <= self.pressed_keys.len(),
                report[0] == self.pressed_modifiers.bits,
                report[1] == 0u8,
                forall|j: int| 2 <= j < 8 ==> report[j] == (if j - 2 < i {
                    self.pressed_keys@[j - 2].spec_to_u8()
                } else {
                    0u8
                }),
            decreases 6 - i,
        {
            report[2 + i] = self.pressed_keys[i].to_u8();
            i += 1;
        }
        assert(report@ =~= keyboard_report(self.pressed_modifiers.bits, self.pressed_keys@));
        report
    }
}

/// The two bytes of a consumer control report, least significant first.
pub open spec fn consumer_report(bits: u16) -> Seq<u8> {
    seq![(bits & 0xff) as u8, (bits >> 8u16) as u8]
}

/// The state of the emulated consumer control device.
pub struct ConsumerState {
    pub pressed_keys: ConsumerDeviceButtons,
}

impl ConsumerState {
    /// A device with nothing pressed.
    pub fn new() -> (r: Self)
        ensures
            r.pressed_keys.bits == 0,
    {
        ConsumerState { pressed_keys: ConsumerDeviceButtons::empty() }
    }

    /// Releases everything.
    pub fn reset(&mut self)
        ensures
            final(self).pressed_keys.bits == 0,
    {
        self.pressed_keys = ConsumerDeviceButtons::empty();
    }

    /// Presses a key of the device; returns whether the key has a flag, that
    /// is, whether a report is due. A key without a flag changes nothing.
    pub fn press_key(&mut self, key: ConsumerDeviceCode) -> (r: bool)
        ensures
            r == ConsumerDeviceButtons::spec_try_from_device_code(key) is Some,
            match ConsumerDeviceButtons::spec_try_from_device_code(key) {
                Some(b) => final(self).pressed_keys.bits == old(self).pressed_keys.bits | b.bits,
                None => final(self).pressed_keys == old(self).pressed_keys,
            },
    {
        match ConsumerDeviceButtons::try_from_device_code(key) {
            Some(button) => {
                self.pressed_keys.insert(button);
                true
            },
            None => false,
        }
    }

    /// Releases a key of the device; returns whether the key has a flag.
    pub fn release_key(&mut self, key: ConsumerDeviceCode) -> (r: bool)
        ensures
            r == ConsumerDeviceButtons::spec_try_from_device_code(key) is Some,
            match ConsumerDeviceButtons::spec_try_from_device_code(key) {
                Some(b) => final(self).pressed_keys.bits == old(self).pressed_keys.bits & !b.bits,
                None => final(self).pressed_keys == old(self).pressed_keys,
            },
    {
        match ConsumerDeviceButtons::try_from_device_code(key) {
            Some(button) => {
                self.pressed_keys.remove(button);
                true
            },
            None => false,
        }
    }

    /// The report that describes the device.
    pub fn report(&self) -> (r: [u8; 2])
        ensures
            r@ == consumer_report(self.pressed_keys.bits),
    {
        let bits = self.pressed_keys.bits();
        let r = [(bits & 0xff) as u8, (bits >> 8u16) as u8];
        assert(r@ =~= consumer_report(bits));
        r
    }
}

/// The mouse report: the button byte, the movement as two little-endian
/// 16-bit numbers, then the vertical and the horizontal wheel movement.
pub open spec fn mouse_report(buttons: u8, dx: i16, dy: i16, dv: i8, dh: i8) -> Seq<u8> {
    seq![
        buttons,
        ((dx as u16) & 0xff) as u8,
        ((dx as u16) >> 8u16) as u8,
        ((dy as u16) & 0xff) as u8,
        ((dy as u16) >> 8u16) as u8,
        dv as u8,
        dh as u8,
    ]
}

/// The magnitude of `a`.
pub open spec fn abs_spec(a: int) -> int {
    if a < 0 {
        -a
    } else {
        a
    }
}

/// Whichever of `a` and `b` has the larger magnitude; `a` on a tie.
pub open spec fn abs_max_spec(a: int, b: int) -> int {
    if abs_spec(a) >= abs_spec(b) {
        a
    } else {
        b
    }
}

/// Whichever of `a` and `b` has the smaller magnitude; `a` on a tie.
pub open spec fn abs_min_spec(a: int, b: int) -> int {
    if abs_spec(a) <= abs_spec(b) {
        a
    } else {
        b
    }
}


/// `a / b` rounded toward zero, for `b > 0`.
pub open spec fn trunc_div(a: int, b: int) -> int {
    if a >= 0 {
        a / b
    } else {
        -((-a) / b)
    }
}

/// The step by which a movement of `d` is split for tessellation factor `t`:
/// `|d| / t` rounded up, in the direction of `d`, so that `t` steps cover it.
pub open spec fn step_size(d: int, t: int) -> int {
    if d >= 0 {
        (d + t - 1) / t
    } else {
        -((-d + t - 1) / t)
    }
}

/// The sum of the horizontal parts of `steps`.
pub open spec fn sum_x(steps: Seq<(i16, i16)>) -> int
    decreases steps.len(),
{
    if steps.len() == 0 {
        0
    } else {
        sum_x(steps.drop_last()) + steps.last().0
    }
}

/// The sum of the vertical parts of `steps`.
pub open spec fn sum_y(steps: Seq<(i16, i16)>) -> int
    decreases steps.len(),
{
    if steps.len() == 0 {
        0
    } else {
        sum_y(steps.drop_last()) + steps.last().1
    }
}

/// `steps` splits the movement `(dx, dy)` into steps of at most `(sx, sy)`:
/// each step moves, on each axis, the lesser (in magnitude) of what is left
/// and the step size; the steps stop exactly when nothing is left.
pub open spec fn is_tessellation(dx: int, dy: int, sx: int, sy: int, steps: Seq<(i16, i16)>) -> bool {
    &&& sum_x(steps) == dx
    &&& sum_y(steps) == dy
    &&& steps_follow(dx, dy, sx, sy, steps)
}

/// Each of `steps` moves, on each axis, the lesser (in magnitude) of what is
/// left of `(dx, dy)` and the step size, and is taken while something is left.
pub open spec fn steps_follow(dx: int, dy: int, sx: int, sy: int, steps: Seq<(i16, i16)>) -> bool {
    forall|i: int|
        0 <= i < steps.len() ==> {
            let rx = dx - sum_x(steps.take(i));
            let ry = dy - sum_y(steps.take(i));
            &&& !(rx == 0 && ry == 0)
            &&& (#[trigger] steps[i]).0 == abs_min_spec(rx, sx)
            &&& steps[i].1 == abs_min_spec(ry, sy)
        }
}

#[verifier::spinoff_prover]
#[verifier::rlimit(40)]
proof fn lemma_steps_follow_push(dx: int, dy: int, sx: int, sy: int, steps: Seq<(i16, i16)>, s: (i16, i16))
    requires
        steps_follow(dx, dy, sx, sy, steps),
        !(dx - sum_x(steps) == 0 && dy - sum_y(steps) == 0),
        s.0 == abs_min_spec(dx - sum_x(steps), sx),
        s.1 == abs_min_spec(dy - sum_y(steps), sy),
    ensures
        steps_follow(dx, dy, sx, sy, steps.push(s)),
{
    let n = steps.push(s);
    assert(n.take(steps.len() as int) == steps);
    assert forall|i: int| 0 <= i < steps.len() implies n.take(i) == steps.take(i) by {
        assert(n.take(i) =~= steps.take(i));
    }
    assert forall|i: int| 0 <= i < n.len() implies {
        let rx = dx - sum_x(n.take(i));
        let ry = dy - sum_y(n.take(i));
        &&& !(rx == 0 && ry == 0)
        &&& (#[trigger] n[i]).0 == abs_min_spec(rx, sx)
        &&& n[i].1 == abs_min_spec(ry, sy)
    } by {
        if i < steps.len() {
            assert(n[i] == steps[i]);
        }
    }
}

/// How many steps of at most `b` units cover `a` units: none for nothing,
/// otherwise `a / b` rounded up.
pub open spec fn steps_to_cover(a: int, b: int) -> int {
    if a <= 0 {
        0
    } else {
        (a + b - 1) / b
    }
}

/// `a`, or 0 where `a` is negative.
pub open spec fn at_least_zero(a: int) -> int {
    if a > 0 {
        a
    } else {
        0
    }
}

/// `d` and its step size `s` point the same way, and `s` moves where `d` does.
pub open spec fn step_points_along(d: int, s: int) -> bool {
    &&& d > 0 ==> s >= 1
    &&& d < 0 ==> s <= -1
    &&& d == 0 ==> s == 0
}

proof fn lemma_step_size_points_along(d: int, t: int)
    requires
        t >= 1,
    ensures
        step_points_along(d, step_size(d, t)),
        abs_spec(step_size(d, t)) <= abs_spec(d),
{
    lemma_ceil_div_bounds(abs_spec(d), t);
}

/// `a / t` rounded up lies between 1 and `a` for `a >= 1`, is 0 for `a == 0`,
/// and `t` times it covers `a`.
proof fn lemma_ceil_div_bounds(a: int, t: int)
    requires
        a >= 0,
        t >= 1,
    ensures
        a == 0 ==> (a + t - 1) / t == 0,
        a >= 1 ==> 1 <= (a + t - 1) / t <= a,
        t * ((a + t - 1) / t) >= a,
{
    let q = (a + t - 1) / t;
    let r = (a + t - 1) % t;
    vstd::arithmetic::div_mod::lemma_fundamental_div_mod(a + t - 1, t);
    assert(0 <= r < t);
    assert(t * q == a + t - 1 - r);
    if a == 0 {
        assert(q == 0) by (nonlinear_arith)
            requires
                t * q == t - 1 - r,
                0 <= r < t,
                t >= 1,
        ;
    } else {
        assert(1 <= q <= a) by (nonlinear_arith)
            requires
                t * q == a + t - 1 - r,
                0 <= r < t,
                t >= 1,
                a >= 1,
        ;
    }
}

proof fn lemma_cover_threshold(a: int, b: int, i: int)
    requires
        a > 0,
        b > 0,
        i >= 0,
    ensures
        (i * b >= a) <==> (i >= (a + b - 1) / b),
{
    let q = (a + b - 1) / b;
    let r = (a + b - 1) % b;
    vstd::arithmetic::div_mod::lemma_fundamental_div_mod(a + b - 1, b);
    assert(0 <= r < b);
    if i >= q {
        assert(i * b >= q * b) by (nonlinear_arith)
            requires
                i >= q,
                b > 0,
        ;
        assert(b * q == q * b) by (nonlinear_arith);
    } else {
        assert(i * b <= (q - 1) * b) by (nonlinear_arith)
            requires
                i <= q - 1,
                b > 0,
        ;
        assert((q - 1) * b == q * b - b) by (nonlinear_arith);
        assert(b * q == q * b) by (nonlinear_arith);
    }
}

/// After `i` of the steps, what is left on the horizontal axis has shrunk by
/// a whole step each time, down to nothing, and points the way `dx` does.
proof fn lemma_remaining_x(dx: int, dy: int, sx: int, sy: int, steps: Seq<(i16, i16)>, i: int)
    requires
        steps_follow(dx, dy, sx, sy, steps),
        step_points_along(dx, sx),
        0 <= i <= steps.len(),
    ensures
        abs_spec(dx - sum_x(steps.take(i))) == at_least_zero(abs_spec(dx) - i * abs_spec(sx)),
        dx >= 0 ==> dx - sum_x(steps.take(i)) >= 0,
        dx <= 0 ==> dx - sum_x(steps.take(i)) <= 0,
    decreases i,
{
    if i == 0 {
        assert(steps.take(0) =~= Seq::<(i16, i16)>::empty());
    } else {
        lemma_remaining_x(dx, dy, sx, sy, steps, i - 1);
        let p = steps.take(i - 1);
        let q = steps.take(i);
        assert(q.drop_last() =~= p);
        assert(q.last() == steps[i - 1]);
        let r = dx - sum_x(p);
        assert(steps[i - 1].0 == abs_min_spec(r, sx));
        let b = abs_spec(sx);
        assert((i - 1) * b + b == i * b) by (nonlinear_arith);
    }
}

/// The vertical counterpart of `lemma_remaining_x`.
proof fn lemma_remaining_y(dx: int, dy: int, sx: int, sy: int, steps: Seq<(i16, i16)>, i: int)
    requires
        steps_follow(dx, dy, sx, sy, steps),
        step_points_along(dy, sy),
        0 <= i <= steps.len(),
    ensures
        abs_spec(dy - sum_y(steps.take(i))) == at_least_zero(abs_spec(dy) - i * abs_spec(sy)),
        dy >= 0 ==> dy - sum_y(steps.take(i)) >= 0,
        dy <= 0 ==> dy - sum_y(steps.take(i)) <= 0,
    decreases i,
{
    if i == 0 {
        assert(steps.take(0) =~= Seq::<(i16, i16)>::empty());
    } else {
        lemma_remaining_y(dx, dy, sx, sy, steps, i - 1);
        let p = steps.take(i - 1);
        let q = steps.take(i);
        assert(q.drop_last() =~= p);
        assert(q.last() == steps[i - 1]);
        let r = dy - sum_y(p);
        assert(steps[i - 1].1 == abs_min_spec(r, sy));
        let b = abs_spec(sy);
        assert((i - 1) * b + b == i * b) by (nonlinear_arith);
    }
}

/// After `i` steps nothing is left on an axis exactly when `i` steps cover it.
proof fn lemma_axis_done(d: int, s: int, i: int)
    requires
        step_points_along(d, s),
        i >= 0,
    ensures
        (at_least_zero(abs_spec(d) - i * abs_spec(s)) == 0) <==> (i >= steps_to_cover(
            abs_spec(d),
            abs_spec(s),
        )),
{
    if d != 0 {
        lemma_cover_threshold(abs_spec(d), abs_spec(s), i);
    }
}

/// A movement of `(dx, dy)` split for tessellation factor `t` takes as many
/// steps as the axis that needs more: `|d| / |s|` rounded up, where `s` is the
/// axis's step size.
#[verifier::spinoff_prover]
#[verifier::rlimit(60)]
pub proof fn lemma_step_count(dx: int, dy: int, t: int, steps: Seq<(i16, i16)>)
    requires
        t >= 1,
        is_tessellation(dx, dy, step_size(dx, t), step_size(dy, t), steps),
    ensures
        ({
            let nx = steps_to_cover(abs_spec(dx), abs_spec(step_size(dx, t)));
            let ny = steps_to_cover(abs_spec(dy), abs_spec(step_size(dy, t)));
            steps.len() == if nx >= ny {
                nx
            } else {
                ny
            }
        }),
{
    let sx = step_size(dx, t);
    let sy = step_size(dy, t);
    lemma_step_size_points_along(dx, t);
    lemma_step_size_points_along(dy, t);
    let nx = steps_to_cover(abs_spec(dx), abs_spec(sx));
    let ny = steps_to_cover(abs_spec(dy), abs_spec(sy));
    let n = steps.len() as int;
    assert(steps.take(n) =~= steps);
    lemma_remaining_x(dx, dy, sx, sy, steps, n);
    lemma_remaining_y(dx, dy, sx, sy, steps, n);
    lemma_axis_done(dx, sx, n);
    lemma_axis_done(dy, sy, n);
    let m = if nx >= ny {
        nx
    } else {
        ny
    };
    if m < n {
        assert(m >= 0);
        lemma_remaining_x(dx, dy, sx, sy, steps, m);
        lemma_remaining_y(dx, dy, sx, sy, steps, m);
        lemma_axis_done(dx, sx, m);
        lemma_axis_done(dy, sy, m);
        let step = steps[m];
        assert(!(dx - sum_x(steps.take(m)) == 0 && dy - sum_y(steps.take(m)) == 0));
    }
}

/// `t` steps of the step size for factor `t` cover a movement on one axis.
proof fn lemma_axis_within_t(d: int, t: int)
    requires
        t >= 1,
    ensures
        steps_to_cover(abs_spec(d), abs_spec(step_size(d, t))) <= t,
{
    let a = abs_spec(d);
    lemma_ceil_div_bounds(a, t);
    if a > 0 {
        let s = abs_spec(step_size(d, t));
        assert(s == (a + t - 1) / t);
        assert(t * s == s * t) by (nonlinear_arith);
        lemma_cover_threshold(a, s, t);
    }
}

/// Each mouse movement goes out in at most `t` reports for tessellation
/// factor `t`.
pub proof fn lemma_at_most_t_reports(dx: int, dy: int, t: int, steps: Seq<(i16, i16)>)
    requires
        t >= 1,
        is_tessellation(dx, dy, step_size(dx, t), step_size(dy, t), steps),
    ensures
        steps.len() <= t,
{
    lemma_axis_within_t(dx, t);
    lemma_axis_within_t(dy, t);
    lemma_step_count(dx, dy, t, steps);
}

/// Returns the step by which a movement of `d` is split for factor `t`; see
/// `step_size`.
fn step_toward(d: i16, t: i16) -> (r: i16)
    requires
        t >= 1,
        d != i16::MIN,
    ensures
        r == step_size(d as int, t as int),
{
    proof {
        lemma_step_size_points_along(d as int, t as int);
    }
    let d32 = d as i32;
    let t32 = t as i32;
    if d32 >= 0 {
        ((d32 + t32 - 1) / t32) as i16
    } else {
        let q = (-d32 + t32 - 1) / t32;
        (-q) as i16
    }
}

/// Returns whichever of `a` and `b` has the larger magnitude; `a` on a tie.
pub fn abs_max(a: i16, b: i16) -> (r: i16)
    requires
        a != i16::MIN,
        b != i16::MIN,
    ensures
        r == abs_max_spec(a as int, b as int),
{
    let aa = if a < 0 { -a } else { a };
    let ab = if b < 0 { -b } else { b };
    if aa >= ab {
        a
    } else {
        b
    }
}

/// Returns whichever of `a` and `b` has the smaller magnitude; `a` on a tie.
pub fn abs_min(a: i16, b: i16) -> (r: i16)
    requires
        a != i16::MIN,
        b != i16::MIN,
    ensures
        r == abs_min_spec(a as int, b as int),
{
    let aa = if a < 0 { -a } else { a };
    let ab = if b < 0 { -b } else { b };
    if aa <= ab {
        a
    } else {
        b
    }
}


proof fn lemma_sum_push(steps: Seq<(i16, i16)>, s: (i16, i16))
    ensures
        sum_x(steps.push(s)) == sum_x(steps) + s.0,
        sum_y(steps.push(s)) == sum_y(steps) + s.1,
{
    assert(steps.push(s).drop_last() == steps);
}

/// The state of the emulated mouse.
pub struct MouseState {
    pub pressed_buttons: HidMouseButtons,
    pub tess_factor: i16,
}

impl MouseState {
    /// A mouse with no button pressed that splits each movement into at most
    /// `tess_factor` steps.
    pub fn new(tess_factor: u8) -> (r: Self)
        requires
            tess_factor >= 1,
        ensures
            r.pressed_buttons.bits == 0,
            r.tess_factor == tess_factor,
    {
        MouseState { pressed_buttons: HidMouseButtons::empty(), tess_factor: tess_factor as i16 }
    }

    /// Releases every button.
    pub fn reset(&mut self)
        ensures
            final(self).pressed_buttons.bits == 0,
            final(self).tess_factor == old(self).tess_factor,
    {
        self.pressed_buttons = HidMouseButtons::empty();
    }

    /// Presses a button; returns whether the button has a flag, that is,
    /// whether a report is due. `NoButton` changes nothing.
    pub fn press_button(&mut self, button: HidButtonCode) -> (r: bool)
        ensures
            r == HidMouseButtons::spec_try_from_button_code(button) is Some,
            final(self).tess_factor == old(self).tess_factor,
            match HidMouseButtons::spec_try_from_button_code(button) {
                Some(b) => final(self).pressed_buttons.bits == old(self).pressed_buttons.bits | b.bits,
                None => final(self).pressed_buttons == old(self).pressed_buttons,
            },
    {
        match HidMouseButtons::try_from_button_code(button) {
            Some(b) => {
                self.pressed_buttons.insert(b);
                true
            },
            None => false,
        }
    }

    /// Releases a button; returns whether the button has a flag.
    pub fn release_button(&mut self, button: HidButtonCode) -> (r: bool)
        ensures
            r == HidMouseButtons::spec_try_from_button_code(button) is Some,
            final(self).tess_factor == old(self).tess_factor,
            match HidMouseButtons::spec_try_from_button_code(button) {
                Some(b) => final(self).pressed_buttons.bits == old(self).pressed_buttons.bits & !b.bits,
                None => final(self).pressed_buttons == old(self).pressed_buttons,
            },
    {
        match HidMouseButtons::try_from_button_code(button) {
            Some(b) => {
                self.pressed_buttons.remove(b);
                true
            },
            None => false,
        }
    }

    /// The report for the pressed buttons and the given movement.
    pub fn report(&self, dx: i16, dy: i16, dv: i8, dh: i8) -> (r: [u8; 7])
        ensures
            r@ == mouse_report(self.pressed_buttons.bits, dx, dy, dv, dh),
    {
        let x = dx as u16;
        let y = dy as u16;
        let r = [
            self.pressed_buttons.bits(),
            (x & 0xff) as u8,
            (x >> 8u16) as u8,
            (y & 0xff) as u8,
            (y >> 8u16) as u8,
            dv as u8,
            dh as u8,
        ];
        assert(r@ =~= mouse_report(self.pressed_buttons.bits, dx, dy, dv, dh));
        r
    }

    /// Splits the movement `(dx, dy)` into the steps that are reported one
    /// after the other, at most `tess_factor` of them; see `is_tessellation`.
    pub fn move_steps(&self, dx: i16, dy: i16) -> (r: Vec<(i16, i16)>)
        requires
            self.tess_factor >= 1,
            dx != i16::MIN,
            dy != i16::MIN,
        ensures
            is_tessellation(
                dx as int,
                dy as int,
                step_size(dx as int, self.tess_factor as int),
                step_size(dy as int, self.tess_factor as int),
                r@,
            ),
            r@.len() <= self.tess_factor,
    {
        let t = self.tess_factor;
        let sx = step_toward(dx, t);
        let sy = step_toward(dy, t);
        proof {
            lemma_step_size_points_along(dx as int, t as int);
            lemma_step_size_points_along(dy as int, t as int);
        }
        let mut steps: Vec<(i16, i16)> = Vec::new();
        let mut rx = dx;
        let mut ry = dy;
        while rx != 0 || ry != 0
            invariant
                rx == dx - sum_x(steps@),
                ry == dy - sum_y(steps@),
                dx >= 0 ==> 0 <= rx <= dx,
                dx < 0 ==> dx <= rx <= 0,
                dy >= 0 ==> 0 <= ry <= dy,
                dy < 0 ==> dy <= ry <= 0,
                dx > 0 ==> sx >= 1,
                dx < 0 ==> sx <= -1,
                dx == 0 ==> sx == 0,
                dy > 0 ==> sy >= 1,
                dy < 0 ==> sy <= -1,
                dy == 0 ==> sy == 0,
                sx != i16::MIN,
                sy != i16::MIN,
                dx != i16::MIN,
                dy != i16::MIN,
                steps_follow(dx as int, dy as int, sx as int, sy as int, steps@),
            decreases abs_spec(rx as int) + abs_spec(ry as int),
        {
            let tx = abs_min(rx, sx);
            let ty = abs_min(ry, sy);
            let ghost before = steps@;
            steps.push((tx, ty));
            proof {
                lemma_sum_push(before, (tx, ty));
                lemma_steps_follow_push(dx as int, dy as int, sx as int, sy as int, before, (tx, ty));
            }
            rx = rx - tx;
            ry = ry - ty;
        }
        proof {
            lemma_at_most_t_reports(dx as int, dy as int, t as int, steps@);
        }
        steps
    }
}

/// The HID gadget functions of the server.
#[derive(Debug, Clone, Copy, PartialEq, Eq, Structural)]
pub enum HidDevice {
    /// `/dev/hidg0`.
    Keyboard,
    /// `/dev/hidg1`.
    Mouse,
    /// `/dev/hidg2`.
    ConsumerDevice,
}

/// A report to write to one of the gadget functions.
pub struct Report {
    pub device: HidDevice,
    pub bytes: Vec<u8>,
}

/// What the server does for one input event.
pub struct DeviceAction {
    /// The reports to write, in order.
    pub reports: Vec<Report>,
    /// Whether the server machine should shut down.
    pub shutdown: bool,
}

/// The device and bytes of each report.
pub open spec fn reports_view(reports: Seq<Report>) -> Seq<(HidDevice, Seq<u8>)> {
    reports.map_values(|r: Report| (r.device, r.bytes@))
}

/// The mouse reports for a list of movement steps.
pub open spec fn step_reports(buttons: u8, steps: Seq<(i16, i16)>) -> Seq<(HidDevice, Seq<u8>)> {
    steps.map_values(|s: (i16, i16)| (HidDevice::Mouse, mouse_report(buttons, s.0, s.1, 0, 0)))
}

/// The three emulated devices of the server.
pub struct HidDevices {
    pub keyboard: KeyboardState,
    pub mouse: MouseState,
    pub consumer: ConsumerState,
}

fn push_report(reports: &mut Vec<Report>, device: HidDevice, bytes: &[u8])
    ensures
        reports_view(final(reports)@) == reports_view(old(reports)@).push((device, bytes@)),
{
    let mut v: Vec<u8> = Vec::new();
    let mut i: usize = 0;
    while i < bytes.len()
        invariant
            i <= bytes.len(),
            v@ == bytes@.take(i as int),
        decreases bytes.len() - i,
    {
        v.push(bytes[i]);
        assert(bytes@.take(i + 1) == bytes@.take(i as int).push(bytes@[i as int]));
        i += 1;
    }
    assert(bytes@.take(bytes.len() as int) == bytes@);
    reports.push(Report { device, bytes: v });
    assert(reports_view(reports@) =~= reports_view(old(reports)@).push((device, bytes@)));
}

impl HidDevices {
    /// Devices with nothing pressed.
    pub fn new(tess_factor: u8) -> (r: Self)
        requires
            tess_factor >= 1,
        ensures
            r.keyboard.pressed_keys@ == Seq::<HidKeyCode>::empty(),
            r.keyboard.pressed_modifiers.bits == 0,
            r.mouse.pressed_buttons.bits == 0,
            r.mouse.tess_factor == tess_factor,
            r.consumer.pressed_keys.bits == 0,
    {
        HidDevices { keyboard: KeyboardState::new(), mouse: MouseState::new(tess_factor), consumer: ConsumerState::new() }
    }

    /// The mouse reports that move the mouse by `(dx, dy)`, at most
    /// `tess_factor` of them.
    #[verifier::spinoff_prover]
    #[verifier::rlimit(40)]
    pub fn move_by(&self, dx: i16, dy: i16) -> (r: Vec<Report>)
        requires
            self.mouse.tess_factor >= 1,
            dx != i16::MIN,
            dy != i16::MIN,
        ensures
            exists|steps: Seq<(i16, i16)>|
                is_tessellation(
                    dx as int,
                    dy as int,
                    step_size(dx as int, self.mouse.tess_factor as int),
                    step_size(dy as int, self.mouse.tess_factor as int),
                    steps,
                ) && reports_view(r@) == step_reports(self.mouse.pressed_buttons.bits, steps),
            r@.len() <= self.mouse.tess_factor,
    {
        let steps = self.mouse.move_steps(dx, dy);
        let mut reports: Vec<Report> = Vec::new();
        let mut i: usize = 0;
        while i < steps.len()
            invariant
                i <= steps.len(),
                reports_view(reports@) == step_reports(self.mouse.pressed_buttons.bits, steps@.take(i as int)),
            decreases steps.len() - i,
        {
            let (tx, ty) = steps[i];
            let report = self.mouse.report(tx, ty, 0, 0);
            push_report(&mut reports, HidDevice::Mouse, report.as_slice());
            proof {
                assert(steps@.take(i + 1) == steps@.take(i as int).push(steps@[i as int]));
                assert(step_reports(self.mouse.pressed_buttons.bits, steps@.take(i + 1)) =~= step_reports(
                    self.mouse.pressed_buttons.bits,
                    steps@.take(i as int),
                ).push((HidDevice::Mouse, mouse_report(self.mouse.pressed_buttons.bits, tx, ty, 0, 0))));
            }
            i += 1;
        }
        assert(steps@.take(steps.len() as int) == steps@);
        assert(reports_view(reports@).len() == reports@.len());
        reports
    }

    /// Applies one event of the client to the devices and returns the
    /// reports to write: a movement is split into mouse steps, a key or
    /// button change gives the new report of its device (a button or consumer
    /// key without a flag gives none), scrolling gives a mouse report with the
    /// wheel movement, a reset releases everything and reports each device,
    /// and a shutdown request only asks for the shutdown.
    pub fn apply(&mut self, event: InputEvent) -> (r: DeviceAction)
        requires
            old(self).mouse.tess_factor >= 1,
            event matches InputEvent::MouseMove(x, y) ==> (x as i16) != i16::MIN && (y as i16) != i16::MIN,
        ensures
            final(self).mouse.tess_factor == old(self).mouse.tess_factor,
            r.shutdown == (event == InputEvent::Shutdown),
            match event {
                InputEvent::MouseMove(x, y) => {
                    &&& final(self).keyboard.pressed_keys@ == old(self).keyboard.pressed_keys@
                    &&& final(self).keyboard.pressed_modifiers == old(self).keyboard.pressed_modifiers
                    &&& final(self).mouse.pressed_buttons == old(self).mouse.pressed_buttons
                    &&& final(self).consumer.pressed_keys == old(self).consumer.pressed_keys
                    &&& exists|steps: Seq<(i16, i16)>|
                        is_tessellation(
                            (x as i16) as int,
                            (y as i16) as int,
                            step_size((x as i16) as int, old(self).mouse.tess_factor as int),
                            step_size((y as i16) as int, old(self).mouse.tess_factor as int),
                            steps,
                        ) && reports_view(r.reports@) == step_reports(old(self).mouse.pressed_buttons.bits, steps)
                    &&& r.reports@.len() <= old(self).mouse.tess_factor
                },
                InputEvent::KeyPress(_) | InputEvent::KeyRelease(_) => {
                    &&& final(self).mouse.pressed_buttons == old(self).mouse.pressed_buttons
                    &&& final(self).consumer.pressed_keys == old(self).consumer.pressed_keys
                    &&& reports_view(r.reports@) == seq![
                        (
                            HidDevice::Keyboard,
                            keyboard_report(final(self).keyboard.pressed_modifiers.bits, final(self).keyboard.pressed_keys@),
                        ),
                    ]
                    &&& match event {
                        InputEvent::KeyPress(key) => (
                            final(self).keyboard.pressed_modifiers.bits,
                            final(self).keyboard.pressed_keys@,
                        ) == press_step(
                            old(self).keyboard.pressed_modifiers.bits,
                            old(self).keyboard.pressed_keys@,
                            key,
                        ),
                        InputEvent::KeyRelease(key) => (
                            final(self).keyboard.pressed_modifiers.bits,
                            final(self).keyboard.pressed_keys@,
                        ) == release_step(
                            old(self).keyboard.pressed_modifiers.bits,
                            old(self).keyboard.pressed_keys@,
                            key,
                        ),
                        _ => true,
                    }
                },
                InputEvent::MouseButtonPress(b) | InputEvent::MouseButtonRelease(b) => {
                    &&& final(self).keyboard.pressed_keys@ == old(self).keyboard.pressed_keys@
                    &&& final(self).keyboard.pressed_modifiers == old(self).keyboard.pressed_modifiers
                    &&& final(self).consumer.pressed_keys == old(self).consumer.pressed_keys
                    &&& match HidMouseButtons::spec_try_from_button_code(b) {
                        Some(f) => {
                            &&& final(self).mouse.pressed_buttons.bits == (if event is MouseButtonPress {
                                old(self).mouse.pressed_buttons.bits | f.bits
                            } else {
                                old(self).mouse.pressed_buttons.bits & !f.bits
                            })
                            &&& reports_view(r.reports@) == seq![
                                (HidDevice::Mouse, mouse_report(final(self).mouse.pressed_buttons.bits, 0, 0, 0, 0)),
                            ]
                        },
                        None => final(self).mouse.pressed_buttons == old(self).mouse.pressed_buttons && r.reports@.len()
                            == 0,
                    }
                },
                InputEvent::ConsumerDevicePress(c) | InputEvent::ConsumerDeviceRelease(c) => {
                    &&& final(self).keyboard.pressed_keys@ == old(self).keyboard.pressed_keys@
                    &&& final(self).keyboard.pressed_modifiers == old(self).keyboard.pressed_modifiers
                    &&& final(self).mouse.pressed_buttons == old(self).mouse.pressed_buttons
                    &&& match ConsumerDeviceButtons::spec_try_from_device_code(c) {
                        Some(f) => {
                            &&& final(self).consumer.pressed_keys.bits == (if event is ConsumerDevicePress {
                                old(self).consumer.pressed_keys.bits | f.bits
                            } else {
                                old(self).consumer.pressed_keys.bits & !f.bits
                            })
                            &&& reports_view(r.reports@) == seq![
                                (HidDevice::ConsumerDevice, consumer_report(final(self).consumer.pressed_keys.bits)),
                            ]
                        },
                        None => final(self).consumer.pressed_keys == old(self).consumer.pressed_keys && r.reports@.len()
                            == 0,
                    }
                },
                InputEvent::HorizontalScrolling(a) | InputEvent::VerticalScrolling(a) => {
                    &&& final(self).keyboard.pressed_keys@ == old(self).keyboard.pressed_keys@
                    &&& final(self).keyboard.pressed_modifiers == old(self).keyboard.pressed_modifiers
                    &&& final(self).mouse.pressed_buttons == old(self).mouse.pressed_buttons
                    &&& final(self).consumer.pressed_keys == old(self).consumer.pressed_keys
                    &&& reports_view(r.reports@) == seq![
                        (
                            HidDevice::Mouse,
                            if event is VerticalScrolling {
                                mouse_report(old(self).mouse.pressed_buttons.bits, 0, 0, a, 0)
                            } else {
                                mouse_report(old(self).mouse.pressed_buttons.bits, 0, 0, 0, a)
                            },
                        ),
                    ]
                },
                InputEvent::Reset => {
                    &&& final(self).keyboard.pressed_keys@ == Seq::<HidKeyCode>::empty()
                    &&& final(self).keyboard.pressed_modifiers.bits == 0
                    &&& final(self).mouse.pressed_buttons.bits == 0
                    &&& final(self).consumer.pressed_keys.bits == 0
                    &&& reports_view(r.reports@) == seq![
                        (HidDevice::Keyboard, keyboard_report(0, Seq::empty())),
                        (HidDevice::Mouse, mouse_report(0, 0, 0, 0, 0)),
                        (HidDevice::ConsumerDevice, consumer_report(0)),
                    ]
                },
                InputEvent::Shutdown => {
                    &&& final(self).keyboard.pressed_keys@ == old(self).keyboard.pressed_keys@
                    &&& final(self).keyboard.pressed_modifiers == old(self).keyboard.pressed_modifiers
                    &&& final(self).mouse.pressed_buttons == old(self).mouse.pressed_buttons
                    &&& final(self).consumer.pressed_keys == old(self).consumer.pressed_keys
                    &&& r.reports@.len() == 0
                },
            },
    {
        let mut reports: Vec<Report> = Vec::new();
        let mut shutdown = false;
        match event {
            InputEvent::MouseMove(x, y) => {
                reports = self.move_by(x as i16, y as i16);
            },
            InputEvent::KeyPress(key) => {
                self.keyboard.press_key(key);
                let report = self.keyboard.report();
                push_report(&mut reports, HidDevice::Keyboard, report.as_slice());
            },
            InputEvent::KeyRelease(key) => {
                self.keyboard.release_key(key);
                let report = self.keyboard.report();
                push_report(&mut reports, HidDevice::Keyboard, report.as_slice());
            },
            InputEvent::MouseButtonPress(button) => {
                if self.mouse.press_button(button) {
                    let report = self.mouse.report(0, 0, 0, 0);
                    push_report(&mut reports, HidDevice::Mouse, report.as_slice());
                }
            },
            InputEvent::MouseButtonRelease(button) => {
                if self.mouse.release_button(button) {
                    let report = self.mouse.report(0, 0, 0, 0);
                    push_report(&mut reports, HidDevice::Mouse, report.as_slice());
                }
            },
            InputEvent::ConsumerDevicePress(button) => {
                if self.consumer.press_key(button) {
                    let report = self.consumer.report();
                    push_report(&mut reports, HidDevice::ConsumerDevice, report.as_slice());
                }
            },
            InputEvent::ConsumerDeviceRelease(button) => {
                if self.consumer.release_key(button) {
                    let report = self.consumer.report();
                    push_report(&mut reports, HidDevice::ConsumerDevice, report.as_slice());
                }
            },
            InputEvent::HorizontalScrolling(amount) => {
                let report = self.mouse.report(0, 0, 0, amount);
                push_report(&mut reports, HidDevice::Mouse, report.as_slice());
            },
            InputEvent::VerticalScrolling(amount) => {
                let report = self.mouse.report(0, 0, amount, 0);
                push_report(&mut reports, HidDevice::Mouse, report.as_slice());
            },
            InputEvent::Reset => {
                self.keyboard.reset();
                let report = self.keyboard.report();
                push_report(&mut reports, HidDevice::Keyboard, report.as_slice());
                self.mouse.reset();
                let report = self.mouse.report(0, 0, 0, 0);
                push_report(&mut reports, HidDevice::Mouse, report.as_slice());
                self.consumer.reset();
                let report = self.consumer.report();
                push_report(&mut reports, HidDevice::ConsumerDevice, report.as_slice());
            },
            InputEvent::Shutdown => {
                shutdown = true;
            },
        }
        DeviceAction { reports, shutdown }
    }
}

/// The movement that keeps the second machine awake while no input comes: ten
/// units to the left, then ten to the right, and so on.
pub struct IdleMovement {
    x: i16,
    moves: Ghost<nat>,
}

/// The horizontal movement of idle move number `k`, counted from 0: first to
/// the left, then alternating.
pub open spec fn idle_move(k: nat) -> i16 {
    if k % 2 == 0 {
        -10i16
    } else {
        10i16
    }
}

/// Where the idle moves `0..k` leave the pointer, horizontally.
pub open spec fn idle_displacement(k: nat) -> int
    decreases k,
{
    if k == 0 {
        0
    } else {
        idle_displacement((k - 1) as nat) + idle_move((k - 1) as nat)
    }
}

/// After an even number of idle moves the pointer is back where it was;
/// after an odd number it is one move to the left.
pub proof fn lemma_idle_displacement(k: nat)
    ensures
        idle_displacement(k) == (if k % 2 == 0 {
            0int
        } else {
            -10int
        }),
    decreases k,
{
    if k > 0 {
        lemma_idle_displacement((k - 1) as nat);
    }
}

impl IdleMovement {
    #[verifier::type_invariant]
    closed spec fn inv(self) -> bool {
        self.x == idle_move(self.moves@)
    }

    /// The horizontal movement of the next idle move.
    pub closed spec fn next_x(self) -> i16 {
        self.x
    }

    /// How many idle moves have been made.
    pub closed spec fn moves_made(self) -> nat {
        self.moves@
    }

    /// No move made yet; the first goes to the left.
    pub fn new() -> (r: Self)
        ensures
            r.moves_made() == 0,
            r.next_x() == -10,
    {
        IdleMovement { x: -10, moves: Ghost(0) }
    }

    /// Returns the horizontal movement of this idle move; the next one goes
    /// the other way.
    pub fn step(&mut self) -> (r: i16)
        ensures
            r == old(self).next_x(),
            r == idle_move(old(self).moves_made()),
            final(self).moves_made() == old(self).moves_made() + 1,
            final(self).next_x() == -r,
            final(self).next_x() == idle_move(final(self).moves_made()),
    {
        proof {
            use_type_invariant(&*self);
        }
        let r = self.x;
        let ghost k = self.moves@;
        *self = IdleMovement { x: -r, moves: Ghost(k + 1) };
        r
    }
}

} // verus!

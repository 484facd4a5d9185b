use vstd::prelude::*;

use std::sync::Arc;

use crate::hid::{HidModifierKeys, HidMouseButtons};
use crate::keyset::VirtualKeySet;
use crate::virtual_key::VirtualKey;
use crate::framing::{from_utf8_lossy, utf8_lossy};
use crate::key_names::{is_white_space, white_space};
use crate::wire::le_bytes16;

verus! {

/// A Windows system error code.
#[derive(Debug, Clone, Copy, PartialEq, Eq, Structural, Hash)]
pub struct Error(pub u32);

impl Default for Error {
    /// The success code.
    fn default() -> (r: Self)
        ensures
            r.0 == 0,
    {
        Error(0)
    }
}

impl Error {
    /// The success code.
    pub fn success() -> (r: Error)
        ensures
            r.0 == 0,
    {
        Error(0)
    }

    /// Returns whether this is the success code.
    pub fn is_success(self) -> (r: bool)
        ensures
            r == (self.0 == 0),
    {
        self.0 == 0
    }
}

/// What the user asks of a running connection.
#[derive(Debug, Clone, Copy, PartialEq, Eq, Structural)]
pub enum ConnectionCommand {
    ShutdownServer,
    Disconnect,
}

/// Which machine receives the input.
#[derive(Debug, Clone, Copy, PartialEq, Eq, Structural)]
pub enum Side {
    Local,
    Remote,
}

/// The state of the connection to the server.
#[derive(Debug, Clone, Copy, PartialEq, Eq, Structural)]
pub enum ConnectionState {
    Connected(Side),
    Connecting,
    Disconnected,
}

impl ConnectionState {
    /// The status line for this state.
    pub open spec fn spec_status_text(self) -> Seq<char> {
        match self {
            ConnectionState::Connected(_) => "Connected"@,
            ConnectionState::Connecting => "Connecting"@,
            ConnectionState::Disconnected => "Disconnected"@,
        }
    }

    /// Returns the status line for this state.
    pub fn status_text(self) -> (r: &'static str)
        ensures
            r@ == self.spec_status_text(),
    {
        match self {
            ConnectionState::Connected(_) => "Connected",
            ConnectionState::Connecting => "Connecting",
            ConnectionState::Disconnected => "Disconnected",
        }
    }

    /// The label of the connection button for this state.
    pub open spec fn spec_button_label(self) -> Seq<char> {
        match self {
            ConnectionState::Disconnected => "Connect"@,
            ConnectionState::Connecting => "Cancel"@,
            ConnectionState::Connected(_) => "Disconnect"@,
        }
    }

    /// Returns the label of the connection button for this state.
    pub fn button_label(self) -> (r: &'static str)
        ensures
            r@ == self.spec_button_label(),
    {
        match self {
            ConnectionState::Disconnected => "Connect",
            ConnectionState::Connecting => "Cancel",
            ConnectionState::Connected(_) => "Disconnect",
        }
    }

    /// Returns which machine has the input while connected.
    pub fn side(self) -> (r: Option<Side>)
        ensures
            r == (match self {
                ConnectionState::Connected(s) => Some(s),
                _ => None,
            }),
    {
        match self {
            ConnectionState::Connected(s) => Some(s),
            _ => None,
        }
    }
}

impl Default for ConnectionState {
    /// Not connected.
    fn default() -> (r: Self)
        ensures
            r == ConnectionState::Disconnected,
    {
        ConnectionState::Disconnected
    }
}

/// Returns the address to connect to: the override where there is one,
/// otherwise the configured host address.
pub fn merged_address<'a>(host_address: &'a str, address_override: Option<&'a str>) -> (r: &'a str)
    ensures
        r == (match address_override {
            Some(a) => a,
            None => host_address,
        }),
{
    match address_override {
        None => host_address,
        Some(address) => address,
    }
}

/// `s` without the white space at its start.
pub open spec fn trim_start(s: Seq<char>) -> Seq<char>
    decreases s.len(),
{
    if s.len() > 0 && is_white_space(s[0]) {
        trim_start(s.drop_first())
    } else {
        s
    }
}

/// `s` without the white space at its end.
pub open spec fn trim_end(s: Seq<char>) -> Seq<char>
    decreases s.len(),
{
    if s.len() > 0 && is_white_space(s.last()) {
        trim_end(s.drop_last())
    } else {
        s
    }
}

/// `s` without the white space at its start and its end.
pub open spec fn trim(s: Seq<char>) -> Seq<char> {
    trim_end(trim_start(s))
}

/// The first position of `s`, from `i` on, that is not white space.
proof fn lemma_trim_start_from(s: Seq<char>, i: int)
    requires
        0 <= i <= s.len(),
        forall|j: int| 0 <= j < i ==> is_white_space(#[trigger] s[j]),
    ensures
        trim_start(s) == trim_start(s.subrange(i, s.len() as int)),
    decreases i,
{
    if i > 0 {
        lemma_trim_start_from(s.drop_first(), i - 1);
        assert(s.drop_first().subrange(i - 1, s.drop_first().len() as int) =~= s.subrange(
            i,
            s.len() as int,
        ));
    } else {
        assert(s.subrange(0, s.len() as int) =~= s);
    }
}

/// Dropping trailing white space from `j` down.
proof fn lemma_trim_end_to(s: Seq<char>, j: int)
    requires
        0 <= j <= s.len(),
        forall|k: int| j <= k < s.len() ==> is_white_space(#[trigger] s[k]),
    ensures
        trim_end(s) == trim_end(s.subrange(0, j)),
    decreases s.len() - j,
{
    if j < s.len() {
        lemma_trim_end_to(s.drop_last(), j);
        assert(s.drop_last().subrange(0, j) =~= s.subrange(0, j));
    } else {
        assert(s.subrange(0, j) =~= s);
    }
}

/// Returns `s` without the white space at its start and its end.
pub fn trim_text(s: &str) -> (r: String)
    ensures
        r@ == trim(s@),
{
    let n = s.unicode_len();
    let mut i: usize = 0;
    while i < n && white_space(s.get_char(i))
        invariant
            n == s@.len(),
            i <= n,
            forall|j: int| 0 <= j < i ==> is_white_space(#[trigger] s@[j]),
        decreases n - i,
    {
        i += 1;
    }
    proof {
        lemma_trim_start_from(s@, i as int);
    }
    let ghost t = s@.subrange(i as int, n as int);
    assert(i == n || !is_white_space(t[0]));
    assert(trim_start(t) == t);
    let mut j: usize = n;
    while j > i && white_space(s.get_char(j - 1))
        invariant
            n == s@.len(),
            i <= j <= n,
            t == s@.subrange(i as int, n as int),
            forall|k: int| j <= k < n ==> is_white_space(#[trigger] s@[k]),
        decreases j - i,
    {
        j -= 1;
    }
    proof {
        assert forall|k: int| (j - i) <= k < t.len() implies is_white_space(#[trigger] t[k]) by {
            assert(t[k] == s@[k + i]);
        }
        lemma_trim_end_to(t, (j - i) as int);
        let u = t.subrange(0, (j - i) as int);
        if u.len() > 0 {
            assert(u.last() == s@[j - 1]);
        }
        assert(trim_end(u) == u);
        assert(u =~= s@.subrange(i as int, j as int));
    }
    String::from_str(s.substring_char(i, j))
}

/// Checks the server's answer to the handshake of the settings window: the
/// reply, read as lossy UTF-8 and trimmed, must be `Ok`; otherwise it is the
/// error.
pub fn check_handshake(reply: &[u8]) -> (r: Result<(), String>)
    ensures
        trim(utf8_lossy(reply@)) == "Ok"@ ==> r is Ok,
        trim(utf8_lossy(reply@)) != "Ok"@ ==> (r matches Err(e) && e@ == trim(utf8_lossy(reply@))),
{
    let text = from_utf8_lossy(reply);
    let trimmed = trim_text(text.as_str());
    proof {
        reveal_strlit("Ok");
    }
    if trimmed.as_str().unicode_len() == 2 && trimmed.as_str().get_char(0) == 'O' && trimmed.as_str().get_char(1)
        == 'k' {
        assert(trimmed@ =~= "Ok"@);
        Ok(())
    } else {
        assert(trimmed@ != "Ok"@);
        Err(trimmed)
    }
}

/// The hotkey of the client: every modifier held and the trigger pressed.
#[derive(Debug, Clone, Copy, PartialEq, Eq)]
pub struct Hotkey {
    pub modifiers: VirtualKeySet,
    pub trigger: VirtualKey,
}

impl Hotkey {
    /// The hotkey of the given modifiers and trigger.
    pub fn new(modifiers: &Vec<VirtualKey>, trigger: VirtualKey) -> (r: Self)
        ensures
            r.modifiers@ == modifiers@.to_set(),
            r.trigger == trigger,
    {
        Hotkey { modifiers: VirtualKeySet::from_keys(modifiers), trigger }
    }
}

/// The client's settings, but for the mouse speed factor, which the program
/// keeps.
pub struct ClientSettings {
    pub host_address: String,
    pub hotkey: Hotkey,
    pub blacklist: VirtualKeySet,
    pub show_network_info: bool,
    pub network_send_rate: u32,
}

/// The media keys that the client leaves to the local machine unless told otherwise.
pub open spec fn default_blacklist() -> Set<VirtualKey> {
    set![
        VirtualKey::VolumeDown,
        VirtualKey::VolumeUp,
        VirtualKey::VolumeMute,
        VirtualKey::MediaStop,
        VirtualKey::MediaPrevTrack,
        VirtualKey::MediaPlayPause,
        VirtualKey::MediaNextTrack,
    ]
}

impl Default for ClientSettings {
    /// A local server, the Apps key alone as hotkey, the media keys
    /// blacklisted, no network information, and 100 datagrams a second.
    fn default() -> (r: Self)
        ensures
            r.host_address@ == "localhost:12345"@,
            r.hotkey.modifiers@ == Set::<VirtualKey>::empty(),
            r.hotkey.trigger == VirtualKey::Apps,
            r.blacklist@ == default_blacklist(),
            !r.show_network_info,
            r.network_send_rate == 100,
    {
        let modifiers: Vec<VirtualKey> = Vec::new();
        let hotkey = Hotkey::new(&modifiers, VirtualKey::Apps);
        let keys = vec![
            VirtualKey::VolumeDown,
            VirtualKey::VolumeUp,
            VirtualKey::VolumeMute,
            VirtualKey::MediaStop,
            VirtualKey::MediaPrevTrack,
            VirtualKey::MediaPlayPause,
            VirtualKey::MediaNextTrack,
        ];
        let blacklist = VirtualKeySet::from_keys(&keys);
        proof {
            assert(modifiers@.to_set() =~= Set::<VirtualKey>::empty());
            assert(keys@.to_set() =~= default_blacklist()) by {
                assert forall|k: VirtualKey| default_blacklist().contains(k) implies keys@.contains(k) by {
                    if k == VirtualKey::VolumeDown { assert(keys@[0] == k); }
                    else if k == VirtualKey::VolumeUp { assert(keys@[1] == k); }
                    else if k == VirtualKey::VolumeMute { assert(keys@[2] == k); }
                    else if k == VirtualKey::MediaStop { assert(keys@[3] == k); }
                    else if k == VirtualKey::MediaPrevTrack { assert(keys@[4] == k); }
                    else if k == VirtualKey::MediaPlayPause { assert(keys@[5] == k); }
                    else { assert(keys@[6] == k); }
                }
            }
        }
        ClientSettings {
            host_address: String::from_str("localhost:12345"),
            hotkey,
            blacklist,
            show_network_info: false,
            network_send_rate: 100,
        }
    }
}

/// A message of the settings window.
#[derive(Debug, Clone, PartialEq, Eq)]
pub enum Message {
    OpenSettings,
    SaveSettings,
    DiscardSettings,
    ChangePortNumber(String),
    ChangeHostAddress(String),
    Default,
}

/// The certificate check of the client, which accepts any server certificate.
#[derive(Debug)]
pub struct SkipServerVerification;

impl SkipServerVerification {
    /// A shared instance of the certificate verifier.
    pub fn new() -> (r: Arc<Self>) {
        Arc::new(SkipServerVerification)
    }
}

/// Where the server sends its input.
#[derive(Debug, Clone, Copy, PartialEq, Eq, Structural)]
pub enum BackendType {
    Hardware,
    Console,
}

/// The command line settings of the server.
#[derive(Debug, Clone, Copy, PartialEq, Eq, Structural)]
pub struct ServerArgs {
    pub port: u16,
    pub backend: BackendType,
}

/// A backend name that is not one of `hardware` and `console`.
#[derive(Debug, Clone, PartialEq, Eq)]
pub struct UnknownBackend {
    pub name: String,
}

/// Whether `s` spells `word`.
pub open spec fn spells(s: Seq<char>, word: Seq<char>) -> bool {
    s == word
}

fn equals_ascii(s: &str, word: &str) -> (r: bool)
    ensures
        r == (s@ == word@),
{
    let n = s.unicode_len();
    if n != word.unicode_len() {
        return false;
    }
    let mut i: usize = 0;
    while i < n
        invariant
            i <= n,
            n == s@.len(),
            n == word@.len(),
            forall|j: int| 0 <= j < i ==> s@[j] == word@[j],
        decreases n - i,
    {
        if s.get_char(i) != word.get_char(i) {
            return false;
        }
        i += 1;
    }
    assert(s@ =~= word@);
    true
}

impl BackendType {
    /// Parses `hardware` or `console`.
    pub fn from_str(s: &str) -> (r: Result<BackendType, UnknownBackend>)
        ensures
            s@ == "hardware"@ ==> r == Ok::<BackendType, UnknownBackend>(BackendType::Hardware),
            s@ == "console"@ ==> r == Ok::<BackendType, UnknownBackend>(BackendType::Console),
            s@ != "hardware"@ && s@ != "console"@ ==> (r matches Err(e) && e.name@ == s@),
    {
        proof {
            reveal_strlit("hardware");
            reveal_strlit("console");
            assert("console"@.len() == 7);
            assert("hardware"@.len() == 8);
            assert("console"@ != "hardware"@);
        }
        if equals_ascii(s, "hardware") {
            Ok(BackendType::Hardware)
        } else if equals_ascii(s, "console") {
            Ok(BackendType::Console)
        } else {
            Err(UnknownBackend { name: s.to_string() })
        }
    }
}

/// `s` without the ANSI escape sequences that begin with ESC and end with `m`.
pub open spec fn strip_color_spec(s: Seq<char>) -> Seq<char>
    decreases s.len(),
{
    strip_from(s, false)
}

/// The characters of `s` that are kept, when `escape` tells whether an
/// escape sequence is open at its start.
pub open spec fn strip_from(s: Seq<char>, escape: bool) -> Seq<char>
    decreases s.len(),
{
    if s.len() == 0 {
        Seq::empty()
    } else if escape {
        strip_from(s.drop_first(), s[0] != 'm')
    } else if s[0] == '\u{001b}' {
        strip_from(s.drop_first(), true)
    } else {
        seq![s[0]] + strip_from(s.drop_first(), false)
    }
}

/// Whether an escape sequence is open after the characters `s`.
pub open spec fn escape_after(s: Seq<char>) -> bool
    decreases s.len(),
{
    if s.len() == 0 {
        false
    } else {
        let e = escape_after(s.drop_last());
        if e {
            s.last() != 'm'
        } else {
            s.last() == '\u{001b}'
        }
    }
}

/// The kept characters of `s`, reading from the front.
pub open spec fn kept_prefix(s: Seq<char>) -> Seq<char>
    decreases s.len(),
{
    if s.len() == 0 {
        Seq::empty()
    } else {
        let e = escape_after(s.drop_last());
        if !e && s.last() != '\u{001b}' {
            kept_prefix(s.drop_last()).push(s.last())
        } else {
            kept_prefix(s.drop_last())
        }
    }
}

proof fn lemma_strip_split(a: Seq<char>, b: Seq<char>, escape: bool)
    requires
        escape == escape_after(a),
    ensures
        kept_prefix(a) + strip_from(b, escape) == kept_prefix(a + b),
    decreases b.len(),
{
    if b.len() > 0 {
        let a1 = a.push(b[0]);
        assert(a1.drop_last() == a);
        assert((a + b) == a1 + b.drop_first());
        lemma_strip_split(a1, b.drop_first(), escape_after(a1));
        if escape {
        } else if b[0] == '\u{001b}' {
        } else {
            assert(kept_prefix(a1) == kept_prefix(a).push(b[0]));
            assert(kept_prefix(a) + (seq![b[0]] + strip_from(b.drop_first(), false)) =~= kept_prefix(a1) + strip_from(
                b.drop_first(),
                false,
            ));
        }
    } else {
        assert(a + b =~= a);
    }
}

/// Whether `a` is what remains of `b` after deleting some of its characters.
pub open spec fn subsequence_of(a: Seq<char>, b: Seq<char>) -> bool
    decreases b.len(),
{
    if b.len() == 0 {
        a.len() == 0
    } else {
        subsequence_of(a, b.drop_first()) || (a.len() > 0 && a[0] == b[0] && subsequence_of(
            a.drop_first(),
            b.drop_first(),
        ))
    }
}

proof fn lemma_strip_from_no_escape(s: Seq<char>, escape: bool)
    ensures
        !strip_from(s, escape).contains('\u{001b}'),
    decreases s.len(),
{
    if s.len() > 0 {
        lemma_strip_from_no_escape(s.drop_first(), false);
        lemma_strip_from_no_escape(s.drop_first(), true);
        lemma_strip_from_no_escape(s.drop_first(), s[0] != 'm');
        if !escape && s[0] != '\u{001b}' {
            let rest = strip_from(s.drop_first(), false);
            assert forall|i: int| 0 <= i < (seq![s[0]] + rest).len() implies (seq![s[0]] + rest)[i]
                != '\u{001b}' by {
                if i > 0 {
                    assert((seq![s[0]] + rest)[i] == rest[i - 1]);
                }
            }
        }
    }
}

proof fn lemma_strip_from_subsequence(s: Seq<char>, escape: bool)
    ensures
        subsequence_of(strip_from(s, escape), s),
    decreases s.len(),
{
    if s.len() > 0 {
        lemma_strip_from_subsequence(s.drop_first(), false);
        lemma_strip_from_subsequence(s.drop_first(), true);
        lemma_strip_from_subsequence(s.drop_first(), s[0] != 'm');
        if !escape && s[0] != '\u{001b}' {
            let r = strip_from(s, escape);
            assert(r.drop_first() =~= strip_from(s.drop_first(), false));
        }
    }
}

proof fn lemma_strip_from_plain(s: Seq<char>)
    requires
        !s.contains('\u{001b}'),
    ensures
        strip_from(s, false) == s,
    decreases s.len(),
{
    if s.len() > 0 {
        assert(s[0] != '\u{001b}');
        assert forall|i: int| 0 <= i < s.drop_first().len() implies s.drop_first()[i] != '\u{001b}' by {
            assert(s.drop_first()[i] == s[i + 1]);
        }
        lemma_strip_from_plain(s.drop_first());
        assert(seq![s[0]] + s.drop_first() =~= s);
    }
}

/// Stripping leaves no escape character behind.
pub proof fn lemma_strip_color_leaves_no_escape(s: Seq<char>)
    ensures
        !strip_color_spec(s).contains('\u{001b}'),
{
    lemma_strip_from_no_escape(s, false);
}

/// Stripping only deletes characters: what remains keeps its order.
pub proof fn lemma_strip_color_subsequence(s: Seq<char>)
    ensures
        subsequence_of(strip_color_spec(s), s),
{
    lemma_strip_from_subsequence(s, false);
}

/// A text without escape characters is left as it is.
pub proof fn lemma_strip_color_plain(s: Seq<char>)
    requires
        !s.contains('\u{001b}'),
    ensures
        strip_color_spec(s) == s,
{
    lemma_strip_from_plain(s);
}

/// Stripping twice is stripping once.
pub proof fn lemma_strip_color_idempotent(s: Seq<char>)
    ensures
        strip_color_spec(strip_color_spec(s)) == strip_color_spec(s),
{
    lemma_strip_from_no_escape(s, false);
    lemma_strip_from_plain(strip_color_spec(s));
}

/// Returns `s` without its ANSI color sequences.
pub fn strip_color(s: &str) -> (r: String)
    ensures
        r@ == strip_color_spec(s@),
{
    let mut result = String::new();
    let mut escape = false;
    let n = s.unicode_len();
    let mut i: usize = 0;
    while i < n
        invariant
            i <= n,
            n == s@.len(),
            escape == escape_after(s@.take(i as int)),
            result@ == kept_prefix(s@.take(i as int)),
        decreases n - i,
    {
        let c = s.get_char(i);
        proof {
            assert(s@.take(i + 1).drop_last() == s@.take(i as int));
            assert(s@.take(i + 1).last() == c);
        }
        if escape {
            if c == 'm' {
                escape = false;
            }
        } else if c == '\u{001b}' {
            escape = true;
        } else {
            let piece = s.substring_char(i, i + 1);
            proof {
                assert(piece@ =~= seq![c]);
            }
            result.append(piece);
        }
        i += 1;
    }
    proof {
        assert(s@.take(n as int) == s@);
        lemma_strip_split(Seq::empty(), s@, false);
        assert(Seq::<char>::empty() + s@ == s@);
        assert(kept_prefix(Seq::<char>::empty()) + strip_from(s@, false) == strip_from(s@, false));
    }
    result
}

/// Whether a mouse report of the console backend holds a movement.
pub open spec fn has_movement_spec(msg: Seq<u8>) -> bool {
    exists|i: int| 1 <= i < 4 && msg[i] != 0
}

/// Returns whether any of bytes 1 to 3 of `msg` is nonzero.
pub fn has_movement(msg: &[u8]) -> (r: bool)
    requires
        msg@.len() >= 4,
    ensures
        r == has_movement_spec(msg@),
{
    let mut i: usize = 1;
    while i < 4
        invariant
            1 <= i <= 4,
            msg@.len() >= 4,
            forall|j: int| 1 <= j < i ==> msg@[j] == 0,
        decreases 4 - i,
    {
        if msg[i] != 0 {
            return true;
        }
        i += 1;
    }
    false
}

/// How many users hold the USB gadget configuration.
pub struct ConfigFsRefCount {
    pub count: u32,
}

/// Adding a user to `count` users: the new count, and whether the gadget
/// must be set up (for the first user).
pub open spec fn acquire_step(count: nat) -> (nat, bool) {
    (count + 1, count == 0)
}

/// Removing one of `count` users: the new count, and whether the gadget must
/// be torn down (after the last user).
pub open spec fn release_step(count: nat) -> (nat, bool) {
    ((count - 1) as nat, count - 1 == 0)
}

/// Runs the users' arrivals (`true`) and departures (`false`) from no user:
/// the final count, and how many setups minus teardowns of the gadget there
/// were; `None` where a user leaves while there is none.
pub open spec fn run_ref_count(ops: Seq<bool>) -> Option<(nat, int)>
    decreases ops.len(),
{
    if ops.len() == 0 {
        Some((0nat, 0int))
    } else {
        match run_ref_count(ops.drop_last()) {
            None => None,
            Some((count, live)) => if ops.last() {
                let (next, setup) = acquire_step(count);
                Some((next, live + if setup { 1int } else { 0int }))
            } else if count == 0 {
                None
            } else {
                let (next, teardown) = release_step(count);
                Some((next, live - if teardown { 1int } else { 0int }))
            },
        }
    }
}

/// The number of arrivals minus the number of departures in `ops`.
pub open spec fn live_users(ops: Seq<bool>) -> int
    decreases ops.len(),
{
    if ops.len() == 0 {
        0
    } else {
        live_users(ops.drop_last()) + if ops.last() { 1int } else { -1int }
    }
}

/// Over any run in which no user leaves while there is none, the count is
/// the number of users that hold the gadget, and the gadget is set up
/// exactly while that number is positive.
pub proof fn lemma_ref_count_run(ops: Seq<bool>)
    ensures
        run_ref_count(ops) matches Some((count, live)) ==> count == live_users(ops) && live == (if count
            > 0 {
            1int
        } else {
            0int
        }),
    decreases ops.len(),
{
    if ops.len() > 0 {
        lemma_ref_count_run(ops.drop_last());
    }
}

impl ConfigFsRefCount {
    /// No user.
    pub fn new() -> (r: Self)
        ensures
            r.count == 0,
    {
        ConfigFsRefCount { count: 0 }
    }

    /// Adds a user; returns whether the gadget must be set up first (the first user).
    pub fn acquire(&mut self) -> (enable: bool)
        requires
            old(self).count < u32::MAX,
        ensures
            (final(self).count as nat, enable) == acquire_step(old(self).count as nat),
    {
        let enable = self.count == 0;
        self.count = self.count + 1;
        enable
    }

    /// Removes a user; returns whether the gadget must be torn down (the last user).
    pub fn release(&mut self) -> (disable: bool)
        requires
            old(self).count > 0,
        ensures
            (final(self).count as nat, disable) == release_step(old(self).count as nat),
    {
        self.count = self.count - 1;
        self.count == 0
    }
}

/// The keyboard packet of the direct client: kind 1, the modifier byte, a
/// reserved byte, then the codes of the last six pressed keys.
pub open spec fn kb_packet_spec(mods: u8, keys: Option<Seq<(VirtualKey, u8)>>) -> Seq<u8> {
    Seq::new(
        9,
        |i: int|
            if i == 0 {
                1u8
            } else if i == 1 {
                mods
            } else {
                match keys {
                    Some(k) => {
                        let m = if k.len() < 6 {
                            k.len() as int
                        } else {
                            6
                        };
                        if 3 <= i < 3 + m {
                            k[k.len() - m + i - 3].1
                        } else {
                            0u8
                        }
                    },
                    None => 0u8,
                }
            },
    )
}

/// Returns the keyboard packet for the given modifiers and pressed keys.
pub fn make_kb_packet(mods: HidModifierKeys, keys: Option<&Vec<(VirtualKey, u8)>>) -> (r: [u8; 9])
    ensures
        r@ == kb_packet_spec(mods.bits, match keys {
            Some(k) => Some(k@),
            None => None,
        }),
{
    let mut packet = [0u8; 9];
    packet[0] = 0x1;
    packet[1] = mods.to_byte();
    if let Some(pressed_keys) = keys {
        let len = pressed_keys.len();
        let m: usize = if len < 6 {
            len
        } else {
            6
        };
        let mut i: usize = 0;
        while i < m
            invariant
                m == (if len < 6 { len } else { 6 }),
                len == pressed_keys@.len(),
                i <= m,
                packet[0] == 1u8,
                packet[1] == mods.bits,
                packet[2] == 0u8,
                forall|j: int| 3 <= j < 9 ==> packet[j] == (if j < 3 + i {
                    pressed_keys@[len - m + j - 3].1
                } else {
                    0u8
                }),
            decreases m - i,
        {
            packet[3 + i] = pressed_keys[len - m + i].1;
            i += 1;
        }
    }
    assert(packet@ =~= kb_packet_spec(mods.bits, match keys {
        Some(k) => Some(k@),
        None => None,
    }));
    packet
}

/// The mouse packet of the direct client: kind 2, 1 without and 2 with a
/// movement, the button byte, the movement as little-endian 16-bit numbers,
/// and the wheel movements.
pub open spec fn ms_packet_spec(buttons: u8, dx: i16, dy: i16, dv: i8, dh: i8) -> Seq<u8> {
    seq![
        2u8,
        if dx == 0 && dy == 0 {
            1u8
        } else {
            2u8
        },
        buttons,
    ] + le_bytes16(dx as u16) + le_bytes16(dy as u16) + seq![dv as u8, dh as u8]
}

/// Returns the mouse packet for the given buttons and movement.
pub fn make_ms_packet(buttons: HidMouseButtons, dx: i16, dy: i16, dv: i8, dh: i8) -> (r: [u8; 9])
    ensures
        r@ == ms_packet_spec(buttons.bits, dx, dy, dv, dh),
{
    let x = dx as u16;
    let y = dy as u16;
    let packet = [
        0x2u8,
        if dx == 0 && dy == 0 {
            0x1u8
        } else {
            0x2u8
        },
        buttons.to_byte(),
        (x & 0xff) as u8,
        ((x >> 8u16) & 0xff) as u8,
        (y & 0xff) as u8,
        ((y >> 8u16) & 0xff) as u8,
        dv as u8,
        dh as u8,
    ];
    assert(packet@ =~= ms_packet_spec(buttons.bits, dx, dy, dv, dh));
    packet
}

} // verus!

//! Text frames exchanged with the daemon: commands out, `[event](value)` frames in.
use vstd::prelude::*;

verus! {

/// True for the ASCII digits `0` to `9`.
pub open spec fn is_digit(c: char) -> bool {
    '0' <= c && c <= '9'
}

/// Numeric value of an ASCII digit.
pub open spec fn digit_value(c: char) -> int {
    (c as u32) - ('0' as u32)
}

/// Value of a string of decimal digits, most significant first.
pub open spec fn digits_value(s: Seq<char>) -> int
    decreases s.len(),
{
    if s.len() == 0 {
        0
    } else {
        digits_value(s.drop_last()) * 10 + digit_value(s.last())
    }
}

fn digit_of(c: char) -> (r: u32)
    requires
        is_digit(c),
    ensures
        r as int == digit_value(c),
        r < 10,
{
    (c as u32) - ('0' as u32)
}


/// `s` opens with a minus sign.
pub open spec fn is_negative(s: Seq<char>) -> bool {
    s.len() > 0 && s[0] == '-'
}

/// What follows an optional leading `+` or `-`.
pub open spec fn unsigned_part(s: Seq<char>) -> Seq<char> {
    if s.len() > 0 && (s[0] == '-' || s[0] == '+') {
        s.skip(1)
    } else {
        s
    }
}

/// All characters of `s` are decimal digits.
pub open spec fn all_digits(s: Seq<char>) -> bool {
    forall|i: int| 0 <= i < s.len() ==> is_digit(#[trigger] s[i])
}

/// The decimal integer that `s` spells, as `str::parse::<i32>` reads it (an optional
/// `+` or `-`, then one or more digits), when it fits an `i32`.
pub open spec fn integer_of(s: Seq<char>) -> Option<int> {
    let body = unsigned_part(s);
    let v = if is_negative(s) { -digits_value(body) } else { digits_value(body) };
    if body.len() > 0 && all_digits(body) && i32::MIN <= v <= i32::MAX {
        Some(v)
    } else {
        None
    }
}

/// Magnitudes at or above this bound are out of range for an `i32` either way.
const MAGNITUDE_CAP: i64 = 2147483649;

proof fn lemma_digits_value_nonneg(s: Seq<char>)
    requires
        all_digits(s),
    ensures
        digits_value(s) >= 0,
    decreases s.len(),
{
    if s.len() > 0 {
        lemma_digits_value_nonneg(s.drop_last());
    }
}

/// Parses a decimal integer as `str::parse::<i32>` does.
pub fn parse_integer(s: &str) -> (r: Option<i32>)
    ensures
        r is Some <==> integer_of(s@) is Some,
        r is Some ==> r->0 as int == integer_of(s@)->0,
{
    let n = s.unicode_len();
    let mut start: usize = 0;
    let mut negative = false;
    if n > 0 && s.get_char(0) == '-' {
        negative = true;
        start = 1;
    } else if n > 0 && s.get_char(0) == '+' {
        start = 1;
    }
    let ghost body = unsigned_part(s@);
    assert(body == s@.subrange(start as int, n as int));
    if start == n {
        return None;
    }
    let mut magnitude: i64 = 0;
    let mut i: usize = start;
    while i < n
        invariant
            start <= i <= n,
            n == s@.len(),
            body == s@.subrange(start as int, n as int),
            body == unsigned_part(s@),
            negative == is_negative(s@),
            forall|k: int| 0 <= k < i - start ==> is_digit(#[trigger] body[k]),
            0 <= magnitude <= MAGNITUDE_CAP,
            capped(digits_value(body.subrange(0, i - start)), magnitude as int),
        decreases n - i,
    {
        let c = s.get_char(i);
        if !('0' <= c && c <= '9') {
            assert(body[i - start] == c && !is_digit(body[i - start]));
            return None;
        }
        let d = digit_of(c);
        let ghost prev = body.subrange(0, i - start);
        let ghost next = body.subrange(0, i + 1 - start);
        assert(next.drop_last() == prev);
        assert(next.last() == c);
        proof {
            lemma_digits_value_nonneg(prev);
        }
        let grown: i64 = magnitude * 10 + d as i64;
        if grown >= MAGNITUDE_CAP {
            magnitude = MAGNITUDE_CAP;
        } else {
            magnitude = grown;
        }
        i = i + 1;
    }
    assert(body.subrange(0, n - start) == body);
    proof {
        lemma_digits_value_nonneg(body);
    }
    if negative {
        if magnitude <= 2147483648 {
            Some((0 - magnitude) as i32)
        } else {
            None
        }
    } else {
        if magnitude <= 2147483647 {
            Some(magnitude as i32)
        } else {
            None
        }
    }
}

/// `m` is the value `v` held back at the magnitude cap.
spec fn capped(v: int, m: int) -> bool {
    if v >= MAGNITUDE_CAP { m == MAGNITUDE_CAP } else { m == v }
}


/// The digit character for `d`, for `d` below ten.
pub open spec fn digit_char(d: nat) -> char {
    if d == 0 {
        '0'
    } else if d == 1 {
        '1'
    } else if d == 2 {
        '2'
    } else if d == 3 {
        '3'
    } else if d == 4 {
        '4'
    } else if d == 5 {
        '5'
    } else if d == 6 {
        '6'
    } else if d == 7 {
        '7'
    } else if d == 8 {
        '8'
    } else {
        '9'
    }
}

/// Decimal spelling of `n`, without sign or leading zeros.
pub open spec fn decimal(n: nat) -> Seq<char>
    decreases n,
{
    if n < 10 {
        seq![digit_char(n)]
    } else {
        decimal(n / 10) + seq![digit_char(n % 10)]
    }
}

fn digit_text(d: u32) -> (r: &'static str)
    requires
        d < 10,
    ensures
        r@ == seq![digit_char(d as nat)],
{
    proof {
        reveal_strlit("0");
        reveal_strlit("1");
        reveal_strlit("2");
        reveal_strlit("3");
        reveal_strlit("4");
        reveal_strlit("5");
        reveal_strlit("6");
        reveal_strlit("7");
        reveal_strlit("8");
        reveal_strlit("9");
    }
    let r = if d == 0 {
        "0"
    } else if d == 1 {
        "1"
    } else if d == 2 {
        "2"
    } else if d == 3 {
        "3"
    } else if d == 4 {
        "4"
    } else if d == 5 {
        "5"
    } else if d == 6 {
        "6"
    } else if d == 7 {
        "7"
    } else if d == 8 {
        "8"
    } else {
        "9"
    };
    assert(r@ =~= seq![digit_char(d as nat)]);
    r
}

/// Appends the decimal spelling of `n` to `out`.
pub fn push_decimal(out: &mut String, n: u32)
    ensures
        final(out)@ == old(out)@ + decimal(n as nat),
    decreases n,
{
    if n >= 10 {
        push_decimal(out, n / 10);
        out.append(digit_text(n % 10));
        assert(final(out)@ =~= old(out)@ + decimal(n as nat));
    } else {
        out.append(digit_text(n));
    }
}

/// An outbound command to the daemon.
#[derive(Clone, Copy, Debug, PartialEq, Eq, Structural)]
pub enum Command {
    PrevTrack,
    TogglePlayPause,
    NextTrack,
    ToggleShuffle,
    ToggleRepeatState,
    Shutdown,
    Reboot,
    GetVolume,
    SetVolume(u32),
}

/// The text frame that carries command `c`.
pub open spec fn command_frame(c: Command) -> Seq<char> {
    match c {
        Command::PrevTrack => "prev_track"@,
        Command::TogglePlayPause => "toggle_play_pause"@,
        Command::NextTrack => "next_track"@,
        Command::ToggleShuffle => "toggle_shuffle"@,
        Command::ToggleRepeatState => "toggle_repeat_state"@,
        Command::Shutdown => "shutdown"@,
        Command::Reboot => "reboot"@,
        Command::GetVolume => "get_volume"@,
        Command::SetVolume(n) => "set_volume "@ + decimal(n as nat),
    }
}

impl Command {
    /// Encodes the command as the text frame sent to the daemon.
    pub fn frame(&self) -> (r: String)
        ensures
            r@ == command_frame(*self),
    {
        match *self {
            Command::PrevTrack => String::from_str("prev_track"),
            Command::TogglePlayPause => String::from_str("toggle_play_pause"),
            Command::NextTrack => String::from_str("next_track"),
            Command::ToggleShuffle => String::from_str("toggle_shuffle"),
            Command::ToggleRepeatState => String::from_str("toggle_repeat_state"),
            Command::Shutdown => String::from_str("shutdown"),
            Command::Reboot => String::from_str("reboot"),
            Command::GetVolume => String::from_str("get_volume"),
            Command::SetVolume(n) => {
                let mut out = String::from_str("set_volume ");
                push_decimal(&mut out, n);
                out
            },
        }
    }
}


/// The frame `[event](value)`.
pub open spec fn event_frame(event: Seq<char>, value: Seq<char>) -> Seq<char> {
    seq!['['] + event + seq![']', '('] + value + seq![')']
}

/// A valid event name: not empty, without `]`.
pub open spec fn is_event_name(event: Seq<char>) -> bool {
    event.len() > 0 && forall|i: int| 0 <= i < event.len() ==> #[trigger] event[i] != ']'
}

/// A valid event value: without `)`.
pub open spec fn is_event_value(value: Seq<char>) -> bool {
    forall|i: int| 0 <= i < value.len() ==> #[trigger] value[i] != ')'
}

/// `s` is, as a whole, the frame of the pair `p`.
pub open spec fn splits_as(s: Seq<char>, p: (Seq<char>, Seq<char>)) -> bool {
    is_event_name(p.0) && is_event_value(p.1) && s == event_frame(p.0, p.1)
}

/// The `(event, value)` pair of an inbound frame, or two empty strings for a frame
/// of another shape.
pub open spec fn decoded(s: Seq<char>) -> (Seq<char>, Seq<char>) {
    if exists|p: (Seq<char>, Seq<char>)| splits_as(s, p) {
        choose|p: (Seq<char>, Seq<char>)| splits_as(s, p)
    } else {
        (Seq::empty(), Seq::empty())
    }
}

/// In a frame `[event](value)`, the first `]` is the one that closes the event name.
proof fn lemma_close_bracket(s: Seq<char>, p: (Seq<char>, Seq<char>))
    requires
        splits_as(s, p),
    ensures
        s[0] == '[',
        s[p.0.len() as int + 1] == ']',
        s[p.0.len() as int + 2] == '(',
        s[s.len() - 1] == ')',
        s.len() == p.0.len() + p.1.len() + 4,
        forall|i: int| 1 <= i < p.0.len() as int + 1 ==> #[trigger] s[i] != ']',
        forall|i: int| p.0.len() as int + 3 <= i < s.len() - 1 ==> #[trigger] s[i] != ')',
        p.0 == s.subrange(1, p.0.len() as int + 1),
        p.1 == s.subrange(p.0.len() as int + 3, s.len() - 1),
{
    let e = p.0;
    let v = p.1;
    assert forall|i: int| 1 <= i < e.len() as int + 1 implies #[trigger] s[i] != ']' by {
        assert(s[i] == e[i - 1]);
    }
    assert forall|i: int| e.len() as int + 3 <= i < s.len() - 1 implies #[trigger] s[i] != ')' by {
        assert(s[i] == v[i - e.len() - 3]);
    }
    assert(e =~= s.subrange(1, e.len() as int + 1));
    assert(v =~= s.subrange(e.len() as int + 3, s.len() - 1));
}

/// A frame splits in at most one way.
pub proof fn lemma_split_unique(s: Seq<char>, p: (Seq<char>, Seq<char>), q: (Seq<char>, Seq<char>))
    requires
        splits_as(s, p),
        splits_as(s, q),
    ensures
        p == q,
{
    lemma_close_bracket(s, p);
    lemma_close_bracket(s, q);
    if p.0.len() < q.0.len() {
        assert(s[p.0.len() as int + 1] != ']');
    }
    if q.0.len() < p.0.len() {
        assert(s[q.0.len() as int + 1] != ']');
    }
}

/// Decoding recovers the event and the value of every well-formed frame, and gives two
/// empty strings for every string that is no such frame.
pub proof fn lemma_decode_frame(event: Seq<char>, value: Seq<char>, other: Seq<char>)
    requires
        is_event_name(event),
        is_event_value(value),
        !exists|p: (Seq<char>, Seq<char>)| splits_as(other, p),
    ensures
        decoded(event_frame(event, value)) == (event, value),
        decoded(other) == (Seq::<char>::empty(), Seq::<char>::empty()),
{
    let s = event_frame(event, value);
    assert(splits_as(s, (event, value)));
    let p = choose|p: (Seq<char>, Seq<char>)| splits_as(s, p);
    lemma_split_unique(s, p, (event, value));
}

/// Splits an inbound frame `[event](value)` into its event and value; a frame of any
/// other shape gives two empty strings.
pub fn decode_frame(s: &str) -> (r: (String, String))
    ensures
        (r.0@, r.1@) == decoded(s@),
{
    let n = s.unicode_len();
    if n < 4 || s.get_char(0) != '[' {
        proof {
            if exists|p: (Seq<char>, Seq<char>)| splits_as(s@, p) {
                let p = choose|p: (Seq<char>, Seq<char>)| splits_as(s@, p);
                lemma_close_bracket(s@, p);
            }
        }
        return (String::new(), String::new());
    }
    let mut k: usize = 1;
    while k < n && s.get_char(k) != ']'
        invariant
            1 <= k <= n,
            n == s@.len(),
            forall|i: int| 1 <= i < k ==> #[trigger] s@[i] != ']',
        decreases n - k,
    {
        k = k + 1;
    }
    // `k` is the first `]` after the opening bracket, if any.
    if k < 2 || k >= n - 2 || s.get_char(k + 1) != '(' {
        proof {
            if exists|p: (Seq<char>, Seq<char>)| splits_as(s@, p) {
                let p = choose|p: (Seq<char>, Seq<char>)| splits_as(s@, p);
                lemma_close_bracket(s@, p);
                if p.0.len() as int + 1 > k {
                    assert(s@[k as int] != ']');
                }
                if p.0.len() as int + 1 < k {
                    assert(s@[p.0.len() as int + 1] != ']');
                }
            }
        }
        return (String::new(), String::new());
    }
    let mut m: usize = k + 2;
    while m < n && s.get_char(m) != ')'
        invariant
            k + 2 <= m <= n,
            n == s@.len(),
            forall|i: int| k + 2 <= i < m ==> #[trigger] s@[i] != ')',
        decreases n - m,
    {
        m = m + 1;
    }
    if m != n - 1 {
        proof {
            if exists|p: (Seq<char>, Seq<char>)| splits_as(s@, p) {
                let p = choose|p: (Seq<char>, Seq<char>)| splits_as(s@, p);
                lemma_close_bracket(s@, p);
                if p.0.len() as int + 1 > k {
                    assert(s@[k as int] != ']');
                }
                if p.0.len() as int + 1 < k {
                    assert(s@[p.0.len() as int + 1] != ']');
                }
                if m < n - 1 {
                    assert(s@[m as int] != ')');
                }
            }
        }
        return (String::new(), String::new());
    }
    let event = s.substring_char(1, k);
    let value = s.substring_char(k + 2, n - 1);
    proof {
        let p = (event@, value@);
        assert forall|i: int| 0 <= i < p.0.len() implies #[trigger] p.0[i] != ']' by {
            assert(p.0[i] == s@[i + 1]);
        }
        assert forall|i: int| 0 <= i < p.1.len() implies #[trigger] p.1[i] != ')' by {
            assert(p.1[i] == s@[i + k + 2]);
        }
        assert(s@ =~= event_frame(p.0, p.1));
        assert(splits_as(s@, p));
        let q = choose|q: (Seq<char>, Seq<char>)| splits_as(s@, q);
        lemma_split_unique(s@, p, q);
    }
    (String::from_str(event), String::from_str(value))
}


/// What the controller makes of an inbound frame.
#[derive(Clone, Copy, Debug, PartialEq, Eq, Structural)]
pub enum InboundEvent {
    ConnectOk,
    ConnectFailed,
    Disconnected,
    Volume(i32),
    Unknown,
}

/// The event that an `(event, value)` pair stands for.
pub open spec fn classify(event: Seq<char>, value: Seq<char>) -> InboundEvent {
    if event == "connect"@ && value == "ok"@ {
        InboundEvent::ConnectOk
    } else if event == "connect"@ && value == "failed"@ {
        InboundEvent::ConnectFailed
    } else if event == "disconnect"@ {
        InboundEvent::Disconnected
    } else if event == "volume"@ && integer_of(value) is Some {
        InboundEvent::Volume(integer_of(value)->0 as i32)
    } else {
        InboundEvent::Unknown
    }
}

/// The event that an inbound frame stands for.
pub open spec fn inbound_event(s: Seq<char>) -> InboundEvent {
    classify(decoded(s).0, decoded(s).1)
}

fn same_text(a: &str, b: &str) -> (r: bool)
    ensures
        r == (a@ == b@),
{
    String::from_str(a) == String::from_str(b)
}

/// Maps a decoded `(event, value)` pair to the event it stands for.
pub fn interpret(event: &str, value: &str) -> (r: InboundEvent)
    ensures
        r == classify(event@, value@),
{
    if same_text(event, "connect") && same_text(value, "ok") {
        InboundEvent::ConnectOk
    } else if same_text(event, "connect") && same_text(value, "failed") {
        InboundEvent::ConnectFailed
    } else if same_text(event, "disconnect") {
        InboundEvent::Disconnected
    } else if same_text(event, "volume") {
        match parse_integer(value) {
            Some(v) => InboundEvent::Volume(v),
            None => InboundEvent::Unknown,
        }
    } else {
        InboundEvent::Unknown
    }
}

/// Decodes an inbound frame into the event it stands for.
pub fn read_frame(s: &str) -> (r: InboundEvent)
    ensures
        r == inbound_event(s@),
{
    let (event, value) = decode_frame(s);
    interpret(event.as_str(), value.as_str())
}

/// Status that the transport reports through the inbound queue.
#[derive(Clone, Copy, Debug, PartialEq, Eq, Structural)]
pub enum TransportStatus {
    /// The handshake succeeded.
    Opened,
    /// The handshake failed.
    OpenFailed,
    /// The socket closed after it was open.
    Closed,
}

/// The frame by which the transport reports `st`.
pub open spec fn status_frame_text(st: TransportStatus) -> Seq<char> {
    match st {
        TransportStatus::Opened => "[connect](ok)"@,
        TransportStatus::OpenFailed => "[connect](failed)"@,
        TransportStatus::Closed => "[disconnect]()"@,
    }
}

/// The event that a status report stands for.
pub open spec fn status_event(st: TransportStatus) -> InboundEvent {
    match st {
        TransportStatus::Opened => InboundEvent::ConnectOk,
        TransportStatus::OpenFailed => InboundEvent::ConnectFailed,
        TransportStatus::Closed => InboundEvent::Disconnected,
    }
}

/// The synthetic frame by which the transport reports a status on the inbound queue.
pub fn status_frame(st: TransportStatus) -> (r: String)
    ensures
        r@ == status_frame_text(st),
{
    match st {
        TransportStatus::Opened => String::from_str("[connect](ok)"),
        TransportStatus::OpenFailed => String::from_str("[connect](failed)"),
        TransportStatus::Closed => String::from_str("[disconnect]()"),
    }
}

/// A status frame goes through the ordinary decoder and reads as its event.
pub proof fn lemma_status_frame_event(st: TransportStatus)
    ensures
        inbound_event(status_frame_text(st)) == status_event(st),
{
    reveal_strlit("[connect](ok)");
    reveal_strlit("[connect](failed)");
    reveal_strlit("[disconnect]()");
    reveal_strlit("connect");
    reveal_strlit("disconnect");
    reveal_strlit("ok");
    reveal_strlit("failed");
    let ev = match st {
        TransportStatus::Closed => "disconnect"@,
        _ => "connect"@,
    };
    let va = match st {
        TransportStatus::Opened => "ok"@,
        TransportStatus::OpenFailed => "failed"@,
        TransportStatus::Closed => Seq::<char>::empty(),
    };
    assert(status_frame_text(st) =~= event_frame(ev, va));
    assert(is_event_name(ev));
    lemma_decode_frame(ev, va, seq![]);
}

} // verus!

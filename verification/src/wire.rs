//! The wire codec: classifying inbound frames, building outbound frames,
//! and reading the two JSON payloads the protocol carries.
//!
//! Frame grammar (§ text frames over the socket): `0<json>` opens the
//! transport and carries the session id and heartbeat interval; `40` joins
//! the namespace; `2`/`3` are the heartbeat; `42<json-array>` carries an
//! event envelope `[name, payload]`.

use vstd::prelude::*;
use vstd::string::StrSliceExecFns;
use vstd::string::StringExecFns;
use crate::text::{chars_to_string, chars_vec, starts_with, str_eq, str_starts_with};

verus! {

/// The heartbeat interval assumed when the open payload names none.
pub const DEFAULT_PING_INTERVAL_MS: u64 = 25000;

/// The kinds of inbound frame the session loop reacts to.
#[derive(Clone, Copy, Debug, PartialEq, Eq, Structural)]
pub enum FrameKind {
    /// `2`: a server heartbeat ping, answered with `3`.
    Ping,
    /// `40...`: the namespace join acknowledgement.
    NamespaceAck,
    /// `42...`: an event envelope.
    Event,
    /// Anything else, ignored.
    Other,
}

/// How an inbound frame is classified: `2` is a ping, a `40` prefix the
/// namespace acknowledgement, a `42` prefix an event envelope.
pub open spec fn classify_spec(t: Seq<char>) -> FrameKind {
    if t == "2"@ {
        FrameKind::Ping
    } else if starts_with(t, "40"@) {
        FrameKind::NamespaceAck
    } else if starts_with(t, "42"@) {
        FrameKind::Event
    } else {
        FrameKind::Other
    }
}

/// Classifies one inbound frame.
pub fn classify_frame(t: &str) -> (r: FrameKind)
    ensures
        r == classify_spec(t@),
{
    if str_eq(t, "2") {
        FrameKind::Ping
    } else if str_starts_with(t, "40") {
        FrameKind::NamespaceAck
    } else if str_starts_with(t, "42") {
        FrameKind::Event
    } else {
        FrameKind::Other
    }
}

/// The escape of one character inside a JSON string: quote and backslash
/// get a backslash, the five short control escapes their letter, any other
/// control character the `\u00xx` form with lowercase hex digits.
pub open spec fn esc_char(c: char) -> Seq<char> {
    if c == '"' {
        seq!['\\', '"']
    } else if c == '\\' {
        seq!['\\', '\\']
    } else if c == '\u{8}' {
        seq!['\\', 'b']
    } else if c == '\t' {
        seq!['\\', 't']
    } else if c == '\n' {
        seq!['\\', 'n']
    } else if c == '\u{c}' {
        seq!['\\', 'f']
    } else if c == '\r' {
        seq!['\\', 'r']
    } else if (c as u32) < 32 {
        seq!['\\', 'u', '0', '0', hex_digit((c as u32 / 16) as int), hex_digit((c as u32 % 16) as int)]
    } else {
        seq![c]
    }
}

/// The lowercase hex digit for a value below 16.
pub open spec fn hex_digit(n: int) -> char {
    if n == 0 { '0' }
    else if n == 1 { '1' }
    else if n == 2 { '2' }
    else if n == 3 { '3' }
    else if n == 4 { '4' }
    else if n == 5 { '5' }
    else if n == 6 { '6' }
    else if n == 7 { '7' }
    else if n == 8 { '8' }
    else if n == 9 { '9' }
    else if n == 10 { 'a' }
    else if n == 11 { 'b' }
    else if n == 12 { 'c' }
    else if n == 13 { 'd' }
    else if n == 14 { 'e' }
    else { 'f' }
}

/// `s` escaped for inclusion inside a JSON string literal.
pub open spec fn json_escaped(s: Seq<char>) -> Seq<char>
    decreases s.len(),
{
    if s.len() == 0 {
        Seq::empty()
    } else {
        json_escaped(s.drop_last()) + esc_char(s.last())
    }
}

/// The lowercase hex digit for a value below 16.
fn hex_digit_char(n: u32) -> (c: char)
    requires
        n < 16,
    ensures
        c == hex_digit(n as int),
{
    if n == 0 { '0' }
    else if n == 1 { '1' }
    else if n == 2 { '2' }
    else if n == 3 { '3' }
    else if n == 4 { '4' }
    else if n == 5 { '5' }
    else if n == 6 { '6' }
    else if n == 7 { '7' }
    else if n == 8 { '8' }
    else if n == 9 { '9' }
    else if n == 10 { 'a' }
    else if n == 11 { 'b' }
    else if n == 12 { 'c' }
    else if n == 13 { 'd' }
    else if n == 14 { 'e' }
    else { 'f' }
}

/// Appends the escape of `c` to `out`.
fn push_escaped(out: &mut Vec<char>, c: char)
    ensures
        final(out)@ == old(out)@ + esc_char(c),
{
    if c == '"' {
        out.push('\\');
        out.push('"');
    } else if c == '\\' {
        out.push('\\');
        out.push('\\');
    } else if c == '\u{8}' {
        out.push('\\');
        out.push('b');
    } else if c == '\t' {
        out.push('\\');
        out.push('t');
    } else if c == '\n' {
        out.push('\\');
        out.push('n');
    } else if c == '\u{c}' {
        out.push('\\');
        out.push('f');
    } else if c == '\r' {
        out.push('\\');
        out.push('r');
    } else if (c as u32) < 32 {
        out.push('\\');
        out.push('u');
        out.push('0');
        out.push('0');
        out.push(hex_digit_char((c as u32) / 16));
        out.push(hex_digit_char((c as u32) % 16));
    } else {
        out.push(c);
    }
    proof {
        assert(final(out)@ =~= old(out)@ + esc_char(c));
    }
}

/// Escapes every character of `s` for a JSON string literal.
pub fn json_escape(s: &Vec<char>) -> (r: Vec<char>)
    ensures
        r@ == json_escaped(s@),
{
    let n = s.len();
    let mut out: Vec<char> = Vec::new();
    let mut i: usize = 0;
    while i < n
        invariant
            n == s@.len(),
            i <= n,
            out@ == json_escaped(s@.subrange(0, i as int)),
        decreases n - i,
    {
        push_escaped(&mut out, s[i]);
        i = i + 1;
        proof {
            assert(s@.subrange(0, i as int).drop_last() =~= s@.subrange(0, i - 1));
            assert(s@.subrange(0, i as int).last() == s@[i - 1]);
        }
    }
    proof {
        assert(s@.subrange(0, n as int) =~= s@);
    }
    out
}

/// The heartbeat reply frame.
pub fn pong_frame() -> (r: String)
    ensures
        r@ == "3"@,
{
    String::from_str("3")
}

/// The namespace connect frame, sent right after the handshake.
pub fn namespace_connect_frame() -> (r: String)
    ensures
        r@ == "40"@,
{
    String::from_str("40")
}

/// The `stop` event frame, sent first on the namespace acknowledgement to
/// clear any stale run.
pub fn stop_frame() -> (r: String)
    ensures
        r@ == "42[\"stop\",{}]"@,
{
    String::from_str("42[\"stop\",{}]")
}

/// The `start` event frame, sent after the `stop` to prime a fresh run.
pub fn start_frame() -> (r: String)
    ensures
        r@ == "42[\"start\",{\"args\":\"\"}]"@,
{
    String::from_str("42[\"start\",{\"args\":\"\"}]")
}

/// The full event frame that carries one terminal command.
pub open spec fn input_frame_spec(cmd: Seq<char>) -> Seq<char> {
    "42[\"input\",{\"input\":\""@ + json_escaped(cmd) + "\"}]"@
}

/// Builds the event frame that sends `cmd` as terminal input.
pub fn input_frame(cmd: &str) -> (r: String)
    ensures
        r@ == input_frame_spec(cmd@),
{
    let mut out = chars_vec("42[\"input\",{\"input\":\"");
    let cmd_chars = chars_vec(cmd);
    let escaped = json_escape(&cmd_chars);
    let n = escaped.len();
    let mut i: usize = 0;
    while i < n
        invariant
            n == escaped@.len(),
            i <= n,
            out@ == "42[\"input\",{\"input\":\""@ + escaped@.subrange(0, i as int),
        decreases n - i,
    {
        out.push(escaped[i]);
        i = i + 1;
        proof {
            assert(out@ =~= "42[\"input\",{\"input\":\""@ + escaped@.subrange(0, i as int));
        }
    }
    proof {
        assert(escaped@.subrange(0, n as int) =~= escaped@);
    }
    let tail = chars_vec("\"}]");
    let m = tail.len();
    let mut j: usize = 0;
    while j < m
        invariant
            m == tail@.len(),
            tail@ == "\"}]"@,
            j <= m,
            out@ == "42[\"input\",{\"input\":\""@ + escaped@ + tail@.subrange(0, j as int),
        decreases m - j,
    {
        out.push(tail[j]);
        j = j + 1;
        proof {
            assert(out@ =~= "42[\"input\",{\"input\":\""@ + escaped@ + tail@.subrange(0, j as int));
        }
    }
    proof {
        assert(tail@.subrange(0, m as int) =~= tail@);
        assert(out@ =~= input_frame_spec(cmd@));
    }
    chars_to_string(&out)
}

/// The fields of an open-frame payload: the session id and, when present,
/// the advertised heartbeat interval. What exactly the JSON reading yields
/// is a function of the text alone; this names it.
pub uninterp spec fn open_fields_of(s: Seq<char>) -> Option<(Seq<char>, Option<u64>)>;

/// Relies on serde_json's `from_str` and `Value::{get, as_str, as_u64}`:
/// reads the open payload's `sid` string and optional `pingInterval`
/// integer; yields nothing when the text is not JSON or has no `sid` string.
#[verifier::external_body]
fn parse_open_fields(json_part: &str) -> (r: Option<(String, Option<u64>)>)
    ensures
        r matches Option::Some(p) ==> open_fields_of(json_part@) matches Option::Some(q) && q.0
            == p.0@ && q.1 == p.1,
        r is None ==> open_fields_of(json_part@) is None,
{
    let v: serde_json::Value = serde_json::from_str(json_part).ok()?;
    let sid = v.get("sid")?.as_str()?.to_string();
    let ping = v.get("pingInterval").and_then(|p| p.as_u64());
    Some((sid, ping))
}

/// The fields of an event envelope: the event's name and, when present, the
/// payload's `data` string. A function of the text alone; this names it.
pub uninterp spec fn event_fields_of(s: Seq<char>) -> Option<(Seq<char>, Option<Seq<char>>)>;

/// Relies on serde_json's `from_str` and `Value::{as_array, get, as_str}`:
/// reads an event envelope `[name, payload]`, yielding the name and the
/// payload's `data` string when there is one; nothing when the text is not
/// a JSON array whose first element is a string.
#[verifier::external_body]
fn parse_event(json_part: &str) -> (r: Option<(String, Option<String>)>)
    ensures
        r matches Option::Some(p) ==> event_fields_of(json_part@) matches Option::Some(q) && q.0
            == p.0@ && (match p.1 {
            Option::Some(d) => q.1 == Option::Some(d@),
            Option::None => q.1 is None,
        }),
        r is None ==> event_fields_of(json_part@) is None,
{
    let v: serde_json::Value = serde_json::from_str(json_part).ok()?;
    let arr = v.as_array()?;
    let name = arr.first()?.as_str()?.to_string();
    let data = arr.get(1).and_then(|d| d.get("data")).and_then(|s| s.as_str()).map(String::from);
    Some((name, data))
}

/// A live transport session as the handshake reports it.
pub struct Handshake {
    pub sid: String,
    pub ping_interval: u64,
}

/// Reads the first inbound frame of a connection. Succeeds exactly on an
/// open frame (`0<json>`) whose payload carries a session id; the heartbeat
/// interval defaults to `DEFAULT_PING_INTERVAL_MS` when the payload names
/// none. Anything else is a failed handshake.
pub fn parse_handshake(frame: &str) -> (r: Option<Handshake>)
    ensures
        frame@.len() == 0 || frame@[0] != '0' ==> r is None,
        frame@.len() >= 1 && frame@[0] == '0' ==> {
            let fields = open_fields_of(frame@.subrange(1, frame@.len() as int));
            match r {
                Option::Some(h) => fields matches Option::Some(f) && h.sid@ == f.0
                    && h.ping_interval == (match f.1 {
                    Option::Some(p) => p,
                    Option::None => DEFAULT_PING_INTERVAL_MS,
                }),
                Option::None => fields is None,
            }
        },
{
    let n = frame.unicode_len();
    if n == 0 {
        return Option::None;
    }
    if frame.get_char(0) != '0' {
        return Option::None;
    }
    let json_part = frame.substring_char(1, n);
    match parse_open_fields(json_part) {
        Option::Some((sid, ping)) => {
            let interval = match ping {
                Option::Some(p) => p,
                Option::None => DEFAULT_PING_INTERVAL_MS,
            };
            Option::Some(Handshake { sid, ping_interval: interval })
        },
        Option::None => Option::None,
    }
}

/// Reads the terminal text out of a whole event frame: the frame's `42`
/// marker is cut off and the rest read as the envelope.
pub fn event_frame_output_text(frame: &str) -> (r: Option<String>)
    requires
        starts_with(frame@, "42"@),
    ensures
        ({
            let fields = event_fields_of(frame@.subrange(2, frame@.len() as int));
            match r {
                Option::Some(t) => fields matches Option::Some(f) && f.0 == "output"@ && f.1
                    == Option::Some(t@),
                Option::None => fields is None || !(fields.unwrap().0 == "output"@)
                    || fields.unwrap().1 is None,
            }
        }),
{
    proof {
        reveal_strlit("42");
    }
    let n = frame.unicode_len();
    let json_part = frame.substring_char(2, n);
    output_event_text(json_part)
}

/// Reads the terminal text out of one event frame's JSON part: the payload
/// `data` string of an `output`-named envelope, and nothing otherwise.
pub fn output_event_text(json_part: &str) -> (r: Option<String>)
    ensures
        ({
            let fields = event_fields_of(json_part@);
            match r {
                Option::Some(t) => fields matches Option::Some(f) && f.0 == "output"@ && f.1
                    == Option::Some(t@),
                Option::None => fields is None || !(fields.unwrap().0 == "output"@)
                    || fields.unwrap().1 is None,
            }
        }),
{
    match parse_event(json_part) {
        Option::Some((name, data)) => {
            if str_eq(name.as_str(), "output") {
                data
            } else {
                Option::None
            }
        },
        Option::None => Option::None,
    }
}

} // verus!

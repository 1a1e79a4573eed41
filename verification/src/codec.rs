//! The wire-message codec: the three message shapes (invite, answer, turn)
//! as JSON objects.  Encoding is verified down to the exact byte sequence,
//! with string content escaped to plain ASCII; decoding tries the three
//! shapes in a fixed order and silently discards bytes matching none.

use vstd::prelude::*;

verus! {

/// One of the three wire messages.
///
/// `Invite` carries the identifier the invitation is addressed to (wire
/// field "sender"); `Answer` accepts or declines it; `Turn` announces a
/// placed mark.
#[derive(Debug, PartialEq, Eq)]
pub enum Message {
    Invite { sender: String },
    Answer { accept: bool },
    Turn { x: usize, y: usize },
}

/// The byte for one hexadecimal digit, lower case.
pub open spec fn spec_hex_digit(n: int) -> u8 {
    if n < 10 {
        (48 + n) as u8
    } else {
        (87 + n) as u8
    }
}

/// Four hexadecimal digits for a 16-bit value.
pub open spec fn spec_hex4(n: int) -> Seq<u8> {
    seq![
        spec_hex_digit((n / 4096) % 16),
        spec_hex_digit((n / 256) % 16),
        spec_hex_digit((n / 16) % 16),
        spec_hex_digit(n % 16),
    ]
}

/// How one character of a JSON string is written: the two JSON
/// metacharacters and the named control characters get a two-byte escape,
/// the other control characters and everything beyond ASCII a `\u` escape
/// (a surrogate pair above the basic plane), and printable ASCII stands as
/// itself.  The output is therefore plain ASCII.
pub open spec fn spec_escape_char(c: char) -> Seq<u8> {
    let n = c as int;
    if n == 34 {
        seq![92u8, 34u8]
    } else if n == 92 {
        seq![92u8, 92u8]
    } else if n == 8 {
        seq![92u8, 98u8]
    } else if n == 12 {
        seq![92u8, 102u8]
    } else if n == 10 {
        seq![92u8, 110u8]
    } else if n == 13 {
        seq![92u8, 114u8]
    } else if n == 9 {
        seq![92u8, 116u8]
    } else if n < 32 {
        seq![92u8, 117u8] + spec_hex4(n)
    } else if n < 128 {
        seq![n as u8]
    } else if n <= 0xFFFF {
        seq![92u8, 117u8] + spec_hex4(n)
    } else {
        let m = n - 0x10000;
        seq![92u8, 117u8] + spec_hex4(0xD800 + m / 1024) + seq![92u8, 117u8] + spec_hex4(
            0xDC00 + m % 1024,
        )
    }
}

/// A whole string escaped character by character.
pub open spec fn spec_escaped(s: Seq<char>) -> Seq<u8>
    decreases s.len(),
{
    if s.len() == 0 {
        Seq::empty()
    } else {
        spec_escape_char(s[0]) + spec_escaped(s.drop_first())
    }
}

/// The invite wire shape: `{"sender":"<escaped>"}`.
pub open spec fn invite_bytes(sender: Seq<char>) -> Seq<u8> {
    seq![123u8, 34u8, 115u8, 101u8, 110u8, 100u8, 101u8, 114u8, 34u8, 58u8, 34u8]
        + spec_escaped(sender) + seq![34u8, 125u8]
}

/// The answer wire shape: `{"accept":true}` or `{"accept":false}`.
pub open spec fn answer_bytes(accept: bool) -> Seq<u8> {
    seq![123u8, 34u8, 97u8, 99u8, 99u8, 101u8, 112u8, 116u8, 34u8, 58u8] + (if accept {
        seq![116u8, 114u8, 117u8, 101u8]
    } else {
        seq![102u8, 97u8, 108u8, 115u8, 101u8]
    }) + seq![125u8]
}

/// The turn wire shape for single-digit coordinates: `{"x":<x>,"y":<y>}`.
pub open spec fn turn_bytes(x: int, y: int) -> Seq<u8> {
    seq![123u8, 34u8, 120u8, 34u8, 58u8, (48 + x) as u8, 44u8, 34u8, 121u8, 34u8, 58u8,
        (48 + y) as u8, 125u8]
}

fn hex_digit(n: u32) -> (d: u8)
    requires
        n < 16,
    ensures
        d == spec_hex_digit(n as int),
{
    if n < 10 {
        (48 + n) as u8
    } else {
        (87 + n) as u8
    }
}

fn push_hex4(out: &mut Vec<u8>, n: u32)
    requires
        n < 0x10000,
    ensures
        final(out)@ == old(out)@ + spec_hex4(n as int),
{
    out.push(hex_digit((n / 4096) % 16));
    out.push(hex_digit((n / 256) % 16));
    out.push(hex_digit((n / 16) % 16));
    out.push(hex_digit(n % 16));
    proof {
        assert(out@ =~= old(out)@ + spec_hex4(n as int));
    }
}

fn escape_push(out: &mut Vec<u8>, c: char)
    ensures
        final(out)@ == old(out)@ + spec_escape_char(c),
{
    let n = c as u32;
    if n == 34 {
        out.push(92);
        out.push(34);
    } else if n == 92 {
        out.push(92);
        out.push(92);
    } else if n == 8 {
        out.push(92);
        out.push(98);
    } else if n == 12 {
        out.push(92);
        out.push(102);
    } else if n == 10 {
        out.push(92);
        out.push(110);
    } else if n == 13 {
        out.push(92);
        out.push(114);
    } else if n == 9 {
        out.push(92);
        out.push(116);
    } else if n < 32 {
        out.push(92);
        out.push(117);
        push_hex4(out, n);
    } else if n < 128 {
        out.push(n as u8);
    } else if n <= 0xFFFF {
        out.push(92);
        out.push(117);
        push_hex4(out, n);
    } else {
        let m = n - 0x10000;
        out.push(92);
        out.push(117);
        push_hex4(out, 0xD800 + m / 1024);
        out.push(92);
        out.push(117);
        push_hex4(out, 0xDC00 + m % 1024);
    }
    proof {
        assert(out@ =~= old(out)@ + spec_escape_char(c));
    }
}

proof fn lemma_escaped_append(a: Seq<char>, b: Seq<char>)
    ensures
        spec_escaped(a + b) == spec_escaped(a) + spec_escaped(b),
    decreases a.len(),
{
    if a.len() == 0 {
        assert(a + b =~= b);
        assert(spec_escaped(a) + spec_escaped(b) =~= spec_escaped(b));
    } else {
        assert((a + b).drop_first() =~= a.drop_first() + b);
        lemma_escaped_append(a.drop_first(), b);
        assert((a + b).len() != 0 && (a + b)[0] == a[0]);
        assert(spec_escaped(a + b) =~= spec_escaped(a) + spec_escaped(b));
    }
}

fn escape_str(out: &mut Vec<u8>, s: &str)
    ensures
        final(out)@ == old(out)@ + spec_escaped(s@),
{
    let len = s.unicode_len();
    let mut i: usize = 0;
    while i < len
        invariant
            len == s@.len(),
            i <= len,
            out@ == old(out)@ + spec_escaped(s@.take(i as int)),
        decreases len - i,
    {
        let c = s.get_char(i);
        escape_push(out, c);
        proof {
            assert(s@.take(i + 1) =~= s@.take(i as int) + seq![s@[i as int]]);
            lemma_escaped_append(s@.take(i as int), seq![s@[i as int]]);
            assert(seq![c].drop_first() =~= Seq::<char>::empty());
            assert(spec_escaped(Seq::<char>::empty()) == Seq::<u8>::empty());
            assert(spec_escaped(seq![c]) =~= spec_escape_char(c));
        }
        i += 1;
    }
    proof {
        assert(s@.take(len as int) =~= s@);
    }
}

/// Encodes an invitation addressed to `sender`.
pub fn encode_invite(sender: &str) -> (r: Vec<u8>)
    ensures
        r@ == invite_bytes(sender@),
{
    let mut out: Vec<u8> = Vec::new();
    out.push(123);
    out.push(34);
    out.push(115);
    out.push(101);
    out.push(110);
    out.push(100);
    out.push(101);
    out.push(114);
    out.push(34);
    out.push(58);
    out.push(34);
    escape_str(&mut out, sender);
    out.push(34);
    out.push(125);
    proof {
        assert(out@ =~= invite_bytes(sender@));
    }
    out
}

/// Encodes an accept/decline answer.
pub fn encode_answer(accept: bool) -> (r: Vec<u8>)
    ensures
        r@ == answer_bytes(accept),
{
    let mut out: Vec<u8> = Vec::new();
    out.push(123);
    out.push(34);
    out.push(97);
    out.push(99);
    out.push(99);
    out.push(101);
    out.push(112);
    out.push(116);
    out.push(34);
    out.push(58);
    if accept {
        out.push(116);
        out.push(114);
        out.push(117);
        out.push(101);
    } else {
        out.push(102);
        out.push(97);
        out.push(108);
        out.push(115);
        out.push(101);
    }
    out.push(125);
    proof {
        assert(out@ =~= answer_bytes(accept));
    }
    out
}

/// Encodes a placed mark.
pub fn encode_turn(x: usize, y: usize) -> (r: Vec<u8>)
    requires
        x < 3,
        y < 3,
    ensures
        r@ == turn_bytes(x as int, y as int),
{
    let mut out: Vec<u8> = Vec::new();
    out.push(123);
    out.push(34);
    out.push(120);
    out.push(34);
    out.push(58);
    out.push(48 + x as u8);
    out.push(44);
    out.push(34);
    out.push(121);
    out.push(34);
    out.push(58);
    out.push(48 + y as u8);
    out.push(125);
    proof {
        assert(out@ =~= turn_bytes(x as int, y as int));
    }
    out
}

/// The "sender" text of bytes parsing as the invite shape, if they do.
pub uninterp spec fn invite_fields(bytes: Seq<u8>) -> Option<Seq<char>>;

/// The "accept" flag of bytes parsing as the answer shape, if they do.
pub uninterp spec fn answer_fields(bytes: Seq<u8>) -> Option<bool>;

/// The "x"/"y" pair of bytes parsing as the turn shape, if they do.
pub uninterp spec fn turn_fields(bytes: Seq<u8>) -> Option<(u64, u64)>;

/// Relies on serde_json::from_slice::<serde_json::Value> with Value::get and
/// Value::as_str: whether the bytes are a JSON document whose top level is
/// an object holding a string under the key "sender", and that string, are
/// functions of the bytes alone.
#[verifier::external_body]
fn parse_invite(bytes: &[u8]) -> (r: Option<String>)
    ensures
        r is Some <==> invite_fields(bytes@) is Some,
        r matches Some(s) ==> invite_fields(bytes@) == Some(s@),
{
    match serde_json::from_slice::<serde_json::Value>(bytes) {
        Ok(v) => match v.get("sender") {
            Some(f) => f.as_str().map(|s| s.to_string()),
            None => None,
        },
        Err(_) => None,
    }
}

/// Relies on serde_json::from_slice::<serde_json::Value> with Value::get and
/// Value::as_bool: whether the bytes are a JSON object holding a boolean
/// under the key "accept", and that boolean, are functions of the bytes
/// alone.
#[verifier::external_body]
fn parse_answer(bytes: &[u8]) -> (r: Option<bool>)
    ensures
        r == answer_fields(bytes@),
{
    match serde_json::from_slice::<serde_json::Value>(bytes) {
        Ok(v) => v.get("accept").and_then(|f| f.as_bool()),
        Err(_) => None,
    }
}

/// Relies on serde_json::from_slice::<serde_json::Value> with Value::get and
/// Value::as_u64: whether the bytes are a JSON object holding unsigned
/// integers under the keys "x" and "y", and those integers, are functions of
/// the bytes alone.
#[verifier::external_body]
fn parse_turn(bytes: &[u8]) -> (r: Option<(u64, u64)>)
    ensures
        r == turn_fields(bytes@),
{
    let v: serde_json::Value = serde_json::from_slice(bytes).ok()?;
    let x = v.get("x").and_then(|f| f.as_u64())?;
    let y = v.get("y").and_then(|f| f.as_u64())?;
    Some((x, y))
}

/// Maps inbound bytes to a message.  The three shapes are tried in a fixed
/// order — invite, then answer, then turn — and the first that parses
/// determines the message; bytes matching none are discarded.
pub fn decode_message(bytes: &[u8]) -> (r: Option<Message>)
    ensures
        match r {
            Some(Message::Invite { sender }) => invite_fields(bytes@) == Some(sender@),
            Some(Message::Answer { accept }) => invite_fields(bytes@) is None && answer_fields(
                bytes@,
            ) == Some(accept),
            Some(Message::Turn { x, y }) => invite_fields(bytes@) is None && answer_fields(bytes@)
                is None && turn_fields(bytes@) == Some((x as u64, y as u64)),
            None => invite_fields(bytes@) is None && answer_fields(bytes@) is None && (turn_fields(
                bytes@,
            ) matches Some(p) ==> p.0 > usize::MAX as u64 || p.1 > usize::MAX as u64),
        },
{
    if let Some(sender) = parse_invite(bytes) {
        return Some(Message::Invite { sender });
    }
    if let Some(accept) = parse_answer(bytes) {
        return Some(Message::Answer { accept });
    }
    if let Some((x, y)) = parse_turn(bytes) {
        // a coordinate too large for this machine's indices can never name
        // a board cell; such a payload is discarded like any other
        if x <= usize::MAX as u64 && y <= usize::MAX as u64 {
            return Some(Message::Turn { x: x as usize, y: y as usize });
        }
        return None;
    }
    None
}

} // verus!

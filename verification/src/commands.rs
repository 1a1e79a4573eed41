//! The command-line grammar: the command names with their help lines, and
//! the parser that turns an input line into a local intent.  Tokens are
//! separated by runs of ASCII whitespace; a coordinate token is a row
//! letter `A`..`C` or a column digit `1`..`3`.

use vstd::prelude::*;
use crate::session::Input;

verus! {

/// The commands the command line understands.
#[derive(Copy, Clone, PartialEq, Eq, Structural, Debug)]
pub enum Commands {
    Help,
    Start,
    Peers,
    Turn,
}

impl Commands {
    /// The keyword that selects the command.
    pub open spec fn spec_name(self) -> Seq<char> {
        match self {
            Commands::Help => "help"@,
            Commands::Start => "start"@,
            Commands::Peers => "peers"@,
            Commands::Turn => "turn"@,
        }
    }

    pub fn to_string(&self) -> (s: &'static str)
        ensures
            s@ == self.spec_name(),
    {
        match self {
            Commands::Help => "help",
            Commands::Start => "start",
            Commands::Peers => "peers",
            Commands::Turn => "turn",
        }
    }

    /// The usage line and explanation shown by the help listing.
    pub open spec fn spec_description(self) -> (Seq<char>, Seq<char>) {
        match self {
            Commands::Help => ("help"@, "prints help."@),
            Commands::Start => (
                "start <peer_index>"@,
                "sends peer with index <peer_index> offer to play."@,
            ),
            Commands::Peers => ("peers"@, "writes <index> : <peer_id> for all active peers."@),
            Commands::Turn => ("turn <row> <col>"@, "sends turn to opponent"@),
        }
    }

    pub fn description(&self) -> (d: (&'static str, &'static str))
        ensures
            d.0@ == self.spec_description().0,
            d.1@ == self.spec_description().1,
    {
        match self {
            Commands::Help => ("help", "prints help."),
            Commands::Start => (
                "start <peer_index>",
                "sends peer with index <peer_index> offer to play.",
            ),
            Commands::Peers => ("peers", "writes <index> : <peer_id> for all active peers."),
            Commands::Turn => ("turn <row> <col>", "sends turn to opponent"),
        }
    }

    /// Every command, in the order the help listing shows them.
    pub fn all() -> (v: Vec<Commands>)
        ensures
            v@ == seq![Commands::Help, Commands::Start, Commands::Peers, Commands::Turn],
    {
        let v = vec![Commands::Help, Commands::Start, Commands::Peers, Commands::Turn];
        proof {
            assert(v@ =~= seq![Commands::Help, Commands::Start, Commands::Peers, Commands::Turn]);
        }
        v
    }
}

/// Why a `turn` line was rejected: it does not have the two-token shape, or
/// its values are outside the board.
#[derive(Copy, Clone, PartialEq, Eq, Structural, Debug)]
pub enum CoordinatesError {
    InvalidFormat,
    InvalidValue,
}

/// The ASCII whitespace separating tokens.
pub open spec fn is_space_char(c: char) -> bool {
    c == ' ' || c == '\t' || c == '\r' || c == '\n'
}

pub open spec fn is_digit_char(c: char) -> bool {
    48 <= c as int <= 57
}

pub open spec fn digit_of(c: char) -> int {
    c as int - 48
}

/// The first position at or after `i` holding a non-space character, or the
/// end of the string.
pub open spec fn next_nonspace(s: Seq<char>, i: int) -> int
    decreases s.len() - i,
{
    if i < 0 || i >= s.len() {
        s.len() as int
    } else if is_space_char(s[i]) {
        next_nonspace(s, i + 1)
    } else {
        i
    }
}

/// The end of the token starting at `i`: the first position at or after `i`
/// holding a space, or the end of the string.
pub open spec fn token_end(s: Seq<char>, i: int) -> int
    decreases s.len() - i,
{
    if i < 0 || i >= s.len() {
        s.len() as int
    } else if is_space_char(s[i]) {
        i
    } else {
        token_end(s, i + 1)
    }
}

pub open spec fn all_digits(s: Seq<char>, i: int, j: int) -> bool {
    forall|k: int| i <= k < j ==> is_digit_char(#[trigger] s[k])
}

/// The numeric value of the digit run `s[i..j]`, most significant first.
pub open spec fn digits_val(s: Seq<char>, i: int, j: int) -> int
    decreases j - i,
{
    if j <= i {
        0
    } else {
        digits_val(s, i, j - 1) * 10 + digit_of(s[j - 1])
    }
}

/// The row index a letter stands for.
pub open spec fn spec_row_letter(c: char) -> Option<usize> {
    if c == 'A' {
        Some(0usize)
    } else if c == 'B' {
        Some(1usize)
    } else if c == 'C' {
        Some(2usize)
    } else {
        None
    }
}

pub open spec fn has_prefix(s: Seq<char>, p: Seq<char>) -> bool {
    s.len() >= p.len() && s.subrange(0, p.len() as int) == p
}

/// What a whole `turn` line means: it must read `turn <row> <col>` with
/// exactly two tokens after the keyword — anything else is `InvalidFormat`;
/// a row letter other than `A`..`C` or a column outside `1`..`3` is
/// `InvalidValue`; otherwise the zero-based coordinates.
pub open spec fn spec_parse_coords(s: Seq<char>) -> Result<(usize, usize), CoordinatesError> {
    if !has_prefix(s, "turn "@) {
        Err(CoordinatesError::InvalidFormat)
    } else {
        let a1 = next_nonspace(s, 5);
        let e1 = token_end(s, a1);
        let a2 = next_nonspace(s, e1);
        let e2 = token_end(s, a2);
        let a3 = next_nonspace(s, e2);
        if a1 >= s.len() || a2 >= s.len() || a3 < s.len() {
            Err(CoordinatesError::InvalidFormat)
        } else if e1 - a1 != 1 {
            Err(CoordinatesError::InvalidFormat)
        } else if !all_digits(s, a2, e2) {
            Err(CoordinatesError::InvalidFormat)
        } else {
            match spec_row_letter(s[a1]) {
                None => Err(CoordinatesError::InvalidValue),
                Some(x) => {
                    let v = digits_val(s, a2, e2);
                    if 1 <= v <= 3 {
                        Ok((x, (v - 1) as usize))
                    } else {
                        Err(CoordinatesError::InvalidValue)
                    }
                },
            }
        }
    }
}

fn scan_nonspace(s: &str, i: usize) -> (r: usize)
    requires
        i <= s@.len(),
    ensures
        r as int == next_nonspace(s@, i as int),
        i <= r <= s@.len(),
        r < s@.len() ==> !is_space_char(s@[r as int]),
        forall|k: int| i <= k < r ==> is_space_char(#[trigger] s@[k]),
    decreases s@.len() - i,
{
    let len = s.unicode_len();
    if i >= len {
        len
    } else {
        let c = s.get_char(i);
        if c == ' ' || c == '\t' || c == '\r' || c == '\n' {
            scan_nonspace(s, i + 1)
        } else {
            i
        }
    }
}

fn scan_token_end(s: &str, i: usize) -> (r: usize)
    requires
        i <= s@.len(),
    ensures
        r as int == token_end(s@, i as int),
        i <= r <= s@.len(),
        r < s@.len() ==> is_space_char(s@[r as int]),
        forall|k: int| i <= k < r ==> !is_space_char(#[trigger] s@[k]),
    decreases s@.len() - i,
{
    let len = s.unicode_len();
    if i >= len {
        len
    } else {
        let c = s.get_char(i);
        if c == ' ' || c == '\t' || c == '\r' || c == '\n' {
            i
        } else {
            scan_token_end(s, i + 1)
        }
    }
}

/// The value of the digit run `s[i..j]`, clamped just above the largest
/// index the caller could ever accept, so that overlong inputs need no
/// unbounded arithmetic.
fn digits_value_capped(s: &str, i: usize, j: usize) -> (v: u64)
    requires
        i <= j <= s@.len(),
        all_digits(s@, i as int, j as int),
    ensures
        digits_val(s@, i as int, j as int) <= 1_000_000_000 ==> v == digits_val(
            s@,
            i as int,
            j as int,
        ),
        digits_val(s@, i as int, j as int) > 1_000_000_000 ==> v == 1_000_000_001,
{
    let mut v: u64 = 0;
    let mut k = i;
    while k < j
        invariant
            i <= k <= j <= s@.len(),
            all_digits(s@, i as int, j as int),
            v <= 1_000_000_001,
            digits_val(s@, i as int, k as int) <= 1_000_000_000 ==> v == digits_val(
                s@,
                i as int,
                k as int,
            ),
            digits_val(s@, i as int, k as int) > 1_000_000_000 ==> v == 1_000_000_001,
        decreases j - k,
    {
        let c = s.get_char(k);
        let d = (c as u32 - 48) as u64;
        proof {
            assert(is_digit_char(s@[k as int]));
            assert(digits_val(s@, i as int, k + 1) == digits_val(s@, i as int, k as int) * 10
                + digit_of(s@[k as int]));
        }
        if v > 1_000_000_000 {
            v = 1_000_000_001;
        } else {
            let w = v * 10 + d;
            if w > 1_000_000_000 {
                v = 1_000_000_001;
            } else {
                v = w;
            }
        }
        k += 1;
    }
    v
}

/// Which peer a `start` argument picks: the text must be a digit run whose
/// value indexes the peer list (indexes beyond 999 999 999 are rejected
/// outright, so the parse needs no unbounded arithmetic).
pub open spec fn spec_peer_index(s: Seq<char>, bound: int) -> Option<int> {
    if s.len() > 0 && all_digits(s, 0, s.len() as int) && digits_val(s, 0, s.len() as int)
        <= 999_999_999 && digits_val(s, 0, s.len() as int) < bound {
        Some(digits_val(s, 0, s.len() as int))
    } else {
        None
    }
}

/// Parses a `start` argument as an index into a list of `bound` peers.
pub fn parse_peer_index(s: &str, bound: usize) -> (r: Option<usize>)
    ensures
        match r {
            Some(i) => spec_peer_index(s@, bound as int) == Some(i as int),
            None => spec_peer_index(s@, bound as int) is None,
        },
{
    let len = s.unicode_len();
    if len == 0 {
        return None;
    }
    let mut k: usize = 0;
    while k < len
        invariant
            k <= len == s@.len(),
            forall|j: int| 0 <= j < k ==> is_digit_char(#[trigger] s@[j]),
        decreases len - k,
    {
        let c = s.get_char(k);
        let u = c as u32;
        if !(48 <= u && u <= 57) {
            proof {
                assert(!is_digit_char(s@[k as int]));
            }
            return None;
        }
        k += 1;
    }
    let v = digits_value_capped(s, 0, len);
    if v <= 999_999_999 && v < bound as u64 {
        Some(v as usize)
    } else {
        None
    }
}

/// Whether `s` begins with `p`.
fn str_has_prefix(s: &str, p: &str) -> (b: bool)
    ensures
        b == has_prefix(s@, p@),
{
    let n = p.unicode_len();
    if s.unicode_len() < n {
        return false;
    }
    let mut i: usize = 0;
    while i < n
        invariant
            i <= n == p@.len() <= s@.len(),
            forall|k: int| 0 <= k < i ==> s@[k] == p@[k],
        decreases n - i,
    {
        if s.get_char(i) != p.get_char(i) {
            proof {
                assert(s@.subrange(0, p@.len() as int)[i as int] != p@[i as int]);
            }
            return false;
        }
        i += 1;
    }
    proof {
        assert(s@.subrange(0, p@.len() as int) =~= p@);
    }
    true
}

/// Whether `s` and `p` hold the same characters.
fn str_eq_chars(s: &str, p: &str) -> (b: bool)
    ensures
        b == (s@ == p@),
{
    let n = p.unicode_len();
    if s.unicode_len() != n {
        proof {
            assert(s@ != p@);
        }
        return false;
    }
    let mut i: usize = 0;
    while i < n
        invariant
            i <= n == p@.len() == s@.len(),
            forall|k: int| 0 <= k < i ==> s@[k] == p@[k],
        decreases n - i,
    {
        if s.get_char(i) != p.get_char(i) {
            return false;
        }
        i += 1;
    }
    proof {
        assert(s@ =~= p@);
    }
    true
}

/// Parses a `turn` line into zero-based board coordinates.
#[verifier::loop_isolation(false)]
pub fn parse_coords(line: &str) -> (r: Result<(usize, usize), CoordinatesError>)
    ensures
        r == spec_parse_coords(line@),
{
    proof {
        reveal_strlit("turn ");
    }
    if !str_has_prefix(line, "turn ") {
        return Err(CoordinatesError::InvalidFormat);
    }
    let len = line.unicode_len();
    let a1 = scan_nonspace(line, 5);
    if a1 >= len {
        return Err(CoordinatesError::InvalidFormat);
    }
    let e1 = scan_token_end(line, a1);
    let a2 = scan_nonspace(line, e1);
    if a2 >= len {
        return Err(CoordinatesError::InvalidFormat);
    }
    let e2 = scan_token_end(line, a2);
    let a3 = scan_nonspace(line, e2);
    if a3 < len {
        return Err(CoordinatesError::InvalidFormat);
    }
    if e1 - a1 != 1 {
        return Err(CoordinatesError::InvalidFormat);
    }
    let mut k = a2;
    while k < e2
        invariant
            a2 <= k <= e2 <= line@.len(),
            e2 as int == token_end(line@, a2 as int),
            forall|j: int| a2 <= j < k ==> is_digit_char(#[trigger] line@[j]),
        decreases e2 - k,
    {
        let c = line.get_char(k);
        let u = c as u32;
        if !(48 <= u && u <= 57) {
            proof {
                assert(!is_digit_char(line@[k as int]));
                assert(!all_digits(line@, a2 as int, e2 as int));
            }
            return Err(CoordinatesError::InvalidFormat);
        }
        k += 1;
    }
    let c1 = line.get_char(a1);
    let x: usize = if c1 == 'A' {
        0
    } else if c1 == 'B' {
        1
    } else if c1 == 'C' {
        2
    } else {
        return Err(CoordinatesError::InvalidValue);
    };
    let v = digits_value_capped(line, a2, e2);
    if 1 <= v && v <= 3 {
        Ok((x, (v - 1) as usize))
    } else {
        Err(CoordinatesError::InvalidValue)
    }
}

/// Maps a row letter and a one-based column to zero-based coordinates.
pub fn convert_coords(x: char, y: usize) -> (r: Option<(usize, usize)>)
    ensures
        r == (match spec_row_letter(x) {
            None => None::<(usize, usize)>,
            Some(row) => if 1 <= y <= 3 {
                Some((row, (y - 1) as usize))
            } else {
                None
            },
        }),
{
    let row: usize = if x == 'A' {
        0
    } else if x == 'B' {
        1
    } else if x == 'C' {
        2
    } else {
        return None;
    };
    if 1 <= y && y <= 3 {
        Some((row, y - 1))
    } else {
        None
    }
}

/// What an input line is resolved to.  The commands are tried in a fixed
/// order by prefix; a `turn` line that fails to parse and a `start` keyword
/// without an argument resolve to nothing, as does anything unrecognised.
pub open spec fn process_input_post(s: Seq<char>, r: Option<Input>) -> bool {
    if has_prefix(s, "help"@) {
        r is None
    } else if has_prefix(s, "peers"@) {
        r == Some(Input::ListPeers)
    } else if has_prefix(s, "turn"@) {
        match spec_parse_coords(s) {
            Ok((x, y)) => r matches Some(Input::Turn(a, b)) && a == x && b == y,
            Err(_) => r is None,
        }
    } else if has_prefix(s, "start "@) {
        r matches Some(Input::InitiateGame(t)) && t@ == s.skip(6)
    } else if has_prefix(s, "start"@) {
        r is None
    } else if s == "y"@ || s == "yes"@ {
        r == Some(Input::Yes)
    } else if s == "n"@ || s == "no"@ {
        r == Some(Input::No)
    } else {
        r is None
    }
}

/// Resolves one input line to a local intent, if it carries one.  A `help`
/// line resolves to nothing; whether it asks for the help listing is told
/// by [`is_help_command`].
pub fn process_input(line: &str) -> (r: Option<Input>)
    ensures
        process_input_post(line@, r),
{
    if str_has_prefix(line, "help") {
        None
    } else if str_has_prefix(line, "peers") {
        Some(Input::ListPeers)
    } else if str_has_prefix(line, "turn") {
        match parse_coords(line) {
            Ok((x, y)) => Some(Input::Turn(x, y)),
            Err(_) => None,
        }
    } else if str_has_prefix(line, "start ") {
        proof {
            reveal_strlit("start ");
        }
        let len = line.unicode_len();
        let rest = line.substring_char(6, len);
        Some(Input::InitiateGame(String::from_str(rest)))
    } else if str_has_prefix(line, "start") {
        None
    } else if str_eq_chars(line, "y") || str_eq_chars(line, "yes") {
        Some(Input::Yes)
    } else if str_eq_chars(line, "n") || str_eq_chars(line, "no") {
        Some(Input::No)
    } else {
        None
    }
}

/// Whether the line asks for the help listing.
pub fn is_help_command(line: &str) -> (b: bool)
    ensures
        b == has_prefix(line@, "help"@),
{
    str_has_prefix(line, "help")
}

} // verus!

//! The address of the mail relay: a host name, optionally followed by a
//! port.

use vstd::prelude::*;
use vstd::string::StrSliceExecFns;
use crate::text::{parse_natural, read_natural};

verus! {

/// The port that a text stands for: an optional plus sign followed by one
/// or more decimal digits whose value is at most 65535. Any other text
/// stands for no port.
pub open spec fn parse_port(s: Seq<char>) -> Option<u16> {
    match parse_natural(s, 65535) {
        Some(port) => Some(port as u16),
        None => None,
    }
}

/// The position, at or after `start`, of the first `]` that a `:` follows;
/// the length of the text when there is none.
pub open spec fn bracket_colon(s: Seq<char>, start: int) -> int
    decreases s.len() - start,
{
    if start < 0 || start + 1 >= s.len() {
        s.len() as int
    } else if s[start] == ']' && s[start + 1] == ':' {
        start
    } else {
        bracket_colon(s, start + 1)
    }
}

/// The position of the last `:` before `upto`, or `-1` when there is none.
pub open spec fn last_colon(s: Seq<char>, upto: int) -> int
    decreases upto,
{
    if upto <= 0 || upto > s.len() {
        -1
    } else if s[upto - 1] == ':' {
        upto - 1
    } else {
        last_colon(s, upto - 1)
    }
}

/// Host and port of a relay address.
///
/// An address that opens with `[` and holds `]:` is bracketed: the host
/// stands between the bracket and the first `]:`, and what follows is the
/// port, if it is one. Any other address is split at its last `:` if what
/// follows that is a port, and is a bare host otherwise.
pub open spec fn host_and_port(input: Seq<char>) -> (Seq<char>, Option<u16>) {
    let rest = input.subrange(1, input.len() as int);
    if input.len() > 0 && input[0] == '[' && bracket_colon(rest, 0) < rest.len() {
        let at = bracket_colon(rest, 0);
        (rest.subrange(0, at), parse_port(rest.subrange(at + 2, rest.len() as int)))
    } else {
        let at = last_colon(input, input.len() as int);
        if at >= 0 && parse_port(input.subrange(at + 1, input.len() as int)) is Some {
            (input.subrange(0, at), parse_port(input.subrange(at + 1, input.len() as int)))
        } else {
            (input, None)
        }
    }
}

/// Reads the characters of `text` from `from` on as a port.
fn read_port(text: &str, from: usize) -> (port: Option<u16>)
    requires
        from <= text@.len(),
    ensures
        port == parse_port(text@.subrange(from as int, text@.len() as int)),
{
    let len = text.unicode_len();
    match read_natural(text, from, len, 65535) {
        Some(port) => Some(port as u16),
        None => None,
    }
}

/// Finds the first `]:` behind the opening bracket of `input`; the result
/// counts from the character after the bracket.
fn find_bracket_colon(input: &str, len: usize) -> (at: usize)
    requires
        len == input@.len(),
        len > 0,
    ensures
        at == bracket_colon(input@.subrange(1, len as int), 0),
        at <= len - 1,
{
    let ghost rest = input@.subrange(1, len as int);
    let mut i: usize = 1;
    while i < len - 1
        invariant
            1 <= i <= len,
            len == input@.len(),
            rest == input@.subrange(1, len as int),
            bracket_colon(rest, 0) == bracket_colon(rest, i - 1),
        decreases len - i,
    {
        assert(rest[i - 1] == input@[i as int]);
        assert(rest[i as int] == input@[i + 1]);
        if input.get_char(i) == ']' && input.get_char(i + 1) == ':' {
            return i - 1;
        }
        i += 1;
    }
    len - 1
}

/// Finds the last `:` of `input`.
fn find_last_colon(input: &str, len: usize) -> (at: Option<usize>)
    requires
        len == input@.len(),
    ensures
        match at {
            Some(at) => at == last_colon(input@, len as int) && at < len,
            None => last_colon(input@, len as int) == -1,
        },
{
    let mut j: usize = len;
    while j > 0
        invariant
            j <= len,
            len == input@.len(),
            last_colon(input@, len as int) == last_colon(input@, j as int),
        decreases j,
    {
        if input.get_char(j - 1) == ':' {
            return Some(j - 1);
        }
        j -= 1;
    }
    None
}

/// Splits a relay address into host and port: `host`, `host:port` or
/// `[host]:port`, the last for a host that holds colons itself.
pub fn split_host_port(input: &str) -> (parts: (&str, Option<u16>))
    ensures
        parts.0@ == host_and_port(input@).0,
        parts.1 == host_and_port(input@).1,
{
    let len = input.unicode_len();
    if len > 0 && input.get_char(0) == '[' {
        let ghost rest = input@.subrange(1, len as int);
        let at = find_bracket_colon(input, len);
        if at < len - 1 {
            proof {
                lemma_bracket_colon(rest, 0);
            }
            let host = input.substring_char(1, at + 1);
            let port = read_port(input, at + 3);
            proof {
                assert(rest.subrange(0, at as int) =~= input@.subrange(1, at + 1));
                assert(rest.subrange(at + 2, rest.len() as int) =~= input@.subrange(
                    at + 3,
                    len as int,
                ));
            }
            return (host, port);
        }
    }
    match find_last_colon(input, len) {
        Some(at) => {
            let port = read_port(input, at + 1);
            if port.is_some() {
                (input.substring_char(0, at), port)
            } else {
                (input, None)
            }
        },
        None => (input, None),
    }
}

/// Where `bracket_colon` points inside the text, a `]` stands and a `:`
/// follows it.
pub proof fn lemma_bracket_colon(s: Seq<char>, start: int)
    requires
        0 <= start,
    ensures
        start <= bracket_colon(s, start) || bracket_colon(s, start) == s.len(),
        bracket_colon(s, start) < s.len() ==> bracket_colon(s, start) + 1 < s.len() && s[bracket_colon(
            s,
            start,
        )] == ']' && s[bracket_colon(s, start) + 1] == ':',
    decreases s.len() - start,
{
    if start + 1 < s.len() && !(s[start] == ']' && s[start + 1] == ':') {
        lemma_bracket_colon(s, start + 1);
    }
}

} // verus!

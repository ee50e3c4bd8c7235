//! Splitting a `host:port` text into its two parts.

use crate::text::{
    chars_of, decimal, is_digit, lemma_decimal_round_trip, parse_unsigned_from,
    parse_unsigned_spec, render_decimal,
};
use vstd::prelude::*;

verus! {

/// The index of the last occurrence of `c` in `s`, or -1 where there is none.
pub open spec fn last_index_of(s: Seq<char>, c: char) -> int
    decreases s.len(),
{
    if s.len() == 0 {
        -1
    } else if s.last() == c {
        s.len() - 1
    } else {
        last_index_of(s.drop_last(), c)
    }
}

/// What `last_index_of` finds: -1 exactly when `c` does not occur; otherwise
/// a position that holds `c` with no `c` behind it.
pub proof fn lemma_last_index_of(s: Seq<char>, c: char)
    ensures
        -1 <= last_index_of(s, c) < s.len(),
        last_index_of(s, c) >= 0 ==> s[last_index_of(s, c)] == c,
        forall|j: int| last_index_of(s, c) < j < s.len() ==> s[j] != c,
    decreases s.len(),
{
    if s.len() > 0 && s.last() != c {
        lemma_last_index_of(s.drop_last(), c);
        assert forall|j: int| last_index_of(s, c) < j < s.len() implies s[j] != c by {
            if j < s.len() - 1 {
                assert(s.drop_last()[j] == s[j]);
            }
        }
    }
}

/// The largest port number.
pub const MAX_PORT: u64 = 65535;

/// The host and port that `s` names. Where `s` holds a `:` and what follows the
/// last one is a port number (an optional `+` and decimal digits, at most
/// 65535), the host is what stands before that `:`. Otherwise the host is the
/// whole of `s` and the port is `default_port`.
pub open spec fn parse_host_port_spec(s: Seq<char>, default_port: u16) -> (Seq<char>, u16) {
    let at = last_index_of(s, ':');
    if at < 0 {
        (s, default_port)
    } else {
        match parse_unsigned_spec(s.subrange(at + 1, s.len() as int), MAX_PORT as nat) {
            Some(port) => (s.subrange(0, at), port as u16),
            None => (s, default_port),
        }
    }
}

/// Splits `s` at its last `:` into host and port; where no port number follows
/// it, the whole of `s` is the host and the port is `default_port`.
pub fn parse_host_port(s: &str, default_port: u16) -> (r: (String, u16))
    ensures
        (r.0@, r.1) == parse_host_port_spec(s@, default_port),
{
    let chars = chars_of(s);
    let mut i: usize = chars.len();
    assert(chars@.take(i as int) == chars@);
    while i > 0
        invariant
            i <= chars.len(),
            chars@ == s@,
            last_index_of(chars@, ':') == last_index_of(chars@.take(i as int), ':'),
        decreases i,
    {
        let ghost prefix = chars@.take(i as int);
        assert(prefix.last() == chars@[i - 1]);
        assert(prefix.drop_last() == chars@.take(i - 1));
        if chars[i - 1] == ':' {
            return match parse_unsigned_from(&chars, i, MAX_PORT) {
                Some(port) => {
                    let host = s.substring_char(0, i - 1);
                    (String::from_str(host), port as u16)
                },
                None => (String::from_str(s), default_port),
            };
        }
        i = i - 1;
    }
    assert(chars@.take(0).len() == 0);
    (String::from_str(s), default_port)
}

/// A host and a port written as one text: the host, `:` and the port in decimal.
pub open spec fn join_host_port_spec(host: Seq<char>, port: u16) -> Seq<char> {
    host + seq![':'] + decimal(port as nat)
}

/// Writes a host and a port as one text: the host, `:` and the port in decimal.
pub fn join_host_port(host: &str, port: u16) -> (r: String)
    ensures
        r@ == join_host_port_spec(host@, port),
{
    proof {
        reveal_strlit(":");
    }
    let mut r = String::from_str(host);
    r.append(":");
    let digits = render_decimal(port as u64);
    r.append(digits.as_str());
    assert(":"@ =~= seq![':']);
    r
}

/// The text by which the addresses of a host name are looked up: the name with
/// port 0.
pub fn lookup_address(host: &str) -> (r: String)
    ensures
        r@ == join_host_port_spec(host@, 0),
{
    join_host_port(host, 0)
}

/// A host and port written as one text split into the same host and port,
/// whatever the host holds and whatever the default is.
pub proof fn lemma_join_then_parse(host: Seq<char>, port: u16, default_port: u16)
    ensures
        parse_host_port_spec(join_host_port_spec(host, port), default_port) == (host, port),
{
    let digits = decimal(port as nat);
    let s = join_host_port_spec(host, port);
    lemma_decimal_round_trip(port as nat, MAX_PORT as nat);
    lemma_last_index_of(s, ':');
    let at = last_index_of(s, ':');
    assert(s[host.len() as int] == ':');
    assert forall|j: int| host.len() < j < s.len() implies s[j] != ':' by {
        assert(s[j] == digits[j - host.len() - 1]);
        assert(is_digit(digits[j - host.len() - 1]));
    }
    assert(at == host.len());
    assert(s.subrange(at + 1, s.len() as int) =~= digits);
    assert(s.subrange(0, at) =~= host);
}

} // verus!

//! The server's settings read from the environment.

use vstd::prelude::*;
use crate::text::is_digit;

verus! {

/// The number that a run of decimal digits denotes.
pub open spec fn digits_value(s: Seq<char>) -> int
    decreases s.len(),
{
    if s.len() == 0 {
        0
    } else {
        digits_value(s.drop_last()) * 10 + (s.last() as int - '0' as int)
    }
}

/// `s` without a leading `+`.
pub open spec fn unsigned_part(s: Seq<char>) -> Seq<char> {
    if s.len() > 0 && s[0] == '+' { s.drop_first() } else { s }
}

/// Whether every character of `d` is a decimal digit.
pub open spec fn all_digits(d: Seq<char>) -> bool {
    forall|i: int| 0 <= i < d.len() ==> is_digit(#[trigger] d[i])
}

/// The port that `u16::from_str` reads from `s`: an optional `+`, then one
/// or more decimal digits denoting at most 65535.
pub open spec fn port_of(s: Seq<char>) -> Option<u16> {
    let d = unsigned_part(s);
    if d.len() > 0 && all_digits(d) && digits_value(d) <= 65535 {
        Some(digits_value(d) as u16)
    } else {
        None
    }
}

proof fn lemma_digits_value_nonneg(s: Seq<char>)
    requires
        all_digits(s),
    ensures
        digits_value(s) >= 0,
    decreases s.len(),
{
    if s.len() > 0 {
        assert(is_digit(s[s.len() - 1]));
        lemma_digits_value_nonneg(s.drop_last());
    }
}

/// Reads the port number from the `PORT` setting, as `port_str.parse()` does
/// for a `u16`; `None` where the text is not such a number.
pub fn parse_port(s: &str) -> (p: Option<u16>)
    ensures
        p == port_of(s@),
{
    let n = s.unicode_len();
    let mut i: usize = 0;
    if n > 0 && s.get_char(0) == '+' {
        i = 1;
    }
    let start = i;
    let ghost d = s@.subrange(start as int, n as int);
    assert(d =~= unsigned_part(s@));
    if start == n {
        return None;
    }
    let mut value: u32 = 0;
    while i < n
        invariant
            start <= i <= n,
            n == s@.len(),
            start < n,
            d == s@.subrange(start as int, n as int),
            d == unsigned_part(s@),
            forall|k: int| start <= k < i ==> is_digit(#[trigger] s@[k]),
            value as int == digits_value(s@.subrange(start as int, i as int)),
            value <= 65535,
        decreases n - i,
    {
        let c = s.get_char(i);
        let ghost prefix = s@.subrange(start as int, i + 1);
        assert(prefix.drop_last() =~= s@.subrange(start as int, i as int));
        if !('0' <= c && c <= '9') {
            assert(!is_digit(d[i - start]));
            return None;
        }
        let digit_value: u32 = (c as u32) - ('0' as u32);
        if value > 6553 || (value == 6553 && digit_value > 5) {
            proof {
                let k = (i + 1 - start) as int;
                assert(d.subrange(0, k) =~= prefix);
                assert forall|j: int| 0 <= j < k implies is_digit(#[trigger] d[j]) by {
                    assert(d[j] == s@[start + j]);
                }
                lemma_digits_value_monotone(d, k);
            }
            return None;
        }
        value = value * 10 + digit_value;
        i = i + 1;
    }
    assert(s@.subrange(start as int, n as int) == d);
    Some(value as u16)
}

/// A longer run of digits denotes at least as much as its prefix.
proof fn lemma_digits_value_monotone(d: Seq<char>, k: int)
    requires
        0 <= k <= d.len(),
        forall|i: int| 0 <= i < k ==> is_digit(#[trigger] d[i]),
    ensures
        all_digits(d) ==> digits_value(d) >= digits_value(d.subrange(0, k)),
    decreases d.len(),
{
    if all_digits(d) {
        if d.len() > k {
            let e = d.drop_last();
            assert forall|i: int| 0 <= i < e.len() implies is_digit(#[trigger] e[i]) by {
                assert(e[i] == d[i]);
            }
            lemma_digits_value_monotone(e, k);
            assert(e.subrange(0, k) =~= d.subrange(0, k));
            assert(is_digit(d[d.len() - 1]));
            lemma_digits_value_nonneg(e);
        } else {
            assert(d.subrange(0, k) =~= d);
        }
    }
}

} // verus!

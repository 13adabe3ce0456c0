//! Settings read from the environment: how their text is turned into values.
use vstd::prelude::*;
use crate::text::same_text;

verus! {

/// `c` is an ASCII decimal digit.
pub open spec fn is_digit(c: char) -> bool {
    '0' <= c && c <= '9'
}

/// Every character of `s` is a decimal digit.
pub open spec fn all_digits(s: Seq<char>) -> bool {
    forall|i: int| 0 <= i < s.len() ==> is_digit(#[trigger] s[i])
}

/// The number that the decimal digits `s` spell.
pub open spec fn digits_value(s: Seq<char>) -> int
    decreases s.len(),
{
    if s.len() == 0 {
        0
    } else {
        digits_value(s.drop_last()) * 10 + (s.last() as int - '0' as int)
    }
}

/// What the standard unsigned integer parsers (`u64::from_str` and its
/// kin) give for `s` with values up to `max`: an optional leading `+`, then
/// one or more decimal digits spelling a number no greater than `max`;
/// anything else is refused.
pub open spec fn parsed_unsigned(s: Seq<char>, max: int) -> Option<int> {
    let body = if s.len() > 0 && s[0] == '+' { s.drop_first() } else { s };
    if body.len() > 0 && all_digits(body) && digits_value(body) <= max {
        Some(digits_value(body))
    } else {
        None
    }
}

/// A longer run of digits spells a number at least as large.
pub proof fn lemma_digits_grow(s: Seq<char>, k: int)
    requires
        0 <= k <= s.len(),
        all_digits(s),
    ensures
        digits_value(s) >= digits_value(s.subrange(0, k)),
        digits_value(s) >= 0,
    decreases s.len(),
{
    if s.len() > 0 {
        assert(all_digits(s.drop_last()));
        if k == s.len() {
            assert(s.subrange(0, k) =~= s);
            lemma_digits_grow(s.drop_last(), 0);
        } else {
            assert(s.drop_last().subrange(0, k) =~= s.subrange(0, k));
            lemma_digits_grow(s.drop_last(), k);
        }
    } else {
        assert(s.subrange(0, k) =~= s);
    }
}

/// Parses `s` as an unsigned integer no greater than `max`, as the
/// standard parsers do.
pub fn parse_unsigned(s: &str, max: u64) -> (r: Option<u64>)
    ensures
        match r {
            Some(v) => parsed_unsigned(s@, max as int) == Some(v as int),
            None => parsed_unsigned(s@, max as int) is None,
        },
{
    let n = s.unicode_len();
    let start: usize = if n > 0 && s.get_char(0) == '+' { 1 } else { 0 };
    let ghost body = s@.subrange(start as int, n as int);
    proof {
        if n > 0 && s@[0] == '+' {
            assert(body =~= s@.drop_first());
        } else {
            assert(body =~= s@);
        }
    }
    if start >= n {
        return None;
    }
    let mut acc: u64 = 0;
    let mut i: usize = start;
    proof {
        assert(body.subrange(0, 0) =~= Seq::<char>::empty());
    }
    while i < n
        invariant
            start <= i <= n,
            n == s@.len(),
            body == s@.subrange(start as int, n as int),
            body == (if s@.len() > 0 && s@[0] == '+' { s@.drop_first() } else { s@ }),
            body.len() > 0,
            all_digits(body.subrange(0, i - start)),
            acc as int == digits_value(body.subrange(0, i - start)),
            acc <= max,
        decreases n - i,
    {
        let c = s.get_char(i);
        let ghost pre = body.subrange(0, i - start);
        let ghost next = body.subrange(0, i + 1 - start);
        proof {
            assert(next.drop_last() =~= pre);
            assert(next.last() == c);
        }
        if !('0' <= c && c <= '9') {
            proof {
                assert(!all_digits(body)) by {
                    assert(body[i - start] == c);
                }
            }
            return None;
        }
        let d: u64 = (c as u32 - '0' as u32) as u64;
        let wide: u128 = acc as u128 * 10 + d as u128;
        if wide > max as u128 {
            proof {
                assert(all_digits(next));
                if all_digits(body) {
                    lemma_digits_grow(body, i + 1 - start);
                }
            }
            return None;
        }
        acc = wide as u64;
        proof {
            assert(all_digits(next));
        }
        i = i + 1;
    }
    proof {
        assert(body.subrange(0, n - start) =~= body);
    }
    Some(acc)
}

/// The thumbnail bound configured by `value`: its unsigned 32-bit value,
/// `300` when it is unset or unreadable.
pub fn thumb_dimension(value: Option<String>) -> (r: u32)
    ensures
        match value {
            Some(v) => match parsed_unsigned(v@, u32::MAX as int) {
                Some(x) => r as int == x,
                None => r == 300,
            },
            None => r == 300,
        },
{
    match value {
        Some(v) => match parse_unsigned(v.as_str(), u32::MAX as u64) {
            Some(x) => x as u32,
            None => 300,
        },
        None => 300,
    }
}

/// The connection timeout configured by `value`, in seconds: its unsigned
/// 64-bit value, none when it is unset or unreadable.
pub fn conn_timeout_secs(value: Option<String>) -> (r: Option<u64>)
    ensures
        match value {
            Some(v) => match parsed_unsigned(v@, u64::MAX as int) {
                Some(x) => r == Some(x as u64),
                None => r is None,
            },
            None => r is None,
        },
{
    match value {
        Some(v) => parse_unsigned(v.as_str(), u64::MAX),
        None => None,
    }
}

/// The request body limit configured by `value`, or by `default` when it
/// is unset: its `usize` value, none when it is unreadable.
pub fn body_size_limit(value: Option<String>, default: &str) -> (r: Option<usize>)
    ensures
        ({
            let text = match value {
                Some(v) => v@,
                None => default@,
            };
            match parsed_unsigned(text, usize::MAX as int) {
                Some(x) => r == Some(x as usize),
                None => r is None,
            }
        }),
{
    let parsed = match &value {
        Some(v) => parse_unsigned(v.as_str(), usize::MAX as u64),
        None => parse_unsigned(default, usize::MAX as u64),
    };
    match parsed {
        Some(x) => Some(x as usize),
        None => None,
    }
}

/// Whether the browser runs sandboxed: exactly when `value` is `true`, as
/// `bool::from_str` reads it; unset or unreadable means not sandboxed.
pub fn chromium_sandboxed(value: Option<String>) -> (r: bool)
    ensures
        r == (value matches Some(v) && v@ == "true"@),
{
    match value {
        Some(v) => same_text(v.as_str(), "true"),
        None => false,
    }
}

/// A configured text, or `default` when it is unset.
pub fn setting_or(value: Option<String>, default: &str) -> (r: String)
    ensures
        match value {
            Some(v) => r@ == v@,
            None => r@ == default@,
        },
{
    match value {
        Some(v) => v,
        None => String::from_str(default),
    }
}

} // verus!

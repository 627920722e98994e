//! Start-up settings: defaults, the listen address text and the token lifetime.

use crate::common::text::to_chars;
use vstd::prelude::*;

verus! {

/// The listen host used when `SERVER_HOST` is not set.
pub open spec fn default_host() -> Seq<char> {
    seq!['1', '2', '7', '.', '0', '.', '0', '.', '1']
}

/// The listen port used when `SERVER_PORT` is not set.
pub open spec fn default_port() -> Seq<char> {
    seq!['3', '0', '0', '0']
}

/// The token lifetime in days used when `TOKEN_EXPIRE` is not set.
pub open spec fn default_token_expire() -> i64 {
    30
}

/// Whether `c` is an ASCII decimal digit.
pub open spec fn is_digit(c: char) -> bool {
    '0' <= c <= '9'
}

/// The value of a string of decimal digits.
pub open spec fn digits_value(d: Seq<char>) -> int
    decreases d.len(),
{
    if d.len() == 0 {
        0
    } else {
        digits_value(d.drop_last()) * 10 + (d.last() as int - 48)
    }
}

/// Whether every char of `d` is an ASCII decimal digit.
pub open spec fn all_digits(d: Seq<char>) -> bool {
    forall|i: int| 0 <= i < d.len() ==> is_digit(#[trigger] d[i])
}

/// The number of days a `TOKEN_EXPIRE` text gives: one or more ASCII digits whose value fits
/// in an `i64`; `None` for anything else (a sign, a space or any other char included), on
/// which start-up stops.
pub open spec fn parse_days_spec(s: Seq<char>) -> Option<i64> {
    if s.len() == 0 || !all_digits(s) {
        None
    } else if digits_value(s) <= i64::MAX {
        Some(digits_value(s) as i64)
    } else {
        None
    }
}

/// Digits never make a prefix worth more than the whole.
proof fn lemma_digits_value_grows(d: Seq<char>, j: int)
    requires
        0 <= j <= d.len(),
        all_digits(d),
    ensures
        0 <= digits_value(d.take(j)) <= digits_value(d),
    decreases d.len(),
{
    if d.len() > 0 {
        if j == d.len() {
            assert(d.take(j) =~= d);
            let p = d.drop_last();
            assert forall|i: int| 0 <= i < p.len() implies is_digit(#[trigger] p[i]) by {
                assert(p[i] == d[i]);
            }
            lemma_digits_value_grows(p, p.len() as int);
            assert(p.take(p.len() as int) =~= p);
            assert(is_digit(d[d.len() - 1]));
        } else {
            let p = d.drop_last();
            assert forall|i: int| 0 <= i < p.len() implies is_digit(#[trigger] p[i]) by {
                assert(p[i] == d[i]);
            }
            lemma_digits_value_grows(p, j);
            assert(p.take(j) =~= d.take(j));
            lemma_digits_value_grows(p, p.len() as int);
            assert(p.take(p.len() as int) =~= p);
            assert(is_digit(d[d.len() - 1]));
        }
    }
}

/// Reads a number of days: ASCII digits only, within `i64`.
pub fn parse_days(s: &str) -> (r: Option<i64>)
    ensures
        r == parse_days_spec(s@),
{
    let v = to_chars(s);
    let n = v.len();
    if n == 0 {
        return None;
    }
    let mut acc: i64 = 0;
    let mut i: usize = 0;
    while i < n
        invariant
            i <= n == v@.len(),
            v@ == s@,
            forall|k: int| 0 <= k < i ==> is_digit(#[trigger] v@[k]),
            acc == digits_value(v@.take(i as int)),
        decreases n - i,
    {
        let c = v[i];
        if !('0' <= c && c <= '9') {
            assert(!is_digit(v@[i as int]));
            return None;
        }
        let digit = (c as u32 - 48) as i64;
        assert(v@.take(i + 1).drop_last() =~= v@.take(i as int));
        let next = match acc.checked_mul(10) {
            Some(m) => m.checked_add(digit),
            None => None,
        };
        match next {
            Some(x) => {
                acc = x;
            },
            None => {
                proof {
                    if all_digits(v@) {
                        lemma_digits_value_grows(v@, i + 1);
                    }
                }
                return None;
            },
        }
        i = i + 1;
    }
    assert(v@.take(n as int) =~= v@);
    Some(acc)
}

/// The listen address text `host:port`, with `127.0.0.1` and `3000` when unset.
pub fn bind_address(host: Option<String>, port: Option<String>) -> (r: String)
    ensures
        r@ == (match host {
            Some(h) => h@,
            None => default_host(),
        }) + seq![':'] + (match port {
            Some(p) => p@,
            None => default_port(),
        }),
{
    let mut r = match host {
        Some(h) => h,
        None => default_host_string(),
    };
    crate::common::text::push_char(&mut r, ':');
    let p = match port {
        Some(p) => p,
        None => default_port_string(),
    };
    r.append(p.as_str());
    r
}

fn default_host_string() -> (r: String)
    ensures
        r@ == default_host(),
{
    let v: Vec<char> = vec!['1', '2', '7', '.', '0', '.', '0', '.', '1'];
    crate::common::text::string_from_chars(&v, 0, v.len())
}

fn default_port_string() -> (r: String)
    ensures
        r@ == default_port(),
{
    let v: Vec<char> = vec!['3', '0', '0', '0'];
    crate::common::text::string_from_chars(&v, 0, v.len())
}

/// The token lifetime in days: 30 when `TOKEN_EXPIRE` is unset, else its digits' value
/// (`None`, which stops start-up, when it holds any non-digit char or is out of range).
pub fn token_expire_days(value: Option<String>) -> (r: Option<i64>)
    ensures
        r == (match value {
            Some(s) => parse_days_spec(s@),
            None => Some(default_token_expire()),
        }),
{
    match value {
        Some(s) => parse_days(s.as_str()),
        None => Some(30),
    }
}

} // verus!

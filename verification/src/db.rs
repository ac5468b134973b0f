//! Database connection settings: the URL and the pool bounds, read from
//! the environment's text values.

use vstd::prelude::*;
use crate::text::{decimal_digits, digit_char, lemma_decimal_digits_are_digits};

verus! {

/// Largest pool when `DATABASE_POOL_MAX_SIZE` is absent or not a number.
pub const DEFAULT_MAX_CONNECTIONS: u32 = 16;

/// Smallest pool when `DATABASE_POOL_MIN_SIZE` is absent or not a number.
pub const DEFAULT_MIN_CONNECTIONS: u32 = 1;

/// What the connection pool is opened with; statement logging is off.
#[derive(Debug)]
pub struct ConnectSettings {
    pub database_url: String,
    pub max_connections: u32,
    pub min_connections: u32,
    pub sqlx_logging: bool,
}

/// Every character of `s` is an ASCII digit.
pub open spec fn all_digits(s: Seq<char>) -> bool {
    forall|i: int| 0 <= i < s.len() ==> '0' <= #[trigger] s[i] <= '9'
}

/// The number the ASCII digits `s` write in base ten.
pub open spec fn digits_value(s: Seq<char>) -> int
    decreases s.len(),
{
    if s.len() == 0 {
        0
    } else {
        digits_value(s.drop_last()) * 10 + (s.last() as int - '0' as int)
    }
}

/// `s` without one leading `+`.
pub open spec fn unsigned_digits(s: Seq<char>) -> Seq<char> {
    if s.len() > 0 && s[0] == '+' {
        s.drop_first()
    } else {
        s
    }
}

/// What `str::parse::<u32>` gives: an optional `+`, then at least one
/// ASCII digit, naming a value that fits in a `u32`.
pub open spec fn parsed_u32(s: Seq<char>) -> Option<u32> {
    let d = unsigned_digits(s);
    if d.len() > 0 && all_digits(d) && digits_value(d) <= u32::MAX {
        Some(digits_value(d) as u32)
    } else {
        None
    }
}

proof fn lemma_digits_value_nonneg(s: Seq<char>)
    requires
        all_digits(s),
    ensures
        digits_value(s) >= 0,
    decreases s.len(),
{
    if s.len() > 0 {
        lemma_digits_value_nonneg(s.drop_last());
    }
}

proof fn lemma_digits_value_grows(s: Seq<char>, i: int)
    requires
        all_digits(s),
        0 <= i <= s.len(),
    ensures
        digits_value(s.take(i)) <= digits_value(s),
    decreases s.len(),
{
    if i < s.len() {
        assert(s.drop_last().take(i) =~= s.take(i));
        lemma_digits_value_grows(s.drop_last(), i);
        lemma_digits_value_nonneg(s.drop_last());
    } else {
        assert(s.take(i) =~= s);
    }
}

/// Reads a `u32` written in decimal, as `str::parse::<u32>` does.
pub fn parse_u32(s: &str) -> (r: Option<u32>)
    ensures
        r == parsed_u32(s@),
{
    let n = s.unicode_len();
    if n == 0 {
        return None;
    }
    let start: usize = if s.get_char(0) == '+' {
        1
    } else {
        0
    };
    if start == n {
        return None;
    }
    let ghost d = unsigned_digits(s@);
    assert(d =~= s@.subrange(start as int, n as int));
    let mut value: u64 = 0;
    let mut i: usize = start;
    while i < n
        invariant
            start <= i <= n,
            n == s@.len(),
            d =~= s@.subrange(start as int, n as int),
            d == unsigned_digits(s@),
            all_digits(d.take(i - start)),
            value == digits_value(d.take(i - start)),
            value <= u32::MAX,
        decreases n - i,
    {
        let c = s.get_char(i);
        if c < '0' || c > '9' {
            assert(d[i - start] == c);
            assert(!all_digits(d)) by {
                assert(!('0' <= d[i - start] <= '9'));
            }
            return None;
        }
        let digit = (c as u32 - '0' as u32) as u64;
        let next = value * 10 + digit;
        assert(d.take(i + 1 - start).drop_last() =~= d.take(i - start));
        assert(d.take(i + 1 - start).last() == c);
        if next > u32::MAX as u64 {
            proof {
                assert(digits_value(d.take(i + 1 - start)) == next);
                if all_digits(d) {
                    lemma_digits_value_grows(d, i + 1 - start);
                    assert(digits_value(d) > u32::MAX);
                }
            }
            return None;
        }
        value = next;
        i = i + 1;
    }
    assert(d.take(n - start) =~= d);
    Some(value as u32)
}

/// The pool bound a setting gives: its number, or `default` when absent or
/// not a number.
pub open spec fn pool_bound(value: Option<Seq<char>>, default: u32) -> u32 {
    match value {
        Some(v) => match parsed_u32(v) {
            Some(n) => n,
            None => default,
        },
        None => default,
    }
}

/// The view of an optional text.
pub open spec fn opt_chars(t: Option<String>) -> Option<Seq<char>> {
    match t {
        Some(v) => Some(v@),
        None => None,
    }
}

/// The pool bound given by a setting's value.
pub fn pool_size(value: Option<String>, default: u32) -> (r: u32)
    ensures
        r == pool_bound(opt_chars(value), default),
{
    match value {
        Some(v) => match parse_u32(v.as_str()) {
            Some(n) => n,
            None => default,
        },
        None => default,
    }
}

/// The settings the pool is opened with, from the values of
/// `DATABASE_URL`, `DATABASE_POOL_MAX_SIZE` and `DATABASE_POOL_MIN_SIZE`;
/// without a URL there is nothing to connect to.
pub fn build_connect_options(
    database_url: Option<String>,
    max_size: Option<String>,
    min_size: Option<String>,
) -> (r: Result<ConnectSettings, String>)
    ensures
        match database_url {
            None => r matches Err(e) && e@ == "DATABASE_URL is not set"@,
            Some(url) => r matches Ok(c) && c.database_url@ == url@ && c.max_connections
                == pool_bound(opt_chars(max_size), DEFAULT_MAX_CONNECTIONS) && c.min_connections
                == pool_bound(opt_chars(min_size), DEFAULT_MIN_CONNECTIONS) && !c.sqlx_logging,
        },
{
    let database_url = match database_url {
        Some(url) => url,
        None => return Err(String::from_str("DATABASE_URL is not set")),
    };
    Ok(
        ConnectSettings {
            database_url,
            max_connections: pool_size(max_size, DEFAULT_MAX_CONNECTIONS),
            min_connections: pool_size(min_size, DEFAULT_MIN_CONNECTIONS),
            sqlx_logging: false,
        },
    )
}

proof fn lemma_digits_value_of_decimal(n: nat)
    ensures
        digits_value(decimal_digits(n)) == n,
    decreases n,
{
    let d = n % 10;
    assert(((d + 48) as u8) as int == d + 48);
    assert(digit_char(d) as int == d + 48);
    if n >= 10 {
        lemma_digits_value_of_decimal(n / 10);
        let s = decimal_digits(n);
        assert(s.drop_last() =~= decimal_digits(n / 10));
        assert(s.last() == digit_char(n % 10));
        assert(digits_value(s) == digits_value(s.drop_last()) * 10 + (s.last() as int - '0' as int));
        assert((n / 10) * 10 + n % 10 == n);
    } else {
        let s = decimal_digits(n);
        assert(s.drop_last() =~= Seq::<char>::empty());
        assert(digits_value(s) == digits_value(s.drop_last()) * 10 + (s.last() as int - '0' as int));
    }
}

/// A pool size written in decimal is read back as that size.
pub proof fn lemma_pool_size_roundtrip(n: u32)
    ensures
        parsed_u32(decimal_digits(n as nat)) == Some(n),
{
    lemma_decimal_digits_are_digits(n as nat);
    lemma_digits_value_of_decimal(n as nat);
    let s = decimal_digits(n as nat);
    assert(s[0] != '+');
    assert(unsigned_digits(s) == s);
}

} // verus!

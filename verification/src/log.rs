//! Log-level configuration: reads the textual level out of the service's
//! environment setting, falling back to a default when it is absent or not a
//! level at all.

use vstd::prelude::*;

verus! {

/// The verbosity levels a logging subscriber can be limited to.
#[derive(Clone, Copy, PartialEq, Eq, Structural, Debug)]
pub enum LogLevel {
    Off,
    Trace,
    Debug,
    Info,
    Warn,
    Error,
}

/// The code point of `c`, shifted to lower case when `c` is an ascii
/// upper-case letter; `c` itself otherwise.
pub open spec fn to_lower(c: char) -> char {
    if 65 <= c as u32 && c as u32 <= 90 {
        ((c as u32 + 32) as u8) as char
    } else {
        c
    }
}

/// Ascii-case-insensitive equality of two character sequences.
pub open spec fn ci_eq(a: Seq<char>, b: Seq<char>) -> bool {
    a.len() == b.len() && forall|i: int| 0 <= i < a.len() ==> to_lower(a[i]) == to_lower(b[i])
}

/// An ascii decimal digit.
pub open spec fn is_digit(c: char) -> bool {
    48 <= c as u32 && c as u32 <= 57
}

/// The value of an ascii decimal digit.
pub open spec fn digit_val(c: char) -> int {
    c as u32 - 48
}

/// The value of a run of decimal digits, most significant first.
pub open spec fn digits_val(ds: Seq<char>) -> int
    decreases ds.len(),
{
    if ds.len() == 0 {
        0
    } else {
        digits_val(ds.drop_last()) * 10 + digit_val(ds.last())
    }
}

/// `s` without one leading `'+'` sign.
pub open spec fn strip_plus(s: Seq<char>) -> Seq<char> {
    if s.len() > 0 && s[0] == '+' {
        s.drop_first()
    } else {
        s
    }
}

/// A non-negative integer literal as the standard library reads one: an
/// optional `'+'` followed by at least one decimal digit.
pub open spec fn is_uint_literal(s: Seq<char>) -> bool {
    strip_plus(s).len() > 0 && forall|i: int|
        0 <= i < strip_plus(s).len() ==> is_digit(strip_plus(s)[i])
}

/// The numeric value of a non-negative integer literal.
pub open spec fn uint_val(s: Seq<char>) -> int {
    digits_val(strip_plus(s))
}

/// The level named by the numbers zero to five, in rising verbosity of what
/// they admit.
pub open spec fn numeric_level(n: int) -> LogLevel {
    if n == 0 {
        LogLevel::Off
    } else if n == 1 {
        LogLevel::Error
    } else if n == 2 {
        LogLevel::Warn
    } else if n == 3 {
        LogLevel::Info
    } else if n == 4 {
        LogLevel::Debug
    } else {
        LogLevel::Trace
    }
}

/// How a level setting is read, mirroring how the logging facade documents it:
/// the numbers zero to five name the levels; the empty string names `Error`;
/// the level names match regardless of ascii case; anything else is not a
/// level, and the default `Info` applies.
pub open spec fn level_of(s: Seq<char>) -> LogLevel {
    if is_uint_literal(s) && uint_val(s) <= 5 {
        numeric_level(uint_val(s))
    } else if s.len() == 0 {
        LogLevel::Error
    } else if ci_eq(s, "error"@) {
        LogLevel::Error
    } else if ci_eq(s, "warn"@) {
        LogLevel::Warn
    } else if ci_eq(s, "info"@) {
        LogLevel::Info
    } else if ci_eq(s, "debug"@) {
        LogLevel::Debug
    } else if ci_eq(s, "trace"@) {
        LogLevel::Trace
    } else if ci_eq(s, "off"@) {
        LogLevel::Off
    } else {
        LogLevel::Info
    }
}

fn to_lower_char(c: char) -> (r: char)
    ensures
        r == to_lower(c),
{
    if 'A' <= c && c <= 'Z' {
        (((c as u32) + 32) as u8) as char
    } else {
        c
    }
}

/// Ascii-case-insensitive comparison of `s` with `t`.
fn ci_match(s: &str, t: &str) -> (r: bool)
    ensures
        r == ci_eq(s@, t@),
{
    let n = s.unicode_len();
    if n != t.unicode_len() {
        return false;
    }
    let mut i: usize = 0;
    while i < n
        invariant
            i <= n,
            n == s@.len(),
            n == t@.len(),
            forall|j: int| 0 <= j < i ==> to_lower(s@[j]) == to_lower(t@[j]),
        decreases n - i,
    {
        if to_lower_char(s.get_char(i)) != to_lower_char(t.get_char(i)) {
            return false;
        }
        i = i + 1;
    }
    true
}

/// Reads `s` as a small non-negative number: `Some(v)` when `s` is an integer
/// literal of value `v` at most five, `None` when it is no integer literal or
/// its value is above five.
fn small_uint(s: &str) -> (r: Option<u64>)
    ensures
        match r {
            Some(v) => is_uint_literal(s@) && uint_val(s@) == v && v <= 5,
            None => !(is_uint_literal(s@) && uint_val(s@) <= 5),
        },
{
    let n = s.unicode_len();
    let start: usize = if n > 0 && s.get_char(0) == '+' {
        1
    } else {
        0
    };
    proof {
        if start == 1 {
            assert(strip_plus(s@) =~= s@.subrange(1, n as int));
        } else {
            assert(strip_plus(s@) =~= s@);
        }
    }
    if start == n {
        return None;
    }
    let ghost ds = strip_plus(s@);
    let mut v: u64 = 0;
    let mut i: usize = start;
    while i < n
        invariant
            start <= i <= n,
            n == s@.len(),
            start < n,
            ds == strip_plus(s@),
            ds.len() == n - start,
            forall|j: int| start <= j < i ==> is_digit(s@[j]),
            forall|j: int| 0 <= j < i - start ==> ds[j] == s@[j + start],
            digits_val(ds.take(i - start)) <= 5 ==> v == digits_val(ds.take(i - start)),
            digits_val(ds.take(i - start)) > 5 ==> v > 5,
            v <= 59,
        decreases n - i,
    {
        let c = s.get_char(i);
        if !('0' <= c && c <= '9') {
            proof {
                assert(ds[i - start] == s@[i as int]);
            }
            return None;
        }
        let d: u64 = (c as u32 - 48) as u64;
        proof {
            assert(is_digit(s@[i as int]));
            assert(ds.take(i + 1 - start).drop_last() =~= ds.take(i - start));
            assert(ds.take(i + 1 - start).last() == s@[i as int]);
        }
        if v <= 5 {
            v = v * 10 + d;
        }
        i = i + 1;
    }
    proof {
        assert(ds.take(n - start) =~= ds);
        assert(is_uint_literal(s@)) by {
            assert forall|j: int| 0 <= j < ds.len() implies is_digit(ds[j]) by {
                assert(ds[j] == s@[j + start]);
            }
        }
    }
    if v <= 5 {
        Some(v)
    } else {
        None
    }
}

/// Reads an optional level setting: an absent one falls back to the default
/// `Info`; a present one is read as [`level_of`] says.
pub fn level_filter(env_var: Option<&str>) -> (r: LogLevel)
    ensures
        match env_var {
            Some(s) => r == level_of(s@),
            None => r == LogLevel::Info,
        },
{
    let s = match env_var {
        None => {
            return LogLevel::Info;
        },
        Some(s) => s,
    };
    match small_uint(s) {
        Some(v) => {
            if v == 0 {
                LogLevel::Off
            } else if v == 1 {
                LogLevel::Error
            } else if v == 2 {
                LogLevel::Warn
            } else if v == 3 {
                LogLevel::Info
            } else if v == 4 {
                LogLevel::Debug
            } else {
                LogLevel::Trace
            }
        },
        None => {
            if s.unicode_len() == 0 {
                LogLevel::Error
            } else if ci_match(s, "error") {
                LogLevel::Error
            } else if ci_match(s, "warn") {
                LogLevel::Warn
            } else if ci_match(s, "info") {
                LogLevel::Info
            } else if ci_match(s, "debug") {
                LogLevel::Debug
            } else if ci_match(s, "trace") {
                LogLevel::Trace
            } else if ci_match(s, "off") {
                LogLevel::Off
            } else {
                LogLevel::Info
            }
        },
    }
}

} // verus!

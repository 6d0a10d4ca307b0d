//! Character-sequence helpers shared by the grading pipeline: trailing-whitespace
//! trimming, substring search, line splitting, joining, first-character
//! capitalisation, decimal rendering and scrubbing of a path out of diagnostic
//! text.

use vstd::prelude::*;

verus! {

/// Ascii whitespace recognised when output is trimmed.
pub open spec fn is_space(c: char) -> bool {
    c == ' ' || c == '\t' || c == '\r' || c == '\n'
}

/// `s` without its trailing whitespace.
pub open spec fn trim_trailing(s: Seq<char>) -> Seq<char>
    decreases s.len(),
{
    if s.len() > 0 && is_space(s.last()) {
        trim_trailing(s.drop_last())
    } else {
        s
    }
}

/// Index of the first occurrence of `c` in `s`, or `s.len()` if `c` does not occur.
pub open spec fn first_at(s: Seq<char>, c: char) -> int
    decreases s.len(),
{
    if s.len() == 0 {
        0
    } else if s[0] == c {
        0
    } else {
        1 + first_at(s.drop_first(), c)
    }
}

pub proof fn lemma_first_at(s: Seq<char>, c: char)
    ensures
        0 <= first_at(s, c) <= s.len(),
        forall|j: int| 0 <= j < first_at(s, c) ==> s[j] != c,
        first_at(s, c) < s.len() ==> s[first_at(s, c)] == c,
    decreases s.len(),
{
    if s.len() > 0 && s[0] != c {
        lemma_first_at(s.drop_first(), c);
        assert forall|j: int| 0 <= j < first_at(s, c) implies s[j] != c by {
            if j > 0 {
                assert(s.drop_first()[j - 1] == s[j]);
            }
        }
        if first_at(s, c) < s.len() {
            assert(s.drop_first()[first_at(s, c) - 1] == s[first_at(s, c)]);
        }
    }
}

pub proof fn lemma_first_at_is(s: Seq<char>, c: char, i: int)
    requires
        0 <= i <= s.len(),
        forall|j: int| 0 <= j < i ==> s[j] != c,
        i < s.len() ==> s[i] == c,
    ensures
        first_at(s, c) == i,
    decreases s.len(),
{
    if s.len() > 0 {
        if s[0] == c {
            assert(i == 0);
        } else {
            assert(i >= 1);
            assert forall|j: int| 0 <= j < i - 1 implies s.drop_first()[j] != c by {
                assert(s.drop_first()[j] == s[j + 1]);
            }
            if i - 1 < s.drop_first().len() {
                assert(s.drop_first()[i - 1] == s[i]);
            }
            lemma_first_at_is(s.drop_first(), c, i - 1);
        }
    }
}

/// A copy of `line` with one trailing carriage return removed, if there is one.
pub open spec fn strip_cr(line: Seq<char>) -> Seq<char> {
    if line.len() > 0 && line.last() == '\r' {
        line.drop_last()
    } else {
        line
    }
}

/// The lines of `s`, split on `'\n'`, each with one trailing `'\r'` removed.
/// Empty input has no lines; a terminator ends a line rather than starting one.
pub open spec fn split_lines(s: Seq<char>) -> Seq<Seq<char>>
    decreases s.len(),
{
    if s.len() == 0 {
        Seq::empty()
    } else {
        let i = first_at(s, '\n');
        if 0 <= i < s.len() {
            seq![strip_cr(s.take(i))] + split_lines(s.skip(i + 1))
        } else {
            seq![strip_cr(s)]
        }
    }
}

/// `parts` joined with the separator `sep` between consecutive parts.
pub open spec fn join(parts: Seq<Seq<char>>, sep: Seq<char>) -> Seq<char>
    decreases parts.len(),
{
    if parts.len() == 0 {
        Seq::empty()
    } else if parts.len() == 1 {
        parts[0]
    } else {
        parts[0] + sep + join(parts.drop_first(), sep)
    }
}

pub proof fn lemma_join_push(parts: Seq<Seq<char>>, sep: Seq<char>, x: Seq<char>)
    requires
        parts.len() >= 1,
    ensures
        join(parts.push(x), sep) == join(parts, sep) + sep + x,
    decreases parts.len(),
{
    if parts.len() == 1 {
        assert(parts.push(x).drop_first() =~= seq![x]);
        assert(parts.push(x)[0] == parts[0]);
        assert(join(seq![x], sep) == x);
        assert(join(parts.push(x), sep) =~= parts[0] + sep + x);
    } else {
        assert(parts.push(x).drop_first() =~= parts.drop_first().push(x));
        lemma_join_push(parts.drop_first(), sep, x);
        assert(join(parts.push(x), sep) =~= join(parts, sep) + sep + x);
    }
}

/// True when `pat` occurs in `s` starting at index `i`.
pub open spec fn is_match_at(s: Seq<char>, pat: Seq<char>, i: int) -> bool {
    0 <= i && i + pat.len() <= s.len() && s.subrange(i, i + pat.len()) == pat
}

/// True when `pat` occurs somewhere in `s`.
pub open spec fn contains_seq(s: Seq<char>, pat: Seq<char>) -> bool {
    exists|i: int| is_match_at(s, pat, i)
}

/// Index of the first occurrence of `pat` in `s`, or `-1` if there is none.
pub open spec fn first_match(s: Seq<char>, pat: Seq<char>) -> int
    decreases s.len(),
{
    if pat.len() > s.len() {
        -1
    } else if s.subrange(0, pat.len() as int) == pat {
        0
    } else if s.len() == 0 {
        -1
    } else {
        let r = first_match(s.drop_first(), pat);
        if r < 0 {
            -1
        } else {
            1 + r
        }
    }
}

proof fn lemma_match_shift(s: Seq<char>, pat: Seq<char>, j: int)
    requires
        s.len() > 0,
    ensures
        0 <= j ==> (is_match_at(s, pat, j + 1) <==> is_match_at(s.drop_first(), pat, j)),
{
    if 0 <= j && j + 1 + pat.len() <= s.len() {
        assert(s.subrange(j + 1, j + 1 + pat.len()) =~= s.drop_first().subrange(
            j,
            j + pat.len(),
        ));
    }
}

pub proof fn lemma_first_match(s: Seq<char>, pat: Seq<char>)
    ensures
        first_match(s, pat) == -1 ==> !contains_seq(s, pat),
        first_match(s, pat) >= 0 ==> is_match_at(s, pat, first_match(s, pat)) && forall|j: int|
            0 <= j < first_match(s, pat) ==> !is_match_at(s, pat, j),
    decreases s.len(),
{
    let m = first_match(s, pat);
    if pat.len() > s.len() {
        assert forall|i: int| !is_match_at(s, pat, i) by {}
    } else if s.subrange(0, pat.len() as int) == pat {
    } else if s.len() == 0 {
        assert(pat.len() == 0);
        assert(s.subrange(0, 0) =~= pat);
    } else {
        lemma_first_match(s.drop_first(), pat);
        let r = first_match(s.drop_first(), pat);
        if r < 0 {
            assert forall|i: int| !is_match_at(s, pat, i) by {
                if i == 0 {
                    if is_match_at(s, pat, 0) {
                        assert(s.subrange(0, pat.len() as int) == pat);
                    }
                } else if i >= 1 {
                    lemma_match_shift(s, pat, i - 1);
                }
            }
        } else {
            lemma_match_shift(s, pat, r);
            assert(is_match_at(s, pat, m));
            assert forall|j: int| 0 <= j < m implies !is_match_at(s, pat, j) by {
                if j == 0 {
                    if is_match_at(s, pat, 0) {
                        assert(s.subrange(0, pat.len() as int) == pat);
                    }
                } else {
                    lemma_match_shift(s, pat, j - 1);
                }
            }
        }
    }
}

pub proof fn lemma_first_match_is(s: Seq<char>, pat: Seq<char>, i: int)
    requires
        is_match_at(s, pat, i),
        forall|j: int| 0 <= j < i ==> !is_match_at(s, pat, j),
    ensures
        first_match(s, pat) == i,
{
    lemma_first_match(s, pat);
    let m = first_match(s, pat);
    if m == -1 {
        assert(contains_seq(s, pat));
    } else if m < i {
        assert(!is_match_at(s, pat, m));
    } else if m > i {
        assert(!is_match_at(s, pat, i));
    }
}

pub proof fn lemma_first_match_none(s: Seq<char>, pat: Seq<char>)
    requires
        !contains_seq(s, pat),
    ensures
        first_match(s, pat) == -1,
{
    lemma_first_match(s, pat);
    if first_match(s, pat) >= 0 {
        assert(is_match_at(s, pat, first_match(s, pat)));
    }
}

/// `s` with the `m` characters starting at `i` removed.
pub open spec fn remove_at(s: Seq<char>, i: int, m: int) -> Seq<char> {
    s.take(i) + s.skip(i + m)
}

/// `s` with occurrences of `pat` removed, front to back, until none is left.
pub open spec fn scrub(s: Seq<char>, pat: Seq<char>) -> Seq<char>
    decreases s.len(),
{
    if pat.len() == 0 {
        s
    } else {
        let i = first_match(s, pat);
        if 0 <= i && i + pat.len() <= s.len() {
            scrub(remove_at(s, i, pat.len() as int), pat)
        } else {
            s
        }
    }
}

/// Scrubbing leaves no occurrence of the pattern behind, also where a removal
/// has joined two halves of a fresh occurrence.
pub proof fn lemma_scrub_clean(s: Seq<char>, pat: Seq<char>)
    requires
        pat.len() > 0,
    ensures
        !contains_seq(scrub(s, pat), pat),
    decreases s.len(),
{
    let i = first_match(s, pat);
    lemma_first_match(s, pat);
    if 0 <= i && i + pat.len() <= s.len() {
        lemma_scrub_clean(remove_at(s, i, pat.len() as int), pat);
    } else {
        assert(i == -1) by {
            if i >= 0 {
                assert(is_match_at(s, pat, i));
            }
        }
    }
}

/// The decimal digit `d` as a character.
pub open spec fn dec_digit(d: int) -> char {
    if d == 0 {
        '0'
    } else if d == 1 {
        '1'
    } else if d == 2 {
        '2'
    } else if d == 3 {
        '3'
    } else if d == 4 {
        '4'
    } else if d == 5 {
        '5'
    } else if d == 6 {
        '6'
    } else if d == 7 {
        '7'
    } else if d == 8 {
        '8'
    } else {
        '9'
    }
}

/// `n` rendered in decimal, most significant digit first, without a sign and
/// without leading zeroes (a single `'0'` for zero).
pub open spec fn dec_str(n: int) -> Seq<char>
    decreases n,
{
    if n < 10 {
        seq![dec_digit(n)]
    } else {
        dec_str(n / 10) + seq![dec_digit(n % 10)]
    }
}

/// The code point of `c`, shifted to upper case when `c` is an ascii lower-case
/// letter; `c` itself otherwise.
pub open spec fn to_upper(c: char) -> char {
    if 97 <= c as u32 && c as u32 <= 122 {
        ((c as u32 - 32) as u8) as char
    } else {
        c
    }
}

/// `s` with its first character moved to upper case.
pub open spec fn upper_first(s: Seq<char>) -> Seq<char> {
    if s.len() == 0 {
        s
    } else {
        seq![to_upper(s[0])] + s.drop_first()
    }
}

/// Relies on `String::push`: appends the one character `c` at the end of `s`.
#[verifier::external_body]
pub fn push_char(s: &mut String, c: char)
    ensures
        final(s)@ == old(s)@ + seq![c],
{
    s.push(c);
}

fn is_space_char(c: char) -> (r: bool)
    ensures
        r == is_space(c),
{
    c == ' ' || c == '\t' || c == '\r' || c == '\n'
}

/// Length of `s` once trailing whitespace is dropped.
pub fn trimmed_end(s: &str) -> (r: usize)
    ensures
        r <= s@.len(),
        s@.subrange(0, r as int) == trim_trailing(s@),
{
    let n = s.unicode_len();
    let mut i = n;
    assert(s@.subrange(0, n as int) =~= s@);
    while i > 0 && is_space_char(s.get_char(i - 1))
        invariant
            i <= n,
            n == s@.len(),
            trim_trailing(s@) == trim_trailing(s@.subrange(0, i as int)),
        decreases i,
    {
        proof {
            assert(s@.subrange(0, i as int).drop_last() =~= s@.subrange(0, i - 1));
        }
        i = i - 1;
    }
    proof {
        if i > 0 {
            assert(s@.subrange(0, i as int).last() == s@[i - 1]);
        }
    }
    i
}

/// Index of the first `c` in `s` between `from` and `to`, or `to` if there is none.
pub fn find_char_in(s: &str, from: usize, to: usize, c: char) -> (r: usize)
    requires
        from <= to <= s@.len(),
    ensures
        from <= r <= to,
        r - from == first_at(s@.subrange(from as int, to as int), c),
{
    let ghost sub = s@.subrange(from as int, to as int);
    let mut j = from;
    while j < to && s.get_char(j) != c
        invariant
            from <= j <= to <= s@.len(),
            sub == s@.subrange(from as int, to as int),
            forall|k: int| from <= k < j ==> s@[k] != c,
        decreases to - j,
    {
        j = j + 1;
    }
    proof {
        assert forall|k: int| 0 <= k < j - from implies sub[k] != c by {
            assert(sub[k] == s@[from + k]);
        }
        if j < to {
            assert(sub[j - from] == s@[j as int]);
        }
        lemma_first_at_is(sub, c, j - from);
    }
    j
}

/// Index of the first occurrence of `pat` in `s`, if any.
pub fn find_sub(s: &str, pat: &str) -> (r: Option<usize>)
    ensures
        match r {
            Some(i) => is_match_at(s@, pat@, i as int) && first_match(s@, pat@) == i,
            None => !contains_seq(s@, pat@) && first_match(s@, pat@) == -1,
        },
{
    let n = s.unicode_len();
    let m = pat.unicode_len();
    if m > n {
        proof {
            assert forall|i: int| !is_match_at(s@, pat@, i) by {}
            lemma_first_match_none(s@, pat@);
        }
        return None;
    }
    let mut i: usize = 0;
    while i <= n - m
        invariant
            n == s@.len(),
            m == pat@.len(),
            m <= n,
            i <= n - m + 1,
            forall|j: int| 0 <= j < i ==> !is_match_at(s@, pat@, j),
        decreases n + 1 - m - i,
    {
        let mut j: usize = 0;
        let mut hit = true;
        while j < m
            invariant
                n == s@.len(),
                m == pat@.len(),
                i + m <= n,
                j <= m,
                hit ==> forall|k: int| 0 <= k < j ==> s@[i + k] == pat@[k],
                !hit ==> exists|k: int| 0 <= k < m && s@[i + k] != pat@[k],
            decreases m - j,
        {
            if s.get_char(i + j) != pat.get_char(j) {
                proof {
                    assert(s@[i + j] != pat@[j as int]);
                }
                hit = false;
                j = m;
            } else {
                proof {
                    assert(s@[i + j] == pat@[j as int]);
                }
                j = j + 1;
            }
        }
        if hit {
            proof {
                assert(s@.subrange(i as int, i + m) =~= pat@);
                lemma_first_match_is(s@, pat@, i as int);
            }
            return Some(i);
        }
        proof {
            let k = choose|k: int| 0 <= k < m && s@[i + k] != pat@[k];
            assert(m >= 1);
            if is_match_at(s@, pat@, i as int) {
                assert(s@.subrange(i as int, i + m)[k] == s@[i + k]);
            }
            assert(!is_match_at(s@, pat@, i as int));
        }
        i = i + 1;
    }
    proof {
        assert forall|j: int| !is_match_at(s@, pat@, j) by {}
        lemma_first_match_none(s@, pat@);
    }
    None
}

/// `parts` joined with `sep` between consecutive entries.
pub fn join_strings(parts: &Vec<String>, sep: &str) -> (r: String)
    ensures
        r@ == join(parts@.map_values(|p: String| p@), sep@),
{
    let ghost views = parts@.map_values(|p: String| p@);
    let mut acc = String::new();
    let mut k: usize = 0;
    while k < parts.len()
        invariant
            k <= parts.len(),
            views == parts@.map_values(|p: String| p@),
            acc@ == join(views.take(k as int), sep@),
        decreases parts.len() - k,
    {
        if k > 0 {
            acc.append(sep);
        }
        acc.append(parts[k].as_str());
        proof {
            assert(views.take(k + 1) =~= views.take(k as int).push(views[k as int]));
            if k > 0 {
                lemma_join_push(views.take(k as int), sep@, views[k as int]);
            } else {
                assert(join(views.take(1), sep@) == views[0]);
            }
        }
        k = k + 1;
    }
    proof {
        assert(views.take(parts@.len() as int) =~= views);
    }
    acc
}

/// `s` with its first character moved to upper case.
pub fn upper_first_str(s: &str) -> (r: String)
    ensures
        r@ == upper_first(s@),
{
    let n = s.unicode_len();
    if n == 0 {
        let r = String::new();
        assert(r@ =~= upper_first(s@));
        r
    } else {
        let c = s.get_char(0);
        let u: char = if 'a' <= c && c <= 'z' {
            (((c as u32) - 32) as u8) as char
        } else {
            c
        };
        assert(u == to_upper(c));
        let mut r = String::new();
        push_char(&mut r, u);
        r.append(s.substring_char(1, n));
        assert(r@ =~= upper_first(s@));
        r
    }
}

fn dec_digit_char(d: u64) -> (r: char)
    requires
        d < 10,
    ensures
        r == dec_digit(d as int),
{
    if d == 0 {
        '0'
    } else if d == 1 {
        '1'
    } else if d == 2 {
        '2'
    } else if d == 3 {
        '3'
    } else if d == 4 {
        '4'
    } else if d == 5 {
        '5'
    } else if d == 6 {
        '6'
    } else if d == 7 {
        '7'
    } else if d == 8 {
        '8'
    } else {
        '9'
    }
}

/// `n` rendered in decimal.
pub fn u64_to_string(n: u64) -> (r: String)
    ensures
        r@ == dec_str(n as int),
    decreases n,
{
    if n < 10 {
        let mut s = String::new();
        push_char(&mut s, dec_digit_char(n));
        s
    } else {
        let mut s = u64_to_string(n / 10);
        push_char(&mut s, dec_digit_char(n % 10));
        s
    }
}

/// `text` with every occurrence of `pat` removed, front to back, until none is
/// left — also occurrences that only arise once an earlier removal has joined
/// their two halves.
pub fn scrub_string(text: &str, pat: &str) -> (r: String)
    requires
        pat@.len() > 0,
    ensures
        r@ == scrub(text@, pat@),
        !contains_seq(r@, pat@),
{
    let m = pat.unicode_len();
    let mut cur = text.to_owned();
    loop
        invariant
            m == pat@.len(),
            m > 0,
            scrub(text@, pat@) == scrub(cur@, pat@),
        ensures
            cur@ == scrub(text@, pat@),
        decreases cur@.len(),
    {
        let found = find_sub(cur.as_str(), pat);
        match found {
            None => {
                break ;
            },
            Some(i) => {
                let n = cur.unicode_len();
                let mut next = cur.as_str().substring_char(0, i).to_owned();
                next.append(cur.as_str().substring_char(i + m, n));
                proof {
                    assert(next@ == remove_at(cur@, i as int, m as int));
                }
                cur = next;
            },
        }
    }
    proof {
        lemma_scrub_clean(text@, pat@);
    }
    cur
}

/// `template` with the first occurrence of `pat` replaced by `rep`; `template`
/// itself when `pat` does not occur.
pub open spec fn replace_first_spec(s: Seq<char>, pat: Seq<char>, rep: Seq<char>) -> Seq<char> {
    let i = first_match(s, pat);
    if 0 <= i && i + pat.len() <= s.len() {
        s.take(i) + rep + s.skip(i + pat.len())
    } else {
        s
    }
}

/// `template` with the first occurrence of `pat` replaced by `rep`.
pub fn replace_first(template: &str, pat: &str, rep: &str) -> (r: String)
    ensures
        r@ == replace_first_spec(template@, pat@, rep@),
{
    let found = find_sub(template, pat);
    match found {
        None => template.to_owned(),
        Some(i) => {
            let n = template.unicode_len();
            let m = pat.unicode_len();
            let mut r = template.substring_char(0, i).to_owned();
            r.append(rep);
            r.append(template.substring_char(i + m, n));
            assert(r@ =~= replace_first_spec(template@, pat@, rep@));
            r
        },
    }
}


/// A sequence that nowhere holds the pattern's first character holds no
/// occurrence of the pattern.
pub proof fn lemma_no_head_no_match(s: Seq<char>, pat: Seq<char>)
    requires
        pat.len() > 0,
        forall|i: int| 0 <= i < s.len() ==> s[i] != pat[0],
    ensures
        !contains_seq(s, pat),
{
    assert forall|i: int| !is_match_at(s, pat, i) by {
        if is_match_at(s, pat, i) {
            assert(s.subrange(i, i + pat.len())[0] == s[i]);
        }
    }
}

/// An occurrence of a pattern whose first character the prefix nowhere holds
/// would have to lie wholly in the tail; a tail free of the pattern keeps the
/// concatenation free of it.
pub proof fn lemma_contains_in_suffix(prefix: Seq<char>, tail: Seq<char>, pat: Seq<char>)
    requires
        pat.len() > 0,
        forall|i: int| 0 <= i < prefix.len() ==> prefix[i] != pat[0],
        !contains_seq(tail, pat),
    ensures
        !contains_seq(prefix + tail, pat),
{
    let s = prefix + tail;
    assert forall|i: int| !is_match_at(s, pat, i) by {
        if is_match_at(s, pat, i) {
            assert(s.subrange(i, i + pat.len())[0] == s[i]);
            if i < prefix.len() {
                assert(s[i] == prefix[i]);
            } else {
                assert(s.subrange(i, i + pat.len()) =~= tail.subrange(
                    i - prefix.len(),
                    i - prefix.len() + pat.len(),
                ));
                assert(is_match_at(tail, pat, i - prefix.len()));
            }
        }
    }
}

/// A decimal rendering holds digit characters alone.
pub proof fn lemma_dec_str_avoids(n: int, c: char)
    requires
        c != '0',
        c != '1',
        c != '2',
        c != '3',
        c != '4',
        c != '5',
        c != '6',
        c != '7',
        c != '8',
        c != '9',
    ensures
        forall|i: int| 0 <= i < dec_str(n).len() ==> dec_str(n)[i] != c,
    decreases n,
{
    if n < 10 {
    } else {
        lemma_dec_str_avoids(n / 10, c);
        assert forall|i: int| 0 <= i < dec_str(n).len() implies dec_str(n)[i] != c by {
            if i < dec_str(n / 10).len() {
                assert(dec_str(n)[i] == dec_str(n / 10)[i]);
            } else {
                assert(dec_str(n)[i] == dec_digit(n % 10));
            }
        }
    }
}

} // verus!

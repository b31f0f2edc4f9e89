use vstd::prelude::*;

verus! {

/// An ASCII digit `0`..=`9`.
pub open spec fn is_digit(b: u8) -> bool {
    48 <= b <= 57
}

/// The bytes that `char::is_whitespace` accepts among ASCII: space, tab,
/// line feed, vertical tab, form feed and carriage return.
pub open spec fn is_ws(b: u8) -> bool {
    b == 32 || (9 <= b <= 13)
}

pub open spec fn all_digits(s: Seq<u8>) -> bool {
    forall|i: int| 0 <= i < s.len() ==> is_digit(#[trigger] s[i])
}

/// The value of a string of decimal digits, most significant first.
pub open spec fn digits_value(s: Seq<u8>) -> nat
    decreases s.len(),
{
    if s.len() == 0 {
        0
    } else {
        digits_value(s.drop_last()) * 10 + (s.last() - 48) as nat
    }
}

/// What `u64::from_str` accepts: an optional `+`, then one or more digits
/// whose value fits in 64 bits.
pub open spec fn decimal_u64(s: Seq<u8>) -> Option<u64> {
    let d = if s.len() > 0 && s[0] == 43 {
        s.drop_first()
    } else {
        s
    };
    if d.len() > 0 && all_digits(d) && digits_value(d) <= u64::MAX {
        Some(digits_value(d) as u64)
    } else {
        None
    }
}

proof fn lemma_prefix_value_le(s: Seq<u8>, k: int)
    requires
        0 <= k <= s.len(),
        all_digits(s),
    ensures
        digits_value(s.subrange(0, k)) <= digits_value(s),
    decreases s.len(),
{
    if k < s.len() {
        let t = s.drop_last();
        assert(s.subrange(0, k) =~= t.subrange(0, k));
        assert(all_digits(t)) by {
            assert forall|i: int| 0 <= i < t.len() implies is_digit(#[trigger] t[i]) by {
                assert(t[i] == s[i]);
            }
        }
        lemma_prefix_value_le(t, k);
    } else {
        assert(s.subrange(0, k) =~= s);
    }
}

/// Parses `s[start..end]` as `u64::from_str` would.
pub fn parse_u64(s: &[u8], start: usize, end: usize) -> (r: Option<u64>)
    requires
        start <= end <= s@.len(),
    ensures
        r == decimal_u64(s@.subrange(start as int, end as int)),
{
    let ghost whole = s@.subrange(start as int, end as int);
    let mut first: usize = start;
    if start < end && s[start] == 43 {
        first = start + 1;
    }
    let ghost d = s@.subrange(first as int, end as int);
    assert(d =~= (if whole.len() > 0 && whole[0] == 43 {
        whole.drop_first()
    } else {
        whole
    }));
    assert(decimal_u64(whole) == (if d.len() > 0 && all_digits(d) && digits_value(d) <= u64::MAX {
        Some(digits_value(d) as u64)
    } else {
        None::<u64>
    }));
    if first == end {
        return None;
    }
    let mut v: u64 = 0;
    let mut i: usize = first;
    while i < end
        invariant
            first <= i <= end <= s@.len(),
            d == s@.subrange(first as int, end as int),
            d.len() > 0,
            decimal_u64(s@.subrange(start as int, end as int)) == (if all_digits(d)
                && digits_value(d) <= u64::MAX {
                Some(digits_value(d) as u64)
            } else {
                None::<u64>
            }),
            all_digits(s@.subrange(first as int, i as int)),
            v as nat == digits_value(s@.subrange(first as int, i as int)),
        decreases end - i,
    {
        let b = s[i];
        if b < 48 || b > 57 {
            assert(d[i - first] == b);
            return None;
        }
        let ghost p = s@.subrange(first as int, i as int + 1);
        assert(p.drop_last() =~= s@.subrange(first as int, i as int));
        assert(all_digits(p));
        if v > 1844674407370955161 || (v == 1844674407370955161 && b > 53) {
            assert(digits_value(p) > u64::MAX);
            proof {
                if all_digits(d) {
                    assert(p =~= d.subrange(0, i + 1 - first as int));
                    lemma_prefix_value_le(d, i + 1 - first as int);
                }
            }
            return None;
        }
        v = v * 10 + (b - 48) as u64;
        i = i + 1;
    }
    assert(s@.subrange(first as int, i as int) =~= d);
    Some(v)
}


/// The first index at or after `i` (and before `end`) that is not whitespace,
/// or `end` when there is none.
pub open spec fn token_start(s: Seq<u8>, i: int, end: int) -> int
    decreases end - i,
{
    if i < end && is_ws(s[i]) {
        token_start(s, i + 1, end)
    } else {
        i
    }
}

/// The first whitespace index at or after `i` (and before `end`), or `end`.
pub open spec fn token_end(s: Seq<u8>, i: int, end: int) -> int
    decreases end - i,
{
    if i < end && !is_ws(s[i]) {
        token_end(s, i + 1, end)
    } else {
        i
    }
}

/// The bounds of the `n`-th (from 0) whitespace-separated token of
/// `s[i..end]`, as `split_whitespace().nth(n)` finds it.
pub open spec fn nth_token(s: Seq<u8>, i: int, end: int, n: nat) -> Option<(int, int)>
    decreases n,
{
    let a = token_start(s, i, end);
    if a >= end {
        None
    } else if n == 0 {
        Some((a, token_end(s, a, end)))
    } else {
        nth_token(s, token_end(s, a, end), end, (n - 1) as nat)
    }
}

pub proof fn lemma_token_bounds(s: Seq<u8>, i: int, end: int)
    requires
        i <= end,
    ensures
        i <= token_start(s, i, end) <= end,
        i <= token_end(s, i, end) <= end,
        token_start(s, i, end) < end ==> !is_ws(s[token_start(s, i, end)]),
    decreases end - i,
{
    if i < end {
        lemma_token_bounds(s, i + 1, end);
    }
}

pub proof fn lemma_nth_token_bounds(s: Seq<u8>, i: int, end: int, n: nat)
    requires
        0 <= i <= end,
    ensures
        nth_token(s, i, end, n) matches Some((a, b)) ==> i <= a < b <= end,
    decreases n,
{
    lemma_token_bounds(s, i, end);
    let a = token_start(s, i, end);
    if a < end {
        lemma_token_bounds(s, a, end);
        lemma_token_bounds(s, a + 1, end);
        assert(token_end(s, a, end) == token_end(s, a + 1, end));
        if n != 0 {
            lemma_nth_token_bounds(s, token_end(s, a, end), end, (n - 1) as nat);
        }
    }
}

pub fn is_ws_byte(b: u8) -> (r: bool)
    ensures
        r == is_ws(b),
{
    b == 32 || (9 <= b && b <= 13)
}

/// Skips whitespace from `i`.
pub fn skip_ws(s: &[u8], i: usize, end: usize) -> (r: usize)
    requires
        i <= end <= s@.len(),
    ensures
        r as int == token_start(s@, i as int, end as int),
{
    let mut j = i;
    while j < end && is_ws_byte(s[j])
        invariant
            i <= j <= end <= s@.len(),
            token_start(s@, j as int, end as int) == token_start(s@, i as int, end as int),
        decreases end - j,
    {
        j = j + 1;
    }
    j
}

/// Skips non-whitespace from `i`.
pub fn skip_token(s: &[u8], i: usize, end: usize) -> (r: usize)
    requires
        i <= end <= s@.len(),
    ensures
        r as int == token_end(s@, i as int, end as int),
{
    let mut j = i;
    while j < end && !is_ws_byte(s[j])
        invariant
            i <= j <= end <= s@.len(),
            token_end(s@, j as int, end as int) == token_end(s@, i as int, end as int),
        decreases end - j,
    {
        j = j + 1;
    }
    j
}

/// Finds the `n`-th whitespace-separated token of `s[i..end]`.
pub fn find_token(s: &[u8], i: usize, end: usize, n: usize) -> (r: Option<(usize, usize)>)
    requires
        i <= end <= s@.len(),
    ensures
        match r {
            Some((a, b)) => nth_token(s@, i as int, end as int, n as nat) == Some((a as int, b as int)),
            None => nth_token(s@, i as int, end as int, n as nat) is None,
        },
{
    let mut pos = i;
    let mut k = n;
    loop
        invariant
            i <= pos <= end <= s@.len(),
            k <= n,
            nth_token(s@, pos as int, end as int, k as nat) == nth_token(s@, i as int, end as int, n as nat),
        decreases k,
    {
        let a = skip_ws(s, pos, end);
        proof {
            lemma_token_bounds(s@, pos as int, end as int);
        }
        if a >= end {
            return None;
        }
        let b = skip_token(s, a, end);
        proof {
            lemma_token_bounds(s@, a as int, end as int);
        }
        if k == 0 {
            return Some((a, b));
        }
        pos = b;
        k = k - 1;
    }
}


pub open spec fn is_prefix_of(p: Seq<char>, s: Seq<char>) -> bool {
    p.len() <= s.len() && s.subrange(0, p.len() as int) == p
}

pub open spec fn is_suffix_of(p: Seq<char>, s: Seq<char>) -> bool {
    p.len() <= s.len() && s.subrange(s.len() - p.len(), s.len() as int) == p
}

/// `p` occurs in `s` as a contiguous run of characters.
pub open spec fn occurs_in(p: Seq<char>, s: Seq<char>) -> bool {
    exists|i: int| 0 <= i && i + p.len() <= s.len() && #[trigger] s.subrange(i, i + p.len()) == p
}

/// Relies on `str::contains` with a `&str` pattern: true exactly when the
/// needle occurs in the haystack.
#[verifier::external_body]
pub fn str_contains(hay: &str, needle: &str) -> (r: bool)
    ensures
        r == occurs_in(needle@, hay@),
{
    hay.contains(needle)
}

/// Relies on `str::strip_prefix` with a `&str` pattern: the rest after the
/// prefix when `s` starts with it.
#[verifier::external_body]
pub fn str_strip_prefix<'a>(s: &'a str, p: &str) -> (r: Option<&'a str>)
    ensures
        match r {
            Some(t) => is_prefix_of(p@, s@) && t@ == s@.skip(p@.len() as int),
            None => !is_prefix_of(p@, s@),
        },
{
    s.strip_prefix(p)
}

/// Relies on `str::strip_suffix` with a `&str` pattern: what precedes the
/// suffix when `s` ends with it.
#[verifier::external_body]
pub fn str_strip_suffix<'a>(s: &'a str, p: &str) -> (r: Option<&'a str>)
    ensures
        match r {
            Some(t) => is_suffix_of(p@, s@) && t@ == s@.subrange(0, s@.len() - p@.len()),
            None => !is_suffix_of(p@, s@),
        },
{
    s.strip_suffix(p)
}

} // verus!

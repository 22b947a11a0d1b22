//! Character-level helpers shared by the parsers: decimal numbers, digit
//! filtering and whitespace trimming, each stated over `Seq<char>`.
use vstd::prelude::*;
use vstd::string::*;

verus! {

pub open spec fn is_digit(c: char) -> bool {
    '0' <= c && c <= '9'
}

/// The value of a run of decimal digits (most significant first).
pub open spec fn digits_value(s: Seq<char>) -> nat
    decreases s.len(),
{
    if s.len() == 0 {
        0
    } else {
        digits_value(s.drop_last()) * 10 + (s.last() as nat - '0' as nat) as nat
    }
}

pub open spec fn all_digits(s: Seq<char>) -> bool {
    forall|i: int| 0 <= i < s.len() ==> is_digit(#[trigger] s[i])
}

/// What `str::parse::<u64>` accepts: one or more decimal digits, optionally
/// after a single leading `+`, whose value fits in a `u64`.
pub open spec fn unsigned_digits(s: Seq<char>) -> Option<u64> {
    if s.len() > 0 && all_digits(s) && digits_value(s) <= u64::MAX {
        Some(digits_value(s) as u64)
    } else {
        None
    }
}

pub open spec fn parsed_u64(s: Seq<char>) -> Option<u64> {
    if s.len() > 0 && s[0] == '+' {
        unsigned_digits(s.drop_first())
    } else {
        unsigned_digits(s)
    }
}

/// The decimal digits of `s`, in order, everything else dropped.
pub open spec fn only_digits(s: Seq<char>) -> Seq<char>
    decreases s.len(),
{
    if s.len() == 0 {
        Seq::empty()
    } else if is_digit(s.last()) {
        only_digits(s.drop_last()).push(s.last())
    } else {
        only_digits(s.drop_last())
    }
}

/// The characters that `char::is_whitespace` accepts (Unicode White_Space).
pub open spec fn is_space(c: char) -> bool {
    ('\u{9}' <= c && c <= '\u{d}') || c == ' ' || c == '\u{85}' || c == '\u{a0}'
        || c == '\u{1680}' || ('\u{2000}' <= c && c <= '\u{200a}') || c == '\u{2028}'
        || c == '\u{2029}' || c == '\u{202f}' || c == '\u{205f}' || c == '\u{3000}'
}

/// Number of leading whitespace characters.
pub open spec fn lead_spaces(s: Seq<char>) -> nat
    decreases s.len(),
{
    if s.len() > 0 && is_space(s[0]) {
        1 + lead_spaces(s.drop_first())
    } else {
        0
    }
}

/// Number of trailing whitespace characters.
pub open spec fn trail_spaces(s: Seq<char>) -> nat
    decreases s.len(),
{
    if s.len() > 0 && is_space(s.last()) {
        1 + trail_spaces(s.drop_last())
    } else {
        0
    }
}

/// `s` with whitespace removed from both ends, as `str::trim` does.
pub open spec fn trimmed(s: Seq<char>) -> Seq<char> {
    let t = s.subrange(lead_spaces(s) as int, s.len() as int);
    t.subrange(0, t.len() - trail_spaces(t))
}

/// The decimal rendering of `n`, without sign or leading zeros.
pub open spec fn decimal(n: nat) -> Seq<char>
    decreases n,
{
    if n < 10 {
        seq![digit_char(n)]
    } else {
        decimal(n / 10).push(digit_char(n % 10))
    }
}

pub open spec fn digit_char(d: nat) -> char {
    if d == 0 { '0' } else if d == 1 { '1' } else if d == 2 { '2' } else if d == 3 { '3' }
    else if d == 4 { '4' } else if d == 5 { '5' } else if d == 6 { '6' } else if d == 7 { '7' }
    else if d == 8 { '8' } else { '9' }
}

fn exec_is_space(c: char) -> (r: bool)
    ensures
        r == is_space(c),
{
    ('\u{9}' <= c && c <= '\u{d}') || c == ' ' || c == '\u{85}' || c == '\u{a0}'
        || c == '\u{1680}' || ('\u{2000}' <= c && c <= '\u{200a}') || c == '\u{2028}'
        || c == '\u{2029}' || c == '\u{202f}' || c == '\u{205f}' || c == '\u{3000}'
}

/// The characters of `s`, one per element.
pub fn chars_of(s: &str) -> (r: Vec<char>)
    ensures
        r@ == s@,
{
    let n = s.unicode_len();
    let mut r: Vec<char> = Vec::new();
    let mut i: usize = 0;
    while i < n
        invariant
            n == s@.len(),
            i <= n,
            r@ == s@.subrange(0, i as int),
        decreases n - i,
    {
        r.push(s.get_char(i));
        i = i + 1;
    }
    assert(r@ =~= s@);
    r
}

/// Builds a `String` holding exactly the given characters.
pub fn string_of(cs: &[char]) -> (r: String)
    ensures
        r@ == cs@,
{
    let mut r = String::new();
    let mut i: usize = 0;
    while i < cs.len()
        invariant
            i <= cs@.len(),
            r@ == cs@.subrange(0, i as int),
        decreases cs@.len() - i,
    {
        r.push(cs[i]);
        assert(r@ =~= cs@.subrange(0, i + 1));
        i = i + 1;
    }
    assert(r@ =~= cs@);
    r
}

/// Relies on `String::push`: the character is appended at the end.
pub assume_specification[ String::push ](s: &mut String, ch: char)
    ensures
        final(s)@ == old(s)@.push(ch),
;

/// `str::trim` on a sequence of characters.
pub fn trim_chars(s: &[char]) -> (r: Vec<char>)
    ensures
        r@ == trimmed(s@),
{
    let n = s.len();
    let mut a: usize = 0;
    assert(s@.subrange(0, n as int) =~= s@);
    while a < n && exec_is_space(s[a])
        invariant
            a <= n,
            n == s@.len(),
            lead_spaces(s@) == a + lead_spaces(s@.subrange(a as int, n as int)),
        decreases n - a,
    {
        assert(s@.subrange(a as int, n as int).drop_first() =~= s@.subrange(a + 1, n as int));
        a = a + 1;
    }
    assert(lead_spaces(s@.subrange(a as int, n as int)) == 0);
    let ghost t = s@.subrange(a as int, n as int);
    let mut b: usize = n;
    while b > a && exec_is_space(s[b - 1])
        invariant
            a <= b <= n,
            n == s@.len(),
            t == s@.subrange(a as int, n as int),
            trail_spaces(t) == (n - b) + trail_spaces(s@.subrange(a as int, b as int)),
        decreases b - a,
    {
        assert(s@.subrange(a as int, b as int).drop_last() =~= s@.subrange(a as int, b - 1));
        b = b - 1;
    }
    assert(trail_spaces(s@.subrange(a as int, b as int)) == 0);
    let mut r: Vec<char> = Vec::new();
    let mut i: usize = a;
    while i < b
        invariant
            a <= i <= b <= n,
            n == s@.len(),
            r@ == s@.subrange(a as int, i as int),
        decreases b - i,
    {
        r.push(s[i]);
        i = i + 1;
    }
    assert(r@ =~= t.subrange(0, t.len() - trail_spaces(t)));
    r
}

/// The digits of `s`, everything else dropped.
pub fn keep_digits(s: &[char]) -> (r: Vec<char>)
    ensures
        r@ == only_digits(s@),
{
    let mut r: Vec<char> = Vec::new();
    let mut i: usize = 0;
    while i < s.len()
        invariant
            i <= s@.len(),
            r@ == only_digits(s@.subrange(0, i as int)),
        decreases s@.len() - i,
    {
        assert(s@.subrange(0, i + 1).drop_last() =~= s@.subrange(0, i as int));
        if '0' <= s[i] && s[i] <= '9' {
            r.push(s[i]);
        }
        i = i + 1;
    }
    assert(s@.subrange(0, s@.len() as int) =~= s@);
    r
}

/// Reads a run of digits (with an optional leading `+`) as a `u64`, as
/// `str::parse::<u64>` does; `None` when empty, not all digits, or too large.
pub fn parse_u64(s: &[char]) -> (r: Option<u64>)
    ensures
        r == parsed_u64(s@),
{
    let start: usize = if s.len() > 0 && s[0] == '+' { 1 } else { 0 };
    let ghost t = s@.subrange(start as int, s@.len() as int);
    assert(start == 1 ==> t =~= s@.drop_first());
    assert(start == 0 ==> t =~= s@);
    assert(parsed_u64(s@) == unsigned_digits(t));
    if start >= s.len() {
        return None;
    }
    let mut v: u64 = 0;
    let mut i: usize = start;
    while i < s.len()
        invariant
            start <= i <= s@.len(),
            t == s@.subrange(start as int, s@.len() as int),
            parsed_u64(s@) == unsigned_digits(t),
            all_digits(s@.subrange(start as int, i as int)),
            v == digits_value(s@.subrange(start as int, i as int)),
        decreases s@.len() - i,
    {
        let c = s[i];
        let ghost pre = s@.subrange(start as int, i as int);
        let ghost next = s@.subrange(start as int, i + 1);
        assert(next.drop_last() =~= pre);
        if !('0' <= c && c <= '9') {
            assert(t[i - start] == c);
            assert(!is_digit(t[i - start]));
            return None;
        }
        let d: u64 = (c as u32 - '0' as u32) as u64;
        if v > 1844674407370955161 || (v == 1844674407370955161 && d > 5) {
            assert(next.last() == c);
            assert(digits_value(next) > u64::MAX);
            proof {
                lemma_digits_monotone(t, (i + 1 - start) as int);
                assert(t.subrange(0, (i + 1 - start) as int) =~= next);
            }
            return None;
        }
        v = v * 10 + d;
        i = i + 1;
    }
    assert(s@.subrange(start as int, s@.len() as int) == t);
    Some(v)
}

/// A longer digit string never has a smaller value than its prefix.
pub proof fn lemma_digits_monotone(s: Seq<char>, k: int)
    requires
        0 <= k <= s.len(),
    ensures
        digits_value(s.subrange(0, k)) <= digits_value(s),
    decreases s.len(),
{
    if k < s.len() {
        assert(s.drop_last() =~= s.subrange(0, s.len() - 1));
        lemma_digits_monotone(s.drop_last(), k);
        assert(s.drop_last().subrange(0, k) =~= s.subrange(0, k));
    } else {
        assert(s.subrange(0, k) =~= s);
    }
}

/// The decimal rendering of `n`.
pub fn decimal_string(n: u64) -> (r: String)
    ensures
        r@ == decimal(n as nat),
{
    let mut digits: Vec<char> = Vec::new();
    let mut m: u64 = n;
    // digits are produced least significant first
    while m >= 10
        invariant
            decimal(n as nat) == decimal(m as nat) + digits@.reverse(),
        decreases m,
    {
        let d = m % 10;
        let c = exec_digit_char(d);
        proof {
            assert(decimal(m as nat) == decimal((m / 10) as nat).push(digit_char((m % 10) as nat)));
        }
        let ghost old_digits = digits@;
        digits.push(c);
        assert(digits@.reverse() =~= seq![c] + old_digits.reverse());
        assert(decimal(m as nat) + old_digits.reverse() =~= decimal((m / 10) as nat)
            + digits@.reverse());
        m = m / 10;
    }
    let mut r = String::new();
    r.push(exec_digit_char(m));
    assert(r@ =~= decimal(m as nat));
    let mut i: usize = digits.len();
    while i > 0
        invariant
            i <= digits@.len(),
            decimal(n as nat) == decimal(m as nat) + digits@.reverse(),
            r@ == decimal(m as nat) + digits@.subrange(i as int, digits@.len() as int).reverse(),
        decreases i,
    {
        let ghost prev = r@;
        r.push(digits[i - 1]);
        assert(digits@.subrange(i - 1, digits@.len() as int).reverse() =~= digits@.subrange(
            i as int,
            digits@.len() as int,
        ).reverse().push(digits@[i - 1]));
        assert(r@ =~= decimal(m as nat) + digits@.subrange(i - 1, digits@.len() as int).reverse());
        i = i - 1;
    }
    assert(digits@.subrange(0, digits@.len() as int) =~= digits@);
    r
}

fn exec_digit_char(d: u64) -> (c: char)
    requires
        d < 10,
    ensures
        c == digit_char(d as nat),
{
    if d == 0 { '0' } else if d == 1 { '1' } else if d == 2 { '2' } else if d == 3 { '3' }
    else if d == 4 { '4' } else if d == 5 { '5' } else if d == 6 { '6' } else if d == 7 { '7' }
    else if d == 8 { '8' } else { '9' }
}

} // verus!

//! Recovering a result count such as `1,234件` from free text.
use vstd::prelude::*;
use crate::text::{is_digit, only_digits, parsed_u64, keep_digits, parse_u64};

verus! {

pub open spec fn is_count_unit(c: char) -> bool {
    c == '件' || c == '点'
}

/// The count read from the digits of `cs[start..end]`, if positive.
pub open spec fn run_value(cs: Seq<char>, start: int, end: int) -> Option<u64> {
    match parsed_u64(only_digits(cs.subrange(start, end))) {
        Some(n) => if n > 0 {
            Some(n)
        } else {
            None
        },
        None => None,
    }
}

pub open spec fn is_run_char(c: char) -> bool {
    is_digit(c) || c == ','
}

/// Where the run of digits and commas that ends just before `e` begins.
pub open spec fn run_start(cs: Seq<char>, e: int) -> int
    decreases e,
{
    if 0 < e <= cs.len() && is_run_char(cs[e - 1]) {
        run_start(cs, e - 1)
    } else {
        e
    }
}

/// The count announced by a `件` or `点` at position `e`: the digits of the
/// run of digits and commas right before it, when they make a positive
/// number.
pub open spec fn count_at(cs: Seq<char>, e: int) -> Option<u64> {
    if 0 <= e < cs.len() && is_count_unit(cs[e]) {
        run_value(cs, run_start(cs, e), e)
    } else {
        None
    }
}

/// The count announced by the leftmost unit, from position `e` on, that
/// announces one.
pub open spec fn count_from(cs: Seq<char>, e: int) -> Option<u64>
    decreases cs.len() - e,
{
    if e < 0 || e >= cs.len() {
        None
    } else if count_at(cs, e) is Some {
        count_at(cs, e)
    } else {
        count_from(cs, e + 1)
    }
}

/// The leftmost positive number written as digits (commas allowed) right
/// before `件` or `点`.
pub open spec fn count_in_text(cs: Seq<char>) -> Option<u64> {
    count_from(cs, 0)
}

proof fn lemma_run_start_bound(cs: Seq<char>, e: int)
    requires
        0 <= e,
    ensures
        0 <= run_start(cs, e) <= e,
    decreases e,
{
    if 0 < e <= cs.len() && is_run_char(cs[e - 1]) {
        lemma_run_start_bound(cs, e - 1);
    }
}

/// The count of the first text, in order, that holds one.
pub open spec fn first_count(texts: Seq<Seq<char>>) -> Option<u64>
    decreases texts.len(),
{
    if texts.len() == 0 {
        None
    } else {
        match count_in_text(texts[0]) {
            Some(n) => Some(n),
            None => first_count(texts.drop_first()),
        }
    }
}

/// Finds a result count in `text`: digits with optional commas followed by
/// a count unit; the first such positive value.
fn count_in_chars(text: &[char]) -> (r: Option<u64>)
    ensures
        r == count_in_text(text@),
        r matches Some(n) ==> n > 0,
{
    let mut num_start: Option<usize> = None;
    let mut i: usize = 0;
    while i < text.len()
        invariant
            i <= text@.len(),
            count_in_text(text@) == count_from(text@, i as int),
            num_start is None ==> only_digits(text@.subrange(run_start(text@, i as int), i as int)).len()
                == 0,
            num_start matches Some(s) ==> run_start(text@, i as int) <= s < i && only_digits(
                text@.subrange(run_start(text@, i as int), i as int),
            ) == only_digits(text@.subrange(s as int, i as int)),
        decreases text@.len() - i,
    {
        let c = text[i];
        let ghost b = run_start(text@, i as int);
        proof {
            lemma_run_start_bound(text@, i as int);
            assert(text@.subrange(b, i + 1).drop_last() =~= text@.subrange(b, i as int));
            if let Some(s0) = num_start {
                assert(text@.subrange(s0 as int, i + 1).drop_last() =~= text@.subrange(s0 as int, i as int));
            }
            assert(text@.subrange(i as int, i + 1).drop_last() =~= text@.subrange(i as int, i as int));
        }
        if '0' <= c && c <= '9' {
            assert(run_start(text@, i + 1) == b);
            if num_start.is_none() {
                assert(only_digits(text@.subrange(i as int, i as int)) =~= Seq::<char>::empty());
                assert(only_digits(text@.subrange(b, i + 1)) =~= seq![c]);
                assert(only_digits(text@.subrange(i as int, i + 1)) =~= seq![c]);
                num_start = Some(i);
            }
        } else if c == ',' && num_start.is_some() {
            assert(run_start(text@, i + 1) == b);
        } else if (c == '件' || c == '点') && num_start.is_some() {
            let s = num_start.unwrap();
            let mut run: Vec<char> = Vec::new();
            let mut k: usize = s;
            while k < i
                invariant
                    s <= k <= i < text@.len(),
                    run@ == text@.subrange(s as int, k as int),
                decreases i - k,
            {
                run.push(text[k]);
                k = k + 1;
            }
            let digits = keep_digits(run.as_slice());
            match parse_u64(digits.as_slice()) {
                Some(n) => {
                    if n > 0 {
                        return Some(n);
                    }
                },
                None => {},
            }
            num_start = None;
            assert(text@.subrange(i + 1, i + 1) =~= Seq::<char>::empty());
        } else {
            num_start = None;
            assert(text@.subrange(i + 1, i + 1) =~= Seq::<char>::empty());
        }
        i = i + 1;
    }
    None
}

/// Finds a result count in `text`: digits with optional commas followed by
/// `件` or `点`; the first such positive value.
pub fn extract_count_from_text(text: &str) -> (r: Option<u64>)
    ensures
        r == count_in_text(text@),
        r matches Some(n) ==> n > 0,
{
    let cs = crate::text::chars_of(text);
    count_in_chars(cs.as_slice())
}

/// The count of the first text that holds one.
pub fn first_count_in(texts: &Vec<String>) -> (r: Option<u64>)
    ensures
        r == first_count(texts@.map_values(|s: String| s@)),
{
    let ghost all = texts@.map_values(|s: String| s@);
    let mut i: usize = 0;
    assert(all.subrange(0, all.len() as int) =~= all);
    while i < texts.len()
        invariant
            i <= texts@.len(),
            all == texts@.map_values(|s: String| s@),
            first_count(all) == first_count(all.subrange(i as int, all.len() as int)),
        decreases texts@.len() - i,
    {
        let ghost rest = all.subrange(i as int, all.len() as int);
        assert(rest[0] == texts@[i as int]@);
        assert(rest.drop_first() =~= all.subrange(i + 1, all.len() as int));
        match extract_count_from_text(texts[i].as_str()) {
            Some(n) => {
                return Some(n);
            },
            None => {},
        }
        i = i + 1;
    }
    assert(all.subrange(i as int, all.len() as int) =~= Seq::<Seq<char>>::empty());
    None
}

} // verus!

//! The staleness detector: parsing of `ps -o etime` durations and the
//! comparison of a binary's age against its running process's age.
//!
//! An elapsed-time string has the compact form `[[DD-]HH:]MM:SS`: optional
//! days before a `-`, then colon-separated hours, minutes and seconds, or
//! just minutes and seconds.  A malformed string parses to nothing, never to
//! a wrong number, so a staleness check on it reports "unknown" rather than a
//! false verdict.

use vstd::prelude::*;

use crate::text::{
    all_digits, chars_of, digits_value, find_char_in, find_first, is_digit, lemma_find_first_bounds,
    trim_range, trim_spec,
};

verus! {

/// The seconds denoted by a colon-separated `HH:MM:SS` or `MM:SS` run, as an
/// unbounded integer; nothing if the run is malformed.
pub open spec fn hms_value(rest: Seq<char>) -> Option<int> {
    match find_first(rest, ':') {
        None => None,
        Some(i) => {
            let f0 = rest.subrange(0, i);
            let r1 = rest.subrange(i + 1, rest.len() as int);
            match find_first(r1, ':') {
                None => if all_digits(f0) && all_digits(r1) {
                    Some(digits_value(f0) * 60 + digits_value(r1))
                } else {
                    None
                },
                Some(k) => {
                    let f1 = r1.subrange(0, k);
                    let r2 = r1.subrange(k + 1, r1.len() as int);
                    if find_first(r2, ':') is None && all_digits(f0) && all_digits(f1)
                        && all_digits(r2) {
                        Some(digits_value(f0) * 3600 + digits_value(f1) * 60 + digits_value(r2))
                    } else {
                        None
                    }
                },
            }
        },
    }
}

/// The seconds denoted by a full elapsed-time string, as an unbounded
/// integer: days (if present, before a `-`) count 86400 seconds each.
pub open spec fn etime_math(s: Seq<char>) -> Option<int> {
    let t = trim_spec(s);
    if t.len() == 0 {
        None
    } else {
        match find_first(t, '-') {
            None => hms_value(t),
            Some(i) => {
                let day = t.subrange(0, i);
                let rest = t.subrange(i + 1, t.len() as int);
                if all_digits(day) {
                    match hms_value(rest) {
                        None => None,
                        Some(h) => Some(digits_value(day) * 86400 + h),
                    }
                } else {
                    None
                }
            },
        }
    }
}

/// What [`parse_etime`] returns: the denoted seconds where they exist and
/// fit a `u64`, nothing otherwise.
pub open spec fn spec_parse_etime(s: Seq<char>) -> Option<u64> {
    match etime_math(s) {
        Some(v) => if 0 <= v <= u64::MAX {
            Some(v as u64)
        } else {
            None
        },
        None => None,
    }
}

/// The value of a digit run is never negative.
proof fn lemma_digits_value_nonneg(s: Seq<char>)
    requires
        forall|i: int| 0 <= i < s.len() ==> is_digit(#[trigger] s[i]),
    ensures
        digits_value(s) >= 0,
    decreases s.len(),
{
    if s.len() > 0 {
        let d = s.drop_last();
        assert(forall|i: int| 0 <= i < d.len() ==> is_digit(#[trigger] d[i]));
        lemma_digits_value_nonneg(d);
        assert(is_digit(s.last()));
        assert(digits_value(d) * 10 >= 0) by (nonlinear_arith)
            requires
                digits_value(d) >= 0,
        ;
    }
}

/// A well-formed colon run denotes a non-negative number of seconds.
proof fn lemma_hms_nonneg(rest: Seq<char>)
    ensures
        match hms_value(rest) {
            Some(h) => h >= 0,
            None => true,
        },
{
    match find_first(rest, ':') {
        None => {},
        Some(i) => {
            lemma_find_first_bounds(rest, ':');
            let f0 = rest.subrange(0, i);
            let r1 = rest.subrange(i + 1, rest.len() as int);
            if all_digits(f0) {
                lemma_digits_value_nonneg(f0);
            }
            match find_first(r1, ':') {
                None => {
                    if all_digits(r1) {
                        lemma_digits_value_nonneg(r1);
                    }
                },
                Some(k) => {
                    lemma_find_first_bounds(r1, ':');
                    let f1 = r1.subrange(0, k);
                    let r2 = r1.subrange(k + 1, r1.len() as int);
                    if all_digits(f1) {
                        lemma_digits_value_nonneg(f1);
                    }
                    if all_digits(r2) {
                        lemma_digits_value_nonneg(r2);
                    }
                },
            }
        },
    }
}

/// The digits in `v[from..to]` as a `u64`, or nothing where the run is
/// malformed or too large.
fn parse_u64_digits(v: &Vec<char>, from: usize, to: usize) -> (r: Option<u64>)
    requires
        from <= to <= v@.len(),
    ensures
        ({
            let f = v@.subrange(from as int, to as int);
            match r {
                Some(x) => all_digits(f) && x == digits_value(f),
                None => !(all_digits(f) && digits_value(f) <= u64::MAX),
            }
        }),
{
    let ghost f = v@.subrange(from as int, to as int);
    if from == to {
        return None;
    }
    let mut acc: u64 = 0;
    let mut i: usize = from;
    while i < to
        invariant
            from <= i <= to <= v@.len(),
            f == v@.subrange(from as int, to as int),
            from < to,
            all_digits(f.subrange(0, i - from)) || i == from,
            forall|k: int| 0 <= k < i - from ==> is_digit(#[trigger] f[k]),
            acc == digits_value(f.subrange(0, i - from)),
        decreases to - i,
    {
        let c = v[i];
        let u = c as u32;
        proof {
            assert(f[i - from] == v@[i as int]);
        }
        if u < 48 || u > 57 {
            proof {
                assert(!is_digit(f[i - from]));
            }
            return None;
        }
        let d = (u - 48) as u64;
        let ghost pre = f.subrange(0, i - from);
        let ghost cur = f.subrange(0, i + 1 - from);
        proof {
            assert(cur.drop_last() =~= pre);
            assert(cur.last() == f[i - from]);
            assert(digits_value(cur) == digits_value(pre) * 10 + d);
            assert(forall|k: int| 0 <= k < cur.len() ==> is_digit(#[trigger] cur[k]));
        }
        match acc.checked_mul(10) {
            Some(t) => {
                match t.checked_add(d) {
                    Some(n) => {
                        acc = n;
                    },
                    None => {
                        proof {
                            if all_digits(f) {
                                lemma_digits_prefix_le(f, i + 1 - from);
                            }
                        }
                        return None;
                    },
                }
            },
            None => {
                proof {
                    assert(digits_value(cur) > u64::MAX);
                    if all_digits(f) {
                        lemma_digits_prefix_le(f, i + 1 - from);
                    }
                }
                return None;
            },
        }
        i = i + 1;
    }
    proof {
        assert(f.subrange(0, to - from) =~= f);
    }
    Some(acc)
}

/// Extending a digit run can only increase its value.
proof fn lemma_digits_prefix_le(f: Seq<char>, m: int)
    requires
        0 <= m <= f.len(),
        forall|k: int| 0 <= k < f.len() ==> is_digit(#[trigger] f[k]),
    ensures
        digits_value(f.subrange(0, m)) <= digits_value(f),
    decreases f.len() - m,
{
    if m < f.len() {
        let a = f.subrange(0, m);
        let b = f.subrange(0, m + 1);
        assert(b.drop_last() =~= a);
        assert(forall|k: int| 0 <= k < a.len() ==> is_digit(#[trigger] a[k]));
        lemma_digits_value_nonneg(a);
        assert(digits_value(b) == digits_value(a) * 10 + (b.last() as u32 - 48));
        assert(digits_value(a) <= digits_value(a) * 10) by (nonlinear_arith)
            requires
                digits_value(a) >= 0,
        ;
        lemma_digits_prefix_le(f, m + 1);
    } else {
        assert(f.subrange(0, m) =~= f);
    }
}

/// The seconds of the colon-separated run `v[a..b]`, bounded to `u64`; the
/// unbounded denotation of the run is `hms_value`.
fn parse_hms(v: &Vec<char>, a: usize, b: usize) -> (r: Option<u64>)
    requires
        a <= b <= v@.len(),
    ensures
        ({
            let f = v@.subrange(a as int, b as int);
            match r {
                Some(x) => hms_value(f) == Some(x as int),
                None => match hms_value(f) {
                    Some(h) => h > u64::MAX,
                    None => true,
                },
            }
        }),
{
    let ghost f = v@.subrange(a as int, b as int);
    match find_char_in(&v, a, b, ':') {
        None => None,
        Some(i) => {
            let ghost f0 = f.subrange(0, i - a);
            let ghost r1 = f.subrange(i - a + 1, f.len() as int);
            proof {
                assert(f0 =~= v@.subrange(a as int, i as int));
                assert(r1 =~= v@.subrange(i + 1, b as int));
            }
            match find_char_in(&v, i + 1, b, ':') {
                None => {
                    // MM:SS
                    let m = parse_u64_digits(&v, a, i);
                    let s = parse_u64_digits(&v, i + 1, b);
                    match (m, s) {
                        (Some(mv), Some(sv)) => {
                            proof {
                                lemma_digits_value_nonneg(f0);
                                lemma_digits_value_nonneg(r1);
                            }
                            match mv.checked_mul(60) {
                                Some(t) => match t.checked_add(sv) {
                                    Some(total) => Some(total),
                                    None => None,
                                },
                                None => {
                                    proof {
                                        assert(digits_value(f0) * 60 + digits_value(r1)
                                            > u64::MAX);
                                    }
                                    None
                                },
                            }
                        },
                        _ => {
                            proof {
                                if all_digits(f0) && all_digits(r1) {
                                    lemma_digits_value_nonneg(f0);
                                    lemma_digits_value_nonneg(r1);
                                    assert(digits_value(f0) <= digits_value(f0) * 60) by (
                                    nonlinear_arith)
                                        requires
                                            digits_value(f0) >= 0,
                                    ;
                                }
                            }
                            None
                        },
                    }
                },
                Some(k) => {
                    // HH:MM:SS, with no further colon allowed
                    let ghost f1 = r1.subrange(0, k - i - 1);
                    let ghost r2 = r1.subrange(k - i, r1.len() as int);
                    proof {
                        assert(f1 =~= v@.subrange(i + 1, k as int));
                        assert(r2 =~= v@.subrange(k + 1, b as int));
                        assert(find_first(r1, ':') == Some(k - i - 1));
                    }
                    match find_char_in(&v, k + 1, b, ':') {
                        Some(_) => {
                            proof {
                                assert(find_first(r2, ':') is Some);
                            }
                            None
                        },
                        None => {
                            let h = parse_u64_digits(&v, a, i);
                            let m = parse_u64_digits(&v, i + 1, k);
                            let s = parse_u64_digits(&v, k + 1, b);
                            match (h, m, s) {
                                (Some(hv), Some(mv), Some(sv)) => {
                                    proof {
                                        lemma_digits_value_nonneg(f0);
                                        lemma_digits_value_nonneg(f1);
                                        lemma_digits_value_nonneg(r2);
                                    }
                                    match hv.checked_mul(3600) {
                                        Some(t1) => match mv.checked_mul(60) {
                                            Some(t2) => match t1.checked_add(t2) {
                                                Some(t3) => match t3.checked_add(sv) {
                                                    Some(total) => Some(total),
                                                    None => None,
                                                },
                                                None => None,
                                            },
                                            None => {
                                                proof {
                                                    lemma_hms3_over(
                                                        digits_value(f0),
                                                        digits_value(f1),
                                                        digits_value(r2),
                                                        u64::MAX as int,
                                                    );
                                                }
                                                None
                                            },
                                        },
                                        None => {
                                            proof {
                                                lemma_hms3_over(
                                                    digits_value(f0),
                                                    digits_value(f1),
                                                    digits_value(r2),
                                                    u64::MAX as int,
                                                );
                                            }
                                            None
                                        },
                                    }
                                },
                                _ => {
                                    proof {
                                        if all_digits(f0) && all_digits(f1) && all_digits(r2) {
                                            lemma_hms3_over(
                                                digits_value(f0),
                                                digits_value(f1),
                                                digits_value(r2),
                                                u64::MAX as int,
                                            );
                                        }
                                    }
                                    None
                                },
                            }
                        },
                    }
                },
            }
        },
    }
}

/// Each component of `h*3600 + m*60 + s` is bounded by the sum.
proof fn lemma_hms3_over(h: int, m: int, s: int, cap: int)
    requires
        h >= 0,
        m >= 0,
        s >= 0,
    ensures
        h <= h * 3600 + m * 60 + s,
        m <= h * 3600 + m * 60 + s,
        s <= h * 3600 + m * 60 + s,
        h * 3600 <= h * 3600 + m * 60 + s,
        m * 60 <= h * 3600 + m * 60 + s,
{
    assert(h <= h * 3600 && m <= m * 60 && h * 3600 >= 0 && m * 60 >= 0) by (nonlinear_arith)
        requires
            h >= 0 && m >= 0,
    ;
}

/// Parse a `ps -o etime` style duration into total seconds.
///
/// `"02:30"` is 150 seconds, `"01:02:30"` is 3750, `"2-01:02:30"` is 176550;
/// a malformed or oversized string parses to `None`.
pub fn parse_etime(s: &str) -> (r: Option<u64>)
    ensures
        r == spec_parse_etime(s@),
{
    let v = chars_of(s);
    let n = v.len();
    let (lo, hi) = trim_range(&v, 0, n);
    proof {
        assert(v@.subrange(0, n as int) =~= v@);
    }
    let ghost t = v@.subrange(lo as int, hi as int);
    if lo == hi {
        proof {
            assert(t.len() == 0);
        }
        return None;
    }
    match find_char_in(&v, lo, hi, '-') {
        None => {
            let r = parse_hms(&v, lo, hi);
            proof {
                lemma_hms_nonneg(t);
            }
            r
        },
        Some(d) => {
            let ghost day = t.subrange(0, d - lo);
            let ghost rest = t.subrange(d - lo + 1, t.len() as int);
            proof {
                assert(day =~= v@.subrange(lo as int, d as int));
                assert(rest =~= v@.subrange(d + 1, hi as int));
                lemma_hms_nonneg(rest);
            }
            let dv = parse_u64_digits(&v, lo, d);
            let hv = parse_hms(&v, d + 1, hi);
            match (dv, hv) {
                (Some(days), Some(h)) => {
                    proof {
                        lemma_digits_value_nonneg(day);
                    }
                    match days.checked_mul(86400) {
                        Some(t1) => match t1.checked_add(h) {
                            Some(total) => Some(total),
                            None => None,
                        },
                        None => {
                            proof {
                                assert(digits_value(day) <= digits_value(day) * 86400) by (
                                nonlinear_arith)
                                    requires
                                        digits_value(day) >= 0,
                                ;
                            }
                            None
                        },
                    }
                },
                _ => {
                    proof {
                        if all_digits(day) {
                            lemma_digits_value_nonneg(day);
                            assert(digits_value(day) <= digits_value(day) * 86400) by (
                            nonlinear_arith)
                                requires
                                    digits_value(day) >= 0,
                            ;
                        }
                    }
                    None
                },
            }
        },
    }
}

/// A binary is stale relative to its process only when it was rebuilt more
/// than a 60-second grace window after the process started: that is, when
/// `artifact_age + 60 < process_age`.
pub fn is_stale(artifact_age_secs: u64, process_age_secs: u64) -> (r: bool)
    ensures
        r == (artifact_age_secs + 60 < process_age_secs),
{
    process_age_secs > 60 && artifact_age_secs < process_age_secs - 60
}

/// The full staleness verdict from a binary age and a raw elapsed-time
/// string: `None` ("unknown") exactly when the string does not parse, and
/// otherwise the [`is_stale`] comparison.
pub fn check_staleness(artifact_age_secs: u64, etime: &str) -> (r: Option<bool>)
    ensures
        match spec_parse_etime(etime@) {
            Some(p) => r == Some(artifact_age_secs + 60 < p),
            None => r is None,
        },
{
    match parse_etime(etime) {
        Some(p) => Some(is_stale(artifact_age_secs, p)),
        None => None,
    }
}

} // verus!

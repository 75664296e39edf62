//! Character-sequence utilities shared by the classifier, the parsers and the
//! dashboard: ASCII case folding, substring search, trimming, stripping and
//! digit parsing, all specified over `Seq<char>`.

use vstd::prelude::*;
use vstd::string::StrSliceExecFns;

verus! {

/// ASCII lowercasing of one character; every other character is unchanged.
pub open spec fn lower_char(c: char) -> char {
    if 65 <= c as u32 && c as u32 <= 90 {
        (((c as u32) + 32) as u8) as char
    } else {
        c
    }
}

/// ASCII lowercasing of a character sequence.
pub open spec fn lower(s: Seq<char>) -> Seq<char> {
    s.map_values(|c: char| lower_char(c))
}

/// `needle` occurs as a contiguous run inside `hay`.
pub open spec fn contains_seq(hay: Seq<char>, needle: Seq<char>) -> bool {
    exists|i: int|
        0 <= i && i + needle.len() <= hay.len() && #[trigger] hay.subrange(i, i + needle.len())
            == needle
}

/// `pre` is a prefix of `s`.
pub open spec fn starts_with_seq(s: Seq<char>, pre: Seq<char>) -> bool {
    pre.len() <= s.len() && s.subrange(0, pre.len() as int) == pre
}

/// ASCII whitespace, the characters stripped by trimming.
pub open spec fn is_space(c: char) -> bool {
    c == ' ' || c == '\t' || c == '\n' || c == '\r'
}

/// `s` with leading and trailing ASCII whitespace removed.
pub open spec fn trim_spec(s: Seq<char>) -> Seq<char>
    decreases s.len(),
{
    if s.len() > 0 && is_space(s[0]) {
        trim_spec(s.drop_first())
    } else if s.len() > 0 && is_space(s.last()) {
        trim_spec(s.drop_last())
    } else {
        s
    }
}

/// A decimal digit.
pub open spec fn is_digit(c: char) -> bool {
    48 <= c as u32 && c as u32 <= 57
}

/// A non-empty run of decimal digits.
pub open spec fn all_digits(s: Seq<char>) -> bool {
    s.len() > 0 && forall|i: int| 0 <= i < s.len() ==> is_digit(#[trigger] s[i])
}

/// The numeric value of a digit run, most significant digit first.
pub open spec fn digits_value(s: Seq<char>) -> int
    decreases s.len(),
{
    if s.len() == 0 {
        0
    } else {
        digits_value(s.drop_last()) * 10 + (s.last() as u32 - 48)
    }
}

/// `s` with every leading and every trailing occurrence of `c` removed.
pub open spec fn strip_char(s: Seq<char>, c: char) -> Seq<char>
    decreases s.len(),
{
    if s.len() > 0 && s[0] == c {
        strip_char(s.drop_first(), c)
    } else if s.len() > 0 && s.last() == c {
        strip_char(s.drop_last(), c)
    } else {
        s
    }
}

/// The ASCII lowercase of one character.
pub fn to_lower_char(c: char) -> (r: char)
    ensures
        r == lower_char(c),
{
    let u = c as u32;
    if 65 <= u && u <= 90 {
        ((u + 32) as u8) as char
    } else {
        c
    }
}

/// The characters of a string slice, in order.
pub fn chars_of(s: &str) -> (r: Vec<char>)
    ensures
        r@ == s@,
{
    let n = s.unicode_len();
    let mut v: Vec<char> = Vec::new();
    let mut i: usize = 0;
    while i < n
        invariant
            n == s@.len(),
            i <= n,
            v@ == s@.take(i as int),
        decreases n - i,
    {
        let c = s.get_char(i);
        v.push(c);
        i = i + 1;
        proof {
            assert(v@ =~= s@.take(i as int));
        }
    }
    proof {
        assert(s@.take(n as int) =~= s@);
    }
    v
}

/// The ASCII lowercase of a character vector.
pub fn to_lower(v: &Vec<char>) -> (r: Vec<char>)
    ensures
        r@ == lower(v@),
{
    let mut out: Vec<char> = Vec::new();
    let mut i: usize = 0;
    while i < v.len()
        invariant
            i <= v@.len(),
            out@ == lower(v@.take(i as int)),
        decreases v@.len() - i,
    {
        let c = to_lower_char(v[i]);
        out.push(c);
        i = i + 1;
        proof {
            assert(out@ =~= lower(v@.take(i as int)));
        }
    }
    proof {
        assert(v@.take(v@.len() as int) =~= v@);
    }
    out
}

/// Character-vector equality.
pub fn eq_chars(a: &Vec<char>, b: &Vec<char>) -> (r: bool)
    ensures
        r == (a@ == b@),
{
    if a.len() != b.len() {
        return false;
    }
    let mut i: usize = 0;
    while i < a.len()
        invariant
            a@.len() == b@.len(),
            i <= a@.len(),
            forall|k: int| 0 <= k < i ==> a@[k] == b@[k],
        decreases a@.len() - i,
    {
        if a[i] != b[i] {
            return false;
        }
        i = i + 1;
    }
    proof {
        assert(a@ =~= b@);
    }
    true
}

/// String-slice equality over views.
pub fn str_eq(a: &str, b: &str) -> (r: bool)
    ensures
        r == (a@ == b@),
{
    let va = chars_of(a);
    let vb = chars_of(b);
    eq_chars(&va, &vb)
}

/// `needle` matches `hay` at position `at`.
fn matches_at(hay: &Vec<char>, needle: &Vec<char>, at: usize) -> (r: bool)
    requires
        at + needle@.len() <= hay@.len(),
    ensures
        r == (hay@.subrange(at as int, at + needle@.len()) == needle@),
{
    // bind the vector's length once so the solver sees it fits a usize
    let hay_len = hay.len();
    proof {
        assert(hay_len == hay@.len());
        assert(hay@.len() <= usize::MAX);
    }
    let mut j: usize = 0;
    while j < needle.len()
        invariant
            at + needle@.len() <= hay@.len(),
            hay@.len() <= usize::MAX,
            j <= needle@.len(),
            forall|k: int| 0 <= k < j ==> hay@[at + k] == needle@[k],
        decreases needle@.len() - j,
    {
        proof {
            assert(at + j < hay@.len());
        }
        if hay[at + j] != needle[j] {
            proof {
                assert(hay@.subrange(at as int, at + needle@.len())[j as int] == hay@[at + j]);
            }
            return false;
        }
        j = j + 1;
    }
    proof {
        assert(hay@.subrange(at as int, at + needle@.len()) =~= needle@);
    }
    true
}

/// Substring search.
pub fn contains_chars(hay: &Vec<char>, needle: &Vec<char>) -> (r: bool)
    ensures
        r == contains_seq(hay@, needle@),
{
    if needle.len() == 0 {
        proof {
            assert(hay@.subrange(0, 0 + needle@.len() as int) =~= needle@);
        }
        return true;
    }
    if needle.len() > hay.len() {
        return false;
    }
    let bound = hay.len() - needle.len();
    let mut i: usize = 0;
    while i <= bound
        invariant
            1 <= needle@.len() <= hay@.len(),
            hay@.len() <= usize::MAX,
            bound == hay@.len() - needle@.len(),
            i <= bound + 1,
            forall|k: int|
                0 <= k < i ==> #[trigger] hay@.subrange(k, k + needle@.len()) != needle@,
        decreases bound + 1 - i,
    {
        if matches_at(hay, needle, i) {
            proof {
                assert(0 <= i as int && i as int + needle@.len() <= hay@.len()
                    && hay@.subrange(i as int, i as int + needle@.len()) == needle@);
            }
            return true;
        }
        i = i + 1;
    }
    false
}

/// Substring search directly on string slices.
pub fn str_contains(hay: &str, needle: &str) -> (r: bool)
    ensures
        r == contains_seq(hay@, needle@),
{
    let h = chars_of(hay);
    let n = chars_of(needle);
    contains_chars(&h, &n)
}

/// The least index at which `c` occurs in `s`, if it occurs at all.
pub open spec fn find_first(s: Seq<char>, c: char) -> Option<int>
    decreases s.len(),
{
    if s.len() == 0 {
        None
    } else if s[0] == c {
        Some(0int)
    } else {
        match find_first(s.drop_first(), c) {
            None => None,
            Some(i) => Some(i + 1),
        }
    }
}

/// A found index lies inside the sequence and carries the character.
pub proof fn lemma_find_first_bounds(s: Seq<char>, c: char)
    ensures
        match find_first(s, c) {
            Some(i) => 0 <= i < s.len() && s[i] == c && forall|j: int| 0 <= j < i ==> s[j] != c,
            None => forall|j: int| 0 <= j < s.len() ==> s[j] != c,
        },
    decreases s.len(),
{
    if s.len() > 0 && s[0] != c {
        lemma_find_first_bounds(s.drop_first(), c);
        let d = s.drop_first();
        assert(forall|j: int| 0 <= j < d.len() ==> d[j] == s[j + 1]);
        match find_first(d, c) {
            Some(i) => {
                assert forall|j: int| 0 <= j < i + 1 implies s[j] != c by {
                    if j > 0 {
                        assert(d[j - 1] == s[j]);
                    }
                }
            },
            None => {
                assert forall|j: int| 0 <= j < s.len() implies s[j] != c by {
                    if j > 0 {
                        assert(d[j - 1] == s[j]);
                    }
                }
            },
        }
    }
}

/// If `c` first occurs at `i`, the search finds exactly `i`.
pub proof fn lemma_find_first_found(s: Seq<char>, c: char, i: int)
    requires
        0 <= i < s.len(),
        s[i] == c,
        forall|j: int| 0 <= j < i ==> s[j] != c,
    ensures
        find_first(s, c) == Some(i),
    decreases i,
{
    if i > 0 {
        lemma_find_first_found(s.drop_first(), c, i - 1);
    }
}

/// If `c` occurs nowhere, the search finds nothing.
pub proof fn lemma_find_first_none(s: Seq<char>, c: char)
    requires
        forall|j: int| 0 <= j < s.len() ==> s[j] != c,
    ensures
        find_first(s, c) is None,
    decreases s.len(),
{
    if s.len() > 0 {
        lemma_find_first_none(s.drop_first(), c);
    }
}

/// The least position of `c` in `v[from..to]`, by a forward scan.
pub fn find_char_in(v: &Vec<char>, from: usize, to: usize, c: char) -> (r: Option<usize>)
    requires
        from <= to <= v@.len(),
    ensures
        ({
            let f = v@.subrange(from as int, to as int);
            match r {
                Some(i) => from <= i < to && find_first(f, c) == Some(i - from),
                None => find_first(f, c) is None,
            }
        }),
{
    let ghost f = v@.subrange(from as int, to as int);
    let mut i: usize = from;
    while i < to
        invariant
            from <= i <= to <= v@.len(),
            f == v@.subrange(from as int, to as int),
            forall|j: int| 0 <= j < i - from ==> f[j] != c,
        decreases to - i,
    {
        proof {
            assert(f[i - from] == v@[i as int]);
        }
        if v[i] == c {
            proof {
                lemma_find_first_found(f, c, i - from);
            }
            return Some(i);
        }
        i = i + 1;
    }
    proof {
        lemma_find_first_none(f, c);
    }
    None
}

/// Trimming removes exactly the all-space margins.
pub proof fn lemma_trim_bounds(s: Seq<char>, lo: int, hi: int)
    requires
        0 <= lo <= hi <= s.len(),
        forall|j: int| 0 <= j < lo ==> is_space(#[trigger] s[j]),
        forall|j: int| hi <= j < s.len() ==> is_space(#[trigger] s[j]),
        lo < hi ==> !is_space(s[lo]) && !is_space(s[hi - 1]),
    ensures
        trim_spec(s) == s.subrange(lo, hi),
    decreases s.len(),
{
    if s.len() == 0 {
        assert(s.subrange(lo, hi) =~= s);
    } else if is_space(s[0]) {
        if lo > 0 {
            lemma_trim_bounds(s.drop_first(), lo - 1, hi - 1);
            assert(s.drop_first().subrange(lo - 1, hi - 1) =~= s.subrange(lo, hi));
        } else {
            lemma_trim_bounds(s.drop_first(), 0, 0);
            assert(s.drop_first().subrange(0, 0) =~= s.subrange(lo, hi));
        }
    } else if is_space(s.last()) {
        lemma_trim_bounds(s.drop_last(), lo, hi);
        assert(s.drop_last().subrange(lo, hi) =~= s.subrange(lo, hi));
    } else {
        assert(s.subrange(lo, hi) =~= s);
    }
}

/// Stripping one character works like trimming: it removes exactly the
/// margins made of that character.
pub proof fn lemma_strip_bounds(s: Seq<char>, c: char, lo: int, hi: int)
    requires
        0 <= lo <= hi <= s.len(),
        forall|j: int| 0 <= j < lo ==> #[trigger] s[j] == c,
        forall|j: int| hi <= j < s.len() ==> #[trigger] s[j] == c,
        lo < hi ==> s[lo] != c && s[hi - 1] != c,
    ensures
        strip_char(s, c) == s.subrange(lo, hi),
    decreases s.len(),
{
    if s.len() == 0 {
        assert(s.subrange(lo, hi) =~= s);
    } else if s[0] == c {
        if lo > 0 {
            lemma_strip_bounds(s.drop_first(), c, lo - 1, hi - 1);
            assert(s.drop_first().subrange(lo - 1, hi - 1) =~= s.subrange(lo, hi));
        } else {
            lemma_strip_bounds(s.drop_first(), c, 0, 0);
            assert(s.drop_first().subrange(0, 0) =~= s.subrange(lo, hi));
        }
    } else if s.last() == c {
        lemma_strip_bounds(s.drop_last(), c, lo, hi);
        assert(s.drop_last().subrange(lo, hi) =~= s.subrange(lo, hi));
    } else {
        assert(s.subrange(lo, hi) =~= s);
    }
}

/// The sub-range of `v[a..b]` left after trimming ASCII whitespace.
pub fn trim_range(v: &Vec<char>, a: usize, b: usize) -> (r: (usize, usize))
    requires
        a <= b <= v@.len(),
    ensures
        a <= r.0 <= r.1 <= b,
        trim_spec(v@.subrange(a as int, b as int)) == v@.subrange(r.0 as int, r.1 as int),
{
    let ghost f = v@.subrange(a as int, b as int);
    let mut lo: usize = a;
    while lo < b && (v[lo] == ' ' || v[lo] == '\t' || v[lo] == '\n' || v[lo] == '\r')
        invariant
            a <= lo <= b <= v@.len(),
            f == v@.subrange(a as int, b as int),
            forall|j: int| 0 <= j < lo - a ==> is_space(#[trigger] f[j]),
        decreases b - lo,
    {
        proof {
            assert(f[lo - a] == v@[lo as int]);
        }
        lo = lo + 1;
    }
    let mut hi: usize = b;
    while hi > lo && (v[hi - 1] == ' ' || v[hi - 1] == '\t' || v[hi - 1] == '\n' || v[hi - 1]
        == '\r')
        invariant
            a <= lo <= hi <= b <= v@.len(),
            f == v@.subrange(a as int, b as int),
            forall|j: int| 0 <= j < lo - a ==> is_space(#[trigger] f[j]),
            forall|j: int| hi - a <= j < f.len() ==> is_space(#[trigger] f[j]),
        decreases hi,
    {
        proof {
            assert(f[hi - 1 - a] == v@[hi - 1]);
        }
        hi = hi - 1;
    }
    proof {
        if lo < hi {
            assert(f[lo - a] == v@[lo as int]);
            assert(f[hi - 1 - a] == v@[hi - 1]);
        }
        lemma_trim_bounds(f, lo - a, hi - a);
        assert(f.subrange(lo - a, hi - a) =~= v@.subrange(lo as int, hi as int));
    }
    (lo, hi)
}

/// The sub-range of `v[a..b]` left after stripping the character `c` from
/// both ends.
pub fn strip_range(v: &Vec<char>, a: usize, b: usize, c: char) -> (r: (usize, usize))
    requires
        a <= b <= v@.len(),
    ensures
        a <= r.0 <= r.1 <= b,
        strip_char(v@.subrange(a as int, b as int), c) == v@.subrange(r.0 as int, r.1 as int),
{
    let ghost f = v@.subrange(a as int, b as int);
    let mut lo: usize = a;
    while lo < b && v[lo] == c
        invariant
            a <= lo <= b <= v@.len(),
            f == v@.subrange(a as int, b as int),
            forall|j: int| 0 <= j < lo - a ==> #[trigger] f[j] == c,
        decreases b - lo,
    {
        proof {
            assert(f[lo - a] == v@[lo as int]);
        }
        lo = lo + 1;
    }
    let mut hi: usize = b;
    while hi > lo && v[hi - 1] == c
        invariant
            a <= lo <= hi <= b <= v@.len(),
            f == v@.subrange(a as int, b as int),
            forall|j: int| 0 <= j < lo - a ==> #[trigger] f[j] == c,
            forall|j: int| hi - a <= j < f.len() ==> #[trigger] f[j] == c,
        decreases hi,
    {
        proof {
            assert(f[hi - 1 - a] == v@[hi - 1]);
        }
        hi = hi - 1;
    }
    proof {
        if lo < hi {
            assert(f[lo - a] == v@[lo as int]);
            assert(f[hi - 1 - a] == v@[hi - 1]);
        }
        lemma_strip_bounds(f, c, lo - a, hi - a);
        assert(f.subrange(lo - a, hi - a) =~= v@.subrange(lo as int, hi as int));
    }
    (lo, hi)
}

/// The characters `v[from..to]`, copied out.
pub fn copy_range(v: &Vec<char>, from: usize, to: usize) -> (r: Vec<char>)
    requires
        from <= to <= v@.len(),
    ensures
        r@ == v@.subrange(from as int, to as int),
{
    let mut out: Vec<char> = Vec::new();
    let mut i: usize = from;
    while i < to
        invariant
            from <= i <= to <= v@.len(),
            out@ == v@.subrange(from as int, i as int),
        decreases to - i,
    {
        out.push(v[i]);
        i = i + 1;
        proof {
            assert(out@ =~= v@.subrange(from as int, i as int));
        }
    }
    out
}

/// Relies on `String::push`: appends exactly the given character.
#[verifier::external_body]
pub(crate) fn push_char(s: &mut String, c: char)
    ensures
        final(s)@ == old(s)@.push(c),
{
    s.push(c);
}

/// A `String` holding exactly the given characters.
pub fn string_from_chars(v: &Vec<char>) -> (r: String)
    ensures
        r@ == v@,
{
    let mut s = String::new();
    let mut i: usize = 0;
    while i < v.len()
        invariant
            i <= v@.len(),
            s@ == v@.take(i as int),
        decreases v@.len() - i,
    {
        push_char(&mut s, v[i]);
        i = i + 1;
        proof {
            assert(s@ =~= v@.take(i as int));
        }
    }
    proof {
        assert(v@.take(v@.len() as int) =~= v@);
    }
    s
}

/// The decimal digit character for `d`.
pub open spec fn digit_char(d: int) -> char {
    ((48 + d) as u8) as char
}

/// The decimal rendering of a non-negative number, most significant digit
/// first.
pub open spec fn spec_decimal(n: int) -> Seq<char>
    decreases n,
{
    if n < 10 {
        seq![digit_char(n)]
    } else {
        spec_decimal(n / 10) + seq![digit_char(n % 10)]
    }
}

/// Render a number in decimal.
pub fn u64_to_string(n: u64) -> (r: String)
    ensures
        r@ == spec_decimal(n as int),
    decreases n,
{
    if n < 10 {
        let c = ((48 + n) as u8) as char;
        let mut s = String::new();
        push_char(&mut s, c);
        proof {
            assert(s@ =~= spec_decimal(n as int));
        }
        s
    } else {
        let mut s = u64_to_string(n / 10);
        let c = ((48 + (n % 10)) as u8) as char;
        push_char(&mut s, c);
        proof {
            assert(s@ =~= spec_decimal(n as int));
        }
        s
    }
}

} // verus!

//! Character-level text operations: the meaning of `trim`, suffix and prefix
//! stripping, splitting, the first whitespace-separated word and unsigned
//! decimal parsing, each stated over `Seq<char>` and computed on a
//! `Vec<char>` between two indices.

use vstd::prelude::*;

verus! {

/// The characters with the Unicode `White_Space` property, which is what
/// `char::is_whitespace`, `str::trim` and `str::split_whitespace` use.
pub open spec fn is_ws(c: char) -> bool {
    let u = c as u32;
    ||| 0x09 <= u <= 0x0D
    ||| u == 0x20
    ||| u == 0x85
    ||| u == 0xA0
    ||| u == 0x1680
    ||| 0x2000 <= u <= 0x200A
    ||| u == 0x2028
    ||| u == 0x2029
    ||| u == 0x202F
    ||| u == 0x205F
    ||| u == 0x3000
}

/// `s` without its leading whitespace.
pub open spec fn trim_start(s: Seq<char>) -> Seq<char>
    decreases s.len(),
{
    if s.len() > 0 && is_ws(s[0]) {
        trim_start(s.drop_first())
    } else {
        s
    }
}

/// `s` without its trailing whitespace.
pub open spec fn trim_end(s: Seq<char>) -> Seq<char>
    decreases s.len(),
{
    if s.len() > 0 && is_ws(s.last()) {
        trim_end(s.drop_last())
    } else {
        s
    }
}

/// `s` without leading and trailing whitespace.
pub open spec fn trim(s: Seq<char>) -> Seq<char> {
    trim_end(trim_start(s))
}

/// `s` with `p` removed from its end as many times as it occurs there
/// (an empty `p` removes nothing).
pub open spec fn strip_suffix_all(s: Seq<char>, p: Seq<char>) -> Seq<char>
    decreases s.len(),
{
    if p.len() > 0 && p.len() <= s.len() && s.subrange(s.len() - p.len(), s.len() as int) == p {
        strip_suffix_all(s.subrange(0, s.len() - p.len()), p)
    } else {
        s
    }
}

/// `s` with `p` removed from its start as many times as it occurs there
/// (an empty `p` removes nothing).
pub open spec fn strip_prefix_all(s: Seq<char>, p: Seq<char>) -> Seq<char>
    decreases s.len(),
{
    if p.len() > 0 && p.len() <= s.len() && s.subrange(0, p.len() as int) == p {
        strip_prefix_all(s.subrange(p.len() as int, s.len() as int), p)
    } else {
        s
    }
}

/// The index of the first character of `s` that is one of `seps`, or the
/// length of `s` when there is none.
pub open spec fn first_index(s: Seq<char>, seps: Seq<char>) -> nat
    decreases s.len(),
{
    if s.len() == 0 {
        0
    } else if seps.contains(s[0]) {
        0
    } else {
        1 + first_index(s.drop_first(), seps)
    }
}

/// The pieces of `s` between the characters that are one of `seps`, empty
/// pieces included: what `str::split` with such a pattern yields.
pub open spec fn split_on(s: Seq<char>, seps: Seq<char>) -> Seq<Seq<char>>
    decreases s.len(),
{
    let i = first_index(s, seps);
    if i >= s.len() {
        seq![s]
    } else {
        seq![s.take(i as int)] + split_on(s.skip(i + 1 as int), seps)
    }
}

/// The index of the first whitespace character of `s`, or its length.
pub open spec fn first_ws(s: Seq<char>) -> nat
    decreases s.len(),
{
    if s.len() == 0 {
        0
    } else if is_ws(s[0]) {
        0
    } else {
        1 + first_ws(s.drop_first())
    }
}

/// The first item of `str::split_whitespace`: the first maximal run of
/// non-whitespace characters, if there is one.
pub open spec fn first_word(s: Seq<char>) -> Option<Seq<char>> {
    let t = trim_start(s);
    if t.len() == 0 {
        None
    } else {
        Some(t.take(first_ws(t) as int))
    }
}

/// An ASCII decimal digit.
pub open spec fn is_digit(c: char) -> bool {
    48 <= (c as u32) <= 57
}

pub open spec fn all_digits(s: Seq<char>) -> bool {
    forall|i: int| 0 <= i < s.len() ==> is_digit(#[trigger] s[i])
}

/// The number that the decimal digits `s` denote.
pub open spec fn digits_value(s: Seq<char>) -> int
    decreases s.len(),
{
    if s.len() == 0 {
        0
    } else {
        digits_value(s.drop_last()) * 10 + ((s.last() as u32) - 48)
    }
}

/// What `str::parse::<u32>` gives: an optional `+` followed by at least one
/// decimal digit, denoting a number that fits in a `u32`.
pub open spec fn parse_u32(s: Seq<char>) -> Option<u32> {
    let d = if s.len() > 0 && s[0] == '+' {
        s.drop_first()
    } else {
        s
    };
    if d.len() > 0 && all_digits(d) && digits_value(d) <= u32::MAX {
        Some(digits_value(d) as u32)
    } else {
        None
    }
}

/// Whether `c` is whitespace.
pub fn is_ws_char(c: char) -> (b: bool)
    ensures
        b == is_ws(c),
{
    let u = c as u32;
    (0x09 <= u && u <= 0x0D) || u == 0x20 || u == 0x85 || u == 0xA0 || u == 0x1680 || (0x2000
        <= u && u <= 0x200A) || u == 0x2028 || u == 0x2029 || u == 0x202F || u == 0x205F || u
        == 0x3000
}

/// The characters of `s`, in order.
pub fn chars_of(s: &str) -> (v: Vec<char>)
    ensures
        v@ == s@,
{
    let n = s.unicode_len();
    let mut v: Vec<char> = Vec::new();
    let mut i: usize = 0;
    while i < n
        invariant
            i <= n,
            n == s@.len(),
            v@ == s@.take(i as int),
        decreases n - i,
    {
        let c = s.get_char(i);
        v.push(c);
        i += 1;
        assert(v@ =~= s@.take(i as int));
    }
    assert(v@ =~= s@);
    v
}

/// Whether the texts `a` and `b` are the same.
pub fn str_equals(a: &str, b: &str) -> (r: bool)
    ensures
        r == (a@ == b@),
{
    let va = chars_of(a);
    let vb = chars_of(b);
    if va.len() != vb.len() {
        return false;
    }
    let m = matches_at(&va, 0, &vb);
    assert(va@.subrange(0, vb@.len() as int) =~= va@);
    m
}

/// Whether `c` occurs in `v`.
pub fn contains_char(v: &Vec<char>, c: char) -> (b: bool)
    ensures
        b == v@.contains(c),
{
    let mut k: usize = 0;
    while k < v.len()
        invariant
            k <= v.len(),
            forall|j: int| 0 <= j < k ==> v@[j] != c,
        decreases v.len() - k,
    {
        if v[k] == c {
            assert(v@[k as int] == c);
            return true;
        }
        k += 1;
    }
    false
}

/// The start of `v[lo..hi]` with its leading whitespace removed.
pub fn trim_start_bound(v: &Vec<char>, lo: usize, hi: usize) -> (r: usize)
    requires
        lo <= hi <= v.len(),
    ensures
        lo <= r <= hi,
        v@.subrange(r as int, hi as int) == trim_start(v@.subrange(lo as int, hi as int)),
{
    let mut a = lo;
    while a < hi && is_ws_char(v[a])
        invariant
            lo <= a <= hi <= v.len(),
            trim_start(v@.subrange(lo as int, hi as int)) == trim_start(
                v@.subrange(a as int, hi as int),
            ),
        decreases hi - a,
    {
        assert(v@.subrange(a as int, hi as int).drop_first() =~= v@.subrange(a + 1, hi as int));
        a += 1;
    }
    assert(trim_start(v@.subrange(a as int, hi as int)) == v@.subrange(a as int, hi as int));
    a
}

/// The bounds of `v[lo..hi]` with its leading and trailing whitespace
/// removed.
pub fn trim_bounds(v: &Vec<char>, lo: usize, hi: usize) -> (r: (usize, usize))
    requires
        lo <= hi <= v.len(),
    ensures
        lo <= r.0 <= r.1 <= hi,
        v@.subrange(r.0 as int, r.1 as int) == trim(v@.subrange(lo as int, hi as int)),
{
    let a = trim_start_bound(v, lo, hi);
    let mut b = hi;
    while b > a && is_ws_char(v[b - 1])
        invariant
            lo <= a <= b <= hi <= v.len(),
            trim_end(v@.subrange(a as int, hi as int)) == trim_end(v@.subrange(a as int, b as int)),
        decreases b - a,
    {
        assert(v@.subrange(a as int, b as int).drop_last() =~= v@.subrange(a as int, b - 1));
        b -= 1;
    }
    assert(trim_end(v@.subrange(a as int, b as int)) == v@.subrange(a as int, b as int));
    (a, b)
}

/// The bounds of the first whitespace-separated word of `v[lo..hi]`, if
/// there is one.
pub fn first_word_bounds(v: &Vec<char>, lo: usize, hi: usize) -> (r: Option<(usize, usize)>)
    requires
        lo <= hi <= v.len(),
    ensures
        match r {
            Some((a, b)) => lo <= a <= b <= hi && first_word(v@.subrange(lo as int, hi as int))
                == Some(v@.subrange(a as int, b as int)),
            None => first_word(v@.subrange(lo as int, hi as int)) is None,
        },
{
    let a = trim_start_bound(v, lo, hi);
    if a == hi {
        return None;
    }
    let b = find_ws(v, a, hi);
    assert(v@.subrange(a as int, hi as int).take(b - a) =~= v@.subrange(a as int, b as int));
    Some((a, b))
}

/// Whether `p` occurs in `v` at index `start`.
pub fn matches_at(v: &Vec<char>, start: usize, p: &Vec<char>) -> (b: bool)
    requires
        start <= v.len(),
    ensures
        b == (p.len() <= v.len() - start && v@.subrange(start as int, start + p.len()) == p@),
{
    if p.len() > v.len() - start {
        return false;
    }
    let mut k: usize = 0;
    while k < p.len()
        invariant
            k <= p.len(),
            start <= v.len(),
            p.len() <= v.len() - start,
            forall|j: int| 0 <= j < k ==> v@[start + j] == p@[j],
        decreases p.len() - k,
    {
        if v[start + k] != p[k] {
            assert(v@.subrange(start as int, start + p.len())[k as int] != p@[k as int]);
            return false;
        }
        k += 1;
    }
    assert(v@.subrange(start as int, start + p.len()) =~= p@);
    true
}

/// The end of `v[lo..hi]` once `p` is removed from its end as often as it
/// occurs there.
pub fn strip_suffix_bound(v: &Vec<char>, lo: usize, hi: usize, p: &Vec<char>) -> (r: usize)
    requires
        lo <= hi <= v.len(),
    ensures
        lo <= r <= hi,
        v@.subrange(lo as int, r as int) == strip_suffix_all(v@.subrange(lo as int, hi as int), p@),
{
    if p.len() == 0 {
        return hi;
    }
    let mut b = hi;
    loop
        invariant
            lo <= b <= hi <= v.len(),
            p.len() > 0,
            strip_suffix_all(v@.subrange(lo as int, hi as int), p@) == strip_suffix_all(
                v@.subrange(lo as int, b as int),
                p@,
            ),
        decreases b,
    {
        let s = Ghost(v@.subrange(lo as int, b as int));
        if b - lo < p.len() {
            assert(strip_suffix_all(s@, p@) == s@);
            return b;
        }
        let m = matches_at(v, b - p.len(), p);
        assert(s@.subrange(s@.len() - p.len(), s@.len() as int) =~= v@.subrange(
            b - p.len(),
            b as int,
        ));
        if !m {
            assert(strip_suffix_all(s@, p@) == s@);
            return b;
        }
        assert(s@.subrange(0, s@.len() - p.len()) =~= v@.subrange(lo as int, b - p.len()));
        b = b - p.len();
    }
}

/// The start of `v[lo..hi]` once `p` is removed from its start as often as
/// it occurs there.
pub fn strip_prefix_bound(v: &Vec<char>, lo: usize, hi: usize, p: &Vec<char>) -> (r: usize)
    requires
        lo <= hi <= v.len(),
    ensures
        lo <= r <= hi,
        v@.subrange(r as int, hi as int) == strip_prefix_all(v@.subrange(lo as int, hi as int), p@),
{
    if p.len() == 0 {
        return lo;
    }
    let mut a = lo;
    loop
        invariant
            lo <= a <= hi <= v.len(),
            p.len() > 0,
            strip_prefix_all(v@.subrange(lo as int, hi as int), p@) == strip_prefix_all(
                v@.subrange(a as int, hi as int),
                p@,
            ),
        decreases hi - a,
    {
        let s = Ghost(v@.subrange(a as int, hi as int));
        if hi - a < p.len() {
            assert(strip_prefix_all(s@, p@) == s@);
            return a;
        }
        let m = matches_at(v, a, p);
        assert(s@.subrange(0, p.len() as int) =~= v@.subrange(a as int, a + p.len()));
        if !m {
            assert(strip_prefix_all(s@, p@) == s@);
            return a;
        }
        assert(s@.subrange(p.len() as int, s@.len() as int) =~= v@.subrange(
            a + p.len(),
            hi as int,
        ));
        a = a + p.len();
    }
}

/// The index in `v` of the first character of `v[lo..hi]` that is one of
/// `seps`, or `hi` when there is none.
pub fn find_first(v: &Vec<char>, lo: usize, hi: usize, seps: &Vec<char>) -> (r: usize)
    requires
        lo <= hi <= v.len(),
    ensures
        r == lo + first_index(v@.subrange(lo as int, hi as int), seps@),
        lo <= r <= hi,
{
    let mut k = lo;
    while k < hi && !contains_char(seps, v[k])
        invariant
            lo <= k <= hi <= v.len(),
            first_index(v@.subrange(lo as int, hi as int), seps@) == (k - lo) + first_index(
                v@.subrange(k as int, hi as int),
                seps@,
            ),
        decreases hi - k,
    {
        assert(v@.subrange(k as int, hi as int).drop_first() =~= v@.subrange(k + 1, hi as int));
        k += 1;
    }
    assert(first_index(v@.subrange(k as int, hi as int), seps@) == 0);
    k
}

/// The index in `v` of the first whitespace character of `v[lo..hi]`, or
/// `hi` when there is none.
pub fn find_ws(v: &Vec<char>, lo: usize, hi: usize) -> (r: usize)
    requires
        lo <= hi <= v.len(),
    ensures
        r == lo + first_ws(v@.subrange(lo as int, hi as int)),
        lo <= r <= hi,
{
    let mut k = lo;
    while k < hi && !is_ws_char(v[k])
        invariant
            lo <= k <= hi <= v.len(),
            first_ws(v@.subrange(lo as int, hi as int)) == (k - lo) + first_ws(
                v@.subrange(k as int, hi as int),
            ),
        decreases hi - k,
    {
        assert(v@.subrange(k as int, hi as int).drop_first() =~= v@.subrange(k + 1, hi as int));
        k += 1;
    }
    assert(first_ws(v@.subrange(k as int, hi as int)) == 0);
    k
}

/// `first_index` is at most the length, points at a separator when it is
/// less, and no separator comes before it.
pub proof fn lemma_first_index(s: Seq<char>, seps: Seq<char>)
    ensures
        first_index(s, seps) <= s.len(),
        first_index(s, seps) < s.len() ==> seps.contains(s[first_index(s, seps) as int]),
        forall|j: int| 0 <= j < first_index(s, seps) ==> !seps.contains(#[trigger] s[j]),
    decreases s.len(),
{
    if s.len() > 0 && !seps.contains(s[0]) {
        lemma_first_index(s.drop_first(), seps);
        assert forall|j: int| 0 <= j < first_index(s, seps) implies !seps.contains(
            #[trigger] s[j],
        ) by {
            if j > 0 {
                assert(s[j] == s.drop_first()[j - 1]);
            }
        }
    }
}

/// The first piece of a split is the text up to the first separator, and
/// there is one piece more than there are separators before the end, so a
/// single piece exactly when there is no separator.
pub proof fn lemma_split_head(s: Seq<char>, seps: Seq<char>)
    ensures
        split_on(s, seps).len() >= 1,
        split_on(s, seps)[0] == s.take(first_index(s, seps) as int),
        split_on(s, seps).len() == 1 <==> first_index(s, seps) >= s.len(),
    decreases s.len(),
{
    lemma_first_index(s, seps);
    let i = first_index(s, seps);
    if i < s.len() {
        lemma_split_head(s.skip(i + 1 as int), seps);
    } else {
        assert(s.take(i as int) =~= s);
    }
}

/// The value of the decimal number `v[lo..hi]`, as `str::parse::<u32>`
/// reads it.
pub fn parse_u32_range(v: &Vec<char>, lo: usize, hi: usize) -> (r: Option<u32>)
    requires
        lo <= hi <= v.len(),
    ensures
        r == parse_u32(v@.subrange(lo as int, hi as int)),
{
    let ghost s = v@.subrange(lo as int, hi as int);
    let mut start = lo;
    if start < hi && v[start] == '+' {
        start += 1;
    }
    let ghost d = v@.subrange(start as int, hi as int);
    assert(d =~= (if s.len() > 0 && s[0] == '+' {
        s.drop_first()
    } else {
        s
    }));
    if start == hi {
        return None;
    }
    let mut acc: u64 = 0;
    let mut i = start;
    while i < hi
        invariant
            lo <= start <= i <= hi <= v.len(),
            d == v@.subrange(start as int, hi as int),
            s == v@.subrange(lo as int, hi as int),
            d == (if s.len() > 0 && s[0] == '+' {
                s.drop_first()
            } else {
                s
            }),
            all_digits(v@.subrange(start as int, i as int)),
            digits_value(v@.subrange(start as int, i as int)) >= 0,
            acc == (if digits_value(v@.subrange(start as int, i as int)) <= u32::MAX {
                digits_value(v@.subrange(start as int, i as int))
            } else {
                u32::MAX + 1
            }),
        decreases hi - i,
    {
        let c = v[i];
        let u = c as u32;
        if u < 48 || u > 57 {
            assert(d[i - start] == c);
            assert(!all_digits(d));
            return None;
        }
        let ghost prev = v@.subrange(start as int, i as int);
        let ghost next = v@.subrange(start as int, i + 1);
        assert(next.drop_last() =~= prev);
        assert(digits_value(next) == digits_value(prev) * 10 + (u - 48));
        if acc > 0xFFFF_FFFF {
            acc = 0x1_0000_0000;
        } else {
            let t = acc * 10 + (u - 48) as u64;
            if t > 0xFFFF_FFFF {
                acc = 0x1_0000_0000;
            } else {
                acc = t;
            }
        }
        i += 1;
        assert forall|j: int| 0 <= j < next.len() implies is_digit(#[trigger] next[j]) by {
            if j < prev.len() {
                assert(next[j] == prev[j]);
            }
        }
    }
    assert(v@.subrange(start as int, i as int) == d);
    if acc > 0xFFFF_FFFF {
        None
    } else {
        Some(acc as u32)
    }
}

/// Whether `v[lo..hi]` holds decimal digits only.
pub fn digits_only(v: &Vec<char>, lo: usize, hi: usize) -> (b: bool)
    requires
        lo <= hi <= v.len(),
    ensures
        b == all_digits(v@.subrange(lo as int, hi as int)),
{
    let ghost s = v@.subrange(lo as int, hi as int);
    let mut k = lo;
    while k < hi
        invariant
            lo <= k <= hi <= v.len(),
            s == v@.subrange(lo as int, hi as int),
            forall|j: int| 0 <= j < k - lo ==> is_digit(#[trigger] s[j]),
        decreases hi - k,
    {
        let u = v[k] as u32;
        if u < 48 || u > 57 {
            assert(s[k - lo] == v@[k as int]);
            assert(!is_digit(s[k - lo]));
            return false;
        }
        assert(s[k - lo] == v@[k as int]);
        k += 1;
    }
    true
}

/// Appends `v[lo..hi]` to `out`.
pub fn push_chars(out: &mut Vec<char>, v: &Vec<char>, lo: usize, hi: usize)
    requires
        lo <= hi <= v.len(),
    ensures
        final(out)@ == old(out)@ + v@.subrange(lo as int, hi as int),
{
    let ghost start = out@;
    let mut k = lo;
    while k < hi
        invariant
            lo <= k <= hi <= v.len(),
            out@ == start + v@.subrange(lo as int, k as int),
        decreases hi - k,
    {
        out.push(v[k]);
        k += 1;
        assert(out@ =~= start + v@.subrange(lo as int, k as int));
    }
}

} // verus!

//! Character sequences: conversions between strings and vectors of `char`,
//! and the searches the rest of the crate is stated over.
//!
//! Every contract in the crate that speaks of text speaks of `Seq<char>`, the
//! view of `str` and `String`. Executable code works on `Vec<char>` so that
//! indexing is constant-time, and converts at the edges.

use vstd::prelude::*;
use vstd::std_specs::iter::IteratorSpec;

verus! {

/// `String::push` appends one character to the end of the string.
pub assume_specification[ String::push ](s: &mut String, ch: char)
    ensures
        final(s)@ == old(s)@.push(ch),
;

/// The characters of `s`, in order.
pub fn chars_of(s: &str) -> (v: Vec<char>)
    ensures
        v@ == s@,
{
    let mut v: Vec<char> = Vec::new();
    let chars = s.chars();
    for c in it: chars
        invariant
            v@ == it.seq().take(it.index() as int),
    {
        v.push(c);
    }
    v
}

/// The string made of the characters of `v`, in order.
pub fn string_of(v: &[char]) -> (s: String)
    ensures
        s@ == v@,
{
    let mut s = String::new();
    let mut i: usize = 0;
    while i < v.len()
        invariant
            i <= v.len(),
            s@ == v@.take(i as int),
        decreases v.len() - i,
    {
        s.push(v[i]);
        i = i + 1;
        assert(v@.take(i as int) == v@.take(i - 1).push(v@[i - 1]));
    }
    assert(v@.take(v.len() as int) == v@);
    s
}

/// Appends the characters `src[from..to]` to `dst`.
pub fn push_range(dst: &mut Vec<char>, src: &[char], from: usize, to: usize)
    requires
        from <= to <= src.len(),
    ensures
        final(dst)@ == old(dst)@ + src@.subrange(from as int, to as int),
{
    let mut i: usize = from;
    while i < to
        invariant
            from <= i <= to <= src.len(),
            dst@ == old(dst)@ + src@.subrange(from as int, i as int),
        decreases to - i,
    {
        dst.push(src[i]);
        i = i + 1;
        assert(src@.subrange(from as int, i as int) == src@.subrange(from as int, i - 1).push(
            src@[i - 1],
        ));
    }
}

/// Appends the characters of `s` to `dst`.
pub fn push_str(dst: &mut Vec<char>, s: &str)
    ensures
        final(dst)@ == old(dst)@ + s@,
{
    let chars = s.chars();
    for c in it: chars
        invariant
            dst@ == old(dst)@ + it.seq().take(it.index() as int),
    {
        dst.push(c);
    }
}

/// The index of the first `c` in `s`, or `s.len()` where `s` holds none.
pub open spec fn first_index_of(s: Seq<char>, c: char) -> int
    decreases s.len(),
{
    if s.len() == 0 {
        0
    } else if s[0] == c {
        0
    } else {
        1 + first_index_of(s.drop_first(), c)
    }
}

/// The index of the last `c` in `s`, or `-1` where `s` holds none.
pub open spec fn last_index_of(s: Seq<char>, c: char) -> int
    decreases s.len(),
{
    if s.len() == 0 {
        -1
    } else if s.last() == c {
        s.len() - 1
    } else {
        last_index_of(s.drop_last(), c)
    }
}

/// `first_index_of` is within bounds, nothing before it is `c`, and what
/// stands at it is.
pub proof fn lemma_first_index_of(s: Seq<char>, c: char)
    ensures
        0 <= first_index_of(s, c) <= s.len(),
        forall|j: int| 0 <= j < first_index_of(s, c) ==> s[j] != c,
        first_index_of(s, c) < s.len() ==> s[first_index_of(s, c)] == c,
        first_index_of(s, c) == s.len() <==> !s.contains(c),
    decreases s.len(),
{
    if s.len() != 0 && s[0] != c {
        let rest = s.drop_first();
        lemma_first_index_of(rest, c);
        assert forall|j: int| 0 <= j < first_index_of(s, c) implies s[j] != c by {
            if j > 0 {
                assert(s[j] == rest[j - 1]);
            }
        }
        if first_index_of(s, c) < s.len() {
            assert(s[first_index_of(s, c)] == rest[first_index_of(rest, c)]);
        }
        if s.contains(c) {
            let k = choose|k: int| 0 <= k < s.len() && s[k] == c;
            assert(rest[k - 1] == c);
        }
    } else if s.len() != 0 {
        assert(s[0] == c);
    }
}

/// An index at which `c` stands and before which it does not is the first.
pub proof fn lemma_first_index_is(s: Seq<char>, c: char, i: int)
    requires
        0 <= i <= s.len(),
        forall|j: int| 0 <= j < i ==> s[j] != c,
        i < s.len() ==> s[i] == c,
    ensures
        first_index_of(s, c) == i,
{
    lemma_first_index_of(s, c);
    let f = first_index_of(s, c);
    if f < i {
        assert(s[f] != c);
    }
    if i < f {
        assert(s[i] == c);
    }
}

/// `last_index_of` is within bounds, nothing after it is `c`, and what
/// stands at it is.
pub proof fn lemma_last_index_of(s: Seq<char>, c: char)
    ensures
        -1 <= last_index_of(s, c) < s.len(),
        forall|j: int| last_index_of(s, c) < j < s.len() ==> s[j] != c,
        0 <= last_index_of(s, c) ==> s[last_index_of(s, c)] == c,
    decreases s.len(),
{
    if s.len() != 0 && s.last() != c {
        let rest = s.drop_last();
        lemma_last_index_of(rest, c);
        assert forall|j: int| last_index_of(s, c) < j < s.len() implies s[j] != c by {
            if j < s.len() - 1 {
                assert(s[j] == rest[j]);
            }
        }
        if 0 <= last_index_of(s, c) {
            assert(s[last_index_of(s, c)] == rest[last_index_of(rest, c)]);
        }
    }
}

/// An index at which `c` stands and after which it does not is the last.
pub proof fn lemma_last_index_is(s: Seq<char>, c: char, i: int)
    requires
        -1 <= i < s.len(),
        forall|j: int| i < j < s.len() ==> s[j] != c,
        0 <= i ==> s[i] == c,
    ensures
        last_index_of(s, c) == i,
{
    lemma_last_index_of(s, c);
    let l = last_index_of(s, c);
    if l > i {
        assert(s[l] != c);
    }
    if i > l {
        assert(s[i] == c);
    }
}

/// The index of the first `c` in `v`, or `v.len()`.
pub fn find_first(v: &[char], c: char) -> (i: usize)
    ensures
        i == first_index_of(v@, c),
        i <= v.len(),
{
    let mut i: usize = 0;
    while i < v.len() && v[i] != c
        invariant
            i <= v.len(),
            forall|j: int| 0 <= j < i ==> v@[j] != c,
        decreases v.len() - i,
    {
        i = i + 1;
    }
    proof {
        lemma_first_index_is(v@, c, i as int);
    }
    i
}

/// One past the index of the last `c` in `v`, or `0` where `v` holds none.
pub fn after_last(v: &[char], c: char) -> (i: usize)
    ensures
        i == last_index_of(v@, c) + 1,
        i <= v.len(),
{
    let mut i: usize = v.len();
    while i > 0 && v[i - 1] != c
        invariant
            i <= v.len(),
            forall|j: int| i <= j < v.len() ==> v@[j] != c,
        decreases i,
    {
        i = i - 1;
    }
    proof {
        lemma_last_index_is(v@, c, i as int - 1);
    }
    i
}

/// `needle` stands in `hay` at index `i`.
pub open spec fn occurs_at(hay: Seq<char>, needle: Seq<char>, i: int) -> bool {
    &&& 0 <= i
    &&& i + needle.len() <= hay.len()
    &&& hay.subrange(i, i + needle.len()) == needle
}

/// `needle` stands somewhere in `hay`.
pub open spec fn contains_text(hay: Seq<char>, needle: Seq<char>) -> bool {
    exists|i: int| occurs_at(hay, needle, i)
}

/// `needle` stands in `hay` at `i` and nowhere after.
pub open spec fn is_last_occurrence(hay: Seq<char>, needle: Seq<char>, i: int) -> bool {
    &&& occurs_at(hay, needle, i)
    &&& forall|j: int| i < j ==> !occurs_at(hay, needle, j)
}

/// `s` ends with `suffix`.
pub open spec fn ends_with(s: Seq<char>, suffix: Seq<char>) -> bool {
    occurs_at(s, suffix, s.len() - suffix.len())
}

/// Whether `needle` stands in `hay` at index `i`.
pub fn matches_at(hay: &[char], needle: &[char], i: usize) -> (b: bool)
    ensures
        b == occurs_at(hay@, needle@, i as int),
{
    if needle.len() > hay.len() || i > hay.len() - needle.len() {
        return false;
    }
    let mut k: usize = 0;
    while k < needle.len()
        invariant
            k <= needle.len(),
            i + needle.len() <= hay.len(),
            forall|j: int| 0 <= j < k ==> hay@[i + j] == needle@[j],
        decreases needle.len() - k,
    {
        if hay[i + k] != needle[k] {
            proof {
                let sub = hay@.subrange(i as int, i + needle@.len());
                assert(sub[k as int] == hay@[i + k]);
            }
            return false;
        }
        k = k + 1;
    }
    assert(hay@.subrange(i as int, i + needle@.len()) =~= needle@);
    true
}

/// Whether `v` ends with `suffix`.
pub fn has_suffix(v: &[char], suffix: &[char]) -> (b: bool)
    ensures
        b == ends_with(v@, suffix@),
{
    if suffix.len() > v.len() {
        return false;
    }
    matches_at(v, suffix, v.len() - suffix.len())
}

/// The index of the last occurrence of `needle` in `hay`, if there is one.
pub fn find_last(hay: &[char], needle: &[char]) -> (r: Option<usize>)
    ensures
        match r {
            Some(i) => is_last_occurrence(hay@, needle@, i as int),
            None => !contains_text(hay@, needle@),
        },
{
    if needle.len() > hay.len() {
        return None;
    }
    let mut i: usize = hay.len() - needle.len();
    loop
        invariant
            needle.len() <= hay.len(),
            i <= hay.len() - needle.len(),
            forall|j: int| i < j ==> !occurs_at(hay@, needle@, j),
        decreases i,
    {
        if matches_at(hay, needle, i) {
            return Some(i);
        }
        if i == 0 {
            return None;
        }
        i = i - 1;
    }
}

/// Whether `needle` stands somewhere in `hay`.
pub fn contains(hay: &[char], needle: &[char]) -> (b: bool)
    ensures
        b == contains_text(hay@, needle@),
{
    find_last(hay, needle).is_some()
}

/// The index of the last occurrence of `needle` in `hay`; meaningful only
/// where there is one.
pub open spec fn last_occurrence(hay: Seq<char>, needle: Seq<char>) -> int {
    choose|i: int| is_last_occurrence(hay, needle, i)
}

/// There is at most one last occurrence.
pub proof fn lemma_last_occurrence(hay: Seq<char>, needle: Seq<char>, i: int)
    requires
        is_last_occurrence(hay, needle, i),
    ensures
        contains_text(hay, needle),
        last_occurrence(hay, needle) == i,
{
    let l = last_occurrence(hay, needle);
    assert(is_last_occurrence(hay, needle, l));
    if l < i {
        assert(!occurs_at(hay, needle, i));
    }
    if i < l {
        assert(!occurs_at(hay, needle, l));
    }
}

/// What an optional text holds, as contracts see it.
pub open spec fn opt_text(o: Option<&str>) -> Option<Seq<char>> {
    match o {
        Some(s) => Some(s@),
        None => None,
    }
}

/// `c` has the Unicode property `White_Space`.
pub open spec fn is_whitespace(c: char) -> bool {
    let n = c as u32;
    ||| 0x09 <= n <= 0x0D
    ||| n == 0x20
    ||| n == 0x85
    ||| n == 0xA0
    ||| n == 0x1680
    ||| 0x2000 <= n <= 0x200A
    ||| n == 0x2028
    ||| n == 0x2029
    ||| n == 0x202F
    ||| n == 0x205F
    ||| n == 0x3000
}

/// `s` without the whitespace it starts with.
pub open spec fn trim_start(s: Seq<char>) -> Seq<char>
    decreases s.len(),
{
    if s.len() > 0 && is_whitespace(s[0]) {
        trim_start(s.drop_first())
    } else {
        s
    }
}

/// `s` without the whitespace it ends with.
pub open spec fn trim_end(s: Seq<char>) -> Seq<char>
    decreases s.len(),
{
    if s.len() > 0 && is_whitespace(s.last()) {
        trim_end(s.drop_last())
    } else {
        s
    }
}

/// `s` without the whitespace at either end.
pub open spec fn trimmed(s: Seq<char>) -> Seq<char> {
    trim_end(trim_start(s))
}

/// Computes `is_whitespace`.
pub fn whitespace(c: char) -> (b: bool)
    ensures
        b == is_whitespace(c),
{
    let n: u32 = c as u32;
    (0x09 <= n && n <= 0x0D) || n == 0x20 || n == 0x85 || n == 0xA0 || n == 0x1680 || (0x2000 <= n
        && n <= 0x200A) || n == 0x2028 || n == 0x2029 || n == 0x202F || n == 0x205F || n == 0x3000
}

/// Computes `trimmed`.
pub fn trim(v: &[char]) -> (r: Vec<char>)
    ensures
        r@ == trimmed(v@),
{
    let mut lo: usize = 0;
    assert(v@.skip(0) =~= v@);
    while lo < v.len() && whitespace(v[lo])
        invariant
            lo <= v.len(),
            trim_start(v@) == trim_start(v@.skip(lo as int)),
        decreases v.len() - lo,
    {
        assert(v@.skip(lo as int).drop_first() =~= v@.skip(lo + 1));
        lo = lo + 1;
    }
    let mut hi: usize = v.len();
    assert(v@.subrange(lo as int, hi as int) =~= v@.skip(lo as int));
    while hi > lo && whitespace(v[hi - 1])
        invariant
            lo <= hi <= v.len(),
            trimmed(v@) == trim_end(v@.subrange(lo as int, hi as int)),
        decreases hi,
    {
        assert(v@.subrange(lo as int, hi as int).drop_last() =~= v@.subrange(lo as int, hi - 1));
        hi = hi - 1;
    }
    let mut r: Vec<char> = Vec::new();
    push_range(&mut r, v, lo, hi);
    r
}

} // verus!

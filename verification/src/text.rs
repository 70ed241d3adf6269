//! Character-level string helpers shared by the parsers of this crate.
//!
//! Strings are handled as sequences of `char`: a `String` or `&str` is viewed
//! as `Seq<char>`, and the helpers below state their results over that view.

use vstd::prelude::*;

verus! {

broadcast use vstd::string::group_string_axioms;

/// Unicode `White_Space` (PropList.txt): the characters that `char::is_whitespace`
/// accepts, and that `str::trim` removes.
pub open spec fn is_white_space(c: char) -> bool {
    let n = c as u32;
    ||| 0x09 <= n <= 0x0d
    ||| n == 0x20
    ||| n == 0x85
    ||| n == 0xa0
    ||| n == 0x1680
    ||| 0x2000 <= n <= 0x200a
    ||| n == 0x2028
    ||| n == 0x2029
    ||| n == 0x202f
    ||| n == 0x205f
    ||| n == 0x3000
}

/// `s` without its leading white space.
pub open spec fn trim_start(s: Seq<char>) -> Seq<char>
    decreases s.len(),
{
    if s.len() > 0 && is_white_space(s[0]) {
        trim_start(s.drop_first())
    } else {
        s
    }
}

/// `s` without its trailing white space.
pub open spec fn trim_end(s: Seq<char>) -> Seq<char>
    decreases s.len(),
{
    if s.len() > 0 && is_white_space(s.last()) {
        trim_end(s.drop_last())
    } else {
        s
    }
}

/// `s` without leading and trailing white space, as `str::trim` gives it.
pub open spec fn trim(s: Seq<char>) -> Seq<char> {
    trim_end(trim_start(s))
}

/// `s` is empty once trimmed: it holds white space only.
pub open spec fn is_blank(s: Seq<char>) -> bool {
    trim(s).len() == 0
}

/// `p` is a suffix of `s`.
pub open spec fn ends_with(s: Seq<char>, p: Seq<char>) -> bool {
    p.len() <= s.len() && s.subrange(s.len() - p.len(), s.len() as int) == p
}

/// `s` with every trailing copy of the (non-empty) pattern `p` removed, as
/// `str::trim_end_matches` does with a string pattern; an empty pattern
/// removes nothing.
pub open spec fn strip_suffixes(s: Seq<char>, p: Seq<char>) -> Seq<char>
    decreases s.len(),
{
    if p.len() > 0 && ends_with(s, p) {
        strip_suffixes(s.subrange(0, s.len() - p.len()), p)
    } else {
        s
    }
}

/// `s` with every trailing `c` removed, as `str::trim_end_matches` does with
/// a `char` pattern.
pub open spec fn strip_trailing_char(s: Seq<char>, c: char) -> Seq<char>
    decreases s.len(),
{
    if s.len() > 0 && s.last() == c {
        strip_trailing_char(s.drop_last(), c)
    } else {
        s
    }
}

/// The name of what Rust's `str::to_lowercase` returns for a string.
pub uninterp spec fn lowercase(s: Seq<char>) -> Seq<char>;

/// `str::to_lowercase`: the lowercase form of `s` as Rust's `str::to_lowercase`
/// gives it (Unicode case mapping, final sigma included). The contract names the
/// result and says no more of it; the Unicode case tables are not restated.
#[verifier::external_body]
pub(crate) fn to_lowercase(s: &str) -> (res: String)
    ensures
        res@ == lowercase(s@),
{
    s.to_lowercase()
}

/// Whether `c` has the Unicode `White_Space` property, as
/// `char::is_whitespace` answers.
pub fn char_is_white_space(c: char) -> (res: bool)
    ensures
        res == is_white_space(c),
{
    let n: u32 = c as u32;
    (0x09 <= n && n <= 0x0d) || n == 0x20 || n == 0x85 || n == 0xa0 || n == 0x1680 || (0x2000 <= n
        && n <= 0x200a) || n == 0x2028 || n == 0x2029 || n == 0x202f || n == 0x205f || n == 0x3000
}

/// `String::push`: appends one character.
#[verifier::external_body]
pub(crate) fn push_char(s: &mut String, c: char)
    ensures
        final(s)@ == old(s)@.push(c),
{
    s.push(c);
}

/// The characters of `s`, in order.
pub fn chars_of(s: &str) -> (res: Vec<char>)
    ensures
        res@ == s@,
{
    let mut res: Vec<char> = Vec::new();
    for c in it: s.chars()
        invariant
            it.seq() == s@,
            res@ == it.seq().take(it.index()),
    {
        res.push(c);
    }
    res
}

/// The string made of the characters of `v[from..to]`.
pub fn string_of_range(v: &Vec<char>, from: usize, to: usize) -> (res: String)
    requires
        from <= to <= v.len(),
    ensures
        res@ == v@.subrange(from as int, to as int),
{
    let mut res = String::new();
    let mut i: usize = from;
    while i < to
        invariant
            from <= i <= to <= v.len(),
            res@ == v@.subrange(from as int, i as int),
        decreases to - i,
    {
        push_char(&mut res, v[i]);
        assert(v@.subrange(from as int, i + 1) == v@.subrange(from as int, i as int).push(v@[i as int]));
        i = i + 1;
    }
    res
}

/// The string made of the characters of `v`.
pub fn string_of(v: &Vec<char>) -> (res: String)
    ensures
        res@ == v@,
{
    let res = string_of_range(v, 0, v.len());
    assert(v@.subrange(0, v@.len() as int) == v@);
    res
}

/// `s` followed by the characters of `t`.
pub fn append_str(s: &mut String, t: &str)
    ensures
        final(s)@ == old(s)@ + t@,
{
    let cs = chars_of(t);
    let ghost start = s@;
    let mut i: usize = 0;
    while i < cs.len()
        invariant
            i <= cs.len(),
            cs@ == t@,
            s@ == start + cs@.take(i as int),
        decreases cs.len() - i,
    {
        push_char(s, cs[i]);
        assert(cs@.take(i + 1) == cs@.take(i as int).push(cs@[i as int]));
        i = i + 1;
    }
    assert(cs@.take(cs@.len() as int) == cs@);
}

/// Whether `v` holds exactly the characters of `lit`.
pub fn chars_eq_str(v: &Vec<char>, lit: &str) -> (res: bool)
    ensures
        res == (v@ == lit@),
{
    let l = chars_of(lit);
    if v.len() != l.len() {
        return false;
    }
    let mut i: usize = 0;
    while i < v.len()
        invariant
            i <= v.len() == l.len(),
            l@ == lit@,
            forall|k: int| 0 <= k < i ==> v@[k] == l@[k],
        decreases v.len() - i,
    {
        if v[i] != l[i] {
            return false;
        }
        i = i + 1;
    }
    assert(v@ == l@);
    true
}

proof fn lemma_trim_start_skip(s: Seq<char>, i: int)
    requires
        0 <= i < s.len(),
        is_white_space(s[i]),
    ensures
        trim_start(s.skip(i)) == trim_start(s.skip(i + 1)),
{
    assert(s.skip(i).drop_first() == s.skip(i + 1));
}

proof fn lemma_trim_end_take(s: Seq<char>, j: int)
    requires
        0 < j <= s.len(),
        is_white_space(s[j - 1]),
    ensures
        trim_end(s.take(j)) == trim_end(s.take(j - 1)),
{
    assert(s.take(j).drop_last() == s.take(j - 1));
}

/// The position of the first and one past the last character that `trim`
/// keeps.
pub fn trim_bounds(v: &Vec<char>) -> (res: (usize, usize))
    ensures
        res.0 <= res.1 <= v.len(),
        v@.subrange(res.0 as int, res.1 as int) == trim(v@),
{
    let ghost s = v@;
    let mut i: usize = 0;
    assert(s.skip(0) == s);
    while i < v.len() && char_is_white_space(v[i])
        invariant
            i <= v.len(),
            s == v@,
            trim_start(s) == trim_start(s.skip(i as int)),
        decreases v.len() - i,
    {
        proof {
            lemma_trim_start_skip(s, i as int);
        }
        i = i + 1;
    }
    assert(trim_start(s) == s.skip(i as int));
    let ghost t = s.skip(i as int);
    let mut j: usize = v.len();
    assert(t.take(t.len() as int) == t);
    while j > i && char_is_white_space(v[j - 1])
        invariant
            i <= j <= v.len(),
            s == v@,
            t == s.skip(i as int),
            trim_end(t) == trim_end(t.take(j - i)),
        decreases j,
    {
        proof {
            lemma_trim_end_take(t, j - i);
        }
        j = j - 1;
    }
    assert(trim_end(t.take(j - i)) == t.take(j - i));
    assert(t.take(j - i) == s.subrange(i as int, j as int));
    (i, j)
}

/// The characters of `s` without leading and trailing white space.
pub fn trim_chars(s: &str) -> (res: Vec<char>)
    ensures
        res@ == trim(s@),
{
    let v = chars_of(s);
    let (a, b) = trim_bounds(&v);
    let mut res: Vec<char> = Vec::new();
    let mut k: usize = a;
    while k < b
        invariant
            a <= k <= b <= v.len(),
            res@ == v@.subrange(a as int, k as int),
        decreases b - k,
    {
        res.push(v[k]);
        assert(v@.subrange(a as int, k + 1) == v@.subrange(a as int, k as int).push(v@[k as int]));
        k = k + 1;
    }
    res
}

/// `str::trim`, as an owned string.
pub fn trim_string(s: &str) -> (res: String)
    ensures
        res@ == trim(s@),
{
    let v = trim_chars(s);
    string_of(&v)
}

/// Whether `s` holds white space only (`s.trim().is_empty()`).
pub fn is_blank_str(s: &str) -> (res: bool)
    ensures
        res == is_blank(s@),
{
    let v = chars_of(s);
    let (a, b) = trim_bounds(&v);
    a == b
}

/// Whether `p` is a suffix of `s`.
pub fn ends_with_chars(s: &Vec<char>, n: usize, p: &Vec<char>) -> (res: bool)
    requires
        n <= s.len(),
    ensures
        res == ends_with(s@.take(n as int), p@),
{
    if p.len() > n {
        return false;
    }
    let off: usize = n - p.len();
    let mut k: usize = 0;
    while k < p.len()
        invariant
            k <= p.len(),
            off + p.len() == n <= s.len(),
            forall|m: int| 0 <= m < k ==> s@[off + m] == p@[m],
        decreases p.len() - k,
    {
        if s[off + k] != p[k] {
            assert(s@.take(n as int).subrange(off as int, n as int)[k as int] != p@[k as int]);
            return false;
        }
        k = k + 1;
    }
    assert(s@.take(n as int).subrange(off as int, n as int) == p@);
    true
}

/// The length of `strip_suffixes(s[..n], p)`, which is a prefix of `s`.
pub fn strip_suffixes_len(s: &Vec<char>, n: usize, p: &Vec<char>) -> (res: usize)
    requires
        n <= s.len(),
    ensures
        res <= n,
        s@.take(res as int) == strip_suffixes(s@.take(n as int), p@),
{
    let mut m: usize = n;
    if p.len() == 0 {
        return n;
    }
    while ends_with_chars(s, m, p)
        invariant
            m <= n <= s.len(),
            p.len() > 0,
            strip_suffixes(s@.take(n as int), p@) == strip_suffixes(s@.take(m as int), p@),
        decreases m,
    {
        assert(s@.take(m as int).subrange(0, m - p.len()) == s@.take(m - p.len()));
        m = m - p.len();
    }
    m
}

/// The length of `strip_trailing_char(s[..n], c)`, which is a prefix of `s`.
pub fn strip_trailing_char_len(s: &Vec<char>, n: usize, c: char) -> (res: usize)
    requires
        n <= s.len(),
    ensures
        res <= n,
        s@.take(res as int) == strip_trailing_char(s@.take(n as int), c),
{
    let mut m: usize = n;
    while m > 0 && s[m - 1] == c
        invariant
            m <= n <= s.len(),
            strip_trailing_char(s@.take(n as int), c) == strip_trailing_char(s@.take(m as int), c),
        decreases m,
    {
        assert(s@.take(m as int).drop_last() == s@.take(m - 1));
        m = m - 1;
    }
    m
}

/// Whether two strings hold the same characters.
pub fn str_eq(a: &str, b: &str) -> (res: bool)
    ensures
        res == (a@ == b@),
{
    let ca = chars_of(a);
    chars_eq_str(&ca, b)
}

/// Every character of `w` is white space.
pub open spec fn all_white_space(w: Seq<char>) -> bool {
    forall|i: int| 0 <= i < w.len() ==> is_white_space(w[i])
}

proof fn lemma_trim_start_all_white(w: Seq<char>)
    requires
        all_white_space(w),
    ensures
        trim_start(w).len() == 0,
    decreases w.len(),
{
    if w.len() > 0 {
        lemma_trim_start_all_white(w.drop_first());
    }
}

proof fn lemma_trim_start_prefix(w: Seq<char>, t: Seq<char>)
    requires
        all_white_space(w),
    ensures
        trim_start(w + t) == trim_start(t),
    decreases w.len(),
{
    if w.len() > 0 {
        assert((w + t)[0] == w[0]);
        assert((w + t).drop_first() == w.drop_first() + t);
        lemma_trim_start_prefix(w.drop_first(), t);
    } else {
        assert(w + t == t);
    }
}

proof fn lemma_trim_end_suffix(t: Seq<char>, w: Seq<char>)
    requires
        all_white_space(w),
    ensures
        trim_end(t + w) == trim_end(t),
    decreases w.len(),
{
    if w.len() > 0 {
        assert((t + w).last() == w.last());
        assert((t + w).drop_last() == t + w.drop_last());
        lemma_trim_end_suffix(t, w.drop_last());
    } else {
        assert(t + w == t);
    }
}

proof fn lemma_trim_start_suffix(s: Seq<char>, w: Seq<char>)
    requires
        !all_white_space(s),
    ensures
        trim_start(s + w) == trim_start(s) + w,
    decreases s.len(),
{
    assert((s + w)[0] == s[0]);
    if is_white_space(s[0]) {
        assert((s + w).drop_first() == s.drop_first() + w);
        assert(!all_white_space(s.drop_first())) by {
            let k = choose|k: int| 0 <= k < s.len() && !is_white_space(s[k]);
            assert(s.drop_first()[k - 1] == s[k]);
        }
        lemma_trim_start_suffix(s.drop_first(), w);
    }
}

/// White space added at either end is trimmed away: `w1 + s + w2` trims to
/// what `s` trims to when `w1` and `w2` hold white space only.
pub proof fn trim_ignores_surrounding_white_space(w1: Seq<char>, s: Seq<char>, w2: Seq<char>)
    requires
        all_white_space(w1),
        all_white_space(w2),
    ensures
        trim(w1 + s + w2) == trim(s),
{
    assert(w1 + s + w2 == w1 + (s + w2));
    lemma_trim_start_prefix(w1, s + w2);
    if all_white_space(s) {
        assert(all_white_space(s + w2));
        lemma_trim_start_all_white(s + w2);
        lemma_trim_start_all_white(s);
        assert(trim_start(s + w2) == Seq::<char>::empty());
        assert(trim_start(s) == Seq::<char>::empty());
    } else {
        lemma_trim_start_suffix(s, w2);
        lemma_trim_end_suffix(trim_start(s), w2);
    }
}

} // verus!

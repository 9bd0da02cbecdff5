use vstd::prelude::*;
use vstd::string::StrSliceExecFns;

verus! {

/// Characters with the Unicode `White_Space` property.
pub open spec fn is_white_space(c: char) -> bool {
    ||| ('\u{9}' <= c && c <= '\u{d}')
    ||| c == ' '
    ||| c == '\u{85}'
    ||| c == '\u{a0}'
    ||| c == '\u{1680}'
    ||| ('\u{2000}' <= c && c <= '\u{200a}')
    ||| c == '\u{2028}'
    ||| c == '\u{2029}'
    ||| c == '\u{202f}'
    ||| c == '\u{205f}'
    ||| c == '\u{3000}'
}

/// Whether `c` has the Unicode `White_Space` property, as `char::is_whitespace` decides.
pub(crate) fn char_is_whitespace(c: char) -> (r: bool)
    ensures
        r == is_white_space(c),
{
    ('\u{9}' <= c && c <= '\u{d}') || c == ' ' || c == '\u{85}' || c == '\u{a0}' || c == '\u{1680}'
        || ('\u{2000}' <= c && c <= '\u{200a}') || c == '\u{2028}' || c == '\u{2029}' || c == '\u{202f}'
        || c == '\u{205f}' || c == '\u{3000}'
}

/// The characters of `s`, in order.
pub fn to_chars(s: &str) -> (v: Vec<char>)
    ensures
        v@ == s@,
{
    let mut v: Vec<char> = Vec::new();
    for c in it: s.chars()
        invariant
            v@ == it.seq().take(it.index()),
    {
        v.push(c);
    }
    v
}


/// `s` without its leading white space.
pub open spec fn trim_start(s: Seq<char>) -> Seq<char>
    decreases s.len(),
{
    if s.len() > 0 && is_white_space(s[0]) {
        trim_start(s.drop_first())
    } else {
        s
    }
}

/// `s` without its trailing white space.
pub open spec fn trim_end(s: Seq<char>) -> Seq<char>
    decreases s.len(),
{
    if s.len() > 0 && is_white_space(s.last()) {
        trim_end(s.drop_last())
    } else {
        s
    }
}

/// `s` without leading and trailing white space, as `str::trim` gives it.
pub open spec fn trim(s: Seq<char>) -> Seq<char> {
    trim_end(trim_start(s))
}

/// Whether some character of `s` is white space.
pub open spec fn has_white_space(s: Seq<char>) -> bool {
    exists|i: int| 0 <= i < s.len() && is_white_space(#[trigger] s[i])
}

/// The positions `(start, end)` such that `v[start..end]` is `v` trimmed.
pub fn trim_bounds(v: &Vec<char>) -> (r: (usize, usize))
    ensures
        r.0 <= r.1 <= v@.len(),
        v@.subrange(r.0 as int, r.1 as int) == trim(v@),
{
    let n = v.len();
    let mut i: usize = 0;
    assert(v@.skip(0) =~= v@);
    while i < n && char_is_whitespace(v[i])
        invariant
            i <= n == v@.len(),
            trim_start(v@) == trim_start(v@.skip(i as int)),
        decreases n - i,
    {
        assert(v@.skip(i as int).drop_first() =~= v@.skip(i + 1));
        i = i + 1;
    }
    assert(trim_start(v@.skip(i as int)) == v@.skip(i as int));
    let mut j: usize = n;
    assert(v@.subrange(i as int, n as int) =~= v@.skip(i as int));
    while j > i && char_is_whitespace(v[j - 1])
        invariant
            i <= j <= n == v@.len(),
            trim(v@) == trim_end(v@.subrange(i as int, j as int)),
        decreases j,
    {
        assert(v@.subrange(i as int, j as int).drop_last() =~= v@.subrange(i as int, j - 1));
        j = j - 1;
    }
    (i, j)
}

/// `s` without leading and trailing white space (`str::trim`).
pub fn trim_str(s: &str) -> (r: &str)
    ensures
        r@ == trim(s@),
{
    let v = to_chars(s);
    let (start, end) = trim_bounds(&v);
    s.substring_char(start, end)
}

/// Whether some character of `v` is white space.
pub fn any_white_space(v: &Vec<char>) -> (r: bool)
    ensures
        r == has_white_space(v@),
{
    let n = v.len();
    for i in 0..n
        invariant
            n == v@.len(),
            forall|k: int| 0 <= k < i ==> !is_white_space(#[trigger] v@[k]),
    {
        if char_is_whitespace(v[i]) {
            return true;
        }
    }
    false
}

/// Whether `c` occurs in `v`.
pub fn contains_char(v: &Vec<char>, c: char) -> (r: bool)
    ensures
        r == v@.contains(c),
{
    let n = v.len();
    for i in 0..n
        invariant
            n == v@.len(),
            forall|k: int| 0 <= k < i ==> #[trigger] v@[k] != c,
    {
        if v[i] == c {
            return true;
        }
    }
    false
}

/// The code of `c` after ASCII lowercasing (`char::to_ascii_lowercase`).
pub open spec fn ascii_lower_code(c: char) -> u32 {
    if 'A' <= c && c <= 'Z' {
        (c as u32 + 32) as u32
    } else {
        c as u32
    }
}

/// ASCII case-insensitive equality, as `str::eq_ignore_ascii_case` decides it.
pub open spec fn eq_ignore_ascii_case_spec(a: Seq<char>, b: Seq<char>) -> bool {
    &&& a.len() == b.len()
    &&& forall|i: int| 0 <= i < a.len() ==> ascii_lower_code(#[trigger] a[i]) == ascii_lower_code(b[i])
}

fn lower_code(c: char) -> (r: u32)
    ensures
        r == ascii_lower_code(c),
{
    if 'A' <= c && c <= 'Z' {
        c as u32 + 32
    } else {
        c as u32
    }
}

/// Whether `a` and `b` match when ASCII letters are compared without case.
pub fn eq_ignore_ascii_case(a: &str, b: &str) -> (r: bool)
    ensures
        r == eq_ignore_ascii_case_spec(a@, b@),
{
    let va = to_chars(a);
    let vb = to_chars(b);
    if va.len() != vb.len() {
        return false;
    }
    let n = va.len();
    for i in 0..n
        invariant
            n == va@.len() == vb@.len(),
            va@ == a@,
            vb@ == b@,
            forall|k: int| 0 <= k < i ==> ascii_lower_code(#[trigger] va@[k]) == ascii_lower_code(vb@[k]),
    {
        if lower_code(va[i]) != lower_code(vb[i]) {
            return false;
        }
    }
    true
}

/// Whether `a` and `b` hold the same characters.
pub fn str_eq(a: &str, b: &str) -> (r: bool)
    ensures
        r == (a@ == b@),
{
    let x = a.to_owned();
    let y = b.to_owned();
    x == y
}


/// Trimming leaves a sequence without white space unchanged.
pub proof fn lemma_trim_without_white_space(t: Seq<char>)
    requires
        !has_white_space(t),
    ensures
        trim(t) == t,
{
    if t.len() > 0 {
        assert(!is_white_space(t[0]));
        assert(!is_white_space(t.last()));
    }
}

/// The word being read, if any, as a list of finished words.
pub open spec fn flush_word(cur: Seq<char>) -> Seq<Seq<char>> {
    if cur.len() == 0 {
        Seq::empty()
    } else {
        seq![cur]
    }
}

/// The words of `s` when the word `cur` has been read up to the start of `s`.
pub open spec fn words_after(s: Seq<char>, cur: Seq<char>) -> Seq<Seq<char>>
    decreases s.len(),
{
    if s.len() == 0 {
        flush_word(cur)
    } else if is_white_space(s[0]) {
        flush_word(cur) + words_after(s.drop_first(), Seq::empty())
    } else {
        words_after(s.drop_first(), cur.push(s[0]))
    }
}

/// The maximal runs of non-white-space characters of `s`, in order (`str::split_whitespace`).
pub open spec fn split_whitespace_spec(s: Seq<char>) -> Seq<Seq<char>> {
    words_after(s, Seq::empty())
}

/// The views of a list of string slices.
pub open spec fn str_views(v: Seq<&str>) -> Seq<Seq<char>> {
    v.map_values(|x: &str| x@)
}

/// The maximal runs of non-white-space characters of `s`, in order.
pub fn split_whitespace(s: &str) -> (r: Vec<&str>)
    ensures
        str_views(r@) == split_whitespace_spec(s@),
{
    let v = to_chars(s);
    let n = v.len();
    let mut words: Vec<&str> = Vec::new();
    let mut in_word = false;
    let mut start: usize = 0;
    let mut i: usize = 0;
    assert(v@.skip(0) =~= v@);
    assert(v@.subrange(0, 0) =~= Seq::<char>::empty());
    while i < n
        invariant
            i <= n == v@.len(),
            v@ == s@,
            start <= i,
            !in_word ==> start == i,
            split_whitespace_spec(s@) == str_views(words@) + words_after(
                v@.skip(i as int),
                v@.subrange(start as int, i as int),
            ),
            in_word ==> start < i,
        decreases n - i,
    {
        let ghost before = words@;
        assert(v@.skip(i as int).drop_first() =~= v@.skip(i + 1));
        assert(v@.skip(i as int)[0] == v@[i as int]);
        if char_is_whitespace(v[i]) {
            if in_word {
                let w = s.substring_char(start, i);
                words.push(w);
                assert(str_views(words@) =~= str_views(before) + seq![v@.subrange(start as int, i as int)]);
                assert(flush_word(v@.subrange(start as int, i as int)) =~= seq![v@.subrange(start as int, i as int)]);
                in_word = false;
            } else {
                assert(flush_word(v@.subrange(start as int, i as int)) =~= Seq::<Seq<char>>::empty());
                assert(str_views(words@) + Seq::<Seq<char>>::empty() =~= str_views(words@));
            }
            i = i + 1;
            start = i;
            assert(v@.subrange(start as int, i as int) =~= Seq::<char>::empty());
        } else {
            if !in_word {
                start = i;
                in_word = true;
            }
            assert(v@.subrange(start as int, i as int).push(v@[i as int]) =~= v@.subrange(start as int, i + 1));
            i = i + 1;
        }
    }
    assert(v@.skip(n as int) =~= Seq::<char>::empty());
    if in_word {
        let ghost before = words@;
        let w = s.substring_char(start, n);
        words.push(w);
        assert(str_views(words@) =~= str_views(before) + seq![v@.subrange(start as int, n as int)]);
    } else {
        assert(str_views(words@) + Seq::<Seq<char>>::empty() =~= str_views(words@));
    }
    words
}

/// Whether two characters are the same once ASCII letters are taken without case: equal, or
/// an upper-case ASCII letter and its lower-case form.
pub open spec fn same_ignoring_ascii_case(x: char, y: char) -> bool {
    ||| x == y
    ||| ('A' <= x && x <= 'Z' && y as u32 == x as u32 + 32)
    ||| ('A' <= y && y <= 'Z' && x as u32 == y as u32 + 32)
}

proof fn lemma_same_ignoring_ascii_case(x: char, y: char)
    ensures
        same_ignoring_ascii_case(x, y) <==> ascii_lower_code(x) == ascii_lower_code(y),
{
    let xu = 'A' <= x && x <= 'Z';
    let yu = 'A' <= y && y <= 'Z';
    if xu {
        assert(ascii_lower_code(x) == x as u32 + 32);
    } else {
        assert(ascii_lower_code(x) == x as u32);
    }
    if yu {
        assert(ascii_lower_code(y) == y as u32 + 32);
    } else {
        assert(ascii_lower_code(y) == y as u32);
    }
    if ascii_lower_code(x) == ascii_lower_code(y) && xu == yu {
        assert(x as u32 == y as u32);
        assert(x == y);
    }
}

/// Case-insensitive equality holds exactly between texts of the same length whose characters
/// match pairwise, an ASCII letter matching itself in either case.
pub proof fn law_eq_ignore_ascii_case_meaning(a: Seq<char>, b: Seq<char>)
    ensures
        eq_ignore_ascii_case_spec(a, b) <==> (a.len() == b.len() && forall|i: int|
            0 <= i < a.len() ==> #[trigger] same_ignoring_ascii_case(a[i], b[i])),
{
    if a.len() == b.len() {
        if forall|i: int| 0 <= i < a.len() ==> #[trigger] same_ignoring_ascii_case(a[i], b[i]) {
            assert forall|i: int| 0 <= i < a.len() implies ascii_lower_code(#[trigger] a[i]) == ascii_lower_code(b[i]) by {
                assert(same_ignoring_ascii_case(a[i], b[i]));
                lemma_same_ignoring_ascii_case(a[i], b[i]);
            }
        }
        if eq_ignore_ascii_case_spec(a, b) {
            assert forall|i: int| 0 <= i < a.len() implies #[trigger] same_ignoring_ascii_case(a[i], b[i]) by {
                assert(ascii_lower_code(a[i]) == ascii_lower_code(b[i]));
                lemma_same_ignoring_ascii_case(a[i], b[i]);
            }
        }
    }
}

}

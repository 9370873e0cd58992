//! Text helpers: whitespace trimming and ASCII case-insensitive comparison,
//! stated over the character sequences that `String` and `str` view as.
use vstd::prelude::*;

verus! {

/// Unicode's `White_Space` property, the set of characters that
/// `char::is_whitespace` accepts.
pub open spec fn is_unicode_space(c: char) -> bool {
    let n = c as u32;
    (9 <= n && n <= 13) || n == 32 || n == 0x85 || n == 0xa0 || n == 0x1680 || (0x2000 <= n
        && n <= 0x200a) || n == 0x2028 || n == 0x2029 || n == 0x202f || n == 0x205f || n
        == 0x3000
}

/// Every character of `s` is white space.
pub open spec fn all_space(s: Seq<char>) -> bool {
    forall|i: int| 0 <= i < s.len() ==> is_unicode_space(#[trigger] s[i])
}

/// Number of white-space characters at the front of `s`.
pub open spec fn leading_space_len(s: Seq<char>) -> nat
    decreases s.len(),
{
    if s.len() > 0 && is_unicode_space(s[0]) {
        1 + leading_space_len(s.drop_first())
    } else {
        0
    }
}

/// Number of white-space characters at the back of `s`.
pub open spec fn trailing_space_len(s: Seq<char>) -> nat
    decreases s.len(),
{
    if s.len() > 0 && is_unicode_space(s.last()) {
        1 + trailing_space_len(s.drop_last())
    } else {
        0
    }
}

/// `s` with its leading white space removed.
pub open spec fn trim_start_spaces(s: Seq<char>) -> Seq<char> {
    s.skip(leading_space_len(s) as int)
}

/// `s` with its trailing white space removed.
pub open spec fn trim_end_spaces(s: Seq<char>) -> Seq<char> {
    s.take(s.len() - trailing_space_len(s))
}

/// `s` with its leading and trailing white space removed.
pub open spec fn trim_spaces(s: Seq<char>) -> Seq<char> {
    trim_end_spaces(trim_start_spaces(s))
}

/// The text holds nothing but white space (or nothing at all).
pub open spec fn is_blank(s: Seq<char>) -> bool {
    trim_spaces(s).len() == 0
}

/// A character's code with ASCII upper-case letters mapped to lower case.
pub open spec fn ascii_fold_code(c: char) -> u32 {
    let n = c as u32;
    if 65 <= n && n <= 90 {
        (n + 32) as u32
    } else {
        n
    }
}

/// The codes of `s` with ASCII letters folded to lower case.
pub open spec fn ascii_folded(s: Seq<char>) -> Seq<u32> {
    s.map_values(|c: char| ascii_fold_code(c))
}

/// Leading and trailing white space never exceed the text.
pub proof fn lemma_space_lens_bounded(s: Seq<char>)
    ensures
        leading_space_len(s) <= s.len(),
        trailing_space_len(s) <= s.len(),
    decreases s.len(),
{
    if s.len() > 0 {
        lemma_space_lens_bounded(s.drop_first());
        lemma_space_lens_bounded(s.drop_last());
    }
}

/// White space in front of `s` adds to its leading white space.
pub proof fn lemma_leading_space_prefix(p: Seq<char>, s: Seq<char>)
    requires
        all_space(p),
    ensures
        leading_space_len(p + s) == p.len() + leading_space_len(s),
    decreases p.len(),
{
    if p.len() > 0 {
        assert((p + s).drop_first() =~= p.drop_first() + s);
        assert((p + s)[0] == p[0]);
        lemma_leading_space_prefix(p.drop_first(), s);
    } else {
        assert(p + s =~= s);
    }
}

/// White space behind `s` adds to its trailing white space.
pub proof fn lemma_trailing_space_suffix(s: Seq<char>, q: Seq<char>)
    requires
        all_space(q),
    ensures
        trailing_space_len(s + q) == q.len() + trailing_space_len(s),
    decreases q.len(),
{
    if q.len() > 0 {
        assert((s + q).drop_last() =~= s + q.drop_last());
        assert((s + q).last() == q.last());
        lemma_trailing_space_suffix(s, q.drop_last());
    } else {
        assert(s + q =~= s);
    }
}

/// Leading white space that stops inside `s` is not changed by what follows.
pub proof fn lemma_leading_space_stops(s: Seq<char>, q: Seq<char>)
    requires
        leading_space_len(s) < s.len(),
    ensures
        leading_space_len(s + q) == leading_space_len(s),
    decreases s.len(),
{
    if s.len() > 0 && is_unicode_space(s[0]) {
        assert((s + q).drop_first() =~= s.drop_first() + q);
        lemma_leading_space_stops(s.drop_first(), q);
    }
}

/// The leading and trailing white space is all of an all-space text.
pub proof fn lemma_all_space_counts(s: Seq<char>)
    requires
        all_space(s),
    ensures
        leading_space_len(s) == s.len(),
        trailing_space_len(s) == s.len(),
{
    lemma_leading_space_prefix(s, Seq::empty());
    lemma_trailing_space_suffix(Seq::empty(), s);
    assert(s + Seq::<char>::empty() =~= s);
    assert(Seq::<char>::empty() + s =~= s);
}

/// A text whose leading white space is all of it is all space.
pub proof fn lemma_leading_all_is_space(s: Seq<char>)
    requires
        leading_space_len(s) == s.len(),
    ensures
        all_space(s),
    decreases s.len(),
{
    if s.len() > 0 {
        lemma_leading_all_is_space(s.drop_first());
        assert forall|i: int| 0 <= i < s.len() implies is_unicode_space(#[trigger] s[i]) by {
            if i > 0 {
                assert(s[i] == s.drop_first()[i - 1]);
            }
        }
    }
}

/// White space around a text does not change it once trimmed.
pub proof fn lemma_trim_ignores_padding(p: Seq<char>, s: Seq<char>, q: Seq<char>)
    requires
        all_space(p),
        all_space(q),
    ensures
        trim_spaces(p + s + q) == trim_spaces(s),
{
    let whole = p + s + q;
    assert(whole =~= p + (s + q));
    lemma_leading_space_prefix(p, s + q);
    lemma_space_lens_bounded(s + q);
    lemma_space_lens_bounded(s);
    assert(trim_start_spaces(whole) =~= (s + q).skip(leading_space_len(s + q) as int));
    if leading_space_len(s) < s.len() {
        lemma_leading_space_stops(s, q);
        let t = s.skip(leading_space_len(s) as int);
        assert(trim_start_spaces(whole) =~= t + q);
        lemma_trailing_space_suffix(t, q);
        lemma_space_lens_bounded(t);
        assert(trim_end_spaces(t + q) =~= trim_end_spaces(t));
    } else {
        lemma_leading_all_is_space(s);
        assert(all_space(s + q));
        lemma_all_space_counts(s + q);
        assert(trim_start_spaces(whole).len() == 0);
        assert(trim_start_spaces(s).len() == 0);
        assert(trim_spaces(whole) =~= trim_spaces(s));
    }
}

/// Texts with white space at the same places have the same leading and
/// trailing white space.
pub proof fn lemma_same_space_pattern(a: Seq<char>, b: Seq<char>)
    requires
        a.len() == b.len(),
        forall|i: int| 0 <= i < a.len() ==> is_unicode_space(#[trigger] a[i]) == is_unicode_space(b[i]),
    ensures
        leading_space_len(a) == leading_space_len(b),
        trailing_space_len(a) == trailing_space_len(b),
    decreases a.len(),
{
    if a.len() > 0 {
        assert(is_unicode_space(a[0]) == is_unicode_space(b[0]));
        assert(is_unicode_space(a[a.len() - 1]) == is_unicode_space(b[b.len() - 1]));
        assert forall|i: int| 0 <= i < a.drop_first().len() implies is_unicode_space(
            #[trigger] a.drop_first()[i],
        ) == is_unicode_space(b.drop_first()[i]) by {
            assert(a.drop_first()[i] == a[i + 1]);
            assert(b.drop_first()[i] == b[i + 1]);
        }
        assert forall|i: int| 0 <= i < a.drop_last().len() implies is_unicode_space(
            #[trigger] a.drop_last()[i],
        ) == is_unicode_space(b.drop_last()[i]) by {
            assert(a.drop_last()[i] == a[i]);
            assert(b.drop_last()[i] == b[i]);
        }
        lemma_same_space_pattern(a.drop_first(), b.drop_first());
        lemma_same_space_pattern(a.drop_last(), b.drop_last());
    }
}

/// Texts that differ only in the case of ASCII letters still do so once trimmed.
pub proof fn lemma_trim_keeps_case_variants(a: Seq<char>, b: Seq<char>)
    requires
        ascii_folded(a) == ascii_folded(b),
    ensures
        ascii_folded(trim_spaces(a)) == ascii_folded(trim_spaces(b)),
{
    assert(a.len() == ascii_folded(a).len());
    assert(b.len() == ascii_folded(b).len());
    assert forall|i: int| 0 <= i < a.len() implies #[trigger] is_unicode_space(a[i])
        == is_unicode_space(b[i]) by {
        assert(ascii_folded(a)[i] == ascii_fold_code(a[i]));
        assert(ascii_folded(b)[i] == ascii_fold_code(b[i]));
    }
    lemma_same_space_pattern(a, b);
    lemma_space_lens_bounded(a);
    let la = leading_space_len(a) as int;
    let sa = a.skip(la);
    let sb = b.skip(la);
    assert forall|i: int| 0 <= i < sa.len() implies #[trigger] is_unicode_space(sa[i])
        == is_unicode_space(sb[i]) by {
        assert(sa[i] == a[i + la]);
        assert(sb[i] == b[i + la]);
    }
    lemma_same_space_pattern(sa, sb);
    lemma_space_lens_bounded(sa);
    let ta = trim_spaces(a);
    let tb = trim_spaces(b);
    assert(ta.len() == tb.len());
    assert forall|i: int| 0 <= i < ta.len() implies #[trigger] ascii_folded(ta)[i]
        == ascii_folded(tb)[i] by {
        assert(ta[i] == a[i + la]);
        assert(tb[i] == b[i + la]);
        assert(ascii_folded(a)[i + la] == ascii_fold_code(a[i + la]));
        assert(ascii_folded(b)[i + la] == ascii_fold_code(b[i + la]));
    }
    assert(ascii_folded(ta) =~= ascii_folded(tb));
}

/// `file` placed inside the directory `dir`, paths written with `/`.
pub open spec fn joined_path(dir: Seq<char>, file: Seq<char>) -> Seq<char> {
    if dir.len() == 0 {
        file
    } else if dir.last() == '/' {
        dir + file
    } else {
        dir.push('/') + file
    }
}

/// The path of `file` inside the directory `dir`.
pub fn join_path(dir: &str, file: &str) -> (r: String)
    ensures
        r@ == joined_path(dir@, file@),
{
    let n = dir.unicode_len();
    if n == 0 {
        return file.to_owned();
    }
    let mut r = dir.to_owned();
    if dir.get_char(n - 1) != '/' {
        r.append("/");
        proof {
            reveal_strlit("/");
        }
    }
    r.append(file);
    r
}

/// `prefix` followed by `detail`.
pub fn prefixed(prefix: &str, detail: &String) -> (r: String)
    ensures
        r@ == prefix@ + detail@,
{
    let mut r = prefix.to_owned();
    r.append(detail.as_str());
    r
}

/// Relies on `str::trim`, which drops the leading and trailing characters that
/// have Unicode's `White_Space` property.
#[verifier::external_body]
pub(crate) fn trim_str(s: &str) -> (r: &str)
    ensures
        r@ == trim_spaces(s@),
{
    s.trim()
}

/// Relies on `str::eq_ignore_ascii_case`: two texts match when they are equal
/// once ASCII letters are lowered.
#[verifier::external_body]
pub(crate) fn eq_ignore_ascii_case(a: &str, b: &str) -> (r: bool)
    ensures
        r == (ascii_folded(a@) == ascii_folded(b@)),
{
    a.eq_ignore_ascii_case(b)
}

/// Whether `s` holds nothing but white space.
pub fn is_blank_str(s: &str) -> (r: bool)
    ensures
        r == is_blank(s@),
{
    trim_str(s).is_empty()
}

} // verus!

//! Composition of HTML markup strings.
//!
//! Spec functions give the exact character sequence that each construction
//! renders to; the executable builders are proved to produce exactly those
//! sequences. `contains_frag` and the lemmas around it let callers show that
//! a rendered fragment occurs inside a larger document.

use vstd::prelude::*;

verus! {

/// Rendering of one attribute: a leading space, the attribute name, `="`,
/// the value, and the closing quote.
pub open spec fn spec_attr(name: Seq<char>, value: Seq<char>) -> Seq<char> {
    " "@ + name + "=\""@ + value + "\""@
}

/// Rendering of an element without attributes: open tag, contents, close tag.
pub open spec fn spec_elem(tag: Seq<char>, inner: Seq<char>) -> Seq<char> {
    "<"@ + tag + ">"@ + inner + "</"@ + tag + ">"@
}

/// Rendering of an element with one attribute.
pub open spec fn spec_elem_attr(
    tag: Seq<char>,
    name: Seq<char>,
    value: Seq<char>,
    inner: Seq<char>,
) -> Seq<char> {
    "<"@ + tag + spec_attr(name, value) + ">"@ + inner + "</"@ + tag + ">"@
}

/// Rendering of an element with two attributes.
pub open spec fn spec_elem_attr2(
    tag: Seq<char>,
    name1: Seq<char>,
    value1: Seq<char>,
    name2: Seq<char>,
    value2: Seq<char>,
    inner: Seq<char>,
) -> Seq<char> {
    "<"@ + tag + spec_attr(name1, value1) + spec_attr(name2, value2) + ">"@ + inner + "</"@ + tag
        + ">"@
}

/// Builds the rendering of one attribute.
pub fn attr(name: &str, value: &str) -> (r: String)
    ensures
        r@ == spec_attr(name@, value@),
{
    let mut r = String::from_str(" ");
    r.append(name);
    r.append("=\"");
    r.append(value);
    r.append("\"");
    r
}

/// Builds an element without attributes around the given contents.
pub fn elem(tag: &str, inner: &str) -> (r: String)
    ensures
        r@ == spec_elem(tag@, inner@),
{
    let mut r = String::from_str("<");
    r.append(tag);
    r.append(">");
    r.append(inner);
    r.append("</");
    r.append(tag);
    r.append(">");
    r
}

/// Builds an element with one attribute around the given contents.
pub fn elem_attr(tag: &str, name: &str, value: &str, inner: &str) -> (r: String)
    ensures
        r@ == spec_elem_attr(tag@, name@, value@, inner@),
{
    let mut r = String::from_str("<");
    r.append(tag);
    let a = attr(name, value);
    r.append(a.as_str());
    r.append(">");
    r.append(inner);
    r.append("</");
    r.append(tag);
    r.append(">");
    r
}

/// Builds an element with two attributes around the given contents.
pub fn elem_attr2(
    tag: &str,
    name1: &str,
    value1: &str,
    name2: &str,
    value2: &str,
    inner: &str,
) -> (r: String)
    ensures
        r@ == spec_elem_attr2(tag@, name1@, value1@, name2@, value2@, inner@),
{
    let mut r = String::from_str("<");
    r.append(tag);
    let a1 = attr(name1, value1);
    r.append(a1.as_str());
    let a2 = attr(name2, value2);
    r.append(a2.as_str());
    r.append(">");
    r.append(inner);
    r.append("</");
    r.append(tag);
    r.append(">");
    r
}

/// `frag` occurs contiguously somewhere inside `s`.
pub open spec fn contains_frag(s: Seq<char>, frag: Seq<char>) -> bool {
    exists|i: int|
        0 <= i && i + frag.len() <= s.len() && #[trigger] s.subrange(i, i + frag.len() as int)
            == frag
}

/// A sequence occurs inside itself.
pub proof fn lemma_contains_frag_self(s: Seq<char>)
    ensures
        contains_frag(s, s),
{
    let i: int = 0;
    assert(s.subrange(i, i + s.len() as int) =~= s);
}

/// An occurrence is kept when more text is put in front.
pub proof fn lemma_contains_frag_prepend(a: Seq<char>, b: Seq<char>, frag: Seq<char>)
    requires
        contains_frag(b, frag),
    ensures
        contains_frag(a + b, frag),
{
    let i = choose|i: int|
        0 <= i && i + frag.len() <= b.len() && #[trigger] b.subrange(i, i + frag.len() as int)
            == frag;
    let j = a.len() + i;
    assert((a + b).subrange(j, j + frag.len() as int) =~= frag);
}

/// An occurrence is kept when more text is put after.
pub proof fn lemma_contains_frag_append(a: Seq<char>, b: Seq<char>, frag: Seq<char>)
    requires
        contains_frag(a, frag),
    ensures
        contains_frag(a + b, frag),
{
    let i = choose|i: int|
        0 <= i && i + frag.len() <= a.len() && #[trigger] a.subrange(i, i + frag.len() as int)
            == frag;
    assert((a + b).subrange(i, i + frag.len() as int) =~= frag);
}

/// The first part of a concatenation is its prefix.
pub proof fn lemma_concat_prefix(a: Seq<char>, b: Seq<char>)
    ensures
        (a + b).subrange(0, a.len() as int) == a,
{
    assert((a + b).subrange(0, a.len() as int) =~= a);
}

/// `c1` is never immediately followed by `c2` in `s`, and `s` does not end
/// in `c1`. The trailing condition makes the predicate close under
/// concatenation, and it rules out every fragment in which `c1` and `c2`
/// stand side by side.
pub open spec fn free_of_pair(s: Seq<char>, c1: char, c2: char) -> bool {
    &&& forall|i: int|
        0 <= i && i + 1 < s.len() ==> !((#[trigger] s[i]) == c1 && s[i + 1] == c2)
    &&& s.len() > 0 ==> s[s.len() - 1] != c1
}

/// The pair-freedom predicate is closed under concatenation.
pub proof fn lemma_free_of_pair_concat(a: Seq<char>, b: Seq<char>, c1: char, c2: char)
    requires
        free_of_pair(a, c1, c2),
        free_of_pair(b, c1, c2),
    ensures
        free_of_pair(a + b, c1, c2),
{
    let s = a + b;
    assert forall|i: int| 0 <= i && i + 1 < s.len() implies !((#[trigger] s[i]) == c1 && s[i + 1]
        == c2) by {
        if i + 1 < a.len() {
            assert(s[i] == a[i] && s[i + 1] == a[i + 1]);
        } else if i + 1 == a.len() {
            assert(s[i] == a[a.len() - 1]);
        } else {
            assert(s[i] == b[i - a.len()] && s[i + 1] == b[i + 1 - a.len()]);
        }
    }
    if s.len() > 0 {
        if b.len() > 0 {
            assert(s[s.len() - 1] == b[b.len() - 1]);
        } else {
            assert(s[s.len() - 1] == a[a.len() - 1]);
        }
    }
}

/// An attribute rendering is pair-free when its pieces are.
pub proof fn lemma_free_of_pair_attr(name: Seq<char>, value: Seq<char>, c1: char, c2: char)
    requires
        free_of_pair(" "@, c1, c2),
        free_of_pair("=\""@, c1, c2),
        free_of_pair("\""@, c1, c2),
        free_of_pair(name, c1, c2),
        free_of_pair(value, c1, c2),
    ensures
        free_of_pair(spec_attr(name, value), c1, c2),
{
    lemma_free_of_pair_concat(" "@, name, c1, c2);
    lemma_free_of_pair_concat(" "@ + name, "=\""@, c1, c2);
    lemma_free_of_pair_concat(" "@ + name + "=\""@, value, c1, c2);
    lemma_free_of_pair_concat(" "@ + name + "=\""@ + value, "\""@, c1, c2);
}

/// An element rendering is pair-free when its pieces are.
pub proof fn lemma_free_of_pair_elem(tag: Seq<char>, inner: Seq<char>, c1: char, c2: char)
    requires
        free_of_pair("<"@, c1, c2),
        free_of_pair(">"@, c1, c2),
        free_of_pair("</"@, c1, c2),
        free_of_pair(tag, c1, c2),
        free_of_pair(inner, c1, c2),
    ensures
        free_of_pair(spec_elem(tag, inner), c1, c2),
{
    lemma_free_of_pair_concat("<"@, tag, c1, c2);
    lemma_free_of_pair_concat("<"@ + tag, ">"@, c1, c2);
    lemma_free_of_pair_concat("<"@ + tag + ">"@, inner, c1, c2);
    lemma_free_of_pair_concat("<"@ + tag + ">"@ + inner, "</"@, c1, c2);
    lemma_free_of_pair_concat("<"@ + tag + ">"@ + inner + "</"@, tag, c1, c2);
    lemma_free_of_pair_concat("<"@ + tag + ">"@ + inner + "</"@ + tag, ">"@, c1, c2);
}

/// A one-attribute element rendering is pair-free when its pieces are.
pub proof fn lemma_free_of_pair_elem_attr(
    tag: Seq<char>,
    name: Seq<char>,
    value: Seq<char>,
    inner: Seq<char>,
    c1: char,
    c2: char,
)
    requires
        free_of_pair("<"@, c1, c2),
        free_of_pair(">"@, c1, c2),
        free_of_pair("</"@, c1, c2),
        free_of_pair(" "@, c1, c2),
        free_of_pair("=\""@, c1, c2),
        free_of_pair("\""@, c1, c2),
        free_of_pair(tag, c1, c2),
        free_of_pair(name, c1, c2),
        free_of_pair(value, c1, c2),
        free_of_pair(inner, c1, c2),
    ensures
        free_of_pair(spec_elem_attr(tag, name, value, inner), c1, c2),
{
    lemma_free_of_pair_attr(name, value, c1, c2);
    let a = spec_attr(name, value);
    lemma_free_of_pair_concat("<"@, tag, c1, c2);
    lemma_free_of_pair_concat("<"@ + tag, a, c1, c2);
    lemma_free_of_pair_concat("<"@ + tag + a, ">"@, c1, c2);
    lemma_free_of_pair_concat("<"@ + tag + a + ">"@, inner, c1, c2);
    lemma_free_of_pair_concat("<"@ + tag + a + ">"@ + inner, "</"@, c1, c2);
    lemma_free_of_pair_concat("<"@ + tag + a + ">"@ + inner + "</"@, tag, c1, c2);
    lemma_free_of_pair_concat("<"@ + tag + a + ">"@ + inner + "</"@ + tag, ">"@, c1, c2);
}

/// A two-attribute element rendering is pair-free when its pieces are.
pub proof fn lemma_free_of_pair_elem_attr2(
    tag: Seq<char>,
    name1: Seq<char>,
    value1: Seq<char>,
    name2: Seq<char>,
    value2: Seq<char>,
    inner: Seq<char>,
    c1: char,
    c2: char,
)
    requires
        free_of_pair("<"@, c1, c2),
        free_of_pair(">"@, c1, c2),
        free_of_pair("</"@, c1, c2),
        free_of_pair(" "@, c1, c2),
        free_of_pair("=\""@, c1, c2),
        free_of_pair("\""@, c1, c2),
        free_of_pair(tag, c1, c2),
        free_of_pair(name1, c1, c2),
        free_of_pair(value1, c1, c2),
        free_of_pair(name2, c1, c2),
        free_of_pair(value2, c1, c2),
        free_of_pair(inner, c1, c2),
    ensures
        free_of_pair(spec_elem_attr2(tag, name1, value1, name2, value2, inner), c1, c2),
{
    lemma_free_of_pair_attr(name1, value1, c1, c2);
    lemma_free_of_pair_attr(name2, value2, c1, c2);
    let a1 = spec_attr(name1, value1);
    let a2 = spec_attr(name2, value2);
    lemma_free_of_pair_concat("<"@, tag, c1, c2);
    lemma_free_of_pair_concat("<"@ + tag, a1, c1, c2);
    lemma_free_of_pair_concat("<"@ + tag + a1, a2, c1, c2);
    lemma_free_of_pair_concat("<"@ + tag + a1 + a2, ">"@, c1, c2);
    lemma_free_of_pair_concat("<"@ + tag + a1 + a2 + ">"@, inner, c1, c2);
    lemma_free_of_pair_concat("<"@ + tag + a1 + a2 + ">"@ + inner, "</"@, c1, c2);
    lemma_free_of_pair_concat("<"@ + tag + a1 + a2 + ">"@ + inner + "</"@, tag, c1, c2);
    lemma_free_of_pair_concat("<"@ + tag + a1 + a2 + ">"@ + inner + "</"@ + tag, ">"@, c1, c2);
}

/// Text in which `c1` never stands right before `c2` cannot contain a
/// fragment that has `c1` right before `c2` at position `k`.
pub proof fn lemma_free_of_pair_excludes_frag(
    s: Seq<char>,
    frag: Seq<char>,
    c1: char,
    c2: char,
    k: int,
)
    requires
        free_of_pair(s, c1, c2),
        0 <= k,
        k + 1 < frag.len(),
        frag[k] == c1,
        frag[k + 1] == c2,
    ensures
        !contains_frag(s, frag),
{
    if contains_frag(s, frag) {
        let i = choose|i: int|
            0 <= i && i + frag.len() <= s.len() && #[trigger] s.subrange(i, i + frag.len() as int)
                == frag;
        assert(s.subrange(i, i + frag.len() as int)[k] == s[i + k]);
        assert(s.subrange(i, i + frag.len() as int)[k + 1] == s[i + k + 1]);
        assert(s[i + k] == c1 && s[i + k + 1] == c2);
        assert(false);
    }
}

/// A fragment of an element's contents is a fragment of the element.
pub proof fn lemma_elem_contains(tag: Seq<char>, inner: Seq<char>, frag: Seq<char>)
    requires
        contains_frag(inner, frag),
    ensures
        contains_frag(spec_elem(tag, inner), frag),
{
    let pre = "<"@ + tag + ">"@;
    lemma_contains_frag_prepend(pre, inner, frag);
    lemma_contains_frag_append(pre + inner, "</"@, frag);
    lemma_contains_frag_append(pre + inner + "</"@, tag, frag);
    lemma_contains_frag_append(pre + inner + "</"@ + tag, ">"@, frag);
    assert(pre + inner + "</"@ + tag + ">"@ == spec_elem(tag, inner));
}

} // verus!

//! Whitespace trimming for the raw texts the kernel and the command line hand in.
use vstd::prelude::*;

verus! {

/// The characters that count as surrounding whitespace: the Unicode
/// white-space set.
pub open spec fn is_space(c: char) -> bool {
    c == ' ' || c == '\t' || c == '\n' || c == '\r' || c == '\u{b}' || c == '\u{c}'
        || c == '\u{85}' || c == '\u{a0}' || c == '\u{1680}'
        || ('\u{2000}' <= c && c <= '\u{200a}')
        || c == '\u{2028}' || c == '\u{2029}' || c == '\u{202f}' || c == '\u{205f}'
        || c == '\u{3000}'
}

fn is_space_char(c: char) -> (r: bool)
    ensures
        r == is_space(c),
{
    c == ' ' || c == '\t' || c == '\n' || c == '\r' || c == '\u{b}' || c == '\u{c}'
        || c == '\u{85}' || c == '\u{a0}' || c == '\u{1680}'
        || ('\u{2000}' <= c && c <= '\u{200a}')
        || c == '\u{2028}' || c == '\u{2029}' || c == '\u{202f}' || c == '\u{205f}'
        || c == '\u{3000}'
}

/// The sequence with its leading whitespace removed.
pub open spec fn trim_front(s: Seq<char>) -> Seq<char>
    decreases s.len(),
{
    if s.len() > 0 && is_space(s.first()) {
        trim_front(s.drop_first())
    } else {
        s
    }
}

/// The sequence with its trailing whitespace removed.
pub open spec fn trim_back(s: Seq<char>) -> Seq<char>
    decreases s.len(),
{
    if s.len() > 0 && is_space(s.last()) {
        trim_back(s.drop_last())
    } else {
        s
    }
}

/// The sequence with both leading and trailing whitespace removed.
pub open spec fn trimmed(s: Seq<char>) -> Seq<char> {
    trim_back(trim_front(s))
}

/// Dropping the whitespace in front leaves exactly the tail that starts at the
/// first non-space position.
proof fn lemma_trim_front_skip(s: Seq<char>, i: int)
    requires
        0 <= i <= s.len(),
        forall|k: int| 0 <= k < i ==> is_space(s[k]),
        i == s.len() || !is_space(s[i]),
    ensures
        trim_front(s) == s.skip(i),
    decreases i,
{
    if i == 0 {
        assert(s.skip(0) =~= s);
    } else {
        let t = s.drop_first();
        assert(forall|k: int| 0 <= k < i - 1 ==> is_space(t[k]));
        lemma_trim_front_skip(t, i - 1);
        assert(t.skip(i - 1) =~= s.skip(i));
    }
}

/// Dropping the whitespace at the back leaves exactly the prefix that ends at
/// the last non-space position.
proof fn lemma_trim_back_take(s: Seq<char>, j: int)
    requires
        0 <= j <= s.len(),
        forall|k: int| j <= k < s.len() ==> is_space(s[k]),
        j == 0 || !is_space(s[j - 1]),
    ensures
        trim_back(s) == s.take(j),
    decreases s.len(),
{
    if j == s.len() {
        assert(s.take(j) =~= s);
        if s.len() > 0 && is_space(s.last()) {
            assert(!is_space(s[j - 1]));
        }
    } else {
        let t = s.drop_last();
        lemma_trim_back_take(t, j);
        assert(t.take(j) =~= s.take(j));
    }
}

/// A word surrounded by whitespace trims to exactly that word, provided the
/// word itself does not begin or end with whitespace.
pub proof fn lemma_trimmed_padded(pre: Seq<char>, mid: Seq<char>, post: Seq<char>)
    requires
        forall|k: int| 0 <= k < pre.len() ==> is_space(pre[k]),
        forall|k: int| 0 <= k < post.len() ==> is_space(post[k]),
        mid.len() > 0,
        !is_space(mid.first()),
        !is_space(mid.last()),
    ensures
        trimmed(pre + mid + post) == mid,
{
    let s = pre + mid + post;
    assert(forall|k: int| 0 <= k < pre.len() ==> is_space(s[k]));
    assert(s[pre.len() as int] == mid.first());
    lemma_trim_front_skip(s, pre.len() as int);
    let u = s.skip(pre.len() as int);
    assert(u =~= mid + post);
    assert(forall|k: int| mid.len() <= k < u.len() ==> is_space(u[k]));
    assert(u[mid.len() - 1] == mid.last());
    lemma_trim_back_take(u, mid.len() as int);
    assert(u.take(mid.len() as int) =~= mid);
}

/// The given text with surrounding whitespace removed.
pub fn trim_text<'a>(s: &'a str) -> (r: &'a str)
    ensures
        r@ == trimmed(s@),
{
    let len = s.unicode_len();
    let mut i: usize = 0;
    while i < len && is_space_char(s.get_char(i))
        invariant
            0 <= i <= len,
            len == s@.len(),
            forall|k: int| 0 <= k < i ==> is_space(s@[k]),
        decreases len - i,
    {
        i = i + 1;
    }
    let mut j: usize = len;
    while j > i && is_space_char(s.get_char(j - 1))
        invariant
            i <= j <= len,
            len == s@.len(),
            forall|k: int| j <= k < len ==> is_space(s@[k]),
        decreases j,
    {
        j = j - 1;
    }
    let r = s.substring_char(i, j);
    proof {
        lemma_trim_front_skip(s@, i as int);
        let u = s@.skip(i as int);
        assert(forall|k: int| j - i <= k < u.len() ==> is_space(u[k]));
        if j > i {
            assert(u[j - i - 1] == s@[j - 1]);
        }
        lemma_trim_back_take(u, j - i);
        assert(u.take(j - i) =~= s@.subrange(i as int, j as int));
    }
    r
}

} // verus!

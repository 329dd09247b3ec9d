//! Text helpers: strings as sequences of characters.

use vstd::prelude::*;

verus! {

/// The characters of `text`, in order.
pub fn chars_of(text: &str) -> (out: Vec<char>)
    ensures
        out@ == text@,
{
    let mut out: Vec<char> = Vec::new();
    for c in it: text.chars()
        invariant
            out@ == it.seq().subrange(0, it.index() as int),
            it.seq() == text@,
    {
        out.push(c);
        assert(it.seq().subrange(0, it.index() + 1) =~= it.seq().subrange(0, it.index() as int).push(c));
    }
    assert(out@ =~= text@);
    out
}

/// Appends one character to `text`.
///
/// Trusted: calls `String::push`, which appends the given character to the
/// end of the string.
#[verifier::external_body]
pub(crate) fn push_char(text: &mut String, c: char)
    ensures
        final(text)@ == old(text)@.push(c),
{
    text.push(c)
}

/// The string made of the characters `chars[from..to]`.
pub(crate) fn text_of(chars: &Vec<char>, from: usize, to: usize) -> (out: String)
    requires
        from <= to <= chars@.len(),
    ensures
        out@ == chars@.subrange(from as int, to as int),
{
    let mut out = String::new();
    let mut i: usize = from;
    while i < to
        invariant
            from <= i <= to <= chars@.len(),
            out@ == chars@.subrange(from as int, i as int),
        decreases to - i,
    {
        push_char(&mut out, chars[i]);
        assert(chars@.subrange(from as int, i + 1) =~= chars@.subrange(from as int, i as int).push(chars@[i as int]));
        i = i + 1;
    }
    out
}

/// Whether `chars` begins with `prefix`.
pub fn starts_with(chars: &Vec<char>, prefix: &Vec<char>) -> (out: bool)
    ensures
        out == prefix@.is_prefix_of(chars@),
{
    if prefix.len() > chars.len() {
        return false;
    }
    let mut i: usize = 0;
    while i < prefix.len()
        invariant
            i <= prefix@.len() <= chars@.len(),
            chars@.subrange(0, i as int) == prefix@.subrange(0, i as int),
        decreases prefix@.len() - i,
    {
        if chars[i] != prefix[i] {
            assert(chars@.subrange(0, prefix@.len() as int)[i as int] != prefix@[i as int]);
            return false;
        }
        assert(chars@.subrange(0, i + 1) =~= chars@.subrange(0, i as int).push(chars@[i as int]));
        assert(prefix@.subrange(0, i + 1) =~= prefix@.subrange(0, i as int).push(
            prefix@[i as int],
        ));
        i = i + 1;
    }
    assert(prefix@.subrange(0, i as int) =~= prefix@);
    true
}

/// Whether `chars[..end]` is exactly `other`.
pub(crate) fn prefix_equals(chars: &Vec<char>, end: usize, other: &Vec<char>) -> (out: bool)
    requires
        end <= chars@.len(),
    ensures
        out == (chars@.subrange(0, end as int) == other@),
{
    if other.len() != end {
        return false;
    }
    let same = starts_with(chars, other);
    proof {
        if same {
            assert(chars@.subrange(0, end as int) =~= other@);
        }
    }
    same
}

/// The position of the first `c` in `chars`, if there is one.
pub open spec fn first_index(chars: Seq<char>, c: char) -> Option<int>
    decreases chars.len(),
{
    if chars.len() == 0 {
        None
    } else {
        match first_index(chars.drop_last(), c) {
            Some(i) => Some(i),
            None => if chars.last() == c {
                Some(chars.len() - 1)
            } else {
                None
            },
        }
    }
}

/// Finds the first `c` in `chars[..end]`.
pub(crate) fn find_char(chars: &Vec<char>, end: usize, c: char) -> (out: Option<usize>)
    requires
        end <= chars@.len(),
    ensures
        match out {
            Some(i) => first_index(chars@.subrange(0, end as int), c) == Some(i as int) && i < end
                && chars@[i as int] == c,
            None => first_index(chars@.subrange(0, end as int), c) is None,
        },
{
    let mut i: usize = 0;
    while i < end
        invariant
            i <= end <= chars@.len(),
            first_index(chars@.subrange(0, i as int), c) is None,
        decreases end - i,
    {
        assert(chars@.subrange(0, i + 1).drop_last() =~= chars@.subrange(0, i as int));
        if chars[i] == c {
            proof {
                lemma_first_index_extends(chars@.subrange(0, end as int), i + 1, c);
                assert(chars@.subrange(0, end as int).subrange(0, i + 1) =~= chars@.subrange(
                    0,
                    i + 1,
                ));
            }
            return Some(i);
        }
        i = i + 1;
    }
    None
}

/// A character found in a prefix is the first one in the whole.
pub proof fn lemma_first_index_extends(chars: Seq<char>, len: int, c: char)
    requires
        0 <= len <= chars.len(),
        first_index(chars.subrange(0, len), c) is Some,
    ensures
        first_index(chars, c) == first_index(chars.subrange(0, len), c),
    decreases chars.len() - len,
{
    if len < chars.len() {
        assert(chars.subrange(0, len + 1).drop_last() =~= chars.subrange(0, len));
        lemma_first_index_extends(chars, len + 1, c);
    } else {
        assert(chars.subrange(0, len) =~= chars);
    }
}

} // verus!

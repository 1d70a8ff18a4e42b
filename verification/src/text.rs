//! Text buffers: single-key edits and substring search.

use vstd::prelude::*;

verus! {

/// `String::push` appends one character at the end of the string.
pub assume_specification[ String::push ](s: &mut String, ch: char)
    ensures
        final(s)@ == old(s)@.push(ch),
;

/// `String::pop` removes the last character and returns it, or returns
/// `None` and leaves the string alone when it is empty.
pub assume_specification[ String::pop ](s: &mut String) -> (r: Option<char>)
    ensures
        old(s)@.len() == 0 ==> r.is_none() && final(s)@ == old(s)@,
        old(s)@.len() > 0 ==> r == Some(old(s)@.last()) && final(s)@ == old(s)@.drop_last(),
;

/// `String::clear` removes every character.
pub assume_specification[ String::clear ](s: &mut String)
    ensures
        final(s)@ == Seq::<char>::empty(),
;

/// One keystroke's worth of change to a text buffer.
#[derive(Clone, Copy, Debug, PartialEq, Eq, Structural)]
pub enum Edit {
    /// Append this character.
    Put(char),
    /// Remove the last character, if there is one.
    Erase,
}

/// The buffer after one edit. Erasing from an empty buffer leaves it empty.
pub open spec fn apply_edit(buf: Seq<char>, e: Edit) -> Seq<char> {
    match e {
        Edit::Put(c) => buf.push(c),
        Edit::Erase => if buf.len() == 0 {
            buf
        } else {
            buf.drop_last()
        },
    }
}

/// The buffer after a run of edits, applied first to last.
pub open spec fn apply_edits(buf: Seq<char>, edits: Seq<Edit>) -> Seq<char>
    decreases edits.len(),
{
    if edits.len() == 0 {
        buf
    } else {
        apply_edit(apply_edits(buf, edits.drop_last()), edits.last())
    }
}

/// Applies one edit to `buf` in place.
pub fn edit_buffer(buf: &mut String, e: Edit)
    ensures
        final(buf)@ == apply_edit(old(buf)@, e),
{
    match e {
        Edit::Put(c) => {
            buf.push(c);
        },
        Edit::Erase => {
            let _ = buf.pop();
        },
    }
}

/// Erasing from the empty buffer changes nothing, however often it is done.
pub proof fn erase_on_empty_is_noop(edits: Seq<Edit>)
    requires
        forall|i: int| 0 <= i < edits.len() ==> edits[i] == Edit::Erase,
    ensures
        apply_edits(Seq::<char>::empty(), edits) == Seq::<char>::empty(),
    decreases edits.len(),
{
    if edits.len() > 0 {
        erase_on_empty_is_noop(edits.drop_last());
    }
}

/// Typing a character and erasing right after restores the buffer.
pub proof fn put_then_erase_restores(buf: Seq<char>, c: char)
    ensures
        apply_edit(apply_edit(buf, Edit::Put(c)), Edit::Erase) == buf,
{
    assert(buf.push(c).drop_last() =~= buf);
}

/// Whether `needle` occurs in `hay` as a contiguous run of characters.
pub open spec fn is_substring(needle: Seq<char>, hay: Seq<char>) -> bool {
    exists|i: int| occurs_at(needle, hay, i)
}

/// Whether `needle` stands in `hay` starting at position `i`.
pub open spec fn occurs_at(needle: Seq<char>, hay: Seq<char>, i: int) -> bool {
    &&& 0 <= i
    &&& i + needle.len() <= hay.len()
    &&& hay.subrange(i, i + needle.len()) == needle
}

/// The empty text occurs in every text.
pub proof fn empty_is_substring(hay: Seq<char>)
    ensures
        is_substring(Seq::<char>::empty(), hay),
{
    assert(hay.subrange(0, 0) =~= Seq::<char>::empty());
    assert(occurs_at(Seq::<char>::empty(), hay, 0));
}

/// Every text occurs in itself.
pub proof fn whole_is_substring(hay: Seq<char>)
    ensures
        is_substring(hay, hay),
{
    assert(hay.subrange(0, hay.len() as int) =~= hay);
    assert(occurs_at(hay, hay, 0));
}

/// Whether `needle` stands in `hay` at position `at`.
fn matches_at(hay: &str, needle: &str, at: usize, hay_len: usize, needle_len: usize) -> (r: bool)
    requires
        hay_len == hay@.len(),
        needle_len == needle@.len(),
        at + needle_len <= hay_len,
    ensures
        r == occurs_at(needle@, hay@, at as int),
{
    let mut j: usize = 0;
    while j < needle_len
        invariant
            hay_len == hay@.len(),
            needle_len == needle@.len(),
            at + needle_len <= hay_len,
            j <= needle_len,
            forall|k: int| 0 <= k < j ==> hay@[at + k] == needle@[k],
        decreases needle_len - j,
    {
        if hay.get_char(at + j) != needle.get_char(j) {
            proof {
                let window = hay@.subrange(at as int, at + needle_len);
                assert(window[j as int] == hay@[at + j]);
            }
            return false;
        }
        j = j + 1;
    }
    proof {
        assert(hay@.subrange(at as int, at + needle_len) =~= needle@);
    }
    true
}

/// Searches `hay` for `needle`, character by character.
pub fn contains(hay: &str, needle: &str) -> (r: bool)
    ensures
        r == is_substring(needle@, hay@),
{
    let hay_len: usize = hay.unicode_len();
    let needle_len: usize = needle.unicode_len();
    if needle_len > hay_len {
        assert(forall|i: int| !occurs_at(needle@, hay@, i));
        return false;
    }
    let last: usize = hay_len - needle_len;
    let mut at: usize = 0;
    loop
        invariant
            hay_len == hay@.len(),
            needle_len == needle@.len(),
            needle_len <= hay_len,
            last == hay_len - needle_len,
            at <= last,
            forall|i: int| 0 <= i < at ==> !occurs_at(needle@, hay@, i),
        decreases last - at,
    {
        if matches_at(hay, needle, at, hay_len, needle_len) {
            return true;
        }
        if at == last {
            assert(forall|i: int| !occurs_at(needle@, hay@, i));
            return false;
        }
        at = at + 1;
    }
}

} // verus!

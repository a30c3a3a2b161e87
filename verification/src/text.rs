//! Small helpers on text that the other modules share.

use vstd::prelude::*;
use vstd::string::StringExecFns;

verus! {

/// Whether two texts hold the same characters in the same order.
pub(crate) fn same_text(left: &str, right: &str) -> (same: bool)
    ensures
        same == (left@ == right@),
{
    let left_owned = left.to_owned();
    let right_owned = right.to_owned();
    left_owned == right_owned
}

/// Whether the text begins with the characters of the prefix.
pub(crate) fn starts_with(text: &str, prefix: &str) -> (begins: bool)
    ensures
        begins == prefix@.is_prefix_of(text@),
{
    let length = prefix.unicode_len();
    if length > text.unicode_len() {
        return false;
    }
    same_text(text.substring_char(0, length), prefix)
}

/// Whether the text ends with the characters of the suffix.
pub(crate) fn ends_with(text: &str, suffix: &str) -> (ends: bool)
    ensures
        ends == suffix@.is_suffix_of(text@),
{
    let length = suffix.unicode_len();
    let whole = text.unicode_len();
    if length > whole {
        return false;
    }
    same_text(text.substring_char(whole - length, whole), suffix)
}

/// The text behind the prefix, where the text starts with the prefix, and
/// nothing where it does not.
pub(crate) fn after_prefix<'a>(text: &'a str, prefix: &str) -> (rest: Option<&'a str>)
    ensures
        match rest {
            Some(tail) => text@ == prefix@ + tail@,
            None => !prefix@.is_prefix_of(text@),
        },
{
    if starts_with(text, prefix) {
        let tail = text.substring_char(prefix.unicode_len(), text.unicode_len());
        assert(text@ =~= prefix@ + tail@);
        Some(tail)
    } else {
        None
    }
}

/// The text without the character `unwanted`, the rest in its order.
pub(crate) fn without_char(text: &str, unwanted: char) -> (rest: String)
    ensures
        rest@ == text@.filter(|c: char| c != unwanted),
{
    let length = text.unicode_len();
    let ghost keep = |c: char| c != unwanted;
    let mut kept = String::new();
    let mut i: usize = 0;
    proof {
        reveal(Seq::filter);
        assert(text@.subrange(0, 0) =~= Seq::<char>::empty());
        assert(Seq::<char>::empty().filter(keep) =~= Seq::<char>::empty());
    }
    while i < length
        invariant
            i <= length,
            length == text@.len(),
            keep == (|c: char| c != unwanted),
            kept@ == text@.subrange(0, i as int).filter(keep),
        decreases length - i,
    {
        let c = text.get_char(i);
        proof {
            let seen = text@.subrange(0, i as int);
            let next = text@.subrange(0, i + 1);
            assert(next.drop_last() =~= seen);
            assert(next.last() == c);
            reveal(Seq::filter);
            assert(next.filter(keep) == if keep(c) {
                seen.filter(keep).push(c)
            } else {
                seen.filter(keep)
            });
        }
        if c != unwanted {
            let piece = text.substring_char(i, i + 1);
            assert(piece@ =~= seq![c]);
            kept = kept.concat(piece);
            assert(kept@ =~= text@.subrange(0, i as int).filter(keep).push(c));
        }
        i = i + 1;
    }
    assert(text@.subrange(0, i as int) =~= text@);
    kept
}

} // verus!

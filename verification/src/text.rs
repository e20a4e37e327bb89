//! Verified helpers on text.

use vstd::prelude::*;

verus! {

/// Returns what follows `prefix` in `text`, or `None` where `text` does not begin with it.
pub fn strip_prefix<'a>(text: &'a str, prefix: &str) -> (rest: Option<&'a str>)
    ensures
        match rest {
            Some(rest) => text@ == prefix@ + rest@,
            None => !prefix@.is_prefix_of(text@),
        },
{
    let prefix_len: usize = prefix.unicode_len();
    let text_len: usize = text.unicode_len();
    if text_len < prefix_len {
        return None;
    }
    let mut i: usize = 0;
    while i < prefix_len
        invariant
            prefix_len == prefix@.len(),
            text_len == text@.len(),
            i <= prefix_len <= text_len,
            forall|j: int| 0 <= j < i ==> text@[j] == prefix@[j],
        decreases prefix_len - i,
    {
        if text.get_char(i) != prefix.get_char(i) {
            assert(prefix@[i as int] != text@.take(prefix@.len() as int)[i as int]);
            return None;
        }
        i += 1;
    }
    let rest = text.substring_char(prefix_len, text_len);
    assert(text@ =~= prefix@ + rest@);
    Some(rest)
}

/// Returns whether two texts are the same.
pub fn same_text(a: &str, b: &str) -> (same: bool)
    ensures
        same == (a@ == b@),
{
    match strip_prefix(a, b) {
        Some(rest) => {
            proof {
                if rest@.len() == 0 {
                    assert(b@ + rest@ =~= b@);
                } else {
                    assert(a@.len() != b@.len());
                }
            }
            rest.is_empty()
        },
        None => {
            assert(a@ == b@ ==> b@.is_prefix_of(a@));
            false
        },
    }
}

/// Returns `head` followed by `tail`.
pub fn join(head: &str, tail: &str) -> (text: String)
    ensures
        text@ == head@ + tail@,
{
    head.to_owned().concat(tail)
}

} // verus!

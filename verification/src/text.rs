//! Building text one character at a time.

use vstd::prelude::*;
use vstd::string::StrSliceExecFns;

verus! {

/// Appends one character to a string by `String::push`.
///
/// Trusted: the string afterwards is the string before with the character
/// added at its end, as the standard library documents.
#[verifier::external_body]
pub(crate) fn push_char(text: &mut String, c: char)
    ensures
        final(text)@ == old(text)@.push(c),
{
    text.push(c);
}

/// Putting the same text in front keeps two texts apart.
pub proof fn lemma_same_prefix_same_rest(prefix: Seq<char>, a: Seq<char>, b: Seq<char>)
    requires
        prefix + a == prefix + b,
    ensures
        a == b,
{
    let n = prefix.len() as int;
    assert(a =~= (prefix + a).subrange(n, n + a.len()));
    assert(b =~= (prefix + b).subrange(n, n + b.len()));
}

/// A text starts with whatever it was built on.
pub proof fn lemma_prefix_of_concat(prefix: Seq<char>, rest: Seq<char>)
    ensures
        prefix.is_prefix_of(prefix + rest),
{
    assert((prefix + rest).subrange(0, prefix.len() as int) =~= prefix);
}

/// Takes `prefix` off the front of `text`: the rest of the text where it
/// starts with the prefix, and nothing where it does not.
pub fn strip_prefix<'a>(text: &'a str, prefix: &str) -> (rest: Option<&'a str>)
    ensures
        match rest {
            Some(rest) => text@ == prefix@ + rest@,
            None => !prefix@.is_prefix_of(text@),
        },
{
    let length: usize = text.unicode_len();
    let wanted: usize = prefix.unicode_len();
    if wanted > length {
        return None;
    }
    let mut i: usize = 0;
    while i < wanted
        invariant
            i <= wanted <= length,
            length == text@.len(),
            wanted == prefix@.len(),
            forall|k: int| 0 <= k < i ==> text@[k] == prefix@[k],
        decreases wanted - i,
    {
        if text.get_char(i) != prefix.get_char(i) {
            proof {
                assert(text@.subrange(0, wanted as int)[i as int] == text@[i as int]);
            }
            return None;
        }
        i += 1;
    }
    let rest = text.substring_char(wanted, length);
    proof {
        assert(text@ =~= prefix@ + rest@);
    }
    Some(rest)
}

/// Whether two texts are the same.
pub fn same_text(text: &str, other: &str) -> (same: bool)
    ensures
        same == (text@ == other@),
{
    match strip_prefix(text, other) {
        Some(rest) => {
            let extra: usize = rest.unicode_len();
            proof {
                if extra == 0 {
                    assert(text@ =~= other@);
                } else {
                    assert(text@.len() == other@.len() + rest@.len());
                }
            }
            extra == 0
        },
        None => {
            proof {
                assert(other@.subrange(0, other@.len() as int) =~= other@);
            }
            false
        },
    }
}

} // verus!

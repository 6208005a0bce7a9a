//! Searching a message for a phrase.

use vstd::prelude::*;
use vstd::string::*;

verus! {

/// The phrase stands in the text at the given position.
pub open spec fn occurs_at(text: Seq<u8>, phrase: Seq<u8>, at: int) -> bool {
    0 <= at && at + phrase.len() <= text.len() && text.subrange(at, at + phrase.len()) == phrase
}

/// The phrase stands somewhere in the text.
pub open spec fn occurs_in(text: Seq<u8>, phrase: Seq<u8>) -> bool {
    exists|at: int| occurs_at(text, phrase, at)
}

fn matches_at(text: &[u8], phrase: &[u8], at: usize) -> (found: bool)
    requires
        at + phrase@.len() <= text@.len(),
    ensures
        found == occurs_at(text@, phrase@, at as int),
{
    let text_len: usize = text.len();
    let mut k: usize = 0;
    while k < phrase.len()
        invariant
            text_len == text@.len(),
            k <= phrase@.len(),
            at + phrase@.len() <= text@.len(),
            forall|j: int| 0 <= j < k ==> text@[at + j] == phrase@[j],
        decreases phrase.len() - k,
    {
        if text[at + k] != phrase[k] {
            proof {
                let window = text@.subrange(at as int, at + phrase@.len());
                assert(window[k as int] == text@[at + k]);
            }
            return false;
        }
        k = k + 1;
    }
    proof {
        assert(text@.subrange(at as int, at + phrase@.len()) =~= phrase@);
    }
    true
}

/// Whether the bytes of the phrase stand somewhere in the bytes of the
/// text.
pub fn bytes_contain(text: &[u8], phrase: &[u8]) -> (found: bool)
    ensures
        found == occurs_in(text@, phrase@),
{
    if phrase.len() > text.len() {
        return false;
    }
    let last: usize = text.len() - phrase.len();
    let mut at: usize = 0;
    loop
        invariant
            last == text@.len() - phrase@.len(),
            at <= last,
            forall|j: int| 0 <= j < at ==> !occurs_at(text@, phrase@, j),
        decreases last - at,
    {
        if matches_at(text, phrase, at) {
            return true;
        }
        if at == last {
            return false;
        }
        at = at + 1;
    }
}

/// The message contains the phrase, both taken as the bytes of their UTF-8
/// encoding.
pub open spec fn phrase_in(message: Seq<char>, phrase: Seq<char>) -> bool {
    occurs_in(vstd::utf8::encode_utf8(message), vstd::utf8::encode_utf8(phrase))
}

/// Whether the message contains the phrase.
pub fn contains_phrase(message: &str, phrase: &str) -> (found: bool)
    ensures
        found == phrase_in(message@, phrase@),
{
    bytes_contain(message.as_bytes(), phrase.as_bytes())
}

} // verus!

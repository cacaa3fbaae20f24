//! Telling a recording from a channel by the shape of the identifier.

use vstd::prelude::*;

verus! {

/// What an identifier stands for.
#[derive(Debug, Clone, Copy, PartialEq, Eq, Structural)]
pub enum Target {
    /// A recording: the identifier holds no letter.
    Vod,
    /// A live channel: the identifier holds a letter.
    Channel,
}

/// Whether a character is a letter, as `char::is_alphabetic` tells it.
pub uninterp spec fn is_letter(c: char) -> bool;

/// Trusted: `char::is_alphabetic` of the standard library. The contract
/// claims only that its answer is the one named by [`is_letter`].
pub assume_specification[ char::is_alphabetic ](c: char) -> (r: bool)
    ensures
        r == is_letter(c),
;

/// Whether a letter stands somewhere in `identifier`.
pub open spec fn holds_letter(identifier: Seq<char>) -> bool {
    exists|i: int| 0 <= i < identifier.len() && is_letter(#[trigger] identifier[i])
}

/// What `identifier` stands for.
pub open spec fn target_of(identifier: Seq<char>) -> Target {
    if holds_letter(identifier) {
        Target::Channel
    } else {
        Target::Vod
    }
}

/// Tells what an identifier names from the answers, one for each of its
/// characters, to whether that character is a letter.
pub fn target_from_letters(letters: &Vec<bool>) -> (r: Target)
    ensures
        r == Target::Channel <==> exists|i: int| 0 <= i < letters@.len() && #[trigger] letters@[i],
        r == Target::Vod || r == Target::Channel,
{
    let mut i: usize = 0;
    while i < letters.len()
        invariant
            i <= letters@.len(),
            forall|k: int| 0 <= k < i ==> !#[trigger] letters@[k],
        decreases letters@.len() - i,
    {
        if letters[i] {
            return Target::Channel;
        }
        i += 1;
    }
    Target::Vod
}

/// Tells whether an identifier names a recording or a channel.
pub fn classify(identifier: &str) -> (r: Target)
    ensures
        r == target_of(identifier@),
{
    let mut letters: Vec<bool> = Vec::new();
    for c in it: identifier.chars()
        invariant
            it.seq() == identifier@,
            letters@.len() == it.index(),
            forall|k: int| 0 <= k < it.index() ==> #[trigger] letters@[k] == is_letter(identifier@[k]),
    {
        letters.push(c.is_alphabetic());
    }
    let r = target_from_letters(&letters);
    proof {
        if holds_letter(identifier@) {
            let i = choose|i: int| 0 <= i < identifier@.len() && is_letter(#[trigger] identifier@[i]);
            assert(letters@[i]);
        }
        if r == Target::Channel {
            let i = choose|i: int| 0 <= i < letters@.len() && #[trigger] letters@[i];
            assert(is_letter(identifier@[i]));
        }
    }
    r
}

} // verus!

//! Random local parts for addresses that the user left to chance.

use rand::rngs::ThreadRng;
use rand::Rng;
use vstd::prelude::*;

verus! {

/// The characters that a generated local part is made of.
pub const LOCAL_PART_ALPHABET: &'static str = "abcdefghijklmnopqrstuvwxyz0123456789";

/// The number of characters in a generated local part.
pub const LOCAL_PART_LEN: usize = 16;

/// `rand::rngs::ThreadRng`, the handle of the thread's generator. Nothing is
/// known of its state.
#[verifier::external_type_specification]
#[verifier::external_body]
pub struct ExThreadRng(rand::rngs::ThreadRng);

/// `rand::rng`: hands out the thread's generator. Nothing is claimed of it.
/// On a thread's first use it panics where the operating system gives the
/// generator no seed; no argument brings that about and none avoids it.
pub assume_specification[ rand::rng ]() -> (rng: ThreadRng)
;

/// `Rng::random_range` on the half-open range from zero to `bound`: the
/// number drawn lies in that range. An empty range makes it panic, so the
/// bound must be positive. That the draw is uniform is not stated. A draw
/// that falls on a reseed panics where the operating system gives no seed,
/// whatever the bound.
#[verifier::external_body]
fn random_below(rng: &mut ThreadRng, bound: usize) -> (index: usize)
    requires
        bound > 0,
    ensures
        index < bound,
{
    rng.random_range(0..bound)
}

/// A character that may stand in a generated local part: a lower-case letter
/// of the Latin alphabet or a decimal digit.
pub open spec fn is_local_part_char(c: char) -> bool {
    LOCAL_PART_ALPHABET@.contains(c)
}

/// A text that random generation may give: sixteen characters of the alphabet.
pub open spec fn is_generated_local_part(s: Seq<char>) -> bool {
    &&& s.len() == LOCAL_PART_LEN
    &&& forall|i: int| 0 <= i < s.len() ==> is_local_part_char(#[trigger] s[i])
}

/// The alphabet spelled out: the letters `a` to `z`, then the digits.
pub proof fn lemma_alphabet()
    ensures
        LOCAL_PART_ALPHABET@.len() == 36,
        LOCAL_PART_ALPHABET@ == seq![
            'a', 'b', 'c', 'd', 'e', 'f', 'g', 'h', 'i', 'j', 'k', 'l', 'm', 'n', 'o', 'p', 'q',
            'r', 's', 't', 'u', 'v', 'w', 'x', 'y', 'z', '0', '1', '2', '3', '4', '5', '6', '7',
            '8', '9',
        ],
{
    reveal_strlit("abcdefghijklmnopqrstuvwxyz0123456789");
    assert(LOCAL_PART_ALPHABET@ =~= seq![
        'a', 'b', 'c', 'd', 'e', 'f', 'g', 'h', 'i', 'j', 'k', 'l', 'm', 'n', 'o', 'p', 'q',
        'r', 's', 't', 'u', 'v', 'w', 'x', 'y', 'z', '0', '1', '2', '3', '4', '5', '6', '7',
        '8', '9',
    ]);
}

/// The alphabet holds the lower-case letters `a` to `z` and the digits, and
/// nothing else.
pub proof fn lemma_alphabet_ranges(c: char)
    ensures
        is_local_part_char(c) <==> ('a' <= c <= 'z' || '0' <= c <= '9'),
{
    lemma_alphabet();
    let alphabet = LOCAL_PART_ALPHABET@;
    if is_local_part_char(c) {
        let i = choose|i: int| 0 <= i < alphabet.len() && alphabet[i] == c;
        assert(alphabet[i] == c);
    }
    if 'a' <= c <= 'z' {
        let i = (c as int) - ('a' as int);
        assert(0 <= i < 26);
        assert(alphabet[i] == c);
    }
    if '0' <= c <= '9' {
        let i = (c as int) - ('0' as int) + 26;
        assert(26 <= i < 36);
        assert(alphabet[i] == c);
    }
}

/// The character of the alphabet at `index`, if the alphabet is that long.
pub fn alphabet_char(index: usize) -> (c: Option<char>)
    ensures
        index < LOCAL_PART_ALPHABET@.len() ==> c == Some(LOCAL_PART_ALPHABET@[index as int]),
        index >= LOCAL_PART_ALPHABET@.len() ==> c is None,
{
    if index < LOCAL_PART_ALPHABET.unicode_len() {
        Some(LOCAL_PART_ALPHABET.get_char(index))
    } else {
        None
    }
}

/// A fresh local part: sixteen characters, each drawn on its own from the
/// alphabet, so a character may come up more than once.
pub fn random_local_part() -> (out: String)
    ensures
        is_generated_local_part(out@),
{
    let mut rng = rand::rng();
    let size = LOCAL_PART_ALPHABET.unicode_len();
    proof {
        lemma_alphabet();
    }
    let mut out = String::new();
    let mut n: usize = 0;
    while n < LOCAL_PART_LEN
        invariant
            n <= LOCAL_PART_LEN,
            size == LOCAL_PART_ALPHABET@.len(),
            size > 0,
            out@.len() == n,
            forall|i: int| 0 <= i < out@.len() ==> is_local_part_char(#[trigger] out@[i]),
        decreases LOCAL_PART_LEN - n,
    {
        let index = random_below(&mut rng, size);
        if let Some(c) = alphabet_char(index) {
            assert(LOCAL_PART_ALPHABET@.contains(c));
            out.push(c);
            n += 1;
        }
    }
    out
}

} // verus!

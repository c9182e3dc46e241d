//! Random job tokens for output file names.

use vstd::prelude::*;
use vstd::string::*;
use crate::text::push_char;

verus! {

/// Number of characters in a job token.
pub const UID_LENGTH: usize = 9;

/// Number of symbols in the alphabet.
pub const ALPHABET_SIZE: usize = 36;

/// The symbols a token is drawn from.
pub open spec fn alphabet() -> Seq<char> {
    "ABCDEFGHIJKLMNOPQRSTUVWXYZ0123456789"@
}

/// Whether a token has a hyphen at a position: at every fifth character.
pub open spec fn hyphen_at(i: int) -> bool {
    i > 0 && (i + 1) % 5 == 0
}

/// The shape of a job token: nine characters, a hyphen at every fifth
/// position and a symbol of the alphabet everywhere else.
pub open spec fn is_uid(s: Seq<char>) -> bool {
    &&& s.len() == UID_LENGTH
    &&& forall|i: int|
        0 <= i < s.len() ==> if hyphen_at(i) {
            s[i] == '-'
        } else {
            alphabet().contains(#[trigger] s[i])
        }
}

/// The token that a sequence of draws gives: a hyphen at every fifth
/// position, and at every other position the symbol of the alphabet that the
/// draw of that position picks. The draw at a hyphen's position is not used.
pub open spec fn token(draws: Seq<usize>) -> Seq<char> {
    Seq::new(
        UID_LENGTH as nat,
        |i: int|
            if hyphen_at(i) {
                '-'
            } else {
                alphabet()[draws[i] as int]
            },
    )
}

/// Whether a sequence of draws can make a token: one draw for each position,
/// each an index into the alphabet.
pub open spec fn are_draws(draws: Seq<usize>) -> bool {
    &&& draws.len() == UID_LENGTH
    &&& forall|i: int| 0 <= i < draws.len() ==> (#[trigger] draws[i]) < ALPHABET_SIZE
}

/// A token made from draws has the shape of a job token.
pub proof fn lemma_token_is_uid(draws: Seq<usize>)
    requires
        are_draws(draws),
    ensures
        is_uid(token(draws)),
{
    reveal_strlit("ABCDEFGHIJKLMNOPQRSTUVWXYZ0123456789");
    let t = token(draws);
    assert forall|i: int| 0 <= i < t.len() implies if hyphen_at(i) {
        t[i] == '-'
    } else {
        alphabet().contains(#[trigger] t[i])
    } by {
        if !hyphen_at(i) {
            assert(draws[i] < ALPHABET_SIZE);
            assert(alphabet()[draws[i] as int] == t[i]);
        }
    }
}

/// A random index below `bound`.
///
/// Trusted: `rand::Rng::gen_range` on the generator of `rand::thread_rng`,
/// with the range from zero up to and without `bound`. The result lies in
/// that range; the call panics on an empty range, which the precondition
/// leaves out.
#[verifier::external_body]
fn random_below(bound: usize) -> (r: usize)
    requires
        bound > 0,
    ensures
        r < bound,
{
    rand::Rng::gen_range(&mut rand::thread_rng(), 0..bound)
}

/// The token that the given draws make.
pub fn uid_from_draws(draws: &Vec<usize>) -> (uid: String)
    requires
        are_draws(draws@),
    ensures
        uid@ == token(draws@),
        is_uid(uid@),
{
    let charset: &str = "ABCDEFGHIJKLMNOPQRSTUVWXYZ0123456789";
    proof {
        reveal_strlit("ABCDEFGHIJKLMNOPQRSTUVWXYZ0123456789");
    }
    let mut uid = String::new();
    let mut i: usize = 0;
    while i < UID_LENGTH
        invariant
            i <= UID_LENGTH,
            are_draws(draws@),
            charset@ == alphabet(),
            charset@.len() == ALPHABET_SIZE,
            uid@.len() == i,
            forall|j: int| 0 <= j < i ==> uid@[j] == #[trigger] token(draws@)[j],
        decreases UID_LENGTH - i,
    {
        let symbol = charset.get_char(draws[i]);
        let c = if i > 0 && (i + 1) % 5 == 0 {
            '-'
        } else {
            symbol
        };
        push_char(&mut uid, c);
        i = i + 1;
    }
    proof {
        assert(uid@ =~= token(draws@));
        lemma_token_is_uid(draws@);
    }
    uid
}

/// Draws a fresh job token: one random index into the alphabet for each
/// position, and the token that these draws make. Tokens are not checked
/// against one another.
pub fn generate_uid() -> (uid: String)
    ensures
        is_uid(uid@),
        exists|draws: Seq<usize>| are_draws(draws) && uid@ == token(draws),
{
    let mut draws: Vec<usize> = Vec::new();
    let mut i: usize = 0;
    while i < UID_LENGTH
        invariant
            i <= UID_LENGTH,
            draws@.len() == i,
            forall|j: int| 0 <= j < i ==> (#[trigger] draws@[j]) < ALPHABET_SIZE,
        decreases UID_LENGTH - i,
    {
        draws.push(random_below(ALPHABET_SIZE));
        i = i + 1;
    }
    uid_from_draws(&draws)
}

} // verus!

//! The state value of a login: an opaque text that nobody can guess, sent
//! out with the redirect and expected back with the callback.

use rand::Rng;
use vstd::prelude::*;
use vstd::string::*;

verus! {

/// The characters that a state value is made of.
pub const TOKEN_ALPHABET: &'static str = "ABCDEFGHIJKLMNOPQRSTUVWXYZ0123456789";

/// The number of characters in the alphabet.
pub const ALPHABET_SIZE: usize = 36;

/// The length of the state value of a login.
pub const STATE_LENGTH: usize = 16;

/// Whether a character belongs to the alphabet.
pub open spec fn in_alphabet(c: char) -> bool {
    ('A' <= c <= 'Z') || ('0' <= c <= '9')
}

/// Whether a text is a state value of the given length: so many characters
/// of the alphabet.
pub open spec fn is_token(text: Seq<char>, length: int) -> bool {
    text.len() == length && forall|i: int| 0 <= i < text.len() ==> in_alphabet(#[trigger] text[i])
}

/// The text that a sequence of places in the alphabet spells.
pub open spec fn spelled(places: Seq<usize>) -> Seq<char> {
    Seq::new(places.len(), |i: int| TOKEN_ALPHABET@[places[i] as int])
}

/// Whether every place lies in the alphabet.
pub open spec fn places_in_alphabet(places: Seq<usize>) -> bool {
    forall|i: int| 0 <= i < places.len() ==> places[i] < ALPHABET_SIZE
}

/// The alphabet has 36 ASCII characters, letters and digits.
pub proof fn lemma_alphabet()
    ensures
        TOKEN_ALPHABET@.len() == ALPHABET_SIZE,
        is_ascii(TOKEN_ALPHABET),
        forall|i: int| 0 <= i < ALPHABET_SIZE ==> in_alphabet(#[trigger] TOKEN_ALPHABET@[i]),
{
    reveal_strlit("ABCDEFGHIJKLMNOPQRSTUVWXYZ0123456789");
}

/// `Rng::random_range` of `rand` on the generator of the current thread,
/// `rand::rng()`, a generator fit for secrets that the operating system
/// seeds: a number from 0 up to, and not including, `bound`, each as likely
/// as the other. The crate panics on an empty range; such a bound is left
/// out. It also panics where the operating system has no entropy to seed
/// the generator with, which no argument can prevent.
#[verifier::external_body]
fn random_below(bound: usize) -> (drawn: usize)
    requires
        bound > 0,
    ensures
        drawn < bound,
{
    rand::rng().random_range(0..bound)
}

fn spell(places: &Vec<usize>) -> (token: String)
    requires
        places_in_alphabet(places@),
    ensures
        token@ == spelled(places@),
{
    proof {
        lemma_alphabet();
    }
    let n: usize = places.len();
    let mut token = String::new();
    let mut i: usize = 0;
    while i < n
        invariant
            i <= n,
            n == places@.len(),
            places_in_alphabet(places@),
            TOKEN_ALPHABET@.len() == ALPHABET_SIZE,
            is_ascii(TOKEN_ALPHABET),
            token@ == spelled(places@.take(i as int)),
        decreases n - i,
    {
        let place: usize = places[i];
        let ghost before = token@;
        token.append(TOKEN_ALPHABET.substring_ascii(place, place + 1));
        proof {
            assert(TOKEN_ALPHABET@.subrange(place as int, place + 1) =~= seq![
                TOKEN_ALPHABET@[place as int],
            ]);
            assert(token@ =~= spelled(places@.take(i + 1)));
        }
        i = i + 1;
    }
    assert(places@.take(n as int) =~= places@);
    token
}

/// The text that the places spell: for each place the character of the
/// alphabet that stands there. Nothing where a place lies outside the
/// alphabet.
pub fn token_from_places(places: &Vec<usize>) -> (token: Option<String>)
    ensures
        match token {
            Some(t) => places_in_alphabet(places@) && t@ == spelled(places@),
            None => !places_in_alphabet(places@),
        },
{
    let n: usize = places.len();
    let mut i: usize = 0;
    while i < n
        invariant
            i <= n,
            n == places@.len(),
            forall|k: int| 0 <= k < i ==> places@[k] < ALPHABET_SIZE,
        decreases n - i,
    {
        if places[i] >= ALPHABET_SIZE {
            return None;
        }
        i = i + 1;
    }
    Some(spell(places))
}

/// A fresh state value of `length` characters, each drawn from the
/// alphabet by the thread's random generator. Without entropy from the
/// operating system no login can start safely, and the generator panics.
pub fn generate(length: usize) -> (token: String)
    ensures
        is_token(token@, length as int),
{
    let mut places: Vec<usize> = Vec::new();
    let mut i: usize = 0;
    while i < length
        invariant
            i <= length,
            places@.len() == i,
            places_in_alphabet(places@),
        decreases length - i,
    {
        places.push(random_below(ALPHABET_SIZE));
        i = i + 1;
    }
    proof {
        lemma_alphabet();
    }
    spell(&places)
}

} // verus!

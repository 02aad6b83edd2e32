use vstd::prelude::*;

use crate::domain::text::push_char;

verus! {

/// The number of characters in a confirmation token.
pub const TOKEN_LEN: usize = 25;

/// The size of the token alphabet: digits, upper and lower case ASCII letters.
pub const ALPHABET_SIZE: u8 = 62;

/// The character that the draw `i` selects.
pub open spec fn alphabet_char(i: u8) -> char {
    if i < 10 {
        ((48 + i) as u8) as char
    } else if i < 36 {
        ((55 + i) as u8) as char
    } else {
        ((61 + i) as u8) as char
    }
}

/// An ASCII letter or digit.
pub open spec fn is_token_char(c: char) -> bool {
    ('0' <= c && c <= '9') || ('A' <= c && c <= 'Z') || ('a' <= c && c <= 'z')
}

/// A confirmation token of the fixed length over the alphanumeric alphabet.
pub open spec fn is_token(t: Seq<char>) -> bool {
    t.len() == TOKEN_LEN && forall|k: int| 0 <= k < t.len() ==> is_token_char(#[trigger] t[k])
}

/// The character that the draw `i` selects.
pub fn token_char(i: u8) -> (c: char)
    requires
        i < ALPHABET_SIZE,
    ensures
        c == alphabet_char(i),
        is_token_char(c),
{
    if i < 10 {
        (48 + i) as char
    } else if i < 36 {
        (55 + i) as char
    } else {
        (61 + i) as char
    }
}

/// Whether `t` has the shape of a confirmation token.
pub fn token_check(t: &str) -> (r: bool)
    ensures
        r == is_token(t@),
{
    let n = t.unicode_len();
    if n != TOKEN_LEN {
        return false;
    }
    let mut i: usize = 0;
    while i < n
        invariant
            n == t@.len(),
            i <= n,
            forall|k: int| 0 <= k < i ==> is_token_char(#[trigger] t@[k]),
        decreases n - i,
    {
        let c = t.get_char(i);
        if !(('0' <= c && c <= '9') || ('A' <= c && c <= 'Z') || ('a' <= c && c <= 'z')) {
            return false;
        }
        i += 1;
    }
    true
}

/// Spells a token from draws in `0..ALPHABET_SIZE`, one character per draw.
pub fn token_from_draws(draws: &Vec<u8>) -> (t: String)
    requires
        forall|k: int| 0 <= k < draws.len() ==> #[trigger] draws[k] < ALPHABET_SIZE,
    ensures
        t@.len() == draws.len(),
        forall|k: int| 0 <= k < draws.len() ==> t@[k] == alphabet_char(#[trigger] draws[k]),
{
    let mut t = String::new();
    let mut i: usize = 0;
    while i < draws.len()
        invariant
            i <= draws.len(),
            forall|k: int| 0 <= k < draws.len() ==> #[trigger] draws[k] < ALPHABET_SIZE,
            t@.len() == i,
            forall|k: int| 0 <= k < i ==> t@[k] == alphabet_char(#[trigger] draws[k]),
        decreases draws.len() - i,
    {
        let c = token_char(draws[i]);
        push_char(&mut t, c);
        i += 1;
    }
    t
}

/// Relies on rand's `Rng::gen_range` over `thread_rng()`, a cryptographically
/// secure generator: a value in `0..bound` (the range must not be empty).
#[verifier::external_body]
fn draw_below(bound: u8) -> (r: u8)
    requires
        bound > 0,
    ensures
        r < bound,
{
    rand::Rng::gen_range(&mut rand::thread_rng(), 0..bound)
}

/// A fresh confirmation token: `TOKEN_LEN` characters drawn uniformly from a
/// secure random source over the alphanumeric alphabet.
pub fn generate_token() -> (t: String)
    ensures
        is_token(t@),
{
    let mut draws: Vec<u8> = Vec::new();
    let mut i: usize = 0;
    while i < TOKEN_LEN
        invariant
            i <= TOKEN_LEN,
            draws.len() == i,
            forall|k: int| 0 <= k < draws.len() ==> #[trigger] draws[k] < ALPHABET_SIZE,
        decreases TOKEN_LEN - i,
    {
        draws.push(draw_below(ALPHABET_SIZE));
        i += 1;
    }
    let t = token_from_draws(&draws);
    proof {
        assert forall|k: int| 0 <= k < t@.len() implies is_token_char(#[trigger] t@[k]) by {
            let d = draws[k];
            assert(t@[k] == alphabet_char(d));
        }
    }
    t
}

} // verus!

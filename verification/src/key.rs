//! Keys of short links: five symbols out of `A-Z` and `0-9`.

use vstd::prelude::*;
use rand::Rng;

verus! {

/// The number of symbols in a key.
pub const KEY_LENGTH: usize = 5;

/// `b` is an ASCII letter of either case or an ASCII digit.
pub open spec fn is_alphanumeric(b: u8) -> bool {
    ||| 0x30 <= b <= 0x39
    ||| 0x41 <= b <= 0x5a
    ||| 0x61 <= b <= 0x7a
}

/// `c` may stand in a key: an upper-case ASCII letter or an ASCII digit.
pub open spec fn is_key_symbol(c: char) -> bool {
    ||| 'A' <= c <= 'Z'
    ||| '0' <= c <= '9'
}

/// `s` has the form of a key: `KEY_LENGTH` key symbols.
pub open spec fn is_key(s: Seq<char>) -> bool {
    &&& s.len() == KEY_LENGTH
    &&& forall|i: int| 0 <= i < s.len() ==> is_key_symbol(#[trigger] s[i])
}

/// The key symbol that a sampled byte becomes: a lower-case ASCII letter is
/// raised to upper case, every other byte is kept.
pub open spec fn key_symbol_of(sample: u8) -> char {
    if 0x61 <= sample <= 0x7a {
        (sample - 0x20) as char
    } else {
        sample as char
    }
}

/// Turns a sampled byte into the symbol that goes into the key.
pub fn key_symbol(sample: u8) -> (c: char)
    ensures
        c == key_symbol_of(sample),
        is_alphanumeric(sample) ==> is_key_symbol(c),
{
    if 0x61 <= sample && sample <= 0x7a {
        (sample - 0x20) as char
    } else {
        sample as char
    }
}

/// Appending a character to a `String` (`String::push`): the string is the
/// old one with `ch` at its end.
pub assume_specification[ String::push ](s: &mut String, ch: char)
    ensures
        final(s)@ == old(s)@.push(ch),
;

/// One draw from `rand::distributions::Alphanumeric` with the thread's
/// generator (`rand::thread_rng`, `Rng::sample`). The distribution hands out
/// the bytes of `A-Z`, `a-z` and `0-9` and no others; which one is left open.
#[verifier::external_body]
pub(crate) fn sample_alphanumeric() -> (b: u8)
    ensures
        is_alphanumeric(b),
{
    rand::thread_rng().sample(rand::distributions::Alphanumeric)
}

/// Draws a fresh candidate key: `KEY_LENGTH` symbols, each drawn on its own
/// from the letters of both cases and the digits, letters raised to upper
/// case. Whether the key is already taken is for the store to say.
pub fn rand_key() -> (key: String)
    ensures
        is_key(key@),
{
    let mut key = String::new();
    let mut i: usize = 0;
    while i < KEY_LENGTH
        invariant
            i <= KEY_LENGTH,
            key@.len() == i,
            forall|j: int| 0 <= j < key@.len() ==> is_key_symbol(#[trigger] key@[j]),
        decreases KEY_LENGTH - i,
    {
        let sample = sample_alphanumeric();
        key.push(key_symbol(sample));
        i = i + 1;
    }
    key
}

} // verus!

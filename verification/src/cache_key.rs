//! The cache-key allocator: the name under which the artifacts of one poster
//! are stored.
//!
//! A key is drawn at random when a series is created and kept for its
//! lifetime. No two letters of its alphabet are easily taken for one another:
//! neither `L` nor `l` is in it. Nothing checks a new key against the keys in
//! use; that two series draw the same twenty characters is taken to be
//! unlikely enough.

use vstd::prelude::*;
use crate::text::{chars_of, has_char};

verus! {

/// The characters that a cache key is made of.
pub const CACHE_KEY_ALPHABET: &'static str =
    "ABCDEFGHIJKMNOPQRSTUVWXYZabcdefghijkmnopqrstuvwxyz0123456789";

/// The length of a cache key.
pub const CACHE_KEY_LENGTH: usize = 20;

/// Whether `key` has the shape of a cache key: twenty characters of the
/// alphabet.
pub open spec fn is_cache_key(key: Seq<char>) -> bool {
    &&& key.len() == CACHE_KEY_LENGTH
    &&& forall|i: int| 0 <= i < key.len() ==> CACHE_KEY_ALPHABET@.contains(#[trigger] key[i])
}

/// `random_string::generate`: a text of `length` characters, each drawn at
/// random from `charset`. An empty `charset` is refused by the function
/// itself.
#[verifier::external_body]
fn random_text(length: usize, charset: &str) -> (text: String)
    requires
        charset@.len() > 0,
    ensures
        text@.len() == length,
        forall|i: int| 0 <= i < text@.len() ==> charset@.contains(#[trigger] text@[i]),
{
    random_string::generate(length, charset)
}

/// Draws a new cache key.
pub fn allocate_cache_key() -> (key: String)
    ensures
        is_cache_key(key@),
{
    proof {
        reveal_strlit("ABCDEFGHIJKMNOPQRSTUVWXYZabcdefghijkmnopqrstuvwxyz0123456789");
    }
    random_text(CACHE_KEY_LENGTH, CACHE_KEY_ALPHABET)
}

/// Tells whether a text has the shape of a cache key.
pub fn is_valid_cache_key(key: &str) -> (valid: bool)
    ensures
        valid == is_cache_key(key@),
{
    let chars = chars_of(key);
    if chars.len() != CACHE_KEY_LENGTH {
        return false;
    }
    let alphabet = chars_of(CACHE_KEY_ALPHABET);
    let mut i: usize = 0;
    while i < chars.len()
        invariant
            i <= chars.len(),
            chars@ == key@,
            alphabet@ == CACHE_KEY_ALPHABET@,
            forall|j: int| 0 <= j < i ==> CACHE_KEY_ALPHABET@.contains(#[trigger] chars@[j]),
        decreases chars.len() - i,
    {
        if !has_char(&alphabet, chars[i]) {
            return false;
        }
        i = i + 1;
    }
    true
}

} // verus!

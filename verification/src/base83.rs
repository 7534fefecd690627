//! Base-83 numerals: the alphabet in which placeholder strings are written.
//!
//! A numeral is read most significant digit first. The executable encoder and
//! decoder are those of the `fast_blurhash` crate; this module states what they
//! compute and proves that a numeral of four digits holds any 24-bit number.

use vstd::prelude::*;

verus! {

/// The character that stands for the digit `d`, for `d < 83`.
///
/// Digits 0 to 9 are `'0'..='9'`, 10 to 35 are `'A'..='Z'`, 36 to 61 are
/// `'a'..='z'`, and 62 to 82 are the punctuation marks `#$%*+,-.:;=?@[]^_{|}~`
/// in that order.
#[verifier::opaque]
pub open spec fn base83_char(d: nat) -> char {
    if d < 10 {
        ((d + 48) as u8) as char
    } else if d < 36 {
        ((d + 55) as u8) as char
    } else if d < 62 {
        ((d + 61) as u8) as char
    } else if d == 62 {
        '#'
    } else if d == 63 {
        '$'
    } else if d == 64 {
        '%'
    } else if d == 65 {
        '*'
    } else if d == 66 {
        '+'
    } else if d == 67 {
        ','
    } else if d == 68 {
        '-'
    } else if d == 69 {
        '.'
    } else if d == 70 {
        ':'
    } else if d == 71 {
        ';'
    } else if d == 72 {
        '='
    } else if d == 73 {
        '?'
    } else if d == 74 {
        '@'
    } else if d == 75 {
        '['
    } else if d == 76 {
        ']'
    } else if d == 77 {
        '^'
    } else if d == 78 {
        '_'
    } else if d == 79 {
        '{'
    } else if d == 80 {
        '|'
    } else if d == 81 {
        '}'
    } else {
        '~'
    }
}

/// Whether `c` is one of the 83 characters of the alphabet.
pub open spec fn is_base83_char(c: char) -> bool {
    exists|d: nat| d < 83 && #[trigger] base83_char(d) == c
}

/// The digit that `c` stands for. A character outside the alphabet counts as
/// the digit 0, which is how the decoder reads it.
#[verifier::opaque]
pub open spec fn base83_digit(c: char) -> nat {
    let n = c as nat;
    if 48 <= n <= 57 {
        (n - 48) as nat
    } else if 65 <= n <= 90 {
        (n - 55) as nat
    } else if 97 <= n <= 122 {
        (n - 61) as nat
    } else if c == '#' {
        62
    } else if c == '$' {
        63
    } else if c == '%' {
        64
    } else if c == '*' {
        65
    } else if c == '+' {
        66
    } else if c == ',' {
        67
    } else if c == '-' {
        68
    } else if c == '.' {
        69
    } else if c == ':' {
        70
    } else if c == ';' {
        71
    } else if c == '=' {
        72
    } else if c == '?' {
        73
    } else if c == '@' {
        74
    } else if c == '[' {
        75
    } else if c == ']' {
        76
    } else if c == '^' {
        77
    } else if c == '_' {
        78
    } else if c == '{' {
        79
    } else if c == '|' {
        80
    } else if c == '}' {
        81
    } else if c == '~' {
        82
    } else {
        0
    }
}

/// Whether every character of `s` is an ASCII character.
pub open spec fn is_ascii_text(s: Seq<char>) -> bool {
    forall|i: int| 0 <= i < s.len() ==> (#[trigger] s[i]) as nat <= 127
}

/// Whether every character of `s` belongs to the alphabet.
pub open spec fn is_base83_text(s: Seq<char>) -> bool {
    forall|i: int| 0 <= i < s.len() ==> is_base83_char(#[trigger] s[i])
}

/// The number that the numeral `s` denotes, most significant digit first.
pub open spec fn base83_value(s: Seq<char>) -> nat
    decreases s.len(),
{
    if s.len() == 0 {
        0
    } else {
        base83_value(s.drop_last()) * 83 + base83_digit(s.last())
    }
}

/// The numeral of exactly `len` digits for `n`, most significant digit first.
/// Digits beyond the `len` lowest are dropped.
pub open spec fn base83_digits(n: nat, len: nat) -> Seq<char>
    decreases len,
{
    if len == 0 {
        Seq::<char>::empty()
    } else {
        base83_digits(n / 83, (len - 1) as nat).push(base83_char(n % 83))
    }
}

/// 83 to the power `k`.
pub open spec fn pow83(k: nat) -> nat
    decreases k,
{
    if k == 0 {
        1
    } else {
        83 * pow83((k - 1) as nat)
    }
}

/// A character of ASCII and its byte stand for each other.
pub proof fn lemma_ascii_char(c: char)
    requires
        c as nat <= 127,
    ensures
        '\0' <= c <= '\u{7f}',
        (c as u8) as char == c,
        (c as u8) < 128,
        c as u8 == 47 <==> c == '/',
{
}

/// A byte of ASCII and its character stand for each other.
pub proof fn lemma_ascii_byte(b: u8)
    requires
        b < 128,
    ensures
        (b as char) as nat == b,
        (b as char) as u8 == b,
{
}

/// Every digit has a character of its own, and that character is ASCII.
pub proof fn lemma_digit_of_char(d: nat)
    requires
        d < 83,
    ensures
        base83_digit(base83_char(d)) == d,
        is_base83_char(base83_char(d)),
        base83_char(d) as nat <= 127,
        base83_char(d) != '/',
{
    reveal(base83_char);
    reveal(base83_digit);
}

/// A numeral has the length asked for and is written in the alphabet.
pub proof fn lemma_digits_shape(n: nat, len: nat)
    ensures
        base83_digits(n, len).len() == len,
        is_base83_text(base83_digits(n, len)),
        is_ascii_text(base83_digits(n, len)),
        !base83_digits(n, len).contains('/'),
    decreases len,
{
    if len > 0 {
        lemma_digits_shape(n / 83, (len - 1) as nat);
        lemma_digit_of_char(n % 83);
    }
}

/// Reading back a numeral gives the number it was written for, as long as the
/// number fits in the digits.
pub proof fn lemma_value_of_digits(n: nat, len: nat)
    requires
        n < pow83(len),
    ensures
        base83_value(base83_digits(n, len)) == n,
    decreases len,
{
    if len > 0 {
        let rest = base83_digits(n / 83, (len - 1) as nat);
        lemma_value_of_digits(n / 83, (len - 1) as nat);
        lemma_digit_of_char(n % 83);
        assert(base83_digits(n, len).drop_last() == rest);
    }
}

/// A character of the alphabet is ASCII and is not the separator `/`.
pub proof fn lemma_base83_char_is_plain(c: char)
    requires
        is_base83_char(c),
    ensures
        c as nat <= 127,
        c != '/',
{
    let d = choose|d: nat| d < 83 && #[trigger] base83_char(d) == c;
    lemma_digit_of_char(d);
}

#[verifier::external_type_specification]
#[verifier::external_body]
pub struct ExBase83ConversionError(fast_blurhash::base83::Base83ConversionError);

/// Appends to `str` the numeral of `iters` digits for `n`: the `iters` lowest
/// base-83 digits of `n`, most significant first. More than six digits are
/// refused by the function itself.
pub assume_specification[ fast_blurhash::base83::encode_fixed_to ](
    n: u32,
    iters: u8,
    str: &mut String,
)
    requires
        iters <= 6,
    ensures
        final(str)@ == old(str)@ + base83_digits(n as nat, iters as nat),
;

/// `fast_blurhash::base83::decode`, on a numeral of at most five characters.
/// Every ASCII character counts as a digit, one outside the alphabet as the
/// digit 0; a character that is not ASCII makes the numeral invalid. With
/// five digits or fewer the number fits in 32 bits.
#[verifier::external_body]
pub(crate) fn read_numeral(s: &str) -> (r: Result<
    u32,
    fast_blurhash::base83::Base83ConversionError,
>)
    requires
        s@.len() <= 5,
    ensures
        r is Ok <==> is_ascii_text(s@),
        r matches Ok(n) ==> n == base83_value(s@),
{
    fast_blurhash::base83::decode(s)
}

} // verus!

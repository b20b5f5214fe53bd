//! The 62-symbol alphabet of identifiers: `0-9`, `A-Z`, `a-z`.

use vstd::prelude::*;

verus! {

/// Number of symbols in the alphabet.
pub const ALPHABET_SIZE: usize = 62;

/// Whether `c` is an ASCII letter or an ASCII digit.
pub open spec fn is_alphanumeric(c: char) -> bool {
    ||| '0' <= c <= '9'
    ||| 'A' <= c <= 'Z'
    ||| 'a' <= c <= 'z'
}

/// The symbol at position `index` of the alphabet: the ten digits, then the
/// upper-case letters, then the lower-case letters.
pub open spec fn symbol_at(index: int) -> char {
    if index < 10 {
        ('0' as u8 + index) as u8 as char
    } else if index < 36 {
        ('A' as u8 + (index - 10)) as u8 as char
    } else {
        ('a' as u8 + (index - 36)) as u8 as char
    }
}

/// Whether `c` belongs to the alphabet.
pub open spec fn in_alphabet(c: char) -> bool {
    exists|index: int| 0 <= index < 62 && c == #[trigger] symbol_at(index)
}

/// Decides whether `c` is an ASCII letter or an ASCII digit.
pub fn is_ascii_alphanumeric(c: char) -> (accepted: bool)
    ensures
        accepted == is_alphanumeric(c),
{
    ('0' <= c && c <= '9') || ('A' <= c && c <= 'Z') || ('a' <= c && c <= 'z')
}

/// Maps a sample of any size to a symbol of the alphabet, by its remainder
/// modulo the alphabet's size.
pub fn symbol_for(sample: usize) -> (c: char)
    ensures
        c == symbol_at(sample as int % 62),
        in_alphabet(c),
{
    let index: usize = sample % ALPHABET_SIZE;
    let code: u8 = if index < 10 {
        48u8 + (index as u8)
    } else if index < 36 {
        65u8 + ((index - 10) as u8)
    } else {
        97u8 + ((index - 36) as u8)
    };
    code as char
}

/// The alphabet is exactly the set of ASCII letters and digits.
pub proof fn lemma_alphabet_is_alphanumeric(c: char)
    ensures
        in_alphabet(c) <==> is_alphanumeric(c),
{
    if is_alphanumeric(c) {
        let code = c as u8 as int;
        if '0' <= c <= '9' {
            assert(c == symbol_at(code - 48));
        } else if 'A' <= c <= 'Z' {
            assert(c == symbol_at(code - 65 + 10));
        } else {
            assert(c == symbol_at(code - 97 + 36));
        }
    }
    if in_alphabet(c) {
        let index = choose|index: int| 0 <= index < 62 && c == #[trigger] symbol_at(index);
        assert(is_alphanumeric(symbol_at(index)));
    }
}

} // verus!

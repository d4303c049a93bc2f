//! The two grammars that constrain HTTP headers: names are drawn from the
//! token grammar, values from visible ASCII plus the space character.

use vstd::prelude::*;

verus! {

/// Whether `b` is a `tchar` of the HTTP token grammar: an ASCII letter or
/// digit, or one of `! # $ % & ' * + - . ^ _ \` | ~`.
pub open spec fn is_token_byte(b: u8) -> bool {
    ||| (97 <= b && b <= 122)  // 'a' ..= 'z'
    ||| (65 <= b && b <= 90)  // 'A' ..= 'Z'
    ||| (48 <= b && b <= 57)  // '0' ..= '9'
    ||| b == 33  // '!'
    ||| b == 35  // '#'
    ||| b == 36  // '$'
    ||| b == 37  // '%'
    ||| b == 38  // '&'
    ||| b == 39  // '\''
    ||| b == 42  // '*'
    ||| b == 43  // '+'
    ||| b == 45  // '-'
    ||| b == 46  // '.'
    ||| b == 94  // '^'
    ||| b == 95  // '_'
    ||| b == 96  // '`'
    ||| b == 124  // '|'
    ||| b == 126  // '~'
}

/// A header name is a nonempty token: every byte is a `tchar`.
pub open spec fn valid_header_name(s: Seq<u8>) -> bool {
    &&& s.len() > 0
    &&& forall|i: int| 0 <= i < s.len() ==> is_token_byte(s[i])
}

/// Whether `b` may appear in a header value: visible ASCII or the space
/// character, so every byte from space (32) through tilde (126).
pub open spec fn is_value_byte(b: u8) -> bool {
    32 <= b && b <= 126
}

/// A header value holds visible ASCII and spaces only; it may be empty.
pub open spec fn valid_header_value(s: Seq<u8>) -> bool {
    forall|i: int| 0 <= i < s.len() ==> is_value_byte(s[i])
}

/// Decides whether `name` is a valid header name under the token grammar.
pub fn check_header_name(name: &[u8]) -> (ok: bool)
    ensures
        ok == valid_header_name(name@),
{
    if name.len() == 0 {
        return false;
    }
    let mut i: usize = 0;
    while i < name.len()
        invariant
            0 <= i <= name@.len(),
            name@.len() > 0,
            forall|j: int| 0 <= j < i ==> is_token_byte(name@[j]),
        decreases name@.len() - i,
    {
        let b = name[i];
        let ok = (97 <= b && b <= 122) || (65 <= b && b <= 90) || (48 <= b && b <= 57)
            || b == 33 || b == 35 || b == 36 || b == 37 || b == 38 || b == 39 || b == 42
            || b == 43 || b == 45 || b == 46 || b == 94 || b == 95 || b == 96 || b == 124
            || b == 126;
        if !ok {
            return false;
        }
        i = i + 1;
    }
    true
}

/// Decides whether `value` is a valid header value: visible ASCII plus space.
pub fn check_header_value(value: &[u8]) -> (ok: bool)
    ensures
        ok == valid_header_value(value@),
{
    let mut i: usize = 0;
    while i < value.len()
        invariant
            0 <= i <= value@.len(),
            forall|j: int| 0 <= j < i ==> is_value_byte(value@[j]),
        decreases value@.len() - i,
    {
        let b = value[i];
        if !(32 <= b && b <= 126) {
            return false;
        }
        i = i + 1;
    }
    true
}

} // verus!

//! Lesson identifiers: short tokens of ASCII letters, digits, `-` and `_`.

use vstd::prelude::*;
use vstd::string::is_ascii_spec_bytes;

verus! {

/// Why a string is no lesson identifier.
#[derive(Clone, Copy, Debug, PartialEq, Eq, Structural)]
pub enum IdError {
    /// The string holds no character.
    Empty,
    /// The string holds a character other than an ASCII letter, a digit, `-` or `_`.
    InvalidChar,
}

/// Whether `c` may stand in an identifier.
pub open spec fn is_slug_char(c: char) -> bool {
    ||| 'a' <= c <= 'z'
    ||| 'A' <= c <= 'Z'
    ||| '0' <= c <= '9'
    ||| c == '-'
    ||| c == '_'
}

/// Whether every character of `s` may stand in an identifier.
pub open spec fn all_slug_chars(s: Seq<char>) -> bool {
    forall|i: int| 0 <= i < s.len() ==> is_slug_char(#[trigger] s[i])
}

/// Whether `s` is an identifier: not empty, and made of identifier characters only.
pub open spec fn valid_id(s: Seq<char>) -> bool {
    s.len() > 0 && all_slug_chars(s)
}

/// What `check_id` answers for `s`.
pub open spec fn id_check(s: Seq<char>) -> Result<(), IdError> {
    if s.len() == 0 {
        Err(IdError::Empty)
    } else if !all_slug_chars(s) {
        Err(IdError::InvalidChar)
    } else {
        Ok(())
    }
}

/// Whether the byte `b` encodes an identifier character.
fn is_slug_byte(b: u8) -> (ok: bool)
    ensures
        ok == (b < 128 && is_slug_char(b as char)),
{
    (b >= 97 && b <= 122) || (b >= 65 && b <= 90) || (b >= 48 && b <= 57) || b == 45 || b == 95
}

/// Tests whether `id` is an identifier, and says what is wrong with it if it is not.
pub fn check_id(id: &str) -> (res: Result<(), IdError>)
    ensures
        res == id_check(id@),
        res is Ok <==> valid_id(id@),
{
    if id.is_empty() {
        return Err(IdError::Empty);
    }
    if !id.is_ascii() {
        return Err(IdError::InvalidChar);
    }
    proof {
        is_ascii_spec_bytes(id);
    }
    let bytes = id.as_bytes();
    let mut k: usize = 0;
    while k < bytes.len()
        invariant
            k <= bytes@.len(),
            bytes@.len() == id@.len(),
            vstd::string::is_ascii(id),
            forall|i: int| 0 <= i < bytes@.len() ==> bytes@[i] == id@[i] as u8,
            forall|i: int| 0 <= i < k ==> is_slug_char(#[trigger] id@[i]),
        decreases bytes@.len() - k,
    {
        if !is_slug_byte(bytes[k]) {
            assert(!is_slug_char(id@[k as int]));
            return Err(IdError::InvalidChar);
        }
        assert(is_slug_char(id@[k as int]));
        k += 1;
    }
    Ok(())
}

} // verus!

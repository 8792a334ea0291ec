//! The password rule: 8 to 20 bytes, with a lower-case letter, an upper-case
//! letter and a decimal digit.

use vstd::prelude::*;
use crate::error::CustomError;

verus! {

/// Whether `char::is_lowercase` holds of a character.
pub uninterp spec fn is_lowercase_char(c: char) -> bool;

/// Whether `char::is_uppercase` holds of a character.
pub uninterp spec fn is_uppercase_char(c: char) -> bool;

/// Relies on `char::is_lowercase`: the Unicode `Lowercase` property, which
/// depends on the character alone.
#[verifier::external_body]
fn char_is_lowercase(c: char) -> (r: bool)
    ensures
        r == is_lowercase_char(c),
{
    c.is_lowercase()
}

/// Relies on `char::is_uppercase`: the Unicode `Uppercase` property, which
/// depends on the character alone.
#[verifier::external_body]
fn char_is_uppercase(c: char) -> (r: bool)
    ensures
        r == is_uppercase_char(c),
{
    c.is_uppercase()
}

pub open spec fn is_decimal_digit(c: char) -> bool {
    '0' <= c && c <= '9'
}

/// The verdict on a password whose text is `s` and whose UTF-8 form takes
/// `bytes` bytes.
pub open spec fn password_verdict(s: Seq<char>, bytes: nat) -> Result<(), Seq<char>> {
    if bytes < 8 || bytes > 20 {
        Err("Password must be between 8 and 20 characters long."@)
    } else if !((exists|i: int| 0 <= i < s.len() && is_lowercase_char(s[i]))
        && (exists|i: int| 0 <= i < s.len() && is_uppercase_char(s[i]))
        && (exists|i: int| 0 <= i < s.len() && is_decimal_digit(s[i]))) {
        Err("Password must include at least one uppercase letter, one lowercase letter, and one number."@)
    } else {
        Ok(())
    }
}

/// Checks a password against the rule; a breach is a bad request that says
/// which part of the rule failed.
pub fn validate_password(password: &str) -> (r: Result<(), CustomError>)
    ensures
        match r {
            Ok(()) => password_verdict(password@, password.len() as nat) is Ok,
            Err(CustomError::BadRequestError(m)) => password_verdict(password@, password.len() as nat) == Err::<(), Seq<char>>(m@),
            Err(_) => false,
        },
{
    if password.len() < 8 || password.len() > 20 {
        return Err(CustomError::BadRequestError(String::from_str("Password must be between 8 and 20 characters long.")));
    }
    let n = password.unicode_len();
    let mut has_lowercase = false;
    let mut has_uppercase = false;
    let mut has_digit = false;
    let mut i: usize = 0;
    while i < n
        invariant
            i <= n,
            n == password@.len(),
            has_lowercase == exists|j: int| 0 <= j < i && is_lowercase_char(password@[j]),
            has_uppercase == exists|j: int| 0 <= j < i && is_uppercase_char(password@[j]),
            has_digit == exists|j: int| 0 <= j < i && is_decimal_digit(password@[j]),
        decreases n - i,
    {
        let c = password.get_char(i);
        if char_is_lowercase(c) {
            has_lowercase = true;
        }
        if char_is_uppercase(c) {
            has_uppercase = true;
        }
        if '0' <= c && c <= '9' {
            has_digit = true;
        }
        i = i + 1;
    }
    if !has_lowercase || !has_uppercase || !has_digit {
        return Err(CustomError::BadRequestError(String::from_str(
            "Password must include at least one uppercase letter, one lowercase letter, and one number.",
        )));
    }
    Ok(())
}

} // verus!

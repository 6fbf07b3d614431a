//! Shape checks on the strings that a registration supplies.
use vstd::prelude::*;
use vstd::utf8::encode_utf8;

use crate::error::Error;

verus! {

/// Whether `c` is alphabetic or numeric in Unicode's sense.
pub uninterp spec fn alphanumeric(c: char) -> bool;

/// Relies on `char::is_alphanumeric`: whether `c` is alphabetic or numeric.
#[verifier::external_body]
fn is_alphanumeric(c: char) -> (r: bool)
    ensures
        r == alphanumeric(c),
{
    c.is_alphanumeric()
}

/// The length of `s` in bytes, as UTF-8.
pub open spec fn byte_len(s: Seq<char>) -> usize {
    encode_utf8(s).len() as usize
}

/// A character allowed in a username.
pub open spec fn username_char(c: char) -> bool {
    alphanumeric(c) || c == '_'
}

/// Whether every character of `s` is allowed in a username.
pub open spec fn username_chars(s: Seq<char>) -> bool {
    forall|i: int| 0 <= i < s.len() ==> username_char(#[trigger] s[i])
}

/// The outcome of checking a username: the first rule that it breaks, if any.
pub open spec fn username_check(s: Seq<char>) -> Result<(), Error> {
    if s.len() == 0 {
        Err(Error::EmptyUsername)
    } else if byte_len(s) < 3 {
        Err(Error::UsernameTooShort)
    } else if byte_len(s) > 32 {
        Err(Error::UsernameTooLong)
    } else if !username_chars(s) {
        Err(Error::InvalidUsernameFormat)
    } else {
        Ok(())
    }
}

/// The outcome of checking a credential hash: at least four bytes.
pub open spec fn password_hash_check(s: Seq<char>) -> Result<(), Error> {
    if s.len() == 0 || byte_len(s) < 4 {
        Err(Error::EmptyPasswordHash)
    } else {
        Ok(())
    }
}

/// The outcome of checking a social identity hash: not empty.
pub open spec fn social_id_hash_check(s: Seq<char>) -> Result<(), Error> {
    if s.len() == 0 {
        Err(Error::EmptySocialIdHash)
    } else {
        Ok(())
    }
}

/// Checks a username: not empty, three to thirty-two bytes long, and made of
/// alphanumeric characters and `_` only.
pub fn validate_username(username: &str) -> (r: Result<(), Error>)
    ensures
        r == username_check(username@),
{
    if username.is_empty() {
        return Err(Error::EmptyUsername);
    }
    let n = username.len();
    if n < 3 {
        return Err(Error::UsernameTooShort);
    }
    if n > 32 {
        return Err(Error::UsernameTooLong);
    }
    let count = username.unicode_len();
    let mut i: usize = 0;
    while i < count
        invariant
            count == username@.len(),
            username@.len() > 0,
            3 <= byte_len(username@) <= 32,
            i <= count,
            forall|j: int| 0 <= j < i ==> username_char(#[trigger] username@[j]),
        decreases count - i,
    {
        let c = username.get_char(i);
        if !(is_alphanumeric(c) || c == '_') {
            assert(!username_char(username@[i as int]));
            return Err(Error::InvalidUsernameFormat);
        }
        i = i + 1;
    }
    Ok(())
}

/// Checks the shape of a credential hash: at least four bytes. Its strength is
/// not judged.
pub fn validate_password_hash(password_hash: &str) -> (r: Result<(), Error>)
    ensures
        r == password_hash_check(password_hash@),
{
    if password_hash.is_empty() {
        return Err(Error::EmptyPasswordHash);
    }
    if password_hash.len() < 4 {
        return Err(Error::EmptyPasswordHash);
    }
    Ok(())
}

/// Checks that a social identity hash is not empty.
pub fn validate_social_id_hash(social_id_hash: &str) -> (r: Result<(), Error>)
    ensures
        r == social_id_hash_check(social_id_hash@),
{
    if social_id_hash.is_empty() {
        return Err(Error::EmptySocialIdHash);
    }
    Ok(())
}

} // verus!

use vstd::prelude::*;

verus! {

/// Every way in which an operation of the registry can fail.
#[derive(Clone, Copy, Debug, PartialEq, Eq, Structural)]
pub enum Error {
    /// The account already has an identity.
    IdentityAlreadyExists,
    /// The username, compared case-insensitively, is already reserved.
    UsernameAlreadyTaken,
    /// The social identity hash is already bound to an account.
    SocialIdAlreadyBound,
    /// No identity matches the account or username.
    IdentityNotFound,
    /// The credential hash does not match the stored one.
    InvalidCredentials,
    /// The caller is not the administrator.
    Unauthorized,
    /// The username is empty.
    EmptyUsername,
    /// The credential hash is empty or shorter than four bytes.
    EmptyPasswordHash,
    /// The social identity hash is empty.
    EmptySocialIdHash,
    /// The username is shorter than three bytes.
    UsernameTooShort,
    /// The username is longer than thirty-two bytes.
    UsernameTooLong,
    /// The username holds a character that is neither alphanumeric nor `_`.
    InvalidUsernameFormat,
    /// The account is locked after too many failed attempts.
    AccountLocked,
    /// No session has the token.
    SessionNotFound,
    /// The session's expiry time has passed.
    SessionExpired,
    /// The session was revoked.
    SessionAlreadyRevoked,
}

} // verus!

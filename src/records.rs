//! The records that the registry stores.
use vstd::prelude::*;

use crate::account::AccountId;

verus! {

/// Everything the registry holds about one account's identity.
#[derive(Debug, PartialEq)]
pub struct IdentityInfo {
    /// The username as it was registered, case preserved.
    pub username: String,
    /// The credential hash, compared for exact equality only.
    pub password_hash: String,
    /// The hash of the social identity bound to the account.
    pub social_id_hash: String,
    /// The social provider's name.
    pub social_provider: String,
    /// The account that owns this identity; never changes.
    pub wallet_address: AccountId,
    /// Whether the administrator has verified the identity.
    pub is_verified: bool,
    /// When the identity was registered.
    pub created_at: u64,
    /// When the last login attempt was evaluated.
    pub last_login: u64,
    /// Consecutive failed login attempts.
    pub failed_attempts: u32,
    /// Whether too many failed attempts have locked the account.
    pub is_locked: bool,
}

/// An identity with its strings seen as character sequences.
pub struct IdentityView {
    pub username: Seq<char>,
    pub password_hash: Seq<char>,
    pub social_id_hash: Seq<char>,
    pub social_provider: Seq<char>,
    pub wallet_address: AccountId,
    pub is_verified: bool,
    pub created_at: u64,
    pub last_login: u64,
    pub failed_attempts: u32,
    pub is_locked: bool,
}

impl View for IdentityInfo {
    type V = IdentityView;

    open spec fn view(&self) -> IdentityView {
        IdentityView {
            username: self.username@,
            password_hash: self.password_hash@,
            social_id_hash: self.social_id_hash@,
            social_provider: self.social_provider@,
            wallet_address: self.wallet_address,
            is_verified: self.is_verified,
            created_at: self.created_at,
            last_login: self.last_login,
            failed_attempts: self.failed_attempts,
            is_locked: self.is_locked,
        }
    }
}

impl IdentityInfo {
    /// A copy of this identity.
    pub fn snapshot(&self) -> (r: IdentityInfo)
        ensures
            r@ == self@,
    {
        IdentityInfo {
            username: self.username.clone(),
            password_hash: self.password_hash.clone(),
            social_id_hash: self.social_id_hash.clone(),
            social_provider: self.social_provider.clone(),
            wallet_address: self.wallet_address,
            is_verified: self.is_verified,
            created_at: self.created_at,
            last_login: self.last_login,
            failed_attempts: self.failed_attempts,
            is_locked: self.is_locked,
        }
    }
}

/// One login session, found by its token.
#[derive(Debug, PartialEq)]
pub struct SessionInfo {
    /// The account the session belongs to.
    pub account: AccountId,
    /// The session's token.
    pub session_id: String,
    /// When the session was created.
    pub created_at: u64,
    /// The last time at which the session is still valid.
    pub expires_at: u64,
    /// False once the session has been revoked; never true again.
    pub is_active: bool,
}

/// A session with its token seen as a character sequence.
pub struct SessionView {
    pub account: AccountId,
    pub session_id: Seq<char>,
    pub created_at: u64,
    pub expires_at: u64,
    pub is_active: bool,
}

impl View for SessionInfo {
    type V = SessionView;

    open spec fn view(&self) -> SessionView {
        SessionView {
            account: self.account,
            session_id: self.session_id@,
            created_at: self.created_at,
            expires_at: self.expires_at,
            is_active: self.is_active,
        }
    }
}

impl SessionInfo {
    /// A copy of this session.
    pub fn snapshot(&self) -> (r: SessionInfo)
        ensures
            r@ == self@,
    {
        SessionInfo {
            account: self.account,
            session_id: self.session_id.clone(),
            created_at: self.created_at,
            expires_at: self.expires_at,
            is_active: self.is_active,
        }
    }
}

} // verus!

//! Observations that the registry records for its host to dispatch.
use vstd::prelude::*;

use crate::account::AccountId;

verus! {

/// An identity was registered.
#[derive(Debug, PartialEq)]
pub struct IdentityRegistered {
    pub account: AccountId,
    pub username: String,
    pub social_provider: String,
    pub timestamp: u64,
}

/// The administrator verified an identity.
#[derive(Debug, PartialEq)]
pub struct IdentityVerified {
    pub account: AccountId,
    pub verified_by: AccountId,
    pub timestamp: u64,
}

/// A login succeeded.
#[derive(Debug, PartialEq)]
pub struct LoginSuccessful {
    pub account: AccountId,
    pub username: String,
    pub timestamp: u64,
}

/// A login failed.
#[derive(Debug, PartialEq)]
pub struct LoginFailed {
    pub username: String,
    pub reason: String,
    pub timestamp: u64,
}

/// An account was locked.
#[derive(Debug, PartialEq)]
pub struct AccountLocked {
    pub account: AccountId,
    pub username: String,
    pub reason: String,
    pub timestamp: u64,
}

/// The administrator unlocked an account.
#[derive(Debug, PartialEq)]
pub struct AccountUnlocked {
    pub account: AccountId,
    pub timestamp: u64,
}

/// A session was created.
#[derive(Debug, PartialEq)]
pub struct SessionCreated {
    pub account: AccountId,
    pub session_id: String,
    pub expires_at: u64,
}

/// A session was revoked.
#[derive(Debug, PartialEq)]
pub struct SessionRevoked {
    pub session_id: String,
    pub timestamp: u64,
}

/// An account's credential hash was changed.
#[derive(Debug, PartialEq)]
pub struct PasswordChanged {
    pub account: AccountId,
    pub timestamp: u64,
}

/// Any one observation.
#[derive(Debug, PartialEq)]
pub enum Event {
    IdentityRegistered(IdentityRegistered),
    IdentityVerified(IdentityVerified),
    LoginSuccessful(LoginSuccessful),
    LoginFailed(LoginFailed),
    AccountLocked(AccountLocked),
    AccountUnlocked(AccountUnlocked),
    SessionCreated(SessionCreated),
    SessionRevoked(SessionRevoked),
    PasswordChanged(PasswordChanged),
}

/// An observation with its strings seen as character sequences.
pub enum EventView {
    IdentityRegistered {
        account: AccountId,
        username: Seq<char>,
        social_provider: Seq<char>,
        timestamp: u64,
    },
    IdentityVerified { account: AccountId, verified_by: AccountId, timestamp: u64 },
    LoginSuccessful { account: AccountId, username: Seq<char>, timestamp: u64 },
    LoginFailed { username: Seq<char>, reason: Seq<char>, timestamp: u64 },
    AccountLocked { account: AccountId, username: Seq<char>, reason: Seq<char>, timestamp: u64 },
    AccountUnlocked { account: AccountId, timestamp: u64 },
    SessionCreated { account: AccountId, session_id: Seq<char>, expires_at: u64 },
    SessionRevoked { session_id: Seq<char>, timestamp: u64 },
    PasswordChanged { account: AccountId, timestamp: u64 },
}

impl View for Event {
    type V = EventView;

    open spec fn view(&self) -> EventView {
        match self {
            Event::IdentityRegistered(e) => EventView::IdentityRegistered {
                account: e.account,
                username: e.username@,
                social_provider: e.social_provider@,
                timestamp: e.timestamp,
            },
            Event::IdentityVerified(e) => EventView::IdentityVerified {
                account: e.account,
                verified_by: e.verified_by,
                timestamp: e.timestamp,
            },
            Event::LoginSuccessful(e) => EventView::LoginSuccessful {
                account: e.account,
                username: e.username@,
                timestamp: e.timestamp,
            },
            Event::LoginFailed(e) => EventView::LoginFailed {
                username: e.username@,
                reason: e.reason@,
                timestamp: e.timestamp,
            },
            Event::AccountLocked(e) => EventView::AccountLocked {
                account: e.account,
                username: e.username@,
                reason: e.reason@,
                timestamp: e.timestamp,
            },
            Event::AccountUnlocked(e) => EventView::AccountUnlocked {
                account: e.account,
                timestamp: e.timestamp,
            },
            Event::SessionCreated(e) => EventView::SessionCreated {
                account: e.account,
                session_id: e.session_id@,
                expires_at: e.expires_at,
            },
            Event::SessionRevoked(e) => EventView::SessionRevoked {
                session_id: e.session_id@,
                timestamp: e.timestamp,
            },
            Event::PasswordChanged(e) => EventView::PasswordChanged {
                account: e.account,
                timestamp: e.timestamp,
            },
        }
    }
}

} // verus!

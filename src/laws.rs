//! Properties that hold across calls of the registry, stated over its view.
use vstd::prelude::*;

use crate::account::AccountId;
use crate::error::Error;
use crate::registry::{
    account_by_username, authenticate_spec, create_session_spec, lower_of, register_spec,
    registry_inv, revoke_session_spec, transfer_admin_spec, unlock_account_spec, unlock_at,
    update_lockout_duration_spec, update_max_failed_attempts_spec, verify_identity_spec,
    verify_session_spec, RegistryView,
};
use crate::validate::{password_hash_check, social_id_hash_check, username_check};

verus! {

/// Two spellings of a username with the same lowercase form find the same account.
pub proof fn lemma_lookup_case_insensitive(s: RegistryView, a: Seq<char>, b: Seq<char>)
    requires
        lower_of(a) == lower_of(b),
    ensures
        account_by_username(s, a) == account_by_username(s, b),
{
}

/// After `caller` registers `username`, every spelling of it with the same
/// lowercase form finds `caller`.
pub proof fn lemma_register_then_lookup(
    s: RegistryView,
    caller: AccountId,
    username: Seq<char>,
    password_hash: Seq<char>,
    social_id_hash: Seq<char>,
    social_provider: Seq<char>,
    now: u64,
    probe: Seq<char>,
)
    requires
        register_spec(s, caller, username, password_hash, social_id_hash, social_provider, now).1
            is Ok,
        lower_of(probe) == lower_of(username),
    ensures
        account_by_username(
            register_spec(
                s,
                caller,
                username,
                password_hash,
                social_id_hash,
                social_provider,
                now,
            ).0,
            probe,
        ) == Some(caller),
{
}

/// Once `username` is registered, another account without an identity that
/// registers a valid spelling of it with the same lowercase form is refused with
/// `UsernameAlreadyTaken`, and nothing changes, the user count included.
pub proof fn lemma_username_unique(
    s: RegistryView,
    first: AccountId,
    username: Seq<char>,
    password_hash: Seq<char>,
    social_id_hash: Seq<char>,
    social_provider: Seq<char>,
    now: u64,
    second: AccountId,
    other_username: Seq<char>,
    other_password_hash: Seq<char>,
    other_social_id_hash: Seq<char>,
    other_social_provider: Seq<char>,
    later: u64,
)
    requires
        register_spec(s, first, username, password_hash, social_id_hash, social_provider, now).1
            is Ok,
        second != first,
        !s.identities.contains_key(second),
        lower_of(other_username) == lower_of(username),
        username_check(other_username) is Ok,
        password_hash_check(other_password_hash) is Ok,
        social_id_hash_check(other_social_id_hash) is Ok,
    ensures
        ({
            let s1 = register_spec(
                s,
                first,
                username,
                password_hash,
                social_id_hash,
                social_provider,
                now,
            ).0;
            let (s2, r) = register_spec(
                s1,
                second,
                other_username,
                other_password_hash,
                other_social_id_hash,
                other_social_provider,
                later,
            );
            r == Err::<(), Error>(Error::UsernameAlreadyTaken) && s2 == s1 && s2.total_users
                == s1.total_users
        }),
{
}

/// A wrong credential against an unlocked identity counts one more failed
/// attempt, fails `InvalidCredentials`, and locks the identity exactly when the
/// count reaches the limit.
pub proof fn lemma_failed_attempt(
    s: RegistryView,
    account: AccountId,
    username: Seq<char>,
    password_hash: Seq<char>,
    now: u64,
)
    requires
        registry_inv(s),
        account_by_username(s, username) == Some(account),
        !s.identities[account].is_locked,
        s.identities[account].password_hash != password_hash,
        s.identities[account].failed_attempts < u32::MAX,
    ensures
        ({
            let (s2, r) = authenticate_spec(s, username, password_hash, now);
            let count = s.identities[account].failed_attempts + 1;
            &&& r == Err::<AccountId, Error>(Error::InvalidCredentials)
            &&& s2.identities[account].failed_attempts == count
            &&& s2.identities[account].is_locked == (count >= s.max_failed_attempts)
        }),
{
}

/// While its lock has not run out, a locked identity refuses every attempt with
/// `AccountLocked`, whatever the credential, and no record changes.
pub proof fn lemma_locked_rejects(
    s: RegistryView,
    account: AccountId,
    username: Seq<char>,
    password_hash: Seq<char>,
    now: u64,
)
    requires
        registry_inv(s),
        account_by_username(s, username) == Some(account),
        s.identities[account].is_locked,
        now < unlock_at(s, s.identities[account]),
    ensures
        ({
            let (s2, r) = authenticate_spec(s, username, password_hash, now);
            r == Err::<AccountId, Error>(Error::AccountLocked) && s2.identities == s.identities
        }),
{
}

/// A locked identity is refused before its unlock time; from that time on the
/// correct credential logs in, unlocks it and clears its failed attempts.
pub proof fn lemma_lazy_unlock(
    s: RegistryView,
    account: AccountId,
    username: Seq<char>,
    now: u64,
)
    requires
        registry_inv(s),
        account_by_username(s, username) == Some(account),
        s.identities[account].is_locked,
    ensures
        ({
            let (s2, r) = authenticate_spec(
                s,
                username,
                s.identities[account].password_hash,
                now,
            );
            &&& now < unlock_at(s, s.identities[account]) ==> r == Err::<AccountId, Error>(
                Error::AccountLocked,
            )
            &&& now >= unlock_at(s, s.identities[account]) ==> {
                &&& r == Ok::<AccountId, Error>(account)
                &&& s2.identities[account].failed_attempts == 0
                &&& !s2.identities[account].is_locked
            }
        }),
{
}

/// A session created at `now` for `duration` is valid up to and including its
/// expiry time, and expired after it.
pub proof fn lemma_session_expiry(
    s: RegistryView,
    account: AccountId,
    session_id: Seq<char>,
    duration: u64,
    now: u64,
    t: u64,
)
    ensures
        verify_session_spec(create_session_spec(s, account, session_id, duration, now), session_id, t)
            == if t > now.saturating_add(duration) {
            Err::<AccountId, Error>(Error::SessionExpired)
        } else {
            Ok(account)
        },
{
}

/// Once a session is revoked, revoking it again fails `SessionAlreadyRevoked`
/// and changes nothing, and validating it fails `SessionAlreadyRevoked` at any
/// time, never `SessionExpired`.
pub proof fn lemma_revocation_one_way(
    s: RegistryView,
    session_id: Seq<char>,
    now: u64,
    later: u64,
    t: u64,
)
    requires
        revoke_session_spec(s, session_id, now).1 is Ok,
    ensures
        ({
            let s2 = revoke_session_spec(s, session_id, now).0;
            &&& revoke_session_spec(s2, session_id, later) == (
                s2,
                Err::<(), Error>(Error::SessionAlreadyRevoked),
            )
            &&& verify_session_spec(s2, session_id, t) == Err::<AccountId, Error>(
                Error::SessionAlreadyRevoked,
            )
        }),
{
}

/// Every operation reserved to the administrator, called by anyone else, fails
/// `Unauthorized` and leaves the state as it was.
pub proof fn lemma_admin_gate(
    s: RegistryView,
    caller: AccountId,
    account: AccountId,
    new_admin: AccountId,
    new_max: u32,
    new_duration: u64,
    now: u64,
)
    requires
        caller != s.admin,
    ensures
        verify_identity_spec(s, caller, account, now) == (s, Err::<(), Error>(Error::Unauthorized)),
        unlock_account_spec(s, caller, account, now) == (s, Err::<(), Error>(Error::Unauthorized)),
        transfer_admin_spec(s, caller, new_admin) == (s, Err::<(), Error>(Error::Unauthorized)),
        update_max_failed_attempts_spec(s, caller, new_max) == (s, Err::<(), Error>(
            Error::Unauthorized,
        )),
        update_lockout_duration_spec(s, caller, new_duration) == (s, Err::<(), Error>(
            Error::Unauthorized,
        )),
{
}

} // verus!

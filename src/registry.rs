//! The registry: identities, their uniqueness indexes, the login lockout state
//! machine, sessions and the administrator's gate.
use vstd::prelude::*;

use crate::account::AccountId;
use crate::error::Error;
use crate::events::{
    AccountLocked, AccountUnlocked, Event, EventView, IdentityRegistered, IdentityVerified,
    LoginFailed, LoginSuccessful, PasswordChanged, SessionCreated, SessionRevoked,
};
use crate::records::{IdentityInfo, IdentityView, SessionInfo, SessionView};
use crate::table::Table;
use crate::validate::{
    password_hash_check, social_id_hash_check, username_check, validate_password_hash,
    validate_social_id_hash, validate_username,
};

verus! {

/// Failed attempts after which an account locks, unless configured otherwise.
pub const DEFAULT_MAX_FAILED_ATTEMPTS: u32 = 5;

/// Time units that a lock lasts, unless configured otherwise.
pub const DEFAULT_LOCKOUT_DURATION: u64 = 900;

/// The lowercase form of `s`, as Unicode maps each character.
pub uninterp spec fn lower_of(s: Seq<char>) -> Seq<char>;

/// Relies on `str::to_lowercase`: the lowercase mapping of `s`, which depends on
/// its characters alone.
#[verifier::external_body]
fn lowercase(s: &str) -> (r: String)
    ensures
        r@ == lower_of(s@),
{
    s.to_lowercase()
}

/// The registry's whole state, as mathematical values.
pub struct RegistryView {
    /// Identity records by owning account.
    pub identities: Map<AccountId, IdentityView>,
    /// Owning account by lowercased username.
    pub usernames: Map<Seq<char>, AccountId>,
    /// Owning account by social identity hash.
    pub socials: Map<Seq<char>, AccountId>,
    /// Sessions by token.
    pub sessions: Map<Seq<char>, SessionView>,
    pub admin: AccountId,
    pub total_users: u64,
    pub active_sessions: u64,
    pub max_failed_attempts: u32,
    pub lockout_duration: u64,
    /// Observations not yet taken by the host, oldest first.
    pub events: Seq<EventView>,
}

/// The indexes agree with the identity records: each record is stored under its
/// owner, its lowercased username and its social hash point back to it, and no
/// index entry points to a missing record.
pub open spec fn registry_inv(s: RegistryView) -> bool {
    &&& forall|a: AccountId| #[trigger]
        s.identities.contains_key(a) ==> {
            &&& s.identities[a].wallet_address == a
            &&& s.usernames.contains_key(lower_of(s.identities[a].username))
            &&& s.usernames[lower_of(s.identities[a].username)] == a
            &&& s.socials.contains_key(s.identities[a].social_id_hash)
            &&& s.socials[s.identities[a].social_id_hash] == a
        }
    &&& forall|k: Seq<char>| #[trigger]
        s.usernames.contains_key(k) ==> s.identities.contains_key(s.usernames[k])
    &&& forall|k: Seq<char>| #[trigger]
        s.socials.contains_key(k) ==> s.identities.contains_key(s.socials[k])
}

/// A state whose only change is that `e` was observed.
pub open spec fn with_event(s: RegistryView, e: EventView) -> RegistryView {
    RegistryView { events: s.events.push(e), ..s }
}

/// The account, if any, that owns `username`, compared case-insensitively.
pub open spec fn account_by_username(s: RegistryView, username: Seq<char>) -> Option<AccountId> {
    if s.usernames.contains_key(lower_of(username)) {
        Some(s.usernames[lower_of(username)])
    } else {
        None
    }
}

/// The record that a successful registration creates.
pub open spec fn new_identity(
    caller: AccountId,
    username: Seq<char>,
    password_hash: Seq<char>,
    social_id_hash: Seq<char>,
    social_provider: Seq<char>,
    now: u64,
) -> IdentityView {
    IdentityView {
        username,
        password_hash,
        social_id_hash,
        social_provider,
        wallet_address: caller,
        is_verified: false,
        created_at: now,
        last_login: 0,
        failed_attempts: 0,
        is_locked: false,
    }
}

/// Registration: the inputs are checked in turn, then the account, the lowercased
/// username and the social hash must all be free; on success the record and both
/// index entries are added together.
pub open spec fn register_spec(
    s: RegistryView,
    caller: AccountId,
    username: Seq<char>,
    password_hash: Seq<char>,
    social_id_hash: Seq<char>,
    social_provider: Seq<char>,
    now: u64,
) -> (RegistryView, Result<(), Error>) {
    if username_check(username) is Err {
        (s, username_check(username))
    } else if password_hash_check(password_hash) is Err {
        (s, password_hash_check(password_hash))
    } else if social_id_hash_check(social_id_hash) is Err {
        (s, social_id_hash_check(social_id_hash))
    } else if s.identities.contains_key(caller) {
        (s, Err(Error::IdentityAlreadyExists))
    } else if s.usernames.contains_key(lower_of(username)) {
        (s, Err(Error::UsernameAlreadyTaken))
    } else if s.socials.contains_key(social_id_hash) {
        (s, Err(Error::SocialIdAlreadyBound))
    } else {
        (
            RegistryView {
                identities: s.identities.insert(
                    caller,
                    new_identity(
                        caller,
                        username,
                        password_hash,
                        social_id_hash,
                        social_provider,
                        now,
                    ),
                ),
                usernames: s.usernames.insert(lower_of(username), caller),
                socials: s.socials.insert(social_id_hash, caller),
                total_users: s.total_users.saturating_add(1),
                events: s.events.push(
                    EventView::IdentityRegistered {
                        account: caller,
                        username,
                        social_provider,
                        timestamp: now,
                    },
                ),
                ..s
            },
            Ok(()),
        )
    }
}

/// The time from which a locked identity may try again.
pub open spec fn unlock_at(s: RegistryView, id: IdentityView) -> u64 {
    id.last_login.saturating_add(s.lockout_duration)
}

/// Whether `id` is locked and its lock has not run out at `now`.
pub open spec fn locked_at(s: RegistryView, id: IdentityView, now: u64) -> bool {
    id.is_locked && now < unlock_at(s, id)
}

/// The record after a failed attempt at `now`: the lock, if it has run out, is
/// lifted first, then the attempt is counted and the record locks when the count
/// reaches the limit.
pub open spec fn after_failure(s: RegistryView, id: IdentityView, now: u64) -> IdentityView {
    let before: u32 = if id.is_locked {
        0
    } else {
        id.failed_attempts
    };
    let failed = before.saturating_add(1);
    IdentityView {
        failed_attempts: failed,
        last_login: now,
        is_locked: failed >= s.max_failed_attempts,
        ..id
    }
}

/// The record after a successful login at `now`.
pub open spec fn after_success(id: IdentityView, now: u64) -> IdentityView {
    IdentityView { failed_attempts: 0, last_login: now, is_locked: false, ..id }
}

/// A login attempt, evaluated against the record that `username` resolves to.
pub open spec fn authenticate_spec(
    s: RegistryView,
    username: Seq<char>,
    password_hash: Seq<char>,
    now: u64,
) -> (RegistryView, Result<AccountId, Error>) {
    authenticate_key_spec(s, lower_of(username), username, password_hash, now)
}

/// A login attempt, evaluated against the record that the index holds under
/// `key`; `username` is what the observations report.
pub open spec fn authenticate_key_spec(
    s: RegistryView,
    key: Seq<char>,
    username: Seq<char>,
    password_hash: Seq<char>,
    now: u64,
) -> (RegistryView, Result<AccountId, Error>) {
    if !s.usernames.contains_key(key) {
        (s, Err(Error::IdentityNotFound))
    } else {
        let account = s.usernames[key];
        if !s.identities.contains_key(account) {
            (s, Err(Error::IdentityNotFound))
        } else {
            let id = s.identities[account];
            if locked_at(s, id, now) {
                (
                    with_event(
                        s,
                        EventView::LoginFailed {
                            username,
                            reason: "Account locked"@,
                            timestamp: now,
                        },
                    ),
                    Err(Error::AccountLocked),
                )
            } else if id.password_hash != password_hash {
                let rec = after_failure(s, id, now);
                let locked_events = if rec.is_locked {
                    s.events.push(
                        EventView::AccountLocked {
                            account,
                            username,
                            reason: "Too many failed login attempts"@,
                            timestamp: now,
                        },
                    )
                } else {
                    s.events
                };
                (
                    RegistryView {
                        identities: s.identities.insert(account, rec),
                        events: locked_events.push(
                            EventView::LoginFailed {
                                username,
                                reason: "Invalid password"@,
                                timestamp: now,
                            },
                        ),
                        ..s
                    },
                    Err(Error::InvalidCredentials),
                )
            } else {
                (
                    RegistryView {
                        identities: s.identities.insert(account, after_success(id, now)),
                        events: s.events.push(
                            EventView::LoginSuccessful { account, username, timestamp: now },
                        ),
                        ..s
                    },
                    Ok(account),
                )
            }
        }
    }
}

/// The read-only credential check: no counter changes.
pub open spec fn verify_password_spec(
    s: RegistryView,
    account: AccountId,
    password_hash: Seq<char>,
) -> Result<bool, Error> {
    if !s.identities.contains_key(account) {
        Err(Error::IdentityNotFound)
    } else if s.identities[account].is_locked {
        Err(Error::AccountLocked)
    } else {
        Ok(s.identities[account].password_hash == password_hash)
    }
}

/// The session that `create_session` stores.
pub open spec fn new_session(
    account: AccountId,
    session_id: Seq<char>,
    duration: u64,
    now: u64,
) -> SessionView {
    SessionView {
        account,
        session_id,
        created_at: now,
        expires_at: now.saturating_add(duration),
        is_active: true,
    }
}

/// Session creation: the session is stored under its token, active, expiring
/// `duration` after `now`.
pub open spec fn create_session_spec(
    s: RegistryView,
    account: AccountId,
    session_id: Seq<char>,
    duration: u64,
    now: u64,
) -> RegistryView {
    RegistryView {
        sessions: s.sessions.insert(session_id, new_session(account, session_id, duration, now)),
        active_sessions: s.active_sessions.saturating_add(1),
        events: s.events.push(
            EventView::SessionCreated {
                account,
                session_id,
                expires_at: now.saturating_add(duration),
            },
        ),
        ..s
    }
}

/// Session validation at `now`: a session is valid up to and including its
/// expiry time.
pub open spec fn verify_session_spec(
    s: RegistryView,
    session_id: Seq<char>,
    now: u64,
) -> Result<AccountId, Error> {
    if !s.sessions.contains_key(session_id) {
        Err(Error::SessionNotFound)
    } else if !s.sessions[session_id].is_active {
        Err(Error::SessionAlreadyRevoked)
    } else if now > s.sessions[session_id].expires_at {
        Err(Error::SessionExpired)
    } else {
        Ok(s.sessions[session_id].account)
    }
}

/// Revocation: an active session becomes inactive; anything else fails.
pub open spec fn revoke_session_spec(s: RegistryView, session_id: Seq<char>, now: u64) -> (
    RegistryView,
    Result<(), Error>,
) {
    if !s.sessions.contains_key(session_id) {
        (s, Err(Error::SessionNotFound))
    } else if !s.sessions[session_id].is_active {
        (s, Err(Error::SessionAlreadyRevoked))
    } else {
        (
            RegistryView {
                sessions: s.sessions.insert(
                    session_id,
                    SessionView { is_active: false, ..s.sessions[session_id] },
                ),
                active_sessions: s.active_sessions.saturating_sub(1),
                events: s.events.push(EventView::SessionRevoked { session_id, timestamp: now }),
                ..s
            },
            Ok(()),
        )
    }
}

/// A credential change by the owner, who must present the current hash.
pub open spec fn change_password_spec(
    s: RegistryView,
    caller: AccountId,
    old_password_hash: Seq<char>,
    new_password_hash: Seq<char>,
    now: u64,
) -> (RegistryView, Result<(), Error>) {
    if !s.identities.contains_key(caller) {
        (s, Err(Error::IdentityNotFound))
    } else if s.identities[caller].password_hash != old_password_hash {
        (s, Err(Error::InvalidCredentials))
    } else if password_hash_check(new_password_hash) is Err {
        (s, password_hash_check(new_password_hash))
    } else {
        (
            RegistryView {
                identities: s.identities.insert(
                    caller,
                    IdentityView { password_hash: new_password_hash, ..s.identities[caller] },
                ),
                events: s.events.push(EventView::PasswordChanged { account: caller, timestamp: now }),
                ..s
            },
            Ok(()),
        )
    }
}

/// The administrator's manual unlock: the same reset as a lock running out.
pub open spec fn unlock_account_spec(
    s: RegistryView,
    caller: AccountId,
    account: AccountId,
    now: u64,
) -> (RegistryView, Result<(), Error>) {
    if caller != s.admin {
        (s, Err(Error::Unauthorized))
    } else if !s.identities.contains_key(account) {
        (s, Err(Error::IdentityNotFound))
    } else {
        (
            RegistryView {
                identities: s.identities.insert(
                    account,
                    IdentityView { is_locked: false, failed_attempts: 0, ..s.identities[account] },
                ),
                events: s.events.push(EventView::AccountUnlocked { account, timestamp: now }),
                ..s
            },
            Ok(()),
        )
    }
}

/// The administrator marks an identity as verified.
pub open spec fn verify_identity_spec(
    s: RegistryView,
    caller: AccountId,
    account: AccountId,
    now: u64,
) -> (RegistryView, Result<(), Error>) {
    if caller != s.admin {
        (s, Err(Error::Unauthorized))
    } else if !s.identities.contains_key(account) {
        (s, Err(Error::IdentityNotFound))
    } else {
        (
            RegistryView {
                identities: s.identities.insert(
                    account,
                    IdentityView { is_verified: true, ..s.identities[account] },
                ),
                events: s.events.push(
                    EventView::IdentityVerified { account, verified_by: caller, timestamp: now },
                ),
                ..s
            },
            Ok(()),
        )
    }
}

/// The administrator hands the role to `new_admin`, whoever that is.
pub open spec fn transfer_admin_spec(s: RegistryView, caller: AccountId, new_admin: AccountId) -> (
    RegistryView,
    Result<(), Error>,
) {
    if caller != s.admin {
        (s, Err(Error::Unauthorized))
    } else {
        (RegistryView { admin: new_admin, ..s }, Ok(()))
    }
}

/// The administrator sets the failed-attempt limit.
pub open spec fn update_max_failed_attempts_spec(s: RegistryView, caller: AccountId, new_max: u32) -> (
    RegistryView,
    Result<(), Error>,
) {
    if caller != s.admin {
        (s, Err(Error::Unauthorized))
    } else {
        (RegistryView { max_failed_attempts: new_max, ..s }, Ok(()))
    }
}

/// The administrator sets how long a lock lasts.
pub open spec fn update_lockout_duration_spec(
    s: RegistryView,
    caller: AccountId,
    new_duration: u64,
) -> (RegistryView, Result<(), Error>) {
    if caller != s.admin {
        (s, Err(Error::Unauthorized))
    } else {
        (RegistryView { lockout_duration: new_duration, ..s }, Ok(()))
    }
}

proof fn lemma_inv_frame(a: RegistryView, b: RegistryView)
    requires
        registry_inv(a),
        a.identities == b.identities,
        a.usernames == b.usernames,
        a.socials == b.socials,
    ensures
        registry_inv(b),
{
}

fn push_event(events: &mut Vec<Event>, e: Event)
    ensures
        final(events)@.map_values(|x: Event| x@) == old(events)@.map_values(|x: Event| x@).push(
            e@,
        ),
{
    let ghost ev = e@;
    events.push(e);
    assert(final(events)@.map_values(|x: Event| x@) =~= old(events)@.map_values(|x: Event| x@).push(ev));
}

/// The identity registry and authentication service.
pub struct Authentify {
    identities: Table<AccountId, IdentityInfo>,
    username_to_account: Table<String, AccountId>,
    social_to_account: Table<String, AccountId>,
    sessions: Table<String, SessionInfo>,
    admin: AccountId,
    total_users: u64,
    active_sessions: u64,
    max_failed_attempts: u32,
    lockout_duration: u64,
    events: Vec<Event>,
}

impl View for Authentify {
    type V = RegistryView;

    closed spec fn view(&self) -> RegistryView {
        RegistryView {
            identities: self.identities@,
            usernames: self.username_to_account@,
            socials: self.social_to_account@,
            sessions: self.sessions@,
            admin: self.admin,
            total_users: self.total_users,
            active_sessions: self.active_sessions,
            max_failed_attempts: self.max_failed_attempts,
            lockout_duration: self.lockout_duration,
            events: self.events@.map_values(|e: Event| e@),
        }
    }
}

impl Authentify {
    /// The tables are well formed and the indexes agree with the records.
    pub closed spec fn wf(&self) -> bool {
        &&& self.identities.wf()
        &&& self.username_to_account.wf()
        &&& self.social_to_account.wf()
        &&& self.sessions.wf()
        &&& registry_inv(self@)
    }

    /// An empty registry administered by `admin`, with the default policy.
    pub fn new(admin: AccountId) -> (r: Authentify)
        ensures
            r.wf(),
            r@.identities.is_empty(),
            r@.usernames.is_empty(),
            r@.socials.is_empty(),
            r@.sessions.is_empty(),
            r@.admin == admin,
            r@.total_users == 0,
            r@.active_sessions == 0,
            r@.max_failed_attempts == DEFAULT_MAX_FAILED_ATTEMPTS,
            r@.lockout_duration == DEFAULT_LOCKOUT_DURATION,
            r@.events.len() == 0,
    {
        Self::new_with_config(admin, DEFAULT_MAX_FAILED_ATTEMPTS, DEFAULT_LOCKOUT_DURATION)
    }

    /// An empty registry administered by `admin`, with the given policy.
    pub fn new_with_config(admin: AccountId, max_failed_attempts: u32, lockout_duration: u64) -> (r:
        Authentify)
        ensures
            r.wf(),
            r@.identities.is_empty(),
            r@.usernames.is_empty(),
            r@.socials.is_empty(),
            r@.sessions.is_empty(),
            r@.admin == admin,
            r@.total_users == 0,
            r@.active_sessions == 0,
            r@.max_failed_attempts == max_failed_attempts,
            r@.lockout_duration == lockout_duration,
            r@.events.len() == 0,
    {
        let r = Authentify {
            identities: Table::new(),
            username_to_account: Table::new(),
            social_to_account: Table::new(),
            sessions: Table::new(),
            admin,
            total_users: 0,
            active_sessions: 0,
            max_failed_attempts,
            lockout_duration,
            events: Vec::new(),
        };
        assert(r@.events =~= Seq::<EventView>::empty());
        r
    }

    /// Evaluates a login attempt at `now`. A lock that has run out is lifted
    /// first; a wrong credential is counted, and locks the account at the limit,
    /// even though the call fails.
    pub fn authenticate(&mut self, username: String, password_hash: String, now: u64) -> (r: Result<
        AccountId,
        Error,
    >)
        requires
            old(self).wf(),
        ensures
            final(self).wf(),
            (final(self)@, r) == authenticate_spec(old(self)@, username@, password_hash@, now),
    {
        let username_lower = lowercase(username.as_str());
        self.authenticate_normalized(username_lower, username, password_hash, now)
    }

    /// The login attempt of `authenticate`, given the lowercase form of the
    /// username under which the index is searched.
    pub fn authenticate_normalized(
        &mut self,
        username_lower: String,
        username: String,
        password_hash: String,
        now: u64,
    ) -> (r: Result<AccountId, Error>)
        requires
            old(self).wf(),
        ensures
            final(self).wf(),
            (final(self)@, r) == authenticate_key_spec(
                old(self)@,
                username_lower@,
                username@,
                password_hash@,
                now,
            ),
    {
        let account = match self.username_to_account.get(&username_lower) {
            Some(a) => *a,
            None => {
                return Err(Error::IdentityNotFound);
            },
        };
        let mut identity = match self.identities.get(&account) {
            Some(i) => i.snapshot(),
            None => {
                return Err(Error::IdentityNotFound);
            },
        };
        if identity.is_locked {
            if now < identity.last_login.saturating_add(self.lockout_duration) {
                push_event(
                    &mut self.events,
                    Event::LoginFailed(
                        LoginFailed {
                            username,
                            reason: "Account locked".to_owned(),
                            timestamp: now,
                        },
                    ),
                );
                return Err(Error::AccountLocked);
            } else {
                identity.is_locked = false;
                identity.failed_attempts = 0;
            }
        }
        if !<String as PartialEq>::eq(&identity.password_hash, &password_hash) {
            identity.failed_attempts = identity.failed_attempts.saturating_add(1);
            identity.last_login = now;
            if identity.failed_attempts >= self.max_failed_attempts {
                identity.is_locked = true;
                push_event(
                    &mut self.events,
                    Event::AccountLocked(
                        AccountLocked {
                            account,
                            username: username.clone(),
                            reason: "Too many failed login attempts".to_owned(),
                            timestamp: now,
                        },
                    ),
                );
            }
            self.identities.insert(account, identity);
            push_event(
                &mut self.events,
                Event::LoginFailed(
                    LoginFailed {
                        username,
                        reason: "Invalid password".to_owned(),
                        timestamp: now,
                    },
                ),
            );
            return Err(Error::InvalidCredentials);
        }
        identity.failed_attempts = 0;
        identity.last_login = now;
        self.identities.insert(account, identity);
        push_event(
            &mut self.events,
            Event::LoginSuccessful(LoginSuccessful { account, username, timestamp: now }),
        );
        Ok(account)
    }

    /// Whether `password_hash` is the stored credential of `account`, without
    /// counting the attempt.
    pub fn verify_password(&self, account: AccountId, password_hash: String) -> (r: Result<
        bool,
        Error,
    >)
        requires
            self.wf(),
        ensures
            r == verify_password_spec(self@, account, password_hash@),
    {
        let identity = match self.identities.get(&account) {
            Some(i) => i,
            None => {
                return Err(Error::IdentityNotFound);
            },
        };
        if identity.is_locked {
            return Err(Error::AccountLocked);
        }
        Ok(<String as PartialEq>::eq(&identity.password_hash, &password_hash))
    }

    /// Stores an active session for `account` under `session_id`, valid from
    /// `now` for `duration_ms` time units.
    pub fn create_session(
        &mut self,
        account: AccountId,
        session_id: String,
        duration_ms: u64,
        now: u64,
    ) -> (r: Result<(), Error>)
        requires
            old(self).wf(),
        ensures
            final(self).wf(),
            final(self)@ == create_session_spec(old(self)@, account, session_id@, duration_ms, now),
            r is Ok,
    {
        let ghost pre = self@;
        let expires_at = now.saturating_add(duration_ms);
        let session = SessionInfo {
            account,
            session_id: session_id.clone(),
            created_at: now,
            expires_at,
            is_active: true,
        };
        self.sessions.insert(session_id.clone(), session);
        self.active_sessions = self.active_sessions.saturating_add(1);
        push_event(
            &mut self.events,
            Event::SessionCreated(SessionCreated { account, session_id, expires_at }),
        );
        proof {
            lemma_inv_frame(pre, self@);
        }
        Ok(())
    }

    /// The account of the session `session_id` if it is active and not expired
    /// at `now`.
    pub fn verify_session(&self, session_id: String, now: u64) -> (r: Result<AccountId, Error>)
        requires
            self.wf(),
        ensures
            r == verify_session_spec(self@, session_id@, now),
    {
        let session = match self.sessions.get(&session_id) {
            Some(s) => s,
            None => {
                return Err(Error::SessionNotFound);
            },
        };
        if !session.is_active {
            return Err(Error::SessionAlreadyRevoked);
        }
        if now > session.expires_at {
            return Err(Error::SessionExpired);
        }
        Ok(session.account)
    }

    /// Revokes the active session `session_id` at `now`.
    pub fn revoke_session(&mut self, session_id: String, now: u64) -> (r: Result<(), Error>)
        requires
            old(self).wf(),
        ensures
            final(self).wf(),
            (final(self)@, r) == revoke_session_spec(old(self)@, session_id@, now),
    {
        let mut session = match self.sessions.get(&session_id) {
            Some(s) => s.snapshot(),
            None => {
                return Err(Error::SessionNotFound);
            },
        };
        if !session.is_active {
            return Err(Error::SessionAlreadyRevoked);
        }
        let ghost pre = self@;
        session.is_active = false;
        self.sessions.insert(session_id.clone(), session);
        self.active_sessions = self.active_sessions.saturating_sub(1);
        push_event(
            &mut self.events,
            Event::SessionRevoked(SessionRevoked { session_id, timestamp: now }),
        );
        proof {
            lemma_inv_frame(pre, self@);
        }
        Ok(())
    }

    /// Replaces the credential hash of `caller`'s identity, given the current one.
    pub fn change_password(
        &mut self,
        caller: AccountId,
        old_password_hash: String,
        new_password_hash: String,
        now: u64,
    ) -> (r: Result<(), Error>)
        requires
            old(self).wf(),
        ensures
            final(self).wf(),
            (final(self)@, r) == change_password_spec(
                old(self)@,
                caller,
                old_password_hash@,
                new_password_hash@,
                now,
            ),
    {
        let mut identity = match self.identities.get(&caller) {
            Some(i) => i.snapshot(),
            None => {
                return Err(Error::IdentityNotFound);
            },
        };
        if !<String as PartialEq>::eq(&identity.password_hash, &old_password_hash) {
            return Err(Error::InvalidCredentials);
        }
        validate_password_hash(new_password_hash.as_str())?;
        identity.password_hash = new_password_hash;
        self.identities.insert(caller, identity);
        push_event(
            &mut self.events,
            Event::PasswordChanged(PasswordChanged { account: caller, timestamp: now }),
        );
        Ok(())
    }

    /// Lifts the lock on `account` and clears its failed attempts; the
    /// administrator only.
    pub fn unlock_account(&mut self, caller: AccountId, account: AccountId, now: u64) -> (r: Result<
        (),
        Error,
    >)
        requires
            old(self).wf(),
        ensures
            final(self).wf(),
            (final(self)@, r) == unlock_account_spec(old(self)@, caller, account, now),
    {
        if caller != self.admin {
            return Err(Error::Unauthorized);
        }
        let mut identity = match self.identities.get(&account) {
            Some(i) => i.snapshot(),
            None => {
                return Err(Error::IdentityNotFound);
            },
        };
        identity.is_locked = false;
        identity.failed_attempts = 0;
        self.identities.insert(account, identity);
        push_event(
            &mut self.events,
            Event::AccountUnlocked(AccountUnlocked { account, timestamp: now }),
        );
        Ok(())
    }

    /// Marks the identity of `account` as verified; the administrator only.
    pub fn verify_identity(&mut self, caller: AccountId, account: AccountId, now: u64) -> (r: Result<
        (),
        Error,
    >)
        requires
            old(self).wf(),
        ensures
            final(self).wf(),
            (final(self)@, r) == verify_identity_spec(old(self)@, caller, account, now),
    {
        if caller != self.admin {
            return Err(Error::Unauthorized);
        }
        let mut identity = match self.identities.get(&account) {
            Some(i) => i.snapshot(),
            None => {
                return Err(Error::IdentityNotFound);
            },
        };
        identity.is_verified = true;
        self.identities.insert(account, identity);
        push_event(
            &mut self.events,
            Event::IdentityVerified(
                IdentityVerified { account, verified_by: caller, timestamp: now },
            ),
        );
        Ok(())
    }

    /// Registers an identity for `caller` at time `now`.
    pub fn register_identity(
        &mut self,
        caller: AccountId,
        username: String,
        password_hash: String,
        social_id_hash: String,
        social_provider: String,
        now: u64,
    ) -> (r: Result<(), Error>)
        requires
            old(self).wf(),
        ensures
            final(self).wf(),
            (final(self)@, r) == register_spec(
                old(self)@,
                caller,
                username@,
                password_hash@,
                social_id_hash@,
                social_provider@,
                now,
            ),
    {
        validate_username(username.as_str())?;
        validate_password_hash(password_hash.as_str())?;
        validate_social_id_hash(social_id_hash.as_str())?;
        let username_lower = lowercase(username.as_str());
        if self.identities.contains_key(&caller) {
            return Err(Error::IdentityAlreadyExists);
        }
        if self.username_to_account.contains_key(&username_lower) {
            return Err(Error::UsernameAlreadyTaken);
        }
        if self.social_to_account.contains_key(&social_id_hash) {
            return Err(Error::SocialIdAlreadyBound);
        }
        let identity = IdentityInfo {
            username: username.clone(),
            password_hash,
            social_id_hash: social_id_hash.clone(),
            social_provider: social_provider.clone(),
            wallet_address: caller,
            is_verified: false,
            created_at: now,
            last_login: 0,
            failed_attempts: 0,
            is_locked: false,
        };
        self.identities.insert(caller, identity);
        self.username_to_account.insert(username_lower, caller);
        self.social_to_account.insert(social_id_hash, caller);
        self.total_users = self.total_users.saturating_add(1);
        push_event(
            &mut self.events,
            Event::IdentityRegistered(
                IdentityRegistered { account: caller, username, social_provider, timestamp: now },
            ),
        );
        Ok(())
    }

    /// Hands the administrator role to `new_admin`; the administrator only.
    pub fn transfer_admin(&mut self, caller: AccountId, new_admin: AccountId) -> (r: Result<
        (),
        Error,
    >)
        requires
            old(self).wf(),
        ensures
            final(self).wf(),
            (final(self)@, r) == transfer_admin_spec(old(self)@, caller, new_admin),
    {
        if caller != self.admin {
            return Err(Error::Unauthorized);
        }
        let ghost pre = self@;
        self.admin = new_admin;
        proof {
            lemma_inv_frame(pre, self@);
        }
        Ok(())
    }

    /// Sets the failed-attempt limit; the administrator only.
    pub fn update_max_failed_attempts(&mut self, caller: AccountId, new_max: u32) -> (r: Result<
        (),
        Error,
    >)
        requires
            old(self).wf(),
        ensures
            final(self).wf(),
            (final(self)@, r) == update_max_failed_attempts_spec(old(self)@, caller, new_max),
    {
        if caller != self.admin {
            return Err(Error::Unauthorized);
        }
        let ghost pre = self@;
        self.max_failed_attempts = new_max;
        proof {
            lemma_inv_frame(pre, self@);
        }
        Ok(())
    }

    /// Sets how long a lock lasts; the administrator only.
    pub fn update_lockout_duration(&mut self, caller: AccountId, new_duration: u64) -> (r: Result<
        (),
        Error,
    >)
        requires
            old(self).wf(),
        ensures
            final(self).wf(),
            (final(self)@, r) == update_lockout_duration_spec(old(self)@, caller, new_duration),
    {
        if caller != self.admin {
            return Err(Error::Unauthorized);
        }
        let ghost pre = self@;
        self.lockout_duration = new_duration;
        proof {
            lemma_inv_frame(pre, self@);
        }
        Ok(())
    }

    /// The identity record of `account`, if it has one.
    pub fn get_identity(&self, account: AccountId) -> (r: Option<IdentityInfo>)
        requires
            self.wf(),
        ensures
            match r {
                Some(i) => self@.identities.contains_key(account) && i@ == self@.identities[account],
                None => !self@.identities.contains_key(account),
            },
    {
        match self.identities.get(&account) {
            Some(i) => Some(i.snapshot()),
            None => None,
        }
    }

    /// The account that owns `username`, compared case-insensitively.
    pub fn get_account_by_username(&self, username: String) -> (r: Option<AccountId>)
        requires
            self.wf(),
        ensures
            r == account_by_username(self@, username@),
    {
        let username_lower = lowercase(username.as_str());
        match self.username_to_account.get(&username_lower) {
            Some(a) => Some(*a),
            None => None,
        }
    }

    /// The account bound to the social identity hash, if any.
    pub fn get_account_by_social(&self, social_id_hash: String) -> (r: Option<AccountId>)
        requires
            self.wf(),
        ensures
            r == (if self@.socials.contains_key(social_id_hash@) {
                Some(self@.socials[social_id_hash@])
            } else {
                None
            }),
    {
        match self.social_to_account.get(&social_id_hash) {
            Some(a) => Some(*a),
            None => None,
        }
    }

    /// Whether no account owns `username`, compared case-insensitively.
    pub fn is_username_available(&self, username: String) -> (r: bool)
        requires
            self.wf(),
        ensures
            r == !self@.usernames.contains_key(lower_of(username@)),
    {
        let username_lower = lowercase(username.as_str());
        !self.username_to_account.contains_key(&username_lower)
    }

    /// Whether no account is bound to the social identity hash.
    pub fn is_social_id_available(&self, social_id_hash: String) -> (r: bool)
        requires
            self.wf(),
        ensures
            r == !self@.socials.contains_key(social_id_hash@),
    {
        !self.social_to_account.contains_key(&social_id_hash)
    }

    /// Whether `account` has an identity.
    pub fn has_identity(&self, account: AccountId) -> (r: bool)
        requires
            self.wf(),
        ensures
            r == self@.identities.contains_key(account),
    {
        self.identities.contains_key(&account)
    }

    /// How many identities have been registered.
    pub fn get_total_users(&self) -> (r: u64)
        ensures
            r == self@.total_users,
    {
        self.total_users
    }

    /// How many sessions have been created and not revoked.
    pub fn get_active_sessions(&self) -> (r: u64)
        ensures
            r == self@.active_sessions,
    {
        self.active_sessions
    }

    /// The administrator.
    pub fn get_admin(&self) -> (r: AccountId)
        ensures
            r == self@.admin,
    {
        self.admin
    }

    /// The failed-attempt limit.
    pub fn get_max_failed_attempts(&self) -> (r: u32)
        ensures
            r == self@.max_failed_attempts,
    {
        self.max_failed_attempts
    }

    /// How long a lock lasts.
    pub fn get_lockout_duration(&self) -> (r: u64)
        ensures
            r == self@.lockout_duration,
    {
        self.lockout_duration
    }

    /// Hands the pending observations to the host, oldest first, and forgets them.
    pub fn take_events(&mut self) -> (r: Vec<Event>)
        requires
            old(self).wf(),
        ensures
            final(self).wf(),
            r@.map_values(|e: Event| e@) == old(self)@.events,
            final(self)@ == (RegistryView { events: Seq::empty(), ..old(self)@ }),
    {
        let ghost pre = self@;
        let mut r: Vec<Event> = Vec::new();
        std::mem::swap(&mut r, &mut self.events);
        assert(self@.events =~= Seq::<EventView>::empty());
        assert(r@.map_values(|e: Event| e@) =~= pre.events);
        proof {
            lemma_inv_frame(pre, self@);
        }
        r
    }
}

} // verus!

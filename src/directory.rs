//! A minimal username directory: exact, case-sensitive usernames bound to the
//! account that registered them, with no validation and no credentials.
use vstd::prelude::*;

use crate::account::AccountId;
use crate::table::Table;

verus! {

/// Every way in which an operation of the directory can fail.
#[derive(Clone, Copy, Debug, PartialEq, Eq, Structural)]
pub enum Error {
    /// The username is already registered.
    UsernameExists,
    /// The username is not registered.
    UsernameNotFound,
    /// The caller is not the administrator.
    Unauthorized,
}

/// The directory's state, as mathematical values.
pub struct DirectoryView {
    /// Registering account by username, exactly as given.
    pub users: Map<Seq<char>, AccountId>,
    pub admin: AccountId,
    pub total_users: u32,
}

/// A directory of usernames.
pub struct Authentify {
    users: Table<String, AccountId>,
    admin: AccountId,
    total_users: u32,
}

impl View for Authentify {
    type V = DirectoryView;

    closed spec fn view(&self) -> DirectoryView {
        DirectoryView { users: self.users@, admin: self.admin, total_users: self.total_users }
    }
}

impl Authentify {
    /// The table is well formed.
    pub closed spec fn wf(&self) -> bool {
        self.users.wf()
    }

    /// An empty directory administered by `admin`.
    pub fn new(admin: AccountId) -> (r: Authentify)
        ensures
            r.wf(),
            r@.users.is_empty(),
            r@.admin == admin,
            r@.total_users == 0,
    {
        Authentify { users: Table::new(), admin, total_users: 0 }
    }

    /// Binds `username` to `caller` unless it is already registered.
    pub fn register(&mut self, caller: AccountId, username: String) -> (r: Result<(), Error>)
        requires
            old(self).wf(),
        ensures
            final(self).wf(),
            old(self)@.users.contains_key(username@) ==> r == Err::<(), Error>(
                Error::UsernameExists,
            ) && final(self)@ == old(self)@,
            !old(self)@.users.contains_key(username@) ==> r is Ok && final(self)@ == (DirectoryView {
                users: old(self)@.users.insert(username@, caller),
                admin: old(self)@.admin,
                total_users: old(self)@.total_users.saturating_add(1),
            }),
    {
        if self.users.contains_key(&username) {
            return Err(Error::UsernameExists);
        }
        self.users.insert(username, caller);
        self.total_users = self.total_users.saturating_add(1);
        Ok(())
    }

    /// The account registered under `username`.
    pub fn get_user(&self, username: String) -> (r: Result<AccountId, Error>)
        requires
            self.wf(),
        ensures
            r == (if self@.users.contains_key(username@) {
                Ok::<AccountId, Error>(self@.users[username@])
            } else {
                Err(Error::UsernameNotFound)
            }),
    {
        match self.users.get(&username) {
            Some(a) => Ok(*a),
            None => Err(Error::UsernameNotFound),
        }
    }

    /// Whether `username` is registered.
    pub fn username_exists(&self, username: String) -> (r: bool)
        requires
            self.wf(),
        ensures
            r == self@.users.contains_key(username@),
    {
        self.users.contains_key(&username)
    }

    /// How many usernames have been registered.
    pub fn get_total_users(&self) -> (r: u32)
        ensures
            r == self@.total_users,
    {
        self.total_users
    }

    /// The administrator.
    pub fn get_admin(&self) -> (r: AccountId)
        ensures
            r == self@.admin,
    {
        self.admin
    }
}

} // verus!

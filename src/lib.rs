//! An identity registry and authentication service.
//!
//! Accounts bind a unique, case-insensitive username and a hashed credential to an
//! [`AccountId`], with a secondary social-identity binding. Logins are evaluated by a
//! lockout state machine, and sessions are created, validated and revoked by token.
//! Time and the calling account are always supplied by the host.

pub mod account;
pub mod directory;
pub mod error;
pub mod events;
pub mod laws;
pub mod records;
pub mod registry;
pub mod table;
pub mod validate;

pub use account::AccountId;
pub use error::Error;
pub use registry::Authentify;

//! Session-based authentication and role-based authorization for a
//! graduate-admissions service.
//!
//! The library models the three principal kinds (applicant, professor,
//! administrator), an in-memory session-token store with lazy expiry, the
//! login flow over a credential store with bcrypt-hashed passwords, the
//! per-request authorization guards, and the account-provisioning rules
//! (including the one-time unauthenticated administrator bootstrap).
//!
//! The HTTP transport, the relational persistence behind the credential
//! store, object storage and outbound email are boundary concerns and are
//! not part of this crate's logic.

pub mod auth;
pub mod guards;
pub mod models;
pub mod password;
pub mod session;
pub mod token;

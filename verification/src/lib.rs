//! Client-side session-state synchronization for a remote authentication
//! service.
//!
//! The crate keeps a single in-memory snapshot of the related entities
//! (environment configuration, client record, active session, active user,
//! active organization), derives which session and organization are active
//! from the client record, and tells its embedding what to persist and whom
//! to notify after every change.

pub mod apis;
pub mod clerk;
pub mod effects;
pub mod endpoints;
pub mod entities;
pub mod errors;
pub mod models;
pub mod snapshot;

use vstd::prelude::*;

verus! {

} // verus!

//! What the state manager asks its embedding to do after a change: write a
//! snapshot fragment to the persistent store, and call the registered
//! listeners with the committed state.

use vstd::prelude::*;

use crate::entities::Client;
use crate::entities::Environment;
use crate::entities::Organization;
use crate::entities::Session;
use crate::entities::User;

verus! {

/// A pending write to the persistent store. The store keeps one value per
/// key; the embedding serializes the carried record and stores it under
/// `key()`.
#[derive(Debug, PartialEq, Eq)]
pub enum StoreWrite {
    PutEnvironment(Environment),
    PutClient(Client),
}

impl StoreWrite {
    /// The store key the carried record belongs under.
    pub fn key(&self) -> (r: &str)
        ensures
            *self is PutEnvironment ==> r@ == "environment"@,
            *self is PutClient ==> r@ == "client"@,
    {
        match self {
            StoreWrite::PutEnvironment(_) => "environment",
            StoreWrite::PutClient(_) => "client",
        }
    }
}

/// The values handed to every registered listener after a committed client
/// update: the new client record and the derived session, user and
/// organization.
#[derive(Debug, PartialEq, Eq)]
pub struct Notification {
    pub client: Client,
    pub session: Option<Session>,
    pub user: Option<User>,
    pub organization: Option<Organization>,
}

} // verus!

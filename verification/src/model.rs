//! The typed values the hub returns.

use vstd::prelude::*;

verus! {

/// One server known to the hub.  `addr` is `None` while the server is
/// offline.
#[derive(Debug, PartialEq, Eq)]
pub struct ServerDetails {
    pub name: String,
    pub id: i64,
    pub addr: Option<String>,
    pub owner_id: i64,
}

/// One user account on the hub.
#[derive(Debug, PartialEq, Eq)]
pub struct UserData {
    pub username: String,
    pub id: i64,
}

/// A short-lived capability granting a user entry to one server.
#[derive(Debug, PartialEq, Eq)]
pub struct ServerAccess {
    pub server_id: i64,
    pub server_addr: String,
    pub access_token: String,
}

} // verus!

//! Atomic assembly of a client instance.
//!
//! Connecting is the one composite operation: log in with the credentials,
//! then resolve the caller's own user id by username lookup.  The two steps
//! succeed or fail together — a client whose login succeeded but whose id
//! lookup failed is never produced.

use vstd::prelude::*;
use vstd::string::StringExecFns;

use crate::error::HubError;
use crate::model::UserData;
use crate::status::{is_success, status_is_success};

verus! {

/// Interpret the login exchange's response: any 2xx status means the hub
/// accepted the credentials and issued a session; any other status means it
/// rejected them.
pub fn login_outcome(status: u16) -> (r: Result<(), HubError>)
    ensures
        is_success(status) ==> r == Ok::<(), HubError>(()),
        !is_success(status) ==> r == Err::<(), HubError>(HubError::Authentication),
{
    if status_is_success(status) {
        Ok(())
    } else {
        Err(HubError::Authentication)
    }
}

/// The form fields the credential login exchange submits: the username and
/// the password, under exactly those field names and in that order.
pub fn login_form(username: &str, password: &str) -> (r: Vec<(String, String)>)
    ensures
        r@.len() == 2,
        r@[0].0@ == "username"@,
        r@[0].1@ == username@,
        r@[1].0@ == "password"@,
        r@[1].1@ == password@,
{
    let mut form: Vec<(String, String)> = Vec::new();
    form.push((String::from_str("username"), String::from_str(username)));
    form.push((String::from_str("password"), String::from_str(password)));
    form
}

/// A connected client instance: the credentials it authenticates with and
/// the user id resolved when it was assembled.  The opaque session state
/// lives in the transport outside this crate.
#[derive(Debug, PartialEq, Eq)]
pub struct HubClient {
    pub username: String,
    pub password: String,
    pub user_id: i64,
}

/// Assemble a client instance from the outcomes of the two connect steps.
///
/// `login` is the outcome of the credential exchange; `lookup` is the
/// outcome of the subsequent username lookup, present exactly when the
/// login succeeded (the lookup is not attempted otherwise).
///
/// Law (connect atomicity): a client instance is produced if and only if
/// both steps succeeded; when the lookup failed after a successful login,
/// the whole connect fails with the lookup's error and no partially
/// constructed client escapes.
pub fn assemble_client(
    username: String,
    password: String,
    login: Result<(), HubError>,
    lookup: Option<Result<UserData, HubError>>,
) -> (r: Result<HubClient, HubError>)
    requires
        login is Ok <==> lookup is Some,
    ensures
        login matches Err(e) ==> r == Err::<HubClient, HubError>(e),
        login is Ok ==> (lookup.unwrap() matches Err(e) ==> r == Err::<HubClient, HubError>(e)),
        login is Ok ==> (lookup.unwrap() matches Ok(u) ==> r == Ok::<HubClient, HubError>(
            HubClient { username, password, user_id: u.id },
        )),
        r is Ok <==> (login is Ok && lookup.unwrap() is Ok),
{
    match login {
        Err(e) => Err(e),
        Ok(()) => match lookup {
            Some(Ok(user)) => Ok(HubClient { username, password, user_id: user.id }),
            Some(Err(e)) => Err(e),
            None => Err(HubError::Transport),  // unreachable: the login succeeded
        },
    }
}

} // verus!

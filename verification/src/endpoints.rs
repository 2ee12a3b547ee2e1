//! Per-endpoint interpretation of hub responses.
//!
//! Every endpoint treats a non-2xx status (after the pipeline's single
//! retry) as a [`HubError::Request`] carrying that status — except token
//! verification, where the hub uses "precondition failed" to mean "the token
//! is invalid" as a normal outcome, mapped to `false` rather than an error.

use vstd::prelude::*;

use crate::error::HubError;
use crate::json::{body_of_text, decoded_of, field_of, lookup_field, Body, FieldValue};
use crate::model::{ServerAccess, ServerDetails, UserData};
use crate::status::{is_success, status_is_success, PRECONDITION_FAILED};

verus! {

/// The common interpretation: a 2xx status is an acknowledgement, any other
/// status is a request error carrying that status.  This is the whole
/// response interpretation of the keep-alive endpoint, which returns no
/// body.
pub fn require_success(status: u16) -> (r: Result<(), HubError>)
    ensures
        is_success(status) ==> r == Ok::<(), HubError>(()),
        !is_success(status) ==> r == Err::<(), HubError>(HubError::Request(status)),
{
    if status_is_success(status) {
        Ok(())
    } else {
        Err(HubError::Request(status))
    }
}

/// Token verification: "precondition failed" means the token is invalid —
/// a recognized alternate outcome, not an error; any 2xx means the token is
/// valid; every other status is a request error carrying that status.
pub fn verify_token_outcome(status: u16) -> (r: Result<bool, HubError>)
    ensures
        status == PRECONDITION_FAILED ==> r == Ok::<bool, HubError>(false),
        status != PRECONDITION_FAILED && is_success(status) ==> r == Ok::<bool, HubError>(true),
        status != PRECONDITION_FAILED && !is_success(status) ==> r == Err::<bool, HubError>(
            HubError::Request(status),
        ),
{
    if status == PRECONDITION_FAILED {
        Ok(false)
    } else if status_is_success(status) {
        Ok(true)
    } else {
        Err(HubError::Request(status))
    }
}

/// The user value an object's fields describe: a `username` string and an
/// `id` integer.
pub open spec fn user_of_fields(fs: Seq<(String, FieldValue)>) -> Option<UserData> {
    match (field_of(fs, "username"@), field_of(fs, "id"@)) {
        (Some(FieldValue::Text(username)), Some(FieldValue::Int(id))) => Some(
            UserData { username, id },
        ),
        _ => None,
    }
}

/// The user value a decoded body describes, if it is an object of the
/// expected shape.
pub open spec fn user_of_body(b: Body) -> Option<UserData> {
    match b {
        Body::Obj(fields) => user_of_fields(fields@),
        _ => None,
    }
}

/// Read a user from a decoded body.
pub fn user_data_of_body(b: &Body) -> (r: Option<UserData>)
    ensures
        r == user_of_body(*b),
{
    match b {
        Body::Obj(fields) => {
            let username_key = String::from_str("username");
            let id_key = String::from_str("id");
            match (lookup_field(fields, &username_key), lookup_field(fields, &id_key)) {
                (Some(u), Some(i)) => match (&fields[u].1, &fields[i].1) {
                    (FieldValue::Text(username), FieldValue::Int(id)) => Some(
                        UserData { username: username.clone(), id: *id },
                    ),
                    _ => None,
                },
                _ => None,
            }
        },
        _ => None,
    }
}

/// The server entry an object's fields describe.  `addr` may be absent or
/// `null` — the server is then offline and the entry carries no address;
/// every other field is required.
pub open spec fn server_of_fields(fs: Seq<(String, FieldValue)>) -> Option<ServerDetails> {
    match (field_of(fs, "name"@), field_of(fs, "id"@), field_of(fs, "owner_id"@)) {
        (Some(FieldValue::Text(name)), Some(FieldValue::Int(id)), Some(
            FieldValue::Int(owner_id),
        )) => match field_of(fs, "addr"@) {
            None => Some(ServerDetails { name, id, addr: None, owner_id }),
            Some(FieldValue::Null) => Some(ServerDetails { name, id, addr: None, owner_id }),
            Some(FieldValue::Text(addr)) => Some(
                ServerDetails { name, id, addr: Some(addr), owner_id },
            ),
            Some(_) => None,
        },
        _ => None,
    }
}

/// Law (optional server address): an object whose `addr` field is absent or
/// `null` still describes a server entry whenever the required fields are
/// present — the entry then carries no address.  An offline server is a
/// normal value, not a decoding error.
pub proof fn lemma_offline_server_has_no_addr(fs: Seq<(String, FieldValue)>)
    requires
        field_of(fs, "addr"@) is None || field_of(fs, "addr"@) == Some(FieldValue::Null),
        field_of(fs, "name"@) matches Some(FieldValue::Text(_)),
        field_of(fs, "id"@) matches Some(FieldValue::Int(_)),
        field_of(fs, "owner_id"@) matches Some(FieldValue::Int(_)),
    ensures
        server_of_fields(fs) is Some,
        server_of_fields(fs).unwrap().addr is None,
{
}

/// Read one server entry from an object's fields.
pub fn server_details_of_fields(fields: &Vec<(String, FieldValue)>) -> (r: Option<ServerDetails>)
    ensures
        r == server_of_fields(fields@),
{
    let name_key = String::from_str("name");
    let id_key = String::from_str("id");
    let owner_key = String::from_str("owner_id");
    let addr_key = String::from_str("addr");
    let found = (
        lookup_field(fields, &name_key),
        lookup_field(fields, &id_key),
        lookup_field(fields, &owner_key),
    );
    match found {
        (Some(n), Some(i), Some(o)) => match (&fields[n].1, &fields[i].1, &fields[o].1) {
            (FieldValue::Text(name), FieldValue::Int(id), FieldValue::Int(owner_id)) => match
            lookup_field(fields, &addr_key) {
                None => Some(
                    ServerDetails { name: name.clone(), id: *id, addr: None, owner_id: *owner_id },
                ),
                Some(a) => match &fields[a].1 {
                    FieldValue::Null => Some(
                        ServerDetails {
                            name: name.clone(),
                            id: *id,
                            addr: None,
                            owner_id: *owner_id,
                        },
                    ),
                    FieldValue::Text(addr) => Some(
                        ServerDetails {
                            name: name.clone(),
                            id: *id,
                            addr: Some(addr.clone()),
                            owner_id: *owner_id,
                        },
                    ),
                    _ => None,
                },
            },
            _ => None,
        },
        _ => None,
    }
}

/// The server list an array of objects describes: every element must be an
/// object of the server shape.
pub open spec fn servers_of_list(items: Seq<Vec<(String, FieldValue)>>) -> Option<
    Seq<ServerDetails>,
> {
    if forall|j: int| 0 <= j < items.len() ==> server_of_fields(#[trigger] items[j]@) is Some {
        Some(Seq::new(items.len(), |j: int| server_of_fields(items[j]@).unwrap()))
    } else {
        None
    }
}

/// The server list a decoded body describes.
pub open spec fn servers_of_body(b: Body) -> Option<Seq<ServerDetails>> {
    match b {
        Body::List(items) => servers_of_list(items@),
        _ => None,
    }
}

/// Read the server list from an array of decoded objects.
pub fn server_list_of_items(items: &Vec<Vec<(String, FieldValue)>>) -> (r: Option<
    Vec<ServerDetails>,
>)
    ensures
        match r {
            Some(list) => servers_of_list(items@) == Some(list@),
            None => servers_of_list(items@) is None,
        },
{
    let mut out: Vec<ServerDetails> = Vec::new();
    let mut i: usize = 0;
    while i < items.len()
        invariant
            i <= items@.len(),
            out@.len() == i,
            forall|j: int| 0 <= j < i ==> server_of_fields(#[trigger] items@[j]@) is Some,
            forall|j: int|
                0 <= j < i ==> out@[j] == server_of_fields(#[trigger] items@[j]@).unwrap(),
        decreases items@.len() - i,
    {
        match server_details_of_fields(&items[i]) {
            Some(details) => out.push(details),
            None => {
                proof {
                    assert(!(forall|j: int|
                        0 <= j < items@.len() ==> server_of_fields(
                            #[trigger] items@[j]@,
                        ) is Some)) by {
                        assert((i as int) < items@.len() && server_of_fields(
                            items@[i as int]@,
                        ) is None);
                    }
                }
                return None;
            },
        }
        i = i + 1;
    }
    proof {
        assert(out@ =~= Seq::new(items@.len(), |j: int| server_of_fields(items@[j]@).unwrap()));
    }
    Some(out)
}

/// Read the server list from a decoded body.
pub fn server_list_of_body(b: &Body) -> (r: Option<Vec<ServerDetails>>)
    ensures
        match r {
            Some(list) => servers_of_body(*b) == Some(list@),
            None => servers_of_body(*b) is None,
        },
{
    match b {
        Body::List(items) => server_list_of_items(items),
        _ => None,
    }
}

/// The access grant an object's fields describe: the server's id, its
/// address, and the token.
pub open spec fn access_of_fields(fs: Seq<(String, FieldValue)>) -> Option<ServerAccess> {
    match (field_of(fs, "server_id"@), field_of(fs, "server_addr"@), field_of(
        fs,
        "access_token"@,
    )) {
        (Some(FieldValue::Int(server_id)), Some(FieldValue::Text(server_addr)), Some(
            FieldValue::Text(access_token),
        )) => Some(ServerAccess { server_id, server_addr, access_token }),
        _ => None,
    }
}

/// The access grant a decoded body describes, if it is an object of the
/// expected shape.
pub open spec fn access_of_body(b: Body) -> Option<ServerAccess> {
    match b {
        Body::Obj(fields) => access_of_fields(fields@),
        _ => None,
    }
}

/// Read an access grant from a decoded body.
pub fn server_access_of_body(b: &Body) -> (r: Option<ServerAccess>)
    ensures
        r == access_of_body(*b),
{
    match b {
        Body::Obj(fields) => {
            let id_key = String::from_str("server_id");
            let addr_key = String::from_str("server_addr");
            let token_key = String::from_str("access_token");
            let found = (
                lookup_field(fields, &id_key),
                lookup_field(fields, &addr_key),
                lookup_field(fields, &token_key),
            );
            match found {
                (Some(i), Some(a), Some(t)) => match (&fields[i].1, &fields[a].1, &fields[t].1) {
                    (FieldValue::Int(server_id), FieldValue::Text(server_addr), FieldValue::Text(
                        access_token,
                    )) => Some(
                        ServerAccess {
                            server_id: *server_id,
                            server_addr: server_addr.clone(),
                            access_token: access_token.clone(),
                        },
                    ),
                    _ => None,
                },
                _ => None,
            }
        },
        _ => None,
    }
}

/// Interpret a user-lookup response: a non-2xx status is a request error
/// carrying that status; on a 2xx status the result is exactly the user the
/// decoded body describes, or a payload error when it describes none.
pub fn user_data_response(status: u16, body_text: &str) -> (r: Result<UserData, HubError>)
    ensures
        !is_success(status) ==> r == Err::<UserData, HubError>(HubError::Request(status)),
        is_success(status) ==> r == (match user_of_body(decoded_of(body_text@)) {
            Some(user) => Ok::<UserData, HubError>(user),
            None => Err::<UserData, HubError>(HubError::Payload),
        }),
{
    match require_success(status) {
        Err(e) => Err(e),
        Ok(()) => {
            let body = body_of_text(body_text);
            match user_data_of_body(&body) {
                Some(user) => Ok(user),
                None => Err(HubError::Payload),
            }
        },
    }
}

/// Interpret a server-listing response: a non-2xx status is a request error
/// carrying that status; on a 2xx status the result is exactly the server
/// list the decoded body describes, or a payload error when it describes
/// none.
pub fn servers_response(status: u16, body_text: &str) -> (r: Result<Vec<ServerDetails>, HubError>)
    ensures
        !is_success(status) ==> r == Err::<Vec<ServerDetails>, HubError>(HubError::Request(status)),
        is_success(status) ==> (match servers_of_body(decoded_of(body_text@)) {
            Some(list) => r matches Ok(v) && v@ == list,
            None => r == Err::<Vec<ServerDetails>, HubError>(HubError::Payload),
        }),
{
    match require_success(status) {
        Err(e) => Err(e),
        Ok(()) => {
            let body = body_of_text(body_text);
            match server_list_of_body(&body) {
                Some(list) => Ok(list),
                None => Err(HubError::Payload),
            }
        },
    }
}

/// Interpret an access-token response: a non-2xx status is a request error
/// carrying that status; on a 2xx status the result is exactly the access
/// grant the decoded body describes, or a payload error when it describes
/// none.
pub fn server_access_response(status: u16, body_text: &str) -> (r: Result<ServerAccess, HubError>)
    ensures
        !is_success(status) ==> r == Err::<ServerAccess, HubError>(HubError::Request(status)),
        is_success(status) ==> r == (match access_of_body(decoded_of(body_text@)) {
            Some(access) => Ok::<ServerAccess, HubError>(access),
            None => Err::<ServerAccess, HubError>(HubError::Payload),
        }),
{
    match require_success(status) {
        Err(e) => Err(e),
        Ok(()) => {
            let body = body_of_text(body_text);
            match server_access_of_body(&body) {
                Some(access) => Ok(access),
                None => Err(HubError::Payload),
            }
        },
    }
}

} // verus!

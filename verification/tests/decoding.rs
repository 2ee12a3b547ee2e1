use hub_client::endpoints::{
    require_success, server_access_response, server_details_of_fields, servers_response,
    user_data_response, verify_token_outcome,
};
use hub_client::error::HubError;
use hub_client::json::{body_of_text, Body, FieldValue};
use hub_client::model::{ServerAccess, ServerDetails, UserData};

#[test]
fn verify_token_precondition_failed_means_invalid() {
    assert_eq!(verify_token_outcome(412), Ok(false));
}

#[test]
fn verify_token_success_means_valid() {
    assert_eq!(verify_token_outcome(200), Ok(true));
    assert_eq!(verify_token_outcome(204), Ok(true));
}

#[test]
fn verify_token_other_status_is_request_error() {
    assert_eq!(verify_token_outcome(500), Err(HubError::Request(500)));
    assert_eq!(verify_token_outcome(401), Err(HubError::Request(401)));
    assert_eq!(verify_token_outcome(404), Err(HubError::Request(404)));
}

#[test]
fn require_success_acknowledges_2xx_only() {
    assert_eq!(require_success(200), Ok(()));
    assert_eq!(require_success(299), Ok(()));
    assert_eq!(require_success(300), Err(HubError::Request(300)));
    assert_eq!(require_success(199), Err(HubError::Request(199)));
    assert_eq!(require_success(404), Err(HubError::Request(404)));
}

fn object_fields(text: &str) -> Vec<(String, FieldValue)> {
    match body_of_text(text) {
        Body::Obj(fields) => fields,
        other => panic!("expected an object body, got {:?}", other),
    }
}

#[test]
fn server_with_absent_addr_is_offline() {
    let fields = object_fields("{\"name\":\"Alpha\",\"id\":1,\"owner_id\":7}");
    let details = server_details_of_fields(&fields).unwrap();
    assert_eq!(details.name, "Alpha");
    assert_eq!(details.id, 1);
    assert_eq!(details.addr, None);
    assert_eq!(details.owner_id, 7);
}

#[test]
fn server_with_null_addr_is_offline() {
    let fields = object_fields("{\"name\":\"Alpha\",\"id\":1,\"addr\":null,\"owner_id\":7}");
    let details = server_details_of_fields(&fields).unwrap();
    assert_eq!(details.addr, None);
}

#[test]
fn server_with_addr_is_online() {
    let fields =
        object_fields("{\"name\":\"Alpha\",\"id\":1,\"addr\":\"10.0.0.1:9000\",\"owner_id\":7}");
    let details = server_details_of_fields(&fields).unwrap();
    assert_eq!(details.addr, Some(String::from("10.0.0.1:9000")));
}

#[test]
fn server_missing_required_field_does_not_decode() {
    let fields = object_fields("{\"name\":\"Alpha\",\"owner_id\":7}");
    assert_eq!(server_details_of_fields(&fields), None);
}

#[test]
fn list_servers_decodes_a_mocked_array() {
    let body = "[{\"name\":\"Alpha\",\"id\":1,\"addr\":\"10.0.0.1:9000\",\"owner_id\":7}]";
    let servers = servers_response(200, body).unwrap();
    assert_eq!(
        servers,
        vec![ServerDetails {
            name: String::from("Alpha"),
            id: 1,
            addr: Some(String::from("10.0.0.1:9000")),
            owner_id: 7,
        }]
    );
}

#[test]
fn list_servers_decodes_an_empty_array() {
    assert_eq!(servers_response(200, "[]"), Ok(vec![]));
}

#[test]
fn list_servers_rejects_a_mixed_array() {
    assert_eq!(servers_response(200, "[1,{\"name\":\"A\"}]"), Err(HubError::Payload));
}

#[test]
fn list_servers_propagates_request_error() {
    assert_eq!(servers_response(503, "[]"), Err(HubError::Request(503)));
}

#[test]
fn user_by_id_decodes_a_mocked_object() {
    let user = user_data_response(200, "{\"username\":\"nova\",\"id\":42}").unwrap();
    assert_eq!(user, UserData { username: String::from("nova"), id: 42 });
}

#[test]
fn user_field_order_does_not_matter() {
    let user = user_data_response(200, "{\"id\":42,\"username\":\"nova\"}").unwrap();
    assert_eq!(user.username, "nova");
    assert_eq!(user.id, 42);
}

#[test]
fn user_with_missing_field_is_a_payload_error() {
    assert_eq!(user_data_response(200, "{\"username\":\"nova\"}"), Err(HubError::Payload));
}

#[test]
fn user_with_wrong_field_type_is_a_payload_error() {
    assert_eq!(
        user_data_response(200, "{\"username\":\"nova\",\"id\":\"42\"}"),
        Err(HubError::Payload)
    );
    assert_eq!(
        user_data_response(200, "{\"username\":\"nova\",\"id\":4.5}"),
        Err(HubError::Payload)
    );
    assert_eq!(
        user_data_response(200, "{\"username\":\"nova\",\"id\":18446744073709551615}"),
        Err(HubError::Payload)
    );
}

#[test]
fn invalid_json_is_a_payload_error() {
    assert_eq!(user_data_response(200, "not json"), Err(HubError::Payload));
}

#[test]
fn non_success_status_wins_over_body() {
    assert_eq!(
        user_data_response(404, "{\"username\":\"nova\",\"id\":42}"),
        Err(HubError::Request(404))
    );
}

#[test]
fn access_grant_decodes_a_mocked_object() {
    let body =
        "{\"server_id\":5,\"server_addr\":\"10.0.0.2:9000\",\"access_token\":\"tok123\"}";
    let access = server_access_response(200, body).unwrap();
    assert_eq!(
        access,
        ServerAccess {
            server_id: 5,
            server_addr: String::from("10.0.0.2:9000"),
            access_token: String::from("tok123"),
        }
    );
}

#[test]
fn access_grant_with_missing_token_is_a_payload_error() {
    let body = "{\"server_id\":5,\"server_addr\":\"10.0.0.2:9000\"}";
    assert_eq!(server_access_response(200, body), Err(HubError::Payload));
}

#[test]
fn scalar_or_nested_bodies_flatten_predictably() {
    assert_eq!(body_of_text("5"), Body::Other);
    assert_eq!(body_of_text("\"hello\""), Body::Other);
    let fields = object_fields("{\"username\":{\"nested\":1},\"id\":42}");
    assert!(fields.iter().any(|f| f.0 == "username" && f.1 == FieldValue::Composite));
    assert_eq!(
        user_data_response(200, "{\"username\":{\"nested\":1},\"id\":42}"),
        Err(HubError::Payload)
    );
}

use hub_client::paths::{
    access_path, format_i64, format_u64, keep_alive_path, login_path, servers_path,
    user_by_username_path, user_path, verify_path,
};

#[test]
fn decimal_formatting_matches_expected_text() {
    assert_eq!(format_u64(0), "0");
    assert_eq!(format_u64(7), "7");
    assert_eq!(format_u64(10), "10");
    assert_eq!(format_u64(1234567890), "1234567890");
    assert_eq!(format_u64(u64::MAX), "18446744073709551615");
    assert_eq!(format_i64(0), "0");
    assert_eq!(format_i64(42), "42");
    assert_eq!(format_i64(-5), "-5");
    assert_eq!(format_i64(i64::MIN), "-9223372036854775808");
    assert_eq!(format_i64(i64::MAX), "9223372036854775807");
}

#[test]
fn fixed_paths_match_the_hub_endpoints() {
    assert_eq!(login_path(), "/api/login");
    assert_eq!(servers_path(), "/api/servers");
}

#[test]
fn user_paths_embed_their_parameters() {
    assert_eq!(user_path(42), "/api/users/42");
    assert_eq!(user_path(-1), "/api/users/-1");
    assert_eq!(user_by_username_path("nova"), "/api/users/by_username/nova");
}

#[test]
fn server_paths_embed_their_parameters() {
    assert_eq!(keep_alive_path(3, "10.0.0.1:9000"), "/api/servers/keep_alive/3/10.0.0.1:9000");
    assert_eq!(access_path(5), "/api/servers/access/5");
    assert_eq!(verify_path(1, 42, "tok123"), "/api/servers/verify/1/42/tok123");
}

use remoteplay_inviter::url::{build_ws_url, path_and_query};

#[test]
fn path_and_query_names_version_token_and_session() {
    assert_eq!(path_and_query("1.2.3", "abc", 42), "/ws?v=1.2.3&token=abc&session=42");
}

#[test]
fn ws_url_replaces_endpoint_path() {
    let url = build_ws_url("wss://relay.example.com/old?x=1", "1.2.3", "abc", 7).unwrap();
    assert_eq!(url, "wss://relay.example.com/ws?v=1.2.3&token=abc&session=7");
}

#[test]
fn ws_url_rejects_bad_endpoint() {
    assert_eq!(build_ws_url("not a url", "1.2.3", "abc", 7), Err("Failed to parse URL".to_string()));
}

#[test]
fn ws_url_needs_an_authority_to_build() {
    assert_eq!(build_ws_url("relay.example.com", "1.2.3", "abc", 7), Err("Failed to build URL".to_string()));
}

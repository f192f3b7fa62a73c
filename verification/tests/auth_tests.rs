use minetui::auth::{
    bearer_header, device_code_form, ely_by_auth_request, generate_offline_uuid,
    token_outcome, token_poll_form, token_response_from_body, xbox_identity_token, xbox_rps_ticket,
    TokenResponse,
};

#[test]
fn offline_uuids_match_the_game() {
    assert_eq!(generate_offline_uuid("Steve"), "5627dd98-e6be-3c21-b8a8-e92344183641");
    assert_eq!(generate_offline_uuid("Notch"), "b50ad385-829d-3141-a216-7e7d7539ba7f");
    assert_eq!(generate_offline_uuid(""), "fc5bc365-aedf-30a8-8b89-04e462e29bde");
}

#[test]
fn offline_uuid_is_version_3() {
    for name in ["Steve", "Alex", "ünïcödé", "x"] {
        let u = generate_offline_uuid(name);
        assert_eq!(u.len(), 36);
        assert_eq!(u.as_bytes()[14], b'3');
        assert!(matches!(u.as_bytes()[19], b'8' | b'9' | b'a' | b'b'));
    }
}

#[test]
fn token_body_with_error() {
    let t = token_response_from_body(Some(Some("authorization_pending".into())), None, None).unwrap();
    assert_eq!(t.error.as_deref(), Some("authorization_pending"));
    assert_eq!(t.access_token, "");
    assert!(t.refresh_token.is_none());
    let t = token_response_from_body(Some(None), Some(Some("tok".into())), None).unwrap();
    assert_eq!(t.error.as_deref(), Some("unknown_error"));
}

#[test]
fn token_body_without_token() {
    let e = token_response_from_body(None, None, None).unwrap_err();
    assert_eq!(e, "No access token in response");
}

#[test]
fn token_body_with_tokens() {
    let t = token_response_from_body(None, Some(Some("acc".into())), Some(Some("ref".into()))).unwrap();
    assert_eq!(t.access_token, "acc");
    assert_eq!(t.refresh_token.as_deref(), Some("ref"));
    assert!(t.error.is_none());
    let t = token_response_from_body(None, Some(Some("acc".into())), None).unwrap();
    assert!(t.refresh_token.is_none());
}

#[test]
fn token_outcomes() {
    let ok = TokenResponse { access_token: "a".into(), refresh_token: None, error: None };
    assert_eq!(token_outcome(ok), Ok("a".to_string()));
    let err = TokenResponse { access_token: "".into(), refresh_token: None, error: Some("expired_token".into()) };
    assert_eq!(token_outcome(err), Err("expired_token".to_string()));
}

#[test]
fn xbox_strings() {
    assert_eq!(xbox_rps_ticket("T"), "d=T");
    assert_eq!(xbox_identity_token("U", "X"), "XBL3.0 x=U;X");
    assert_eq!(bearer_header("M"), "Bearer M");
}

#[test]
fn microsoft_forms() {
    let f = device_code_form();
    assert_eq!(f, vec![
        ("client_id".to_string(), "00000000-402b-9631-3959-f52ef9304b6d".to_string()),
        ("scope".to_string(), "XboxLive.Signin offline_access".to_string()),
    ]);
    let p = token_poll_form("DC");
    assert_eq!(p[0].1, "urn:ietf:params:oauth:grant-type:device_code");
    assert_eq!(p[2], ("device_code".to_string(), "DC".to_string()));
}

#[test]
fn ely_request() {
    let r = ely_by_auth_request("me@example.org", "pw");
    assert_eq!(r.agent.name, "Minecraft");
    assert_eq!(r.agent.version, 1);
    assert_eq!(r.username, "me@example.org");
    assert_eq!(r.password, "pw");
    assert_eq!(r.client_token, "minetui-client");
    assert!(r.request_user);
}

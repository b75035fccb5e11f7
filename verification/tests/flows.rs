use m321::auth::{
    code_from_pairs, code_from_query, login_step, sign_in_location, logout_step, AuthRequired, AuthRoute, Claims, LoginAction,
    LoginEvent, LoginState, LogoutAction, LogoutEvent, LogoutState, Reply,
};
use m321::endpoints::{
    admin_client_secret, admin_logout_url, admin_token_url, keycloak_origin, oauth_client_endpoints, token_request_form,
    KeycloakSettings,
};

fn settings() -> KeycloakSettings {
    KeycloakSettings {
        external_host: "localhost".to_string(),
        external_port: 8081,
        internal_host: "keycloak".to_string(),
        internal_port: 8080,
        realm: "m321".to_string(),
        client_id: "dashboard".to_string(),
    }
}

const USER: u128 = 0x550e8400_e29b_41d4_a716_446655440000;

#[test]
fn code_from_query_reads_code() {
    assert_eq!(code_from_query("code=abc&state=xyz"), Some("abc".to_string()));
    assert_eq!(code_from_query("state=xyz&code=abc"), Some("abc".to_string()));
    assert_eq!(code_from_query("code=a%20b+c"), Some("a b c".to_string()));
    assert_eq!(code_from_query("code="), Some(String::new()));
}

#[test]
fn code_from_query_without_code() {
    assert_eq!(code_from_query(""), None);
    assert_eq!(code_from_query("state=xyz"), None);
    assert_eq!(code_from_query("codes=abc"), None);
}

#[test]
fn code_from_query_later_duplicate_wins() {
    assert_eq!(code_from_query("code=first&code=second"), Some("second".to_string()));
}

#[test]
fn login_callback_without_code_is_bad_request() {
    let (state, action) = login_step(
        LoginState::AwaitingCallback,
        LoginEvent::Callback { query: "state=1".to_string() },
    );
    assert_eq!(state, LoginState::Finished);
    assert_eq!(
        action,
        LoginAction::Respond { reply: Reply::BadRequest { body: "Missing code".to_string() } }
    );
}

#[test]
fn login_callback_with_code_exchanges_it() {
    let (state, action) = login_step(
        LoginState::AwaitingCallback,
        LoginEvent::Callback { query: "session_state=s&code=xyz".to_string() },
    );
    assert_eq!(state, LoginState::AwaitingToken);
    assert_eq!(action, LoginAction::ExchangeCode { code: "xyz".to_string() });
}

#[test]
fn login_token_error_is_server_error() {
    let (state, action) = login_step(
        LoginState::AwaitingToken,
        LoginEvent::TokenRejected { detail: "ServerResponse(invalid_grant)".to_string() },
    );
    assert_eq!(state, LoginState::Finished);
    assert_eq!(
        action,
        LoginAction::Respond {
            reply: Reply::InternalServerError {
                body: "Token error: ServerResponse(invalid_grant)".to_string()
            }
        }
    );
}

#[test]
fn login_token_signs_in_subject() {
    let claims = Some(Claims { sub: "550e8400-e29b-41d4-a716-446655440000".to_string(), exp: 1 });
    let (state, action) = login_step(LoginState::AwaitingToken, LoginEvent::TokenIssued { claims });
    assert_eq!(state, LoginState::Finished);
    assert_eq!(action, LoginAction::SignIn { user_id: USER, location: "/".to_string() });
}

#[test]
fn login_token_without_user_is_server_error() {
    for claims in [None, Some(Claims { sub: "admin".to_string(), exp: 1 })] {
        let (state, action) = login_step(LoginState::AwaitingToken, LoginEvent::TokenIssued { claims });
        assert_eq!(state, LoginState::Finished);
        assert_eq!(
            action,
            LoginAction::Respond {
                reply: Reply::InternalServerError { body: "Failed to get user ID".to_string() }
            }
        );
    }
}

#[test]
fn keycloak_addresses() {
    let s = settings();
    assert_eq!(keycloak_origin(&s), "http://localhost:8081");
    assert_eq!(admin_token_url(&s), "http://localhost:8081/realms/m321/protocol/openid-connect/token");
    assert_eq!(
        admin_logout_url(&s, USER),
        "http://localhost:8081/admin/realms/m321/users/550e8400-e29b-41d4-a716-446655440000/logout"
    );
}

#[test]
fn oauth_client_addresses() {
    let e = oauth_client_endpoints(&settings(), "https", "example.org", 443);
    assert_eq!(e.redirect_uri, "https://example.org:443/login");
    assert_eq!(e.auth_uri, "http://localhost:8081/realms/m321/protocol/openid-connect/auth");
    assert_eq!(e.token_uri, "http://keycloak:8080/realms/m321/protocol/openid-connect/token");
}

#[test]
fn token_endpoints_agree_when_addresses_agree() {
    let mut s = settings();
    s.internal_host = s.external_host.clone();
    s.internal_port = s.external_port;
    let e = oauth_client_endpoints(&s, "http", "h", 80);
    assert_eq!(e.token_uri, admin_token_url(&s));
}

#[test]
fn client_credentials_form() {
    let form = token_request_form("dashboard", "s3cret");
    assert_eq!(
        form,
        vec![
            ("grant_type".to_string(), "client_credentials".to_string()),
            ("client_id".to_string(), "dashboard".to_string()),
            ("client_secret".to_string(), "s3cret".to_string()),
        ]
    );
}

#[test]
fn logout_without_session_redirects_home() {
    let (state, action) = logout_step(&settings(), LogoutState::Start, LogoutEvent::Session { user_id: None });
    assert_eq!(state, LogoutState::Finished);
    assert_eq!(action, LogoutAction::Respond { reply: Reply::Redirect { location: "/".to_string() } });
}

#[test]
fn logout_full_sequence() {
    let s = settings();
    let (state, action) = logout_step(&s, LogoutState::Start, LogoutEvent::Session { user_id: Some(USER) });
    assert_eq!(state, LogoutState::AwaitingToken { user_id: USER });
    assert_eq!(
        action,
        LogoutAction::ClearSessionAndRequestToken {
            url: "http://localhost:8081/realms/m321/protocol/openid-connect/token".to_string()
        }
    );
    let (state, action) =
        logout_step(&s, state, LogoutEvent::TokenIssued { access_token: "tok".to_string() });
    assert_eq!(state, LogoutState::AwaitingLogout);
    assert_eq!(
        action,
        LogoutAction::RequestLogout {
            url: "http://localhost:8081/admin/realms/m321/users/550e8400-e29b-41d4-a716-446655440000/logout"
                .to_string(),
            bearer: "tok".to_string(),
        }
    );
    let (state, action) = logout_step(&s, state, LogoutEvent::LogoutAnswered { success: true });
    assert_eq!(state, LogoutState::Finished);
    assert_eq!(action, LogoutAction::Respond { reply: Reply::Redirect { location: "/".to_string() } });
}

#[test]
fn logout_token_refused() {
    let (state, action) = logout_step(
        &settings(),
        LogoutState::AwaitingToken { user_id: USER },
        LogoutEvent::TokenRejected,
    );
    assert_eq!(state, LogoutState::Finished);
    assert_eq!(
        action,
        LogoutAction::Respond { reply: Reply::InternalServerError { body: "Token request error".to_string() } }
    );
}

#[test]
fn logout_refused_by_admin_endpoint() {
    let (state, action) =
        logout_step(&settings(), LogoutState::AwaitingLogout, LogoutEvent::LogoutAnswered { success: false });
    assert_eq!(state, LogoutState::Finished);
    assert_eq!(
        action,
        LogoutAction::Respond { reply: Reply::InternalServerError { body: "Admin logout error".to_string() } }
    );
}

#[test]
fn code_from_pairs_takes_first_code() {
    let pairs = vec![
        ("state".to_string(), "s".to_string()),
        ("code".to_string(), "one".to_string()),
        ("code".to_string(), "two".to_string()),
    ];
    assert_eq!(code_from_pairs(&pairs), Some("one".to_string()));
    assert_eq!(code_from_pairs(&vec![("codex".to_string(), "x".to_string())]), None);
    assert_eq!(code_from_pairs(&Vec::new()), None);
}

fn expected_sign_in_url(state: &str) -> String {
    format!(
        "http://localhost:8081/realms/m321/protocol/openid-connect/auth?response_type=code&client_id=dashboard&state={}&redirect_uri=http%3A%2F%2Fexample.org%3A80%2Flogin&scope=openid+profile",
        state
    )
}

#[test]
fn sign_in_location_is_authorization_url() {
    let (location, state) = sign_in_location(&settings(), "http", "example.org", 80).unwrap();
    assert_eq!(state.chars().count(), 22);
    assert!(state.chars().all(|c| c.is_ascii_alphanumeric() || c == '-' || c == '_'));
    assert_eq!(location, expected_sign_in_url(&state));
}

#[test]
fn sign_in_locations_carry_fresh_states() {
    let (_, first) = sign_in_location(&settings(), "http", "example.org", 80).unwrap();
    let (_, second) = sign_in_location(&settings(), "http", "example.org", 80).unwrap();
    assert_ne!(first, second);
}

#[test]
fn sign_in_location_refuses_bad_callback() {
    assert_eq!(sign_in_location(&settings(), "", "example.org", 80), None);
    let mut s = settings();
    s.external_host = "bad host".to_string();
    assert_eq!(sign_in_location(&s, "http", "example.org", 80), None);
    let mut s = settings();
    s.internal_host = "bad host".to_string();
    assert_eq!(sign_in_location(&s, "http", "example.org", 80), None);
}

#[test]
fn signed_in_user_is_forwarded_and_signed_out() {
    let claims = Some(Claims { sub: "550e8400-E29B-41D4-A716-446655440000".to_string(), exp: 9 });
    let (_, action) = login_step(LoginState::AwaitingToken, LoginEvent::TokenIssued { claims });
    let user_id = match action {
        LoginAction::SignIn { user_id, .. } => user_id,
        other => panic!("unexpected {:?}", other),
    };
    let guard = AuthRequired.new_transform(());
    assert_eq!(
        guard.route(Some(user_id), &settings(), "http", "example.org", 80),
        AuthRoute::Forward { user_id: USER }
    );
    let (state, _) = logout_step(&settings(), LogoutState::Start, LogoutEvent::Session { user_id: Some(user_id) });
    assert_eq!(state, LogoutState::AwaitingToken { user_id: USER });
}

#[test]
fn guard_sends_anonymous_users_to_sign_in() {
    let guard = AuthRequired.new_transform(7u8);
    assert_eq!(guard.service, 7u8);
    match guard.route(None, &settings(), "http", "example.org", 80) {
        AuthRoute::SignInWithProvider { location, state } => {
            assert_eq!(location, expected_sign_in_url(&state))
        }
        other => panic!("unexpected {:?}", other),
    }
}

#[test]
fn guard_with_bad_callback_address() {
    let guard = AuthRequired.new_transform(());
    assert_eq!(guard.route(None, &settings(), "", "example.org", 80), AuthRoute::ProviderMisconfigured);
}

#[test]
fn admin_secret_is_trimmed() {
    assert_eq!(admin_client_secret("  s3cret\n"), "s3cret");
    assert_eq!(admin_client_secret("\u{a0}\ta b\u{3000}"), "a b");
    assert_eq!(admin_client_secret("plain"), "plain");
    assert_eq!(admin_client_secret(" \r\n "), "");
}

#[test]
fn second_sign_out_only_redirects() {
    let s = settings();
    let (_, action) = logout_step(&s, LogoutState::Start, LogoutEvent::Session { user_id: Some(USER) });
    assert!(matches!(action, LogoutAction::ClearSessionAndRequestToken { .. }));
    let (state, action) = logout_step(&s, LogoutState::Start, LogoutEvent::Session { user_id: None });
    assert_eq!(state, LogoutState::Finished);
    assert_eq!(action, LogoutAction::Respond { reply: Reply::Redirect { location: "/".to_string() } });
    let guard = AuthRequired.new_transform(());
    assert!(matches!(guard.route(None, &s, "http", "example.org", 80), AuthRoute::SignInWithProvider { .. }));
}

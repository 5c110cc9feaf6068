use dropbox_pkce::budgets::clean_budget_name;
use dropbox_pkce::budgets::collect_budgets;
use dropbox_pkce::budgets::BudgetInfo;
use dropbox_pkce::deeplink::DeepLinkSlot;
use dropbox_pkce::error::AuthError;
use dropbox_pkce::store::VerifierStore;
use dropbox_pkce::token::assemble_error_response;
use dropbox_pkce::token::assemble_token_response;
use dropbox_pkce::token::begin_code_exchange;
use dropbox_pkce::token::finish_code_exchange;
use dropbox_pkce::token::interpret_token_response;
use dropbox_pkce::token::refresh_params;
use dropbox_pkce::token::token_endpoint;

#[test]
fn take_after_set_returns_the_value_exactly_once() {
    let mut store = VerifierStore::new();
    store.set("v1".to_string());
    assert_eq!(store.take(), Some("v1".to_string()));
    assert_eq!(store.take(), None);
}

#[test]
fn set_overwrites_without_queuing() {
    let mut store = VerifierStore::new();
    store.set("first".to_string());
    store.set("second".to_string());
    assert_eq!(store.take(), Some("second".to_string()));
    assert_eq!(store.take(), None);
}

#[test]
fn peek_does_not_consume() {
    let mut store = VerifierStore::new();
    assert_eq!(store.peek(), None);
    store.set("v".to_string());
    assert_eq!(store.peek(), Some("v".to_string()));
    assert_eq!(store.peek(), Some("v".to_string()));
}

#[test]
fn deep_link_slot_records_and_clears() {
    let mut slot = DeepLinkSlot::new();
    assert_eq!(slot.get_last_deep_link(), None);
    slot.record("ynab4viewer://oauth/callback?code=1".to_string());
    assert_eq!(
        slot.get_last_deep_link(),
        Some("ynab4viewer://oauth/callback?code=1".to_string())
    );
    slot.clear_deep_link();
    assert_eq!(slot.get_last_deep_link(), None);
}

#[test]
fn success_body_parses_into_a_token_response() {
    let r = interpret_token_response(200, "{\"access_token\":\"x\",\"token_type\":\"bearer\"}");
    let t = r.expect("2xx with required fields succeeds");
    assert_eq!(t.access_token, "x");
    assert_eq!(t.token_type, "bearer");
    assert_eq!(t.expires_in, None);
    assert_eq!(t.refresh_token, None);
}

#[test]
fn success_body_keeps_every_optional_field() {
    let body = "{\"access_token\":\"a\",\"token_type\":\"bearer\",\"expires_in\":14400,\
                \"refresh_token\":\"r\",\"scope\":\"files.read\",\"uid\":\"u1\",\"account_id\":\"acct\"}";
    let t = interpret_token_response(204, body).expect("any 2xx status counts");
    assert_eq!(t.expires_in, Some(14400));
    assert_eq!(t.refresh_token, Some("r".to_string()));
    assert_eq!(t.scope, Some("files.read".to_string()));
    assert_eq!(t.uid, Some("u1".to_string()));
    assert_eq!(t.account_id, Some("acct".to_string()));
}

#[test]
fn error_body_yields_protocol_error_naming_the_code() {
    let r = interpret_token_response(400, "{\"error\":\"invalid_grant\"}");
    match r {
        Err(e @ AuthError::ProtocolError { .. }) => {
            assert!(e.message().contains("invalid_grant"));
        },
        _ => panic!("expected a protocol error"),
    }
}

#[test]
fn unstructured_error_body_falls_back_to_unknown_with_raw_body() {
    let r = interpret_token_response(500, "gateway exploded");
    match r {
        Err(AuthError::ProtocolError { error, error_description }) => {
            assert_eq!(error, "unknown");
            assert_eq!(error_description, Some("gateway exploded".to_string()));
        },
        _ => panic!("expected a protocol error"),
    }
}

#[test]
fn malformed_success_body_is_a_parse_error() {
    assert!(matches!(
        interpret_token_response(200, "not json at all"),
        Err(AuthError::ParseError(_))
    ));
    assert!(matches!(
        interpret_token_response(200, "{\"access_token\":\"x\"}"),
        Err(AuthError::ParseError(_))
    ));
    assert!(matches!(
        interpret_token_response(200, "{\"access_token\":7,\"token_type\":\"b\"}"),
        Err(AuthError::ParseError(_))
    ));
}

#[test]
fn status_edges_of_the_2xx_range() {
    assert!(interpret_token_response(199, "{}").is_err());
    assert!(matches!(interpret_token_response(199, "{}"), Err(AuthError::ProtocolError { .. })));
    assert!(matches!(interpret_token_response(300, "{}"), Err(AuthError::ProtocolError { .. })));
    assert!(matches!(interpret_token_response(299, "x"), Err(AuthError::ParseError(_))));
}

#[test]
fn assembling_needs_both_required_fields() {
    assert!(assemble_token_response(
        None,
        Some("bearer".to_string()),
        None,
        None,
        None,
        None,
        None
    )
    .is_none());
    assert!(assemble_token_response(Some("a".to_string()), None, None, None, None, None, None)
        .is_none());
    let t = assemble_token_response(
        Some("a".to_string()),
        Some("bearer".to_string()),
        Some(1),
        None,
        None,
        None,
        None,
    )
    .expect("both required fields present");
    assert_eq!(t.access_token, "a");
    assert_eq!(t.expires_in, Some(1));
}

#[test]
fn assembling_errors_falls_back_to_the_raw_body() {
    let structured = assemble_error_response(
        Some("invalid_request".to_string()),
        Some("bad".to_string()),
        "ignored",
    );
    assert_eq!(structured.error, "invalid_request");
    assert_eq!(structured.error_description, Some("bad".to_string()));
    let fallback = assemble_error_response(None, None, "raw body text");
    assert_eq!(fallback.error, "unknown");
    assert_eq!(fallback.error_description, Some("raw body text".to_string()));
}

#[test]
fn begin_exchange_needs_a_stored_verifier() {
    let store = VerifierStore::new();
    assert!(matches!(
        begin_code_exchange(&store, "cid", "CODE", "http://localhost:8742/callback"),
        Err(AuthError::ConfigurationError)
    ));
}

#[test]
fn begin_exchange_builds_the_exact_form() {
    let mut store = VerifierStore::new();
    store.set("the-verifier".to_string());
    let params = begin_code_exchange(&store, "cid", "CODE", "http://localhost:8742/callback")
        .expect("verifier is stored");
    let expected: Vec<(String, String)> = vec![
        ("code".to_string(), "CODE".to_string()),
        ("grant_type".to_string(), "authorization_code".to_string()),
        ("client_id".to_string(), "cid".to_string()),
        ("redirect_uri".to_string(), "http://localhost:8742/callback".to_string()),
        ("code_verifier".to_string(), "the-verifier".to_string()),
    ];
    assert_eq!(params, expected);
    // Reading the verifier does not consume it.
    assert_eq!(store.peek(), Some("the-verifier".to_string()));
}

#[test]
fn finish_exchange_clears_only_on_success() {
    let mut store = VerifierStore::new();
    store.set("v".to_string());
    let bad = finish_code_exchange(&mut store, 503, "down");
    assert!(bad.is_err());
    assert_eq!(store.peek(), Some("v".to_string()));
    let good = finish_code_exchange(
        &mut store,
        200,
        "{\"access_token\":\"x\",\"token_type\":\"bearer\"}",
    );
    assert!(good.is_ok());
    assert_eq!(store.peek(), None);
}

#[test]
fn refresh_form_has_no_verifier() {
    let params = refresh_params("cid", "rtok");
    let expected: Vec<(String, String)> = vec![
        ("grant_type".to_string(), "refresh_token".to_string()),
        ("refresh_token".to_string(), "rtok".to_string()),
        ("client_id".to_string(), "cid".to_string()),
    ];
    assert_eq!(params, expected);
    assert_eq!(token_endpoint(), "https://api.dropboxapi.com/oauth2/token");
}

#[test]
fn budget_names_lose_their_sync_suffix() {
    assert_eq!(clean_budget_name("My Budget~B0DA1C4E"), "My Budget");
    assert_eq!(clean_budget_name("Plain"), "Plain");
    assert_eq!(clean_budget_name("~starts"), "");
}

#[test]
fn budget_paths_are_kept_once_in_first_seen_order() {
    let candidates = vec![
        BudgetInfo { name: "A~123".to_string(), path: "/p/a.ynab4".to_string() },
        BudgetInfo { name: "B".to_string(), path: "/p/b.ynab4".to_string() },
        BudgetInfo { name: "A again~456".to_string(), path: "/p/a.ynab4".to_string() },
    ];
    let out = collect_budgets(&candidates);
    assert_eq!(out.len(), 2);
    assert_eq!(out[0].name, "A");
    assert_eq!(out[0].path, "/p/a.ynab4");
    assert_eq!(out[1].name, "B");
}

#[test]
fn error_messages_name_their_cause() {
    assert_eq!(
        AuthError::ConfigurationError.message(),
        "No code verifier found - start auth first"
    );
    assert_eq!(
        AuthError::Timeout.message(),
        "OAuth timeout - no response received within 5 minutes"
    );
    assert_eq!(AuthError::PortUnavailable.message(), "Failed to start callback server");
    assert_eq!(AuthError::ProviderError("denied".to_string()).message(), "OAuth error: denied");
    assert_eq!(AuthError::TransportError("refused".to_string()).message(), "HTTP error: refused");
    assert_eq!(
        AuthError::ProtocolError {
            error: "invalid_grant".to_string(),
            error_description: Some("expired".to_string()),
        }
        .message(),
        "invalid_grant: expired"
    );
}

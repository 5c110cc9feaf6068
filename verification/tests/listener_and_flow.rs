use dropbox_pkce::error::AuthError;
use dropbox_pkce::flow::DesktopFlow;
use dropbox_pkce::flow::Verdict;
use dropbox_pkce::listener::handle_request;
use dropbox_pkce::listener::not_found_response;
use dropbox_pkce::listener::ok_response;
use dropbox_pkce::listener::CallbackDecision;
use dropbox_pkce::store::VerifierStore;

fn req(line: &str) -> Vec<u8> {
    line.as_bytes().to_vec()
}

#[test]
fn matching_state_yields_the_code() {
    let d = handle_request(&req("GET /callback?code=ABC&state=S1 HTTP/1.1"), &b"S1".to_vec());
    assert!(matches!(d, CallbackDecision::Success(c) if c.as_slice() == b"ABC"));
}

#[test]
fn foreign_state_keeps_the_listener_waiting() {
    let d = handle_request(&req("GET /callback?code=ABC&state=S1 HTTP/1.1"), &b"S2".to_vec());
    assert!(matches!(d, CallbackDecision::StateMismatch));
}

#[test]
fn provider_error_terminates_with_its_code() {
    let d = handle_request(&req("GET /callback?error=access_denied HTTP/1.1"), &b"S1".to_vec());
    assert!(matches!(d, CallbackDecision::ProviderError(e) if e.as_slice() == b"access_denied"));
}

#[test]
fn favicon_fetch_gets_404_and_waiting_goes_on() {
    let d = handle_request(&req("GET /favicon.ico HTTP/1.1"), &b"S1".to_vec());
    assert!(matches!(d, CallbackDecision::NotCallback));
}

#[test]
fn absent_state_is_accepted() {
    let d = handle_request(&req("GET /callback?code=ZZ9 HTTP/1.1"), &b"S1".to_vec());
    assert!(matches!(d, CallbackDecision::Success(c) if c.as_slice() == b"ZZ9"));
}

#[test]
fn callback_without_code_or_error_gets_404() {
    let d = handle_request(&req("GET /callback?state=S1 HTTP/1.1"), &b"S1".to_vec());
    assert!(matches!(d, CallbackDecision::NotCallback));
    let d2 = handle_request(&req("GET /callback HTTP/1.1"), &b"S1".to_vec());
    assert!(matches!(d2, CallbackDecision::NotCallback));
}

#[test]
fn empty_and_garbage_requests_get_404() {
    assert!(matches!(handle_request(&Vec::new(), &b"S1".to_vec()), CallbackDecision::NotCallback));
    assert!(matches!(
        handle_request(&req("POST /callback?code=A HTTP/1.1"), &b"S1".to_vec()),
        CallbackDecision::NotCallback
    ));
}

#[test]
fn later_duplicate_key_wins() {
    let d = handle_request(
        &req("GET /callback?code=FIRST&code=SECOND&state=S1 HTTP/1.1"),
        &b"S1".to_vec(),
    );
    assert!(matches!(d, CallbackDecision::Success(c) if c.as_slice() == b"SECOND"));
}

#[test]
fn error_wins_over_code() {
    let d = handle_request(
        &req("GET /callback?code=ABC&error=server_error&state=S1 HTTP/1.1"),
        &b"S1".to_vec(),
    );
    assert!(matches!(d, CallbackDecision::ProviderError(e) if e.as_slice() == b"server_error"));
}

#[test]
fn full_request_with_headers_parses_the_first_line_only() {
    let raw = b"GET /callback?code=OK7&state=st HTTP/1.1\r\nHost: localhost:8742\r\nAccept: */*\r\n\r\n"
        .to_vec();
    let d = handle_request(&raw, &b"st".to_vec());
    assert!(matches!(d, CallbackDecision::Success(c) if c.as_slice() == b"OK7"));
}

#[test]
fn ok_response_carries_exact_content_length() {
    let body = b"<html>hi</html>".to_vec();
    let resp = ok_response(&body);
    let text = String::from_utf8(resp).unwrap();
    assert!(text.starts_with("HTTP/1.1 200 OK\r\n"));
    assert!(text.contains("Content-Length: 15\r\n"));
    assert!(text.ends_with("\r\n\r\n<html>hi</html>"));
}

#[test]
fn not_found_response_is_the_fixed_one() {
    assert_eq!(
        not_found_response(),
        b"HTTP/1.1 404 Not Found\r\nContent-Length: 0\r\nConnection: close\r\n\r\n".to_vec()
    );
}

#[test]
fn desktop_flow_end_to_end_uses_the_generated_verifier() {
    let mut store = VerifierStore::new();
    let flow = DesktopFlow::start(&mut store, "fixed-client-id".to_string());
    let stored_verifier = store.peek().expect("verifier stored at flow start");
    assert_eq!(stored_verifier, flow.verifier);
    assert!(flow.auth_url.contains("code_challenge_method=S256"));
    assert!(!flow.auth_url.contains(&stored_verifier));

    // A stray request first: the listener answers 404 and keeps waiting.
    let stray = flow.handle_connection(&req("GET /favicon.ico HTTP/1.1"));
    assert!(matches!(stray.verdict, Verdict::KeepWaiting));
    assert!(stray.response.is_some());

    // A foreign state next: ignored silently, the wait goes on.
    let forged = flow.handle_connection(&req("GET /callback?code=EVIL&state=wrong HTTP/1.1"));
    assert!(matches!(forged.verdict, Verdict::KeepWaiting));
    assert!(forged.response.is_none());

    // The real callback, carrying the correct state and the code XYZ.
    let line = format!("GET /callback?code=XYZ&state={} HTTP/1.1", flow.state_token);
    let outcome = flow.handle_connection(&req(&line));
    let code = match outcome.verdict {
        Verdict::Code(c) => c,
        _ => panic!("expected the code"),
    };
    assert_eq!(code, "XYZ");
    let page = String::from_utf8(outcome.response.expect("success page written")).unwrap();
    assert!(page.contains("Connected"));

    // The exchange is invoked with code XYZ and the verifier from start.
    let params = flow.exchange_params_for(&code);
    assert!(params.contains(&("code".to_string(), "XYZ".to_string())));
    assert!(params.contains(&("code_verifier".to_string(), stored_verifier.clone())));
    assert!(params.contains(&("grant_type".to_string(), "authorization_code".to_string())));

    // A failed exchange leaves the verifier in place...
    let failed = flow.finish_exchange(&mut store, 400, "{\"error\":\"invalid_grant\"}");
    assert!(failed.is_err());
    assert_eq!(store.peek(), Some(stored_verifier));

    // ...and a successful one clears it.
    let ok = flow.finish_exchange(
        &mut store,
        200,
        "{\"access_token\":\"tok\",\"token_type\":\"bearer\"}",
    );
    assert!(ok.is_ok());
    assert!(store.peek().is_none());
}

#[test]
fn provider_denial_renders_the_error_page() {
    let mut store = VerifierStore::new();
    let flow = DesktopFlow::start(&mut store, "cid".to_string());
    let outcome = flow.handle_connection(&req("GET /callback?error=access_denied HTTP/1.1"));
    match outcome.verdict {
        Verdict::Failed(AuthError::ProviderError(m)) => assert_eq!(m, "access_denied"),
        _ => panic!("expected a terminal provider error"),
    }
    let page = String::from_utf8(outcome.response.expect("error page written")).unwrap();
    assert!(page.contains("access_denied"));
    assert!(page.starts_with("HTTP/1.1 200 OK\r\n"));
}

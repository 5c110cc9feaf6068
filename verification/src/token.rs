//! Token exchange: the exact form fields of the authorization-code and
//! refresh-token grants, and the interpretation of the provider's answer
//! (2xx bodies become token responses, anything else the structured
//! protocol error with its raw-body fallback).  The HTTP transport stays
//! outside the crate; these functions see only a status and a body.

use vstd::prelude::*;

use crate::error::AuthError;
use crate::store::VerifierStore;

verus! {

/// A successful token response from the provider.
pub struct DropboxTokenResponse {
    pub access_token: String,
    pub token_type: String,
    pub expires_in: Option<u64>,
    pub refresh_token: Option<String>,
    pub scope: Option<String>,
    pub uid: Option<String>,
    pub account_id: Option<String>,
}

/// A structured error body from the provider.
pub struct DropboxErrorResponse {
    pub error: String,
    pub error_description: Option<String>,
}

pub open spec fn opt_chars(o: Option<String>) -> Option<Seq<char>> {
    match o {
        Some(s) => Some(s@),
        None => None,
    }
}

#[verifier::external_type_specification]
#[verifier::external_body]
pub struct ExJsonValue(serde_json::Value);

#[verifier::external_type_specification]
#[verifier::external_body]
pub struct ExJsonError(serde_json::Error);

/// Relies on serde_json::from_str::<Value> to parse a JSON document; the
/// parsed value is opaque here, so nothing is claimed of it.
#[verifier::external_body]
fn json_parse(s: &str) -> (r: Result<serde_json::Value, serde_json::Error>) {
    serde_json::from_str::<serde_json::Value>(s)
}

/// Relies on serde_json::Error's Display rendering for its message.
#[verifier::external_body]
fn json_error_message(e: &serde_json::Error) -> (r: String) {
    e.to_string()
}

/// Relies on serde_json::Value::get with a string key: the member of a
/// JSON object under that key, when there is one.
#[verifier::external_body]
fn json_get<'a>(v: &'a serde_json::Value, key: &str) -> (r: Option<&'a serde_json::Value>) {
    v.get(key)
}

/// Relies on serde_json::Value::as_str: the content of a JSON string
/// value.
#[verifier::external_body]
fn json_as_string(v: &serde_json::Value) -> (r: Option<String>) {
    match v.as_str() {
        Some(s) => Some(s.to_owned()),
        None => None,
    }
}

/// Relies on serde_json::Value::as_u64: the content of a JSON number
/// value when it is a non-negative integer that fits.
#[verifier::external_body]
fn json_as_u64(v: &serde_json::Value) -> (r: Option<u64>) {
    v.as_u64()
}

fn get_string_field(v: &serde_json::Value, key: &str) -> Option<String> {
    match json_get(v, key) {
        Some(x) => json_as_string(x),
        None => None,
    }
}

fn get_u64_field(v: &serde_json::Value, key: &str) -> Option<u64> {
    match json_get(v, key) {
        Some(x) => json_as_u64(x),
        None => None,
    }
}

/// Assembles a token response from the fields read out of a 2xx body:
/// succeeds exactly when both required fields are present, and carries
/// every field through unchanged.
pub fn assemble_token_response(
    access_token: Option<String>,
    token_type: Option<String>,
    expires_in: Option<u64>,
    refresh_token: Option<String>,
    scope: Option<String>,
    uid: Option<String>,
    account_id: Option<String>,
) -> (r: Option<DropboxTokenResponse>)
    ensures
        r is Some <==> (access_token is Some && token_type is Some),
        r is Some ==> {
            let t = r->0;
            &&& t.access_token@ == access_token->0@
            &&& t.token_type@ == token_type->0@
            &&& t.expires_in == expires_in
            &&& opt_chars(t.refresh_token) == opt_chars(refresh_token)
            &&& opt_chars(t.scope) == opt_chars(scope)
            &&& opt_chars(t.uid) == opt_chars(uid)
            &&& opt_chars(t.account_id) == opt_chars(account_id)
        },
{
    match (access_token, token_type) {
        (Some(a), Some(t)) => Some(
            DropboxTokenResponse {
                access_token: a,
                token_type: t,
                expires_in,
                refresh_token,
                scope,
                uid,
                account_id,
            },
        ),
        _ => None,
    }
}

/// Builds the structured provider error from the fields read out of a
/// non-2xx body, falling back to the code `unknown` with the raw body as
/// description when the body held no `error` string.
pub fn assemble_error_response(
    error: Option<String>,
    error_description: Option<String>,
    raw_body: &str,
) -> (r: DropboxErrorResponse)
    ensures
        error is Some ==> r.error@ == error->0@ && opt_chars(r.error_description) == opt_chars(
            error_description,
        ),
        error is None ==> r.error@ == "unknown"@ && r.error_description is Some
            && r.error_description->0@ == raw_body@,
{
    match error {
        Some(e) => DropboxErrorResponse { error: e, error_description },
        None => DropboxErrorResponse {
            error: String::from_str("unknown"),
            error_description: Some(String::from_str(raw_body)),
        },
    }
}

/// A status in the 2xx range.
pub open spec fn spec_status_success(status: u16) -> bool {
    200 <= status < 300
}

pub fn status_is_success(status: u16) -> (r: bool)
    ensures
        r == spec_status_success(status),
{
    200 <= status && status < 300
}

/// Reads a 2xx body: a token response when the body is JSON carrying the
/// required string fields, otherwise a ParseError.
pub fn parse_token_body(body: &str) -> (r: Result<DropboxTokenResponse, AuthError>)
    ensures
        r is Err ==> r->Err_0 is ParseError,
{
    match json_parse(body) {
        Err(e) => Err(AuthError::ParseError(json_error_message(&e))),
        Ok(v) => {
            let access_token = get_string_field(&v, "access_token");
            let token_type = get_string_field(&v, "token_type");
            let expires_in = get_u64_field(&v, "expires_in");
            let refresh_token = get_string_field(&v, "refresh_token");
            let scope = get_string_field(&v, "scope");
            let uid = get_string_field(&v, "uid");
            let account_id = get_string_field(&v, "account_id");
            match assemble_token_response(
                access_token,
                token_type,
                expires_in,
                refresh_token,
                scope,
                uid,
                account_id,
            ) {
                Some(t) => Ok(t),
                None => Err(
                    AuthError::ParseError(
                        String::from_str("missing access_token or token_type"),
                    ),
                ),
            }
        },
    }
}

/// Reads a non-2xx body into the structured provider error, with the
/// `unknown` + raw-body fallback.
pub fn parse_error_body(body: &str) -> (r: DropboxErrorResponse) {
    match json_parse(body) {
        Ok(v) => {
            let error = get_string_field(&v, "error");
            let desc = get_string_field(&v, "error_description");
            assemble_error_response(error, desc, body)
        },
        Err(_) => assemble_error_response(None, None, body),
    }
}

/// Interprets the provider's answer to a token request: a 2xx body is
/// read as a token response and anything else becomes a ProtocolError,
/// if and only if.
pub fn interpret_token_response(status: u16, body: &str) -> (r: Result<
    DropboxTokenResponse,
    AuthError,
>)
    ensures
        !spec_status_success(status) ==> r is Err && r->Err_0 is ProtocolError,
        spec_status_success(status) && r is Err ==> r->Err_0 is ParseError,
{
    if status_is_success(status) {
        parse_token_body(body)
    } else {
        let er = parse_error_body(body);
        Err(AuthError::ProtocolError { error: er.error, error_description: er.error_description })
    }
}

/// The view of a form-field list: each pair as its characters.
pub open spec fn form_model(v: Seq<(String, String)>) -> Seq<(Seq<char>, Seq<char>)> {
    v.map_values(|p: (String, String)| (p.0@, p.1@))
}

/// The form fields of an authorization-code exchange, in order.
pub open spec fn exchange_form_model(
    client_id: Seq<char>,
    code: Seq<char>,
    redirect: Seq<char>,
    verifier: Seq<char>,
) -> Seq<(Seq<char>, Seq<char>)> {
    seq![
        ("code"@, code),
        ("grant_type"@, "authorization_code"@),
        ("client_id"@, client_id),
        ("redirect_uri"@, redirect),
        ("code_verifier"@, verifier),
    ]
}

/// The form fields of a refresh-token grant, in order; no verifier is
/// involved.
pub open spec fn refresh_form_model(client_id: Seq<char>, refresh_token: Seq<char>) -> Seq<
    (Seq<char>, Seq<char>),
> {
    seq![
        ("grant_type"@, "refresh_token"@),
        ("refresh_token"@, refresh_token),
        ("client_id"@, client_id),
    ]
}

/// The provider's token endpoint.
pub open spec fn token_endpoint_chars() -> Seq<char> {
    "https://api.dropboxapi.com/oauth2/token"@
}

pub fn token_endpoint() -> (r: &'static str)
    ensures
        r@ == token_endpoint_chars(),
{
    "https://api.dropboxapi.com/oauth2/token"
}

/// Builds the exact form fields of an authorization-code exchange.
pub fn exchange_params(client_id: &str, code: &str, redirect_uri: &str, verifier: &str) -> (r:
    Vec<(String, String)>)
    ensures
        form_model(r@) == exchange_form_model(client_id@, code@, redirect_uri@, verifier@),
{
    let mut v: Vec<(String, String)> = Vec::new();
    v.push((String::from_str("code"), String::from_str(code)));
    v.push((String::from_str("grant_type"), String::from_str("authorization_code")));
    v.push((String::from_str("client_id"), String::from_str(client_id)));
    v.push((String::from_str("redirect_uri"), String::from_str(redirect_uri)));
    v.push((String::from_str("code_verifier"), String::from_str(verifier)));
    proof {
        assert(form_model(v@) =~~= exchange_form_model(client_id@, code@, redirect_uri@,
        verifier@));
    }
    v
}

/// Builds the exact form fields of a refresh-token grant.
pub fn refresh_params(client_id: &str, refresh_token: &str) -> (r: Vec<(String, String)>)
    ensures
        form_model(r@) == refresh_form_model(client_id@, refresh_token@),
{
    let mut v: Vec<(String, String)> = Vec::new();
    v.push((String::from_str("grant_type"), String::from_str("refresh_token")));
    v.push((String::from_str("refresh_token"), String::from_str(refresh_token)));
    v.push((String::from_str("client_id"), String::from_str(client_id)));
    proof {
        assert(form_model(v@) =~~= refresh_form_model(client_id@, refresh_token@));
    }
    v
}

/// Prepares the command-flow code exchange: reads the stored verifier
/// without clearing it and yields the exact form fields; fails with
/// ConfigurationError exactly when no verifier is stored.
pub fn begin_code_exchange(
    store: &VerifierStore,
    client_id: &str,
    code: &str,
    redirect_uri: &str,
) -> (r: Result<Vec<(String, String)>, AuthError>)
    ensures
        store@ is Some ==> r is Ok && form_model(r->Ok_0@) == exchange_form_model(
            client_id@,
            code@,
            redirect_uri@,
            store@->0,
        ),
        store@ is None ==> r is Err && r->Err_0 is ConfigurationError,
{
    match store.peek() {
        Some(verifier) => Ok(exchange_params(client_id, code, redirect_uri, verifier.as_str())),
        None => Err(AuthError::ConfigurationError),
    }
}

/// Finishes a code exchange: interprets the provider's answer, and clears
/// the stored verifier exactly when a token response came back; a failed
/// exchange leaves the slot as it was.
pub fn finish_code_exchange(store: &mut VerifierStore, status: u16, body: &str) -> (r: Result<
    DropboxTokenResponse,
    AuthError,
>)
    ensures
        r is Ok ==> final(store)@ is None,
        r is Err ==> final(store)@ == old(store)@,
        !spec_status_success(status) ==> r is Err && r->Err_0 is ProtocolError,
        spec_status_success(status) && r is Err ==> r->Err_0 is ParseError,
{
    match interpret_token_response(status, body) {
        Ok(t) => {
            let _ = store.take();
            Ok(t)
        },
        Err(e) => Err(e),
    }
}

} // verus!

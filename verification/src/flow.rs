//! The desktop flow orchestrator's decisions: one object per attempt,
//! carrying the PKCE pair, the CSRF state and the authorize URL.  The
//! host binds the port, launches the browser, accepts connections and
//! performs the token POST; every decision in between — what a
//! connection means, what to write back, which form fields to send, and
//! when the stored verifier is cleared — is made here.

use vstd::prelude::*;

use crate::authurl::auth_url_chars;
use crate::authurl::build_auth_url;
use crate::authurl::desktop_redirect_chars;
use crate::authurl::desktop_redirect_uri;
use crate::authurl::url_encode;
use crate::authurl::url_encoded_of;
use crate::error::AuthError;
use crate::listener::error_page;
use crate::listener::handle_request;
use crate::listener::not_found_bytes;
use crate::listener::not_found_response;
use crate::listener::ok_response;
use crate::listener::ok_response_bytes;
use crate::listener::spec_decision;
use crate::listener::success_page;
use crate::listener::success_page_bytes;
use crate::listener::CallbackDecision;
use crate::listener::DecisionModel;
use crate::listener::error_page_bytes;
use crate::pkce::challenge_chars;
use crate::pkce::generate_code_challenge;
use crate::pkce::generate_code_verifier;
use crate::pkce::generate_state;
use crate::pkce::state_wf;
use crate::pkce::verifier_wf;
use crate::store::VerifierStore;
use crate::token::exchange_form_model;
use crate::token::exchange_params;
use crate::token::finish_code_exchange;
use crate::token::form_model;
use crate::token::spec_status_success;
use crate::token::DropboxTokenResponse;

verus! {

/// Seconds the desktop flow waits for a valid callback before giving up.
pub const OAUTH_TIMEOUT_SECS: u64 = 300;

/// What bytes decode to as text when invalid sequences are replaced: a
/// fixed function of the bytes, named here and computed only by the
/// outside decoder.
pub uninterp spec fn lossy_chars(b: Seq<u8>) -> Seq<char>;

/// Every byte below 128.
pub open spec fn all_ascii(b: Seq<u8>) -> bool {
    forall|i: int| 0 <= i < b.len() ==> b[i] < 128
}

/// Relies on String::from_utf8_lossy: the result is a function of the
/// bytes alone, and valid UTF-8 — so in particular ASCII — decodes
/// unchanged.
#[verifier::external_body]
fn bytes_to_string_lossy(b: &Vec<u8>) -> (r: String)
    ensures
        r@ == lossy_chars(b@),
        all_ascii(b@) ==> r@ == b@.map_values(|x: u8| x as char),
{
    String::from_utf8_lossy(b.as_slice()).into_owned()
}

/// How the flow reacts to one accepted connection.
pub enum Verdict {
    /// Keep waiting for another connection.
    KeepWaiting,
    /// The wait ends: the authorization code arrived.
    Code(String),
    /// The wait ends: the provider denied authorization.
    Failed(AuthError),
}

/// The exact bytes to write back on the accepted connection, if any, and
/// whether the wait ends.
pub struct ConnectionOutcome {
    pub response: Option<Vec<u8>>,
    pub verdict: Verdict,
}

pub open spec fn opt_resp(o: Option<Vec<u8>>) -> Option<Seq<u8>> {
    match o {
        Some(v) => Some(v@),
        None => None,
    }
}

/// One desktop authorization attempt.
pub struct DesktopFlow {
    pub client_id: String,
    pub verifier: String,
    pub state_token: String,
    pub state_bytes: Vec<u8>,
    pub auth_url: String,
}

impl DesktopFlow {
    /// A well-formed attempt: the state bytes are the state token's
    /// UTF-8, the verifier is a generated one, and the URL is the
    /// authorize URL of exactly this attempt, over the percent-encoded
    /// loopback redirect.
    pub open spec fn wf(self) -> bool {
        &&& self.state_bytes@ == vstd::utf8::encode_utf8(self.state_token@)
        &&& verifier_wf(self.verifier@)
        &&& state_wf(self.state_token@)
        &&& self.auth_url@ == auth_url_chars(
            self.client_id@,
            url_encoded_of(desktop_redirect_chars()),
            challenge_chars(self.verifier@),
            self.state_token@,
        )
    }

    /// Starts the desktop flow: generates the PKCE pair and the CSRF
    /// state, stores the verifier — overwriting any attempt still in
    /// flight — and builds the authorize URL.
    pub fn start(store: &mut VerifierStore, client_id: String) -> (f: DesktopFlow)
        ensures
            f.wf(),
            f.client_id@ == client_id@,
            final(store)@ == Some(f.verifier@),
    {
        let verifier = generate_code_verifier();
        let challenge = generate_code_challenge(verifier.as_str());
        let state = generate_state();
        let redirect = desktop_redirect_uri();
        let encoded = url_encode(redirect.as_str());
        let url = build_auth_url(
            client_id.as_str(),
            encoded.as_str(),
            challenge.as_str(),
            state.as_str(),
        );
        let state_bytes = state.as_str().as_bytes_vec();
        store.set(verifier.clone());
        DesktopFlow {
            client_id,
            verifier,
            state_token: state,
            state_bytes,
            auth_url: url,
        }
    }

    /// Decides what one accepted connection means for this attempt, and
    /// what to write back: a 404 for anything that is not a callback, the
    /// error page and a terminal ProviderError when the provider reported
    /// one, silence for a foreign state token, and the success page with
    /// the code when the state matches or was absent.
    pub fn handle_connection(&self, request: &Vec<u8>) -> (o: ConnectionOutcome)
        requires
            self.wf(),
        ensures
            ({
                let d = spec_decision(request@, vstd::utf8::encode_utf8(self.state_token@));
                match d {
                    DecisionModel::NotCallback => o.verdict is KeepWaiting && opt_resp(o.response)
                        == Some(not_found_bytes()),
                    DecisionModel::StateMismatch => o.verdict is KeepWaiting && o.response is None,
                    DecisionModel::ProviderError(e) => opt_resp(o.response) == Some(
                        ok_response_bytes(error_page_bytes(e)),
                    ) && (o.verdict matches Verdict::Failed(err) && err matches
                        AuthError::ProviderError(m) && m@ == lossy_chars(e)),
                    DecisionModel::Success(c) => opt_resp(o.response) == Some(
                        ok_response_bytes(success_page_bytes()),
                    ) && (o.verdict matches Verdict::Code(s) && s@ == lossy_chars(c)),
                }
            }),
    {
        match handle_request(request, &self.state_bytes) {
            CallbackDecision::NotCallback => ConnectionOutcome {
                response: Some(not_found_response()),
                verdict: Verdict::KeepWaiting,
            },
            CallbackDecision::StateMismatch => ConnectionOutcome {
                response: None,
                verdict: Verdict::KeepWaiting,
            },
            CallbackDecision::ProviderError(e) => {
                let page = error_page(&e);
                let resp = ok_response(&page);
                let msg = bytes_to_string_lossy(&e);
                ConnectionOutcome {
                    response: Some(resp),
                    verdict: Verdict::Failed(AuthError::ProviderError(msg)),
                }
            },
            CallbackDecision::Success(c) => {
                let page = success_page();
                let resp = ok_response(&page);
                let code = bytes_to_string_lossy(&c);
                ConnectionOutcome { response: Some(resp), verdict: Verdict::Code(code) }
            },
        }
    }

    /// The exact form fields for exchanging the code this flow received:
    /// the verifier is this attempt's own, and the redirect URI the
    /// loopback one, unencoded.
    pub fn exchange_params_for(&self, code: &str) -> (r: Vec<(String, String)>)
        ensures
            form_model(r@) == exchange_form_model(
                self.client_id@,
                code@,
                desktop_redirect_chars(),
                self.verifier@,
            ),
    {
        let redirect = desktop_redirect_uri();
        exchange_params(self.client_id.as_str(), code, redirect.as_str(), self.verifier.as_str())
    }

    /// Finishes the exchange: interprets the provider's answer; the
    /// stored verifier is cleared only when a token response came back,
    /// and left intact on every failure.
    pub fn finish_exchange(&self, store: &mut VerifierStore, status: u16, body: &str) -> (r:
        Result<DropboxTokenResponse, AuthError>)
        ensures
            r is Ok ==> final(store)@ is None,
            r is Err ==> final(store)@ == old(store)@,
            !spec_status_success(status) ==> r is Err && r->Err_0 is ProtocolError,
            spec_status_success(status) && r is Err ==> r->Err_0 is ParseError,
    {
        finish_code_exchange(store, status, body)
    }
}

} // verus!

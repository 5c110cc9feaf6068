//! Building the provider's authorize-endpoint URL, and starting an
//! authorization attempt for the desktop (loopback redirect) and mobile
//! (custom-scheme redirect) variants.

use vstd::prelude::*;

use crate::pkce::challenge_chars;
use crate::pkce::generate_code_challenge;
use crate::pkce::generate_code_verifier;
use crate::pkce::generate_state;
use crate::pkce::state_wf;
use crate::pkce::verifier_wf;
use crate::store::VerifierStore;

verus! {

/// The TCP port the desktop flow's loopback listener binds.
pub const OAUTH_CALLBACK_PORT: u16 = 8742;

/// The loopback redirect URI of the desktop flow.
pub open spec fn desktop_redirect_chars() -> Seq<char> {
    "http://localhost:8742/callback"@
}

pub fn desktop_redirect_uri() -> (r: String)
    ensures
        r@ == desktop_redirect_chars(),
{
    String::from_str("http://localhost:8742/callback")
}

/// The custom-scheme redirect URI registered with the mobile OS.
pub open spec fn mobile_redirect_chars() -> Seq<char> {
    "ynab4viewer://oauth/callback"@
}

pub fn mobile_redirect_uri() -> (r: String)
    ensures
        r@ == mobile_redirect_chars(),
{
    String::from_str("ynab4viewer://oauth/callback")
}

/// Percent-encoding as the outside encoder performs it: a fixed function
/// of the characters, named here and never interpreted.
pub uninterp spec fn url_encoded_of(s: Seq<char>) -> Seq<char>;

/// Relies on urlencoding::encode: percent-encodes every byte except ASCII
/// alphanumerics and `-`, `_`, `.`, `~`; a function of the input alone.
#[verifier::external_body]
pub(crate) fn url_encode(s: &str) -> (r: String)
    ensures
        r@ == url_encoded_of(s@),
{
    urlencoding::encode(s).into_owned()
}

/// The authorize-endpoint URL: the provider's endpoint, then the client
/// id, the redirect URI, `response_type=code`, the S256 challenge and
/// method, offline token access, and the CSRF state.
pub open spec fn auth_url_chars(
    client_id: Seq<char>,
    redirect: Seq<char>,
    challenge: Seq<char>,
    state: Seq<char>,
) -> Seq<char> {
    "https://www.dropbox.com/oauth2/authorize?client_id="@ + client_id + "&redirect_uri="@
        + redirect + "&response_type=code&code_challenge="@ + challenge
        + "&code_challenge_method=S256&token_access_type=offline&state="@ + state
}

/// Assembles the authorize URL; the verifier itself is not an input, only
/// its derived challenge is.
pub fn build_auth_url(client_id: &str, redirect: &str, challenge: &str, state: &str) -> (r:
    String)
    ensures
        r@ == auth_url_chars(client_id@, redirect@, challenge@, state@),
{
    let mut url = String::from_str("https://www.dropbox.com/oauth2/authorize?client_id=");
    url.append(client_id);
    url.append("&redirect_uri=");
    url.append(redirect);
    url.append("&response_type=code&code_challenge=");
    url.append(challenge);
    url.append("&code_challenge_method=S256&token_access_type=offline&state=");
    url.append(state);
    proof {
        assert(url@ =~= auth_url_chars(client_id@, redirect@, challenge@, state@));
    }
    url
}

/// The authorization URL to open in the browser, with the CSRF state
/// bound to this attempt.
pub struct DropboxAuthUrl {
    pub url: String,
    pub state: String,
}

/// Starts an authorization attempt: generates a fresh PKCE pair and CSRF
/// state, stores the verifier (overwriting any attempt still in flight),
/// and returns the authorize URL for the given redirect URI, which the
/// caller supplies already in the form it is to appear in the URL.
pub fn dropbox_start_auth(store: &mut VerifierStore, client_id: &str, redirect_uri: &str) -> (r:
    DropboxAuthUrl)
    ensures
        final(store)@ is Some,
        verifier_wf(final(store)@->0),
        state_wf(r.state@),
        r.url@ == auth_url_chars(
            client_id@,
            redirect_uri@,
            challenge_chars(final(store)@->0),
            r.state@,
        ),
{
    let verifier = generate_code_verifier();
    let challenge = generate_code_challenge(verifier.as_str());
    let state = generate_state();
    let url = build_auth_url(client_id, redirect_uri, challenge.as_str(), state.as_str());
    store.set(verifier);
    DropboxAuthUrl { url, state }
}

/// Starts the mobile (deep-link) authorization attempt: as
/// `dropbox_start_auth`, but the redirect URI is the fixed custom scheme,
/// percent-encoded into the URL.  Always succeeds.
pub fn dropbox_get_auth_url(store: &mut VerifierStore, client_id: &str) -> (r: Result<
    DropboxAuthUrl,
    crate::error::AuthError,
>)
    ensures
        r is Ok,
        final(store)@ is Some,
        verifier_wf(final(store)@->0),
        state_wf(r->Ok_0.state@),
        r->Ok_0.url@ == auth_url_chars(
            client_id@,
            url_encoded_of(mobile_redirect_chars()),
            challenge_chars(final(store)@->0),
            r->Ok_0.state@,
        ),
{
    let verifier = generate_code_verifier();
    let challenge = generate_code_challenge(verifier.as_str());
    let state = generate_state();
    let redirect = mobile_redirect_uri();
    let encoded = url_encode(redirect.as_str());
    let url = build_auth_url(client_id, encoded.as_str(), challenge.as_str(), state.as_str());
    store.set(verifier);
    Ok(DropboxAuthUrl { url, state })
}

/// The marker every authorize URL carries.
pub open spec fn s256_marker() -> Seq<char> {
    "code_challenge_method=S256"@
}

/// Every authorization URL contains `code_challenge_method=S256` as a
/// contiguous block of characters, whatever the client id, redirect URI,
/// challenge and state are.
pub proof fn lemma_auth_url_has_s256(
    client_id: Seq<char>,
    redirect: Seq<char>,
    challenge: Seq<char>,
    state: Seq<char>,
)
    ensures
        exists|i: int|
            0 <= i && i + s256_marker().len() <= auth_url_chars(
                client_id,
                redirect,
                challenge,
                state,
            ).len() && #[trigger] auth_url_chars(client_id, redirect, challenge, state).subrange(
                i,
                i + s256_marker().len(),
            ) == s256_marker(),
{
    reveal_strlit("code_challenge_method=S256");
    reveal_strlit("&code_challenge_method=S256&token_access_type=offline&state=");
    let url = auth_url_chars(client_id, redirect, challenge, state);
    let tail = "&code_challenge_method=S256&token_access_type=offline&state="@;
    let base = "https://www.dropbox.com/oauth2/authorize?client_id="@.len() + client_id.len()
        + "&redirect_uri="@.len() + redirect.len() + "&response_type=code&code_challenge="@.len()
        + challenge.len();
    let i: int = (base + 1) as int;
    assert forall|j: int| 0 <= j < s256_marker().len() implies url[i + j] == s256_marker()[j] by {
        assert(url[base + (1 + j)] == tail[1 + j]);
    }
    assert(url.subrange(i, i + s256_marker().len() as int) =~= s256_marker());
}

} // verus!

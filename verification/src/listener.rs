//! The loopback callback listener's decision core: parsing the request
//! line of one accepted connection, collecting the `code`, `state` and
//! `error` query values, validating the CSRF state, and building the
//! exact HTTP response bytes to write back.
//!
//! Only the request line is parsed; headers and body are ignored, and
//! query values are not percent-decoded.  The surrounding accept loop and
//! all socket I/O stay outside the crate.

use vstd::prelude::*;

use crate::digits::dec_bytes_of;
use crate::digits::usize_to_dec_bytes;
use crate::seqs::begins_with;
use crate::seqs::bytes_eq;
use crate::seqs::find_block;
use crate::seqs::find_block_in;
use crate::seqs::find_byte;
use crate::seqs::find_index;
use crate::seqs::lemma_find_block;
use crate::seqs::lemma_find_index;
use crate::seqs::sub_vec;
use vstd::string::StrSliceExecFns;
use vstd::string::StringSliceAdditionalSpecFns;

verus! {

/// The request line: the bytes before the first line feed, with one
/// trailing carriage return stripped.
pub open spec fn request_line(req: Seq<u8>) -> Seq<u8> {
    let cut = match find_index(req, ('\n' as u8)) {
        Some(i) => i,
        None => req.len() as int,
    };
    let line = req.take(cut);
    if line.len() > 0 && line.last() == ('\r' as u8) {
        line.drop_last()
    } else {
        line
    }
}

/// `GET /callback`
pub open spec fn callback_prefix() -> Seq<u8> {
    seq![('G' as u8), ('E' as u8), ('T' as u8), (' ' as u8), ('/' as u8), ('c' as u8), ('a' as u8), ('l' as u8), ('l' as u8), ('b' as u8), ('a' as u8), ('c' as u8), ('k' as u8)]
}

/// ` HTTP`
pub open spec fn http_marker() -> Seq<u8> {
    seq![(' ' as u8), ('H' as u8), ('T' as u8), ('T' as u8), ('P' as u8)]
}

pub open spec fn key_code() -> Seq<u8> {
    seq![('c' as u8), ('o' as u8), ('d' as u8), ('e' as u8)]
}

pub open spec fn key_state() -> Seq<u8> {
    seq![('s' as u8), ('t' as u8), ('a' as u8), ('t' as u8), ('e' as u8)]
}

pub open spec fn key_error() -> Seq<u8> {
    seq![('e' as u8), ('r' as u8), ('r' as u8), ('o' as u8), ('r' as u8)]
}

/// The query part of a callback request line whose first `?` stands at
/// `qpos`: the bytes between that `?` and the ` HTTP` marker, up to the
/// line's end when the marker is missing, and empty when the marker
/// stands before the `?`.
pub open spec fn query_of(line: Seq<u8>, qpos: int) -> Seq<u8> {
    let qend = match find_block(line, http_marker()) {
        Some(e) => if e >= qpos + 1 {
            e
        } else {
            qpos + 1
        },
        None => line.len() as int,
    };
    line.subrange(qpos + 1, qend)
}

/// The `code`, `state` and `error` values found so far, in that order.
pub open spec fn apply_segment(
    acc: (Option<Seq<u8>>, Option<Seq<u8>>, Option<Seq<u8>>),
    seg: Seq<u8>,
) -> (Option<Seq<u8>>, Option<Seq<u8>>, Option<Seq<u8>>) {
    match find_index(seg, ('=' as u8)) {
        None => acc,
        Some(i) => {
            let key = seg.take(i);
            let val = seg.skip(i + 1);
            if key == key_code() {
                (Some(val), acc.1, acc.2)
            } else if key == key_state() {
                (acc.0, Some(val), acc.2)
            } else if key == key_error() {
                (acc.0, acc.1, Some(val))
            } else {
                acc
            }
        },
    }
}

/// Walks the `&`-separated segments of a query left to right, letting a
/// later occurrence of a key overwrite an earlier one.
pub open spec fn scan_params(
    q: Seq<u8>,
    acc: (Option<Seq<u8>>, Option<Seq<u8>>, Option<Seq<u8>>),
) -> (Option<Seq<u8>>, Option<Seq<u8>>, Option<Seq<u8>>)
    decreases q.len(),
    via scan_params_dec
{
    match find_index(q, ('&' as u8)) {
        Some(i) => scan_params(q.skip(i + 1), apply_segment(acc, q.take(i))),
        None => apply_segment(acc, q),
    }
}

#[via_fn]
proof fn scan_params_dec(q: Seq<u8>, acc: (Option<Seq<u8>>, Option<Seq<u8>>, Option<Seq<u8>>)) {
    lemma_find_index(q, ('&' as u8));
}

/// The abstract outcome of one accepted connection.
pub enum DecisionModel {
    /// Not a callback request: answer 404, keep waiting.
    NotCallback,
    /// The provider reported an error: answer the error page, stop.
    ProviderError(Seq<u8>),
    /// A state token other than this attempt's: keep waiting silently.
    StateMismatch,
    /// The authorization code arrived with matching or absent state:
    /// answer the success page, stop.
    Success(Seq<u8>),
}

/// The listener's decision for one raw request, given the state expected
/// for this attempt.
pub open spec fn spec_decision(req: Seq<u8>, expected_state: Seq<u8>) -> DecisionModel {
    let line = request_line(req);
    if !begins_with(line, callback_prefix()) {
        DecisionModel::NotCallback
    } else {
        match find_index(line, ('?' as u8)) {
            None => DecisionModel::NotCallback,
            Some(qpos) => {
                let params = scan_params(query_of(line, qpos), (None, None, None));
                if params.2 is Some {
                    DecisionModel::ProviderError(params.2->0)
                } else if params.1 is Some && params.1->0 != expected_state {
                    DecisionModel::StateMismatch
                } else if params.0 is Some {
                    DecisionModel::Success(params.0->0)
                } else {
                    DecisionModel::NotCallback
                }
            },
        }
    }
}

/// A callback carrying a state token other than the expected one is
/// never terminal, whatever else the query holds beside an error: the
/// decision is exactly StateMismatch, and the listener keeps waiting.
pub proof fn lemma_foreign_state_never_terminates(req: Seq<u8>, expected: Seq<u8>)
    requires
        ({
            let line = request_line(req);
            &&& begins_with(line, callback_prefix())
            &&& find_index(line, ('?' as u8)) is Some
            &&& ({
                let params = scan_params(
                    query_of(line, find_index(line, ('?' as u8))->0),
                    (None, None, None),
                );
                &&& params.2 is None
                &&& params.1 is Some
                &&& params.1->0 != expected
            })
        }),
    ensures
        spec_decision(req, expected) is StateMismatch,
{
}

/// The listener hands out a code only when the redirect carried no state
/// at all or exactly the expected one: a forged state never ends the
/// wait with a code.
pub proof fn lemma_success_needs_matching_state(req: Seq<u8>, expected: Seq<u8>)
    ensures
        spec_decision(req, expected) matches DecisionModel::Success(c) ==> ({
            let line = request_line(req);
            let params = scan_params(
                query_of(line, find_index(line, ('?' as u8))->0),
                (None, None, None),
            );
            &&& params.0 == Some(c)
            &&& (params.1 is None || params.1->0 == expected)
        }),
{
}

/// The executable outcome of one accepted connection.
pub enum CallbackDecision {
    NotCallback,
    ProviderError(Vec<u8>),
    StateMismatch,
    Success(Vec<u8>),
}

impl View for CallbackDecision {
    type V = DecisionModel;

    open spec fn view(&self) -> DecisionModel {
        match self {
            CallbackDecision::NotCallback => DecisionModel::NotCallback,
            CallbackDecision::ProviderError(e) => DecisionModel::ProviderError(e@),
            CallbackDecision::StateMismatch => DecisionModel::StateMismatch,
            CallbackDecision::Success(c) => DecisionModel::Success(c@),
        }
    }
}

spec fn opt_bytes(o: Option<Vec<u8>>) -> Option<Seq<u8>> {
    match o {
        Some(v) => Some(v@),
        None => None,
    }
}

fn apply_segment_exec(
    seg: &Vec<u8>,
    code: Option<Vec<u8>>,
    state: Option<Vec<u8>>,
    error: Option<Vec<u8>>,
) -> (r: (Option<Vec<u8>>, Option<Vec<u8>>, Option<Vec<u8>>))
    ensures
        (opt_bytes(r.0), opt_bytes(r.1), opt_bytes(r.2)) == apply_segment(
            (opt_bytes(code), opt_bytes(state), opt_bytes(error)),
            seg@,
        ),
{
    match find_byte(seg, ('=' as u8)) {
        None => (code, state, error),
        Some(i) => {
            proof {
                lemma_find_index(seg@, ('=' as u8));
            }
            let n = seg.len();
            let key = sub_vec(seg, 0, i);
            let val = sub_vec(seg, i + 1, n);
            let kc: Vec<u8> = vec![('c' as u8), ('o' as u8), ('d' as u8), ('e' as u8)];
            let ks: Vec<u8> = vec![('s' as u8), ('t' as u8), ('a' as u8), ('t' as u8), ('e' as u8)];
            let ke: Vec<u8> = vec![('e' as u8), ('r' as u8), ('r' as u8), ('o' as u8), ('r' as u8)];
            proof {
                assert(kc@ =~= key_code());
                assert(ks@ =~= key_state());
                assert(ke@ =~= key_error());
            }
            if bytes_eq(&key, &kc) {
                (Some(val), state, error)
            } else if bytes_eq(&key, &ks) {
                (code, Some(val), error)
            } else if bytes_eq(&key, &ke) {
                (code, state, Some(val))
            } else {
                (code, state, error)
            }
        },
    }
}

fn scan_params_exec(
    q: Vec<u8>,
    code: Option<Vec<u8>>,
    state: Option<Vec<u8>>,
    error: Option<Vec<u8>>,
) -> (r: (Option<Vec<u8>>, Option<Vec<u8>>, Option<Vec<u8>>))
    ensures
        (opt_bytes(r.0), opt_bytes(r.1), opt_bytes(r.2)) == scan_params(
            q@,
            (opt_bytes(code), opt_bytes(state), opt_bytes(error)),
        ),
    decreases q@.len(),
{
    match find_byte(&q, ('&' as u8)) {
        Some(i) => {
            proof {
                lemma_find_index(q@, ('&' as u8));
            }
            let n = q.len();
            let seg = sub_vec(&q, 0, i);
            let (c2, s2, e2) = apply_segment_exec(&seg, code, state, error);
            let tail = sub_vec(&q, i + 1, n);
            scan_params_exec(tail, c2, s2, e2)
        },
        None => apply_segment_exec(&q, code, state, error),
    }
}

/// Decides what one accepted connection means for this attempt: the exact
/// decision `spec_decision` gives for the raw bytes read.
pub fn handle_request(req: &Vec<u8>, expected_state: &Vec<u8>) -> (d: CallbackDecision)
    ensures
        d@ == spec_decision(req@, expected_state@),
{
    // Request line: cut at the first line feed, strip one trailing
    // carriage return.
    let cut = match find_byte(req, ('\n' as u8)) {
        Some(i) => i,
        None => req.len(),
    };
    proof {
        lemma_find_index(req@, ('\n' as u8));
    }
    let full = sub_vec(req, 0, cut);
    let end = if full.len() > 0 && full[full.len() - 1] == ('\r' as u8) {
        cut - 1
    } else {
        cut
    };
    let line = sub_vec(req, 0, end);
    proof {
        assert(line@ =~= request_line(req@));
    }

    // Only `GET /callback` lines are callbacks at all.
    let prefix: Vec<u8> = vec![('G' as u8), ('E' as u8), ('T' as u8), (' ' as u8), ('/' as u8), ('c' as u8), ('a' as u8), ('l' as u8), ('l' as u8), ('b' as u8), ('a' as u8),
        ('c' as u8), ('k' as u8)];
    proof {
        assert(prefix@ =~= callback_prefix());
    }
    if line.len() < prefix.len() {
        return CallbackDecision::NotCallback;
    }
    let head = sub_vec(&line, 0, prefix.len());
    if !bytes_eq(&head, &prefix) {
        proof {
            assert(line@.take(callback_prefix().len() as int) == head@);
        }
        return CallbackDecision::NotCallback;
    }
    proof {
        assert(begins_with(line@, callback_prefix()));
    }

    // The query sits between the first `?` and the ` HTTP` marker.
    let qpos = match find_byte(&line, ('?' as u8)) {
        Some(i) => i,
        None => {
            return CallbackDecision::NotCallback;
        },
    };
    proof {
        lemma_find_index(line@, ('?' as u8));
    }
    let marker: Vec<u8> = vec![(' ' as u8), ('H' as u8), ('T' as u8), ('T' as u8), ('P' as u8)];
    proof {
        assert(marker@ =~= http_marker());
    }
    let qend = match find_block_in(&line, &marker) {
        Some(e) => if e >= qpos + 1 {
            e
        } else {
            qpos + 1
        },
        None => line.len(),
    };
    proof {
        lemma_find_block(line@, http_marker());
    }
    let query = sub_vec(&line, qpos + 1, qend);
    proof {
        assert(query@ == query_of(line@, qpos as int));
    }

    let (code, state, error) = scan_params_exec(query, None, None, None);

    if let Some(e) = error {
        return CallbackDecision::ProviderError(e);
    }
    if let Some(s) = state {
        if !bytes_eq(&s, expected_state) {
            return CallbackDecision::StateMismatch;
        }
        if let Some(c) = code {
            return CallbackDecision::Success(c);
        }
        return CallbackDecision::NotCallback;
    }
    if let Some(c) = code {
        return CallbackDecision::Success(c);
    }
    CallbackDecision::NotCallback
}

/// Bytes of a `200 OK` response carrying an HTML body: the header names
/// the body's exact length.
pub open spec fn ok_response_bytes(body: Seq<u8>) -> Seq<u8> {
    "HTTP/1.1 200 OK\r\nContent-Type: text/html; charset=utf-8\r\nContent-Length: ".spec_bytes()
        + dec_bytes_of(body.len()) + "\r\nConnection: close\r\n\r\n".spec_bytes() + body
}

/// Builds the `200 OK` response around an HTML body.
pub fn ok_response(body: &Vec<u8>) -> (r: Vec<u8>)
    ensures
        r@ == ok_response_bytes(body@),
{
    let mut r = "HTTP/1.1 200 OK\r\nContent-Type: text/html; charset=utf-8\r\nContent-Length: ".as_bytes_vec();
    let mut lenb = usize_to_dec_bytes(body.len());
    r.append(&mut lenb);
    let mut mid = "\r\nConnection: close\r\n\r\n".as_bytes_vec();
    r.append(&mut mid);
    let mut b = sub_vec(body, 0, body.len());
    proof {
        assert(b@ =~= body@);
    }
    r.append(&mut b);
    proof {
        assert(r@ =~= ok_response_bytes(body@));
    }
    r
}

/// The response to anything that is not a callback request.
pub open spec fn not_found_bytes() -> Seq<u8> {
    "HTTP/1.1 404 Not Found\r\nContent-Length: 0\r\nConnection: close\r\n\r\n".spec_bytes()
}

pub fn not_found_response() -> (r: Vec<u8>)
    ensures
        r@ == not_found_bytes(),
{
    "HTTP/1.1 404 Not Found\r\nContent-Length: 0\r\nConnection: close\r\n\r\n".as_bytes_vec()
}

/// The static HTML page confirming a completed authorization.
pub open spec fn success_page_bytes() -> Seq<u8> {
    "<!DOCTYPE html><html><head><title>Connected</title></head><body><h1>Connected to Dropbox</h1><p>You can close this window and return to the application.</p></body></html>".spec_bytes()
}

pub fn success_page() -> (r: Vec<u8>)
    ensures
        r@ == success_page_bytes(),
{
    "<!DOCTYPE html><html><head><title>Connected</title></head><body><h1>Connected to Dropbox</h1><p>You can close this window and return to the application.</p></body></html>".as_bytes_vec()
}

/// The static HTML page shown when the provider reported an error; the
/// error's bytes stand in the page as they arrived.
pub open spec fn error_page_bytes(err: Seq<u8>) -> Seq<u8> {
    "<!DOCTYPE html><html><head><title>Error</title></head><body><h1>Authorization error</h1><p>".spec_bytes()
        + err + "</p><p>You can close this window.</p></body></html>".spec_bytes()
}

pub fn error_page(err: &Vec<u8>) -> (r: Vec<u8>)
    ensures
        r@ == error_page_bytes(err@),
{
    let mut r = "<!DOCTYPE html><html><head><title>Error</title></head><body><h1>Authorization error</h1><p>".as_bytes_vec();
    let mut e = sub_vec(err, 0, err.len());
    proof {
        assert(e@ =~= err@);
    }
    r.append(&mut e);
    let mut tail = "</p><p>You can close this window.</p></body></html>".as_bytes_vec();
    r.append(&mut tail);
    proof {
        assert(r@ =~= error_page_bytes(err@));
    }
    r
}

} // verus!


//! The request dispatcher: it prepares each backend's upstream call, and
//! maps every upstream outcome into the one uniform reply the HTTP surface
//! sends. The two routes differ on purpose: only the direct route relays an
//! upstream non-success status and body verbatim; the chain route collapses
//! every failure into an opaque internal error.

use vstd::prelude::*;
use vstd::string::StringExecFns;
use crate::encode::{spec_answer_body, spec_error_body, spec_direct_request_body, answer_body,
    error_body, direct_request_body};
use crate::extract::{spec_answer_text, spec_extract_answer, spec_no_answer, extract_answer,
    no_answer_text};
use crate::json::{JsonValue, json_of, parse_json};

verus! {

/// What a backend call can fail with, before the dispatcher maps it.
#[derive(Debug)]
pub enum UpstreamError {
    MissingCredential,
    NetworkFailure(String),
    NonSuccessStatus(u16, String),
    MalformedResponse(String),
}

/// The uniform success value: the one normalized answer.
pub struct AnswerResult {
    pub answer: String,
}

/// The reply the HTTP surface must send: a status, whether the body is a
/// JSON envelope or plain diagnostic text, and the body itself.
pub struct HttpReply {
    pub status: u16,
    pub json: bool,
    pub body: String,
}

/// The prepared direct-backend call: where to send, the authorization
/// header value, and the serialized request body.
pub struct DirectRequest {
    pub url: String,
    pub auth: String,
    pub body: String,
}

/// What came back from the direct backend's network round trip: a transport
/// failure, or a status together with the body text where one could be read.
pub enum DirectOutcome {
    SendFailed(String),
    Response(u16, Option<String>),
}

/// What came back from the chain backend: a run failure, a failure to
/// resolve the deferred result, or the resolved primary text output.
pub enum ChainOutcome {
    RunFailed(String),
    ResolveFailed(String),
    Resolved(Option<String>),
}

/// An HTTP status in the success range.
pub open spec fn spec_is_success(status: u16) -> bool {
    200 <= status && status < 300
}

/// The fixed system-prompt template of the chain backend, with the question
/// substituted into its one slot.
pub fn chain_prompt(question: &str) -> (r: String)
    ensures
        r@ == "You are a helpful assistant. Answer concisely:\n"@ + question@,
{
    let mut out = "You are a helpful assistant. Answer concisely:\n".to_owned();
    out.append(question);
    out
}

/// Prepares the direct backend's call, failing fast where the credential is
/// absent, before any network work.
pub fn direct_request(question: &str, api_key: Option<&str>) -> (r: Result<
    DirectRequest,
    UpstreamError,
>)
    ensures
        ({
            match api_key {
                None => r matches Err(e) && e matches UpstreamError::MissingCredential,
                Some(k) => r matches Ok(req) && req.url@
                    == "https://api.groq.com/openai/v1/chat/completions"@ && req.auth@
                    == "Bearer "@ + k@ && req.body@ == spec_direct_request_body(question@),
            }
        }),
{
    match api_key {
        None => Err(UpstreamError::MissingCredential),
        Some(k) => {
            let mut auth = "Bearer ".to_owned();
            auth.append(k);
            Ok(DirectRequest {
                url: "https://api.groq.com/openai/v1/chat/completions".to_owned(),
                auth,
                body: direct_request_body(question),
            })
        },
    }
}

/// Classifies the direct backend's outcome: a transport failure, a
/// non-success status with its body kept verbatim, an unreadable or
/// unparseable success body, or the parsed document.
pub fn direct_backend_result(outcome: DirectOutcome) -> (r: Result<JsonValue, UpstreamError>)
    ensures
        ({
            match outcome {
                DirectOutcome::SendFailed(m) => r matches Err(e) && e
                    matches UpstreamError::NetworkFailure(m2) && m2@ == m@,
                DirectOutcome::Response(st, body) => if !spec_is_success(st) {
                    r matches Err(e) && e matches UpstreamError::NonSuccessStatus(st2, b2) && st2
                        == st && b2@ == (match body {
                        Some(b) => b@,
                        None => "Unknown error"@,
                    })
                } else {
                    match body {
                        Some(b) => (match json_of(b@) {
                            Some(v) => r == Ok::<JsonValue, UpstreamError>(v),
                            None => r matches Err(e) && e matches UpstreamError::MalformedResponse(
                                m2,
                            ) && m2@ == "Failed to parse response"@,
                        }),
                        None => r matches Err(e) && e matches UpstreamError::MalformedResponse(m2)
                            && m2@ == "Failed to parse response"@,
                    }
                },
            }
        }),
{
    match outcome {
        DirectOutcome::SendFailed(m) => Err(UpstreamError::NetworkFailure(m)),
        DirectOutcome::Response(st, body) => {
            if !(200 <= st && st < 300) {
                let b = match body {
                    Some(b) => b,
                    None => "Unknown error".to_owned(),
                };
                Err(UpstreamError::NonSuccessStatus(st, b))
            } else {
                match body {
                    Some(b) => match parse_json(b.as_str()) {
                        Some(v) => Ok(v),
                        None => Err(
                            UpstreamError::MalformedResponse("Failed to parse response".to_owned()),
                        ),
                    },
                    None => Err(
                        UpstreamError::MalformedResponse("Failed to parse response".to_owned()),
                    ),
                }
            }
        },
    }
}

/// Normalizes a parsed direct-backend document into the uniform answer.
pub fn answer_from_document(v: &JsonValue) -> (r: AnswerResult)
    ensures
        r.answer@ == spec_extract_answer(*v),
{
    AnswerResult { answer: extract_answer(v) }
}

/// Normalizes the chain backend's resolved primary output into the uniform
/// answer, substituting the fallback where the output is absent or empty.
pub fn chain_answer(primary: Option<String>) -> (r: AnswerResult)
    ensures
        r.answer@ == spec_answer_text(
            match primary {
                Some(s) => Some(s@),
                None => None,
            },
        ),
{
    match primary {
        Some(s) => {
            if s.as_str().is_empty() {
                AnswerResult { answer: no_answer_text() }
            } else {
                AnswerResult { answer: s }
            }
        },
        None => AnswerResult { answer: no_answer_text() },
    }
}

/// The success reply: status 200 with the answer envelope.
pub fn ok_reply(a: &AnswerResult) -> (r: HttpReply)
    ensures
        r.status == 200 && r.json && r.body@ == spec_answer_body(a.answer@),
{
    HttpReply { status: 200, json: true, body: answer_body(a.answer.as_str()) }
}

/// The dispatcher's error mapping for the direct route: a non-success
/// status is re-emitted verbatim with its body in the error envelope;
/// everything else becomes an internal error.
pub fn direct_error_reply(e: &UpstreamError) -> (r: HttpReply)
    ensures
        ({
            match *e {
                UpstreamError::MissingCredential => r.status == 500 && !r.json && r.body@
                    == "GROQ_API_KEY not set"@,
                UpstreamError::NetworkFailure(m) => r.status == 500 && !r.json && r.body@
                    == "Request failed: "@ + m@,
                UpstreamError::NonSuccessStatus(st, b) => r.status == st && r.json && r.body@
                    == spec_error_body(b@),
                UpstreamError::MalformedResponse(m) => r.status == 500 && !r.json && r.body@ == m@,
            }
        }),
{
    match e {
        UpstreamError::MissingCredential => HttpReply {
            status: 500,
            json: false,
            body: "GROQ_API_KEY not set".to_owned(),
        },
        UpstreamError::NetworkFailure(m) => {
            let mut body = "Request failed: ".to_owned();
            body.append(m.as_str());
            HttpReply { status: 500, json: false, body }
        },
        UpstreamError::NonSuccessStatus(st, b) => HttpReply {
            status: *st,
            json: true,
            body: error_body(b.as_str()),
        },
        UpstreamError::MalformedResponse(m) => HttpReply {
            status: 500,
            json: false,
            body: m.clone(),
        },
    }
}

/// The whole direct route after the network round trip, as one function of
/// the outcome alone.
pub open spec fn spec_direct_reply(o: DirectOutcome) -> (u16, bool, Seq<char>) {
    match o {
        DirectOutcome::SendFailed(m) => (500u16, false, "Request failed: "@ + m@),
        DirectOutcome::Response(st, body) => if !spec_is_success(st) {
            (
                st,
                true,
                spec_error_body(
                    match body {
                        Some(b) => b@,
                        None => "Unknown error"@,
                    },
                ),
            )
        } else {
            match body {
                Some(b) => match json_of(b@) {
                    Some(v) => (200u16, true, spec_answer_body(spec_extract_answer(v))),
                    None => (500u16, false, "Failed to parse response"@),
                },
                None => (500u16, false, "Failed to parse response"@),
            }
        },
    }
}

/// Maps the direct backend's outcome to the reply the caller sees.
pub fn dispatch_direct_response(outcome: DirectOutcome) -> (r: HttpReply)
    ensures
        (r.status, r.json, r.body@) == spec_direct_reply(outcome),
{
    match direct_backend_result(outcome) {
        Ok(v) => {
            let a = answer_from_document(&v);
            ok_reply(&a)
        },
        Err(e) => direct_error_reply(&e),
    }
}

/// The whole chain route after the upstream run, as one function of the
/// outcome alone.
pub open spec fn spec_chain_reply(o: ChainOutcome) -> (u16, bool, Seq<char>) {
    match o {
        ChainOutcome::RunFailed(m) => (500u16, false, m@),
        ChainOutcome::ResolveFailed(m) => (500u16, false, m@),
        ChainOutcome::Resolved(t) => (
            200u16,
            true,
            spec_answer_body(
                spec_answer_text(
                    match t {
                        Some(s) => Some(s@),
                        None => None,
                    },
                ),
            ),
        ),
    }
}

/// Maps the chain backend's outcome to the reply the caller sees: any
/// upstream or resolution failure becomes an opaque internal error, never a
/// verbatim pass-through and never the fallback answer.
pub fn dispatch_chain_response(outcome: ChainOutcome) -> (r: HttpReply)
    ensures
        (r.status, r.json, r.body@) == spec_chain_reply(outcome),
{
    match outcome {
        ChainOutcome::RunFailed(m) => HttpReply { status: 500, json: false, body: m },
        ChainOutcome::ResolveFailed(m) => HttpReply { status: 500, json: false, body: m },
        ChainOutcome::Resolved(t) => {
            let a = chain_answer(t);
            ok_reply(&a)
        },
    }
}

/// For every upstream 200 whose body parses to a document that carries a
/// non-empty content string, the direct route replies 200 with exactly
/// that content in the answer envelope.
pub proof fn lemma_direct_success_returns_content(body: String, v: JsonValue, c: Seq<char>)
    requires
        json_of(body@) == Some(v),
        crate::extract::spec_content(v) == Some(c),
        c.len() > 0,
    ensures
        spec_direct_reply(DirectOutcome::Response(200, Some(body))) == (
            200u16,
            true,
            spec_answer_body(c),
        ),
{
}

/// For every upstream 200 whose body parses but carries no content string,
/// the direct route still replies 200, with the fallback answer in the
/// envelope: a malformed-but-parseable body never fails the request.
pub proof fn lemma_direct_malformed_never_errors(body: String, v: JsonValue)
    requires
        json_of(body@) == Some(v),
        crate::extract::spec_content(v) is None,
    ensures
        spec_direct_reply(DirectOutcome::Response(200, Some(body))) == (
            200u16,
            true,
            spec_answer_body(spec_no_answer()),
        ),
{
}

/// For every upstream non-success status whose body could be read, the
/// direct route re-emits the same status, with the body text wrapped
/// verbatim in the error envelope.
pub proof fn lemma_direct_pass_through(st: u16, body: String)
    requires
        !spec_is_success(st),
    ensures
        spec_direct_reply(DirectOutcome::Response(st, Some(body))) == (
            st,
            true,
            spec_error_body(body@),
        ),
{
}

/// A chain-route failure, at the run or at the resolution step, is an
/// internal error: the chain route never passes an upstream status through
/// and never degrades a failure to the fallback answer.
pub proof fn lemma_chain_failure_is_internal(m: String)
    ensures
        spec_chain_reply(ChainOutcome::RunFailed(m)).0 == 500,
        spec_chain_reply(ChainOutcome::ResolveFailed(m)).0 == 500,
{
}

/// Replies are a function of the upstream outcome alone: two requests that
/// see the same outcome get the same reply, on either route.
pub proof fn lemma_replies_deterministic(d1: DirectOutcome, d2: DirectOutcome, c1: ChainOutcome,
    c2: ChainOutcome)
    requires
        d1 == d2,
        c1 == c2,
    ensures
        spec_direct_reply(d1) == spec_direct_reply(d2),
        spec_chain_reply(c1) == spec_chain_reply(c2),
{
}

} // verus!

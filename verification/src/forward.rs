//! Addressing the upstream call and reading what came back from it.
//!
//! The call itself is made by the embedding server. This module says where it
//! goes and what it carries, and afterwards what the transport's report
//! amounts to.

use vstd::prelude::*;
use vstd::string::StringExecFns;
use crate::error::{result_view, GatewayError, GatewayErrorView};
use crate::schema::{text_of, Body, BodyView};

verus! {

/// The root of the upstream service's addresses.
pub const UPSTREAM_BASE: &'static str = "https://generativelanguage.googleapis.com/v1beta";

/// The model that a request is sent to when it names none.
pub const DEFAULT_MODEL: &'static str = "gemini-2.0-flash";

/// The content type of the upstream call's body.
pub const JSON_CONTENT_TYPE: &'static str = "application/json";

/// The body recorded for an upstream failure whose own body could not be read.
pub const UNREADABLE_BODY: &'static str = "Could not read error body";

/// The model that a request is sent to: its own, or the default.
pub open spec fn effective_model(body: BodyView) -> Seq<char> {
    match body.model {
        Some(model) => model,
        None => DEFAULT_MODEL@,
    }
}

/// The address of the generation endpoint for a model, with the credential as
/// its `key` query parameter. Model and credential are embedded as they are.
pub open spec fn url_for(model: Seq<char>, credential: Seq<char>) -> Seq<char> {
    UPSTREAM_BASE@ + "/models/"@ + model + ":generateContent?key="@ + credential
}

/// An upstream call that is ready to be made: a POST to `url` with the
/// request as its body, serialized under `content_type`.
#[derive(Debug, Clone, PartialEq, Eq)]
pub struct UpstreamCall {
    pub url: String,
    pub content_type: String,
    pub body: Body,
}

/// What an [`UpstreamCall`] holds.
pub ghost struct UpstreamCallView {
    pub url: Seq<char>,
    pub content_type: Seq<char>,
    pub body: BodyView,
}

impl View for UpstreamCall {
    type V = UpstreamCallView;

    open spec fn view(&self) -> UpstreamCallView {
        UpstreamCallView { url: self.url@, content_type: self.content_type@, body: self.body@ }
    }
}

/// The call that forwards a request under a credential.
pub open spec fn planned_call(body: BodyView, credential: Seq<char>) -> UpstreamCallView {
    UpstreamCallView {
        url: url_for(effective_model(body), credential),
        content_type: JSON_CONTENT_TYPE@,
        body,
    }
}

/// The model that a request is sent to.
pub fn resolve_model(body: &Body) -> (model: &str)
    ensures
        model@ == effective_model(body@),
        body@.model is None ==> model@ == DEFAULT_MODEL@,
{
    match &body.model {
        Some(model) => model.as_str(),
        None => DEFAULT_MODEL,
    }
}

/// Builds the address of the generation endpoint for a model.
pub fn upstream_url(model: &str, credential: &str) -> (url: String)
    ensures
        url@ == url_for(model@, credential@),
{
    let mut url = String::from_str(UPSTREAM_BASE);
    url.append("/models/");
    url.append(model);
    url.append(":generateContent?key=");
    url.append(credential);
    url
}

/// Prepares the upstream call for a request. The request travels unchanged;
/// only the address depends on its model.
pub fn prepare(body: Body, credential: &str) -> (call: UpstreamCall)
    ensures
        call@ == planned_call(body@, credential@),
        body@.model is None ==> call@.url == url_for(DEFAULT_MODEL@, credential@),
{
    let url = upstream_url(resolve_model(&body), credential);
    UpstreamCall { url, content_type: String::from_str(JSON_CONTENT_TYPE), body }
}

/// What the transport reports of one upstream call.
#[derive(Debug, Clone, PartialEq, Eq)]
pub enum Exchange {
    /// No response was obtained: the connection, the name lookup, the
    /// handshake or the sending of the body failed.
    Failed,
    /// A response arrived. `body` is its text, or `None` if reading it failed.
    Answered { status: u16, body: Option<String> },
}

/// What an [`Exchange`] holds.
pub ghost enum ExchangeView {
    Failed,
    Answered { status: u16, body: Option<Seq<char>> },
}

impl View for Exchange {
    type V = ExchangeView;

    open spec fn view(&self) -> ExchangeView {
        match *self {
            Exchange::Failed => ExchangeView::Failed,
            Exchange::Answered { status, body } => ExchangeView::Answered {
                status,
                body: text_of(body),
            },
        }
    }
}

/// How an upstream call ended.
#[derive(Debug, Clone, PartialEq, Eq)]
pub enum UpstreamOutcome {
    /// The upstream service answered with a success status. The body is kept
    /// as it came and never looked into.
    Success(String),
    /// The upstream service answered with another status.
    HttpFailure { status: u16, body: String },
    /// No usable response was obtained.
    TransportFailure,
}

/// What an [`UpstreamOutcome`] holds.
pub ghost enum UpstreamOutcomeView {
    Success(Seq<char>),
    HttpFailure { status: u16, body: Seq<char> },
    TransportFailure,
}

impl View for UpstreamOutcome {
    type V = UpstreamOutcomeView;

    open spec fn view(&self) -> UpstreamOutcomeView {
        match *self {
            UpstreamOutcome::Success(body) => UpstreamOutcomeView::Success(body@),
            UpstreamOutcome::HttpFailure { status, body } => UpstreamOutcomeView::HttpFailure {
                status,
                body: body@,
            },
            UpstreamOutcome::TransportFailure => UpstreamOutcomeView::TransportFailure,
        }
    }
}

/// Whether an HTTP status reports success: the codes from 200 to 299.
pub open spec fn success_status(status: u16) -> bool {
    200 <= status < 300
}

/// Whether an HTTP status reports success.
pub fn is_success(status: u16) -> (success: bool)
    ensures
        success == success_status(status),
{
    200 <= status && status < 300
}

/// How a call ended, given the transport's report.
///
/// A success status with a readable body is a success, and the body is the
/// response's text. A success status whose body could not be read counts as a
/// transport failure. Any other status is an HTTP failure that records the
/// status and the body, or a fixed placeholder where the body is unreadable.
pub open spec fn outcome_of(exchange: ExchangeView) -> UpstreamOutcomeView {
    match exchange {
        ExchangeView::Failed => UpstreamOutcomeView::TransportFailure,
        ExchangeView::Answered { status, body } => if success_status(status) {
            match body {
                Some(text) => UpstreamOutcomeView::Success(text),
                None => UpstreamOutcomeView::TransportFailure,
            }
        } else {
            UpstreamOutcomeView::HttpFailure {
                status,
                body: match body {
                    Some(text) => text,
                    None => UNREADABLE_BODY@,
                },
            }
        },
    }
}

/// The body of a successful call, or the error that stands for a failed one.
pub open spec fn result_of(outcome: UpstreamOutcomeView) -> Result<Seq<char>, GatewayErrorView> {
    match outcome {
        UpstreamOutcomeView::Success(body) => Ok(body),
        UpstreamOutcomeView::HttpFailure { status, body } => Err(
            GatewayErrorView::UpstreamHttpError { status, body },
        ),
        UpstreamOutcomeView::TransportFailure => Err(GatewayErrorView::UpstreamTransportError),
    }
}

impl UpstreamOutcome {
    /// The body of a successful call, or the error that stands for a failed
    /// one.
    pub fn into_result(self) -> (result: Result<String, GatewayError>)
        ensures
            result_view(result) == result_of(self@),
    {
        match self {
            UpstreamOutcome::Success(body) => Ok(body),
            UpstreamOutcome::HttpFailure { status, body } => Err(
                GatewayError::UpstreamHttpError { status, body },
            ),
            UpstreamOutcome::TransportFailure => Err(GatewayError::UpstreamTransportError),
        }
    }
}

/// Reads the transport's report of an upstream call.
pub fn interpret(exchange: Exchange) -> (outcome: UpstreamOutcome)
    ensures
        outcome@ == outcome_of(exchange@),
{
    match exchange {
        Exchange::Failed => UpstreamOutcome::TransportFailure,
        Exchange::Answered { status, body } => {
            if is_success(status) {
                match body {
                    Some(text) => UpstreamOutcome::Success(text),
                    None => UpstreamOutcome::TransportFailure,
                }
            } else {
                match body {
                    Some(text) => UpstreamOutcome::HttpFailure { status, body: text },
                    None => UpstreamOutcome::HttpFailure {
                        status,
                        body: String::from_str(UNREADABLE_BODY),
                    },
                }
            }
        },
    }
}

} // verus!

//! The course of one request through the gateway.
//!
//! A request is received, classified, decoded under the shape it announces,
//! forwarded, and answered. The gateway decides; the embedding server acts.
//! Each function here takes what the server has just learnt and returns the
//! [`Step`] that the server is to take next, until that step is
//! [`Step::Respond`]. A request that fails anywhere is answered at once and
//! goes no further.

use vstd::prelude::*;
use crate::classify::{classify, kind_of_keys, object_keys, RequestKind};
use crate::error::{GatewayError, GatewayErrorView};
use crate::forward::{
    interpret, outcome_of, planned_call, prepare, result_of, success_status, url_for, Exchange,
    ExchangeView, UpstreamCall, UpstreamCallView, DEFAULT_MODEL,
};
use crate::relay::{accept, acceptance, reject, rejection, Reply, ReplyView};
use crate::schema::{adapt, convert_legacy_to_gemini, Body, BodyView, LegacyBody, LegacyBodyView};

verus! {

/// What the server is to do next for a request.
#[derive(Debug, Clone, PartialEq, Eq)]
pub enum Step {
    /// Decode the body as a content-list request and report the result to
    /// [`canonical_decoded`].
    DecodeCanonical,
    /// Decode the body as a message-list request and report the result to
    /// [`legacy_decoded`].
    DecodeLegacy,
    /// Make this upstream call and report how it went to [`answered`].
    Forward(UpstreamCall),
    /// Send this reply; the request is done. `error` says why the request
    /// failed, if it did. It is for the server's records and never for the
    /// caller.
    Respond { reply: Reply, error: Option<GatewayError> },
}

/// What a [`Step`] holds.
pub ghost enum StepView {
    DecodeCanonical,
    DecodeLegacy,
    Forward(UpstreamCallView),
    Respond { reply: ReplyView, error: Option<GatewayErrorView> },
}

impl View for Step {
    type V = StepView;

    open spec fn view(&self) -> StepView {
        match *self {
            Step::DecodeCanonical => StepView::DecodeCanonical,
            Step::DecodeLegacy => StepView::DecodeLegacy,
            Step::Forward(call) => StepView::Forward(call@),
            Step::Respond { reply, error } => StepView::Respond {
                reply: reply@,
                error: match error {
                    Some(e) => Some(e@),
                    None => None,
                },
            },
        }
    }
}

/// What a decoded content-list request holds, if decoding gave one.
pub open spec fn canonical_view(decoded: Option<Body>) -> Option<BodyView> {
    match decoded {
        Some(body) => Some(body@),
        None => None,
    }
}

/// What a decoded message-list request holds, if decoding gave one.
pub open spec fn legacy_view(decoded: Option<LegacyBody>) -> Option<LegacyBodyView> {
    match decoded {
        Some(legacy) => Some(legacy@),
        None => None,
    }
}

/// The last step of a request that succeeded upstream.
pub open spec fn succeeded(body: Seq<char>) -> StepView {
    StepView::Respond { reply: acceptance(body), error: None }
}

/// The last step of a request that failed.
pub open spec fn failed(error: GatewayErrorView) -> StepView {
    StepView::Respond { reply: rejection(error), error: Some(error) }
}

/// The step after a body with the given top-level keys has arrived.
pub open spec fn step_after_receipt(keys: Set<Seq<char>>) -> StepView {
    match kind_of_keys(keys) {
        RequestKind::Canonical => StepView::DecodeCanonical,
        RequestKind::Legacy => StepView::DecodeLegacy,
        RequestKind::Unrecognized => failed(GatewayErrorView::UnrecognizedFormat),
    }
}

/// The step after decoding a content-list request: it is forwarded as it is,
/// or refused if decoding failed.
pub open spec fn step_after_canonical(decoded: Option<BodyView>, credential: Seq<char>) -> StepView {
    match decoded {
        Some(body) => StepView::Forward(planned_call(body, credential)),
        None => failed(GatewayErrorView::MalformedCanonical),
    }
}

/// The step after decoding a message-list request: it is rewritten and
/// forwarded, or refused if decoding failed.
pub open spec fn step_after_legacy(decoded: Option<LegacyBodyView>, credential: Seq<char>) -> StepView {
    match decoded {
        Some(legacy) => StepView::Forward(planned_call(adapt(legacy), credential)),
        None => failed(GatewayErrorView::MalformedLegacy),
    }
}

/// The step after the upstream call: always the last one.
pub open spec fn step_after_exchange(exchange: ExchangeView) -> StepView {
    match result_of(outcome_of(exchange)) {
        Ok(body) => succeeded(body),
        Err(error) => failed(error),
    }
}

/// A body with neither member is unrecognized and is answered with 400.
pub proof fn lemma_neither_key_is_refused(keys: Set<Seq<char>>)
    requires
        !keys.contains("contents"@),
        !keys.contains("messages"@),
    ensures
        kind_of_keys(keys) == RequestKind::Unrecognized,
        step_after_receipt(keys) == failed(GatewayErrorView::UnrecognizedFormat),
        step_after_receipt(keys)->reply.status == 400,
{
}

/// A request is answered with the upstream body exactly when the upstream
/// service sent a success status and its body could be read. Every other
/// report is answered with 500.
pub proof fn lemma_relayed_iff_upstream_succeeded(exchange: ExchangeView)
    ensures
        step_after_exchange(exchange) is Respond,
        step_after_exchange(exchange)->reply.status == 200 || step_after_exchange(
            exchange,
        )->reply.status == 500,
        step_after_exchange(exchange)->reply.status == 200 <==> (exchange matches ExchangeView::Answered {
            status,
            body: Some(text),
        } && success_status(status) && step_after_exchange(exchange)->reply.body == text),
{
}

/// Ends a request that failed.
fn fail(error: GatewayError) -> (step: Step)
    ensures
        step@ == failed(error@),
{
    let reply = reject(&error);
    Step::Respond { reply, error: Some(error) }
}

/// Takes in the body of a request and says under which shape to decode it.
/// A body that announces neither shape is refused at once.
pub fn receive(body: &serde_json::Value) -> (step: Step)
    ensures
        step@ == step_after_receipt(object_keys(*body)),
        object_keys(*body).contains("contents"@) ==> step@ is DecodeCanonical,
        !object_keys(*body).contains("contents"@) && object_keys(*body).contains("messages"@)
            ==> step@ is DecodeLegacy,
        !object_keys(*body).contains("contents"@) && !object_keys(*body).contains("messages"@)
            ==> step@ is Respond && step@->reply.status == 400 && step@->error == Some(
            GatewayErrorView::UnrecognizedFormat,
        ),
{
    match classify(body) {
        RequestKind::Canonical => Step::DecodeCanonical,
        RequestKind::Legacy => Step::DecodeLegacy,
        RequestKind::Unrecognized => fail(GatewayError::UnrecognizedFormat),
    }
}

/// Takes in the result of decoding a content-list request, `None` if the
/// body could not be decoded as one.
pub fn canonical_decoded(decoded: Option<Body>, credential: &str) -> (step: Step)
    ensures
        step@ == step_after_canonical(canonical_view(decoded), credential@),
        decoded is Some && decoded->0@.model is None ==> step@ is Forward && step@->Forward_0.url
            == url_for(DEFAULT_MODEL@, credential@),
        decoded is None ==> step@ is Respond && step@->reply.status == 400,
{
    match decoded {
        Some(body) => Step::Forward(prepare(body, credential)),
        None => fail(GatewayError::MalformedCanonical),
    }
}

/// Takes in the result of decoding a message-list request, `None` if the
/// body could not be decoded as one.
pub fn legacy_decoded(decoded: Option<LegacyBody>, credential: &str) -> (step: Step)
    ensures
        step@ == step_after_legacy(legacy_view(decoded), credential@),
        decoded is Some && decoded->0@.model is None ==> step@ is Forward && step@->Forward_0.url
            == url_for(DEFAULT_MODEL@, credential@),
        decoded is None ==> step@ is Respond && step@->reply.status == 400,
{
    match decoded {
        Some(legacy) => {
            let body = convert_legacy_to_gemini(&legacy);
            Step::Forward(prepare(body, credential))
        },
        None => fail(GatewayError::MalformedLegacy),
    }
}

/// Takes in the transport's report of the upstream call and answers the
/// caller: with the upstream body on success, and with the one fixed failure
/// message otherwise.
pub fn answered(exchange: Exchange) -> (step: Step)
    ensures
        step@ == step_after_exchange(exchange@),
        step@ is Respond,
{
    match interpret(exchange).into_result() {
        Ok(body) => Step::Respond { reply: accept(body), error: None },
        Err(error) => fail(error),
    }
}

} // verus!

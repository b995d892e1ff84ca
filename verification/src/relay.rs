//! Turning the result of a request into the answer for the caller.

use vstd::prelude::*;
use vstd::string::StringExecFns;
use crate::error::{result_view, GatewayError, GatewayErrorView};
use crate::forward::JSON_CONTENT_TYPE;
use crate::schema::text_of;

verus! {

/// The status of an answer that relays an upstream response.
pub const STATUS_OK: u16 = 200;

/// The status of an answer to a request that the caller got wrong.
pub const STATUS_BAD_REQUEST: u16 = 400;

/// The status of an answer to a request whose upstream call failed.
pub const STATUS_UPSTREAM_FAILED: u16 = 500;

/// Told to a caller whose body has neither expected member.
pub const UNRECOGNIZED_MESSAGE: &'static str =
    "Request must contain either 'contents' (Gemini format) or 'messages' (legacy format)";

/// Told to a caller whose content-list request could not be decoded.
pub const MALFORMED_CANONICAL_MESSAGE: &'static str = "Invalid Gemini format";

/// Told to a caller whose message-list request could not be decoded.
pub const MALFORMED_LEGACY_MESSAGE: &'static str = "Invalid legacy format";

/// Told to a caller whose request failed upstream, whatever the cause.
pub const UPSTREAM_FAILED_MESSAGE: &'static str = "Failed to communicate with Gemini API.";

/// The answer that goes back to the caller.
#[derive(Debug, Clone, PartialEq, Eq)]
pub struct Reply {
    pub status: u16,
    /// The content type to announce, where the answer has one.
    pub content_type: Option<String>,
    pub body: String,
}

/// What a [`Reply`] holds.
pub ghost struct ReplyView {
    pub status: u16,
    pub content_type: Option<Seq<char>>,
    pub body: Seq<char>,
}

impl View for Reply {
    type V = ReplyView;

    open spec fn view(&self) -> ReplyView {
        ReplyView { status: self.status, content_type: text_of(self.content_type), body: self.body@ }
    }
}

/// The answer that relays an upstream response: its body as it came, marked
/// as structured data.
pub open spec fn acceptance(body: Seq<char>) -> ReplyView {
    ReplyView { status: STATUS_OK, content_type: Some(JSON_CONTENT_TYPE@), body }
}

/// The answer to a failed request.
///
/// A request that the caller got wrong is answered with 400 and a message
/// that names what was wrong with it. A failure of the upstream call is
/// answered with 500 and one fixed message: neither the upstream status nor
/// the upstream body reaches the caller.
pub open spec fn rejection(error: GatewayErrorView) -> ReplyView {
    ReplyView {
        status: if error.is_callers_fault() {
            STATUS_BAD_REQUEST
        } else {
            STATUS_UPSTREAM_FAILED
        },
        content_type: None,
        body: match error {
            GatewayErrorView::UnrecognizedFormat => UNRECOGNIZED_MESSAGE@,
            GatewayErrorView::MalformedCanonical => MALFORMED_CANONICAL_MESSAGE@,
            GatewayErrorView::MalformedLegacy => MALFORMED_LEGACY_MESSAGE@,
            GatewayErrorView::UpstreamHttpError { .. } => UPSTREAM_FAILED_MESSAGE@,
            GatewayErrorView::UpstreamTransportError => UPSTREAM_FAILED_MESSAGE@,
        },
    }
}

/// The answer to a request, given its result.
pub open spec fn reply_for(result: Result<Seq<char>, GatewayErrorView>) -> ReplyView {
    match result {
        Ok(body) => acceptance(body),
        Err(error) => rejection(error),
    }
}

/// Every answer carries one of three statuses: 200 for a relayed upstream
/// response, 400 for a request that the caller got wrong, 500 for a failed
/// upstream call.
pub proof fn lemma_reply_status(result: Result<Seq<char>, GatewayErrorView>)
    ensures
        reply_for(result).status == 200 <==> result is Ok,
        reply_for(result).status == 400 <==> result is Err && result->Err_0.is_callers_fault(),
        reply_for(result).status == 500 <==> result is Err && !result->Err_0.is_callers_fault(),
{
}

/// Nothing of a failed upstream call reaches the caller: whatever status and
/// body the upstream service sent, the answer is the one given for a call
/// that got no response at all.
pub proof fn lemma_upstream_failure_is_opaque(status: u16, body: Seq<char>)
    ensures
        rejection(GatewayErrorView::UpstreamHttpError { status, body }) == rejection(
            GatewayErrorView::UpstreamTransportError,
        ),
        rejection(GatewayErrorView::UpstreamTransportError) == (ReplyView {
            status: 500,
            content_type: None,
            body: UPSTREAM_FAILED_MESSAGE@,
        }),
{
}

/// Answers with an upstream response.
pub fn accept(body: String) -> (reply: Reply)
    ensures
        reply@ == acceptance(body@),
{
    Reply {
        status: STATUS_OK,
        content_type: Some(String::from_str(JSON_CONTENT_TYPE)),
        body,
    }
}

/// Answers a failed request.
pub fn reject(error: &GatewayError) -> (reply: Reply)
    ensures
        reply@ == rejection(error@),
        error@.is_callers_fault() ==> reply.status == 400,
        !error@.is_callers_fault() ==> reply.status == 500 && reply@.body
            == UPSTREAM_FAILED_MESSAGE@,
{
    let status = if error.is_callers_fault() {
        STATUS_BAD_REQUEST
    } else {
        STATUS_UPSTREAM_FAILED
    };
    let message = match error {
        GatewayError::UnrecognizedFormat => UNRECOGNIZED_MESSAGE,
        GatewayError::MalformedCanonical => MALFORMED_CANONICAL_MESSAGE,
        GatewayError::MalformedLegacy => MALFORMED_LEGACY_MESSAGE,
        GatewayError::UpstreamHttpError { .. } => UPSTREAM_FAILED_MESSAGE,
        GatewayError::UpstreamTransportError => UPSTREAM_FAILED_MESSAGE,
    };
    Reply { status, content_type: None, body: String::from_str(message) }
}

/// Answers a request, given its result.
pub fn relay(result: Result<String, GatewayError>) -> (reply: Reply)
    ensures
        reply@ == reply_for(result_view(result)),
{
    match result {
        Ok(body) => accept(body),
        Err(error) => reject(&error),
    }
}

} // verus!

//! The ways in which a request can fail.

use vstd::prelude::*;

verus! {

/// Why a request was not answered with an upstream response.
///
/// The first three are the caller's fault and are told to the caller. The
/// last two are failures of the upstream call: the caller learns only that
/// it failed, and the detail held here is for the server's own records.
#[derive(Debug, Clone, PartialEq, Eq)]
pub enum GatewayError {
    /// The body has neither of the two expected members.
    UnrecognizedFormat,
    /// The body has a `contents` member but is no content-list request.
    MalformedCanonical,
    /// The body has a `messages` member but is no message-list request.
    MalformedLegacy,
    /// The upstream service answered with a status other than success.
    UpstreamHttpError { status: u16, body: String },
    /// The upstream call failed before a usable response was obtained.
    UpstreamTransportError,
}

/// What a [`GatewayError`] holds.
pub ghost enum GatewayErrorView {
    UnrecognizedFormat,
    MalformedCanonical,
    MalformedLegacy,
    UpstreamHttpError { status: u16, body: Seq<char> },
    UpstreamTransportError,
}

impl View for GatewayError {
    type V = GatewayErrorView;

    open spec fn view(&self) -> GatewayErrorView {
        match *self {
            GatewayError::UnrecognizedFormat => GatewayErrorView::UnrecognizedFormat,
            GatewayError::MalformedCanonical => GatewayErrorView::MalformedCanonical,
            GatewayError::MalformedLegacy => GatewayErrorView::MalformedLegacy,
            GatewayError::UpstreamHttpError { status, body } => GatewayErrorView::UpstreamHttpError {
                status,
                body: body@,
            },
            GatewayError::UpstreamTransportError => GatewayErrorView::UpstreamTransportError,
        }
    }
}

/// What the result of a request holds: the upstream body, or the error.
pub open spec fn result_view(result: Result<String, GatewayError>) -> Result<
    Seq<char>,
    GatewayErrorView,
> {
    match result {
        Ok(body) => Ok(body@),
        Err(error) => Err(error@),
    }
}

impl GatewayErrorView {
    /// Whether the error lies with the caller's request.
    pub open spec fn is_callers_fault(self) -> bool {
        self is UnrecognizedFormat || self is MalformedCanonical || self is MalformedLegacy
    }
}

impl GatewayError {
    /// Whether the error lies with the caller's request rather than with the
    /// upstream call.
    pub fn is_callers_fault(&self) -> (fault: bool)
        ensures
            fault == self@.is_callers_fault(),
    {
        match self {
            GatewayError::UnrecognizedFormat => true,
            GatewayError::MalformedCanonical => true,
            GatewayError::MalformedLegacy => true,
            GatewayError::UpstreamHttpError { .. } => false,
            GatewayError::UpstreamTransportError => false,
        }
    }
}

} // verus!

//! The errors of the client, and the report that the runtime API takes for
//! a failed invocation.
//!
//! Every [`ApiError`] says whether the worker may go on polling after it
//! (it is recoverable) or must stop (it is unrecoverable).

use vstd::prelude::*;
use crate::headers::LambdaHeaders;

verus! {

/// Error type for the `ErrorResponse` event: the error was handled by the
/// function code or framework.
pub const ERROR_TYPE_HANDLED: &'static str = "Handled";

/// Error type for the `ErrorResponse` event: the error was unexpected.
pub const ERROR_TYPE_UNHANDLED: &'static str = "Unhandled";

/// The body of a request to the error and init-failure endpoints. Custom
/// error types implement [`RuntimeApiError`] and return this object to be
/// reported.
#[derive(Clone, Debug)]
pub struct ErrorResponse {
    /// The error message generated by the application.
    pub error_message: String,
    /// The error type for Lambda.
    pub error_type: String,
    /// The stack trace for the error, one string for each frame.
    pub stack_trace: Option<Vec<String>>,
}

/// An [`ErrorResponse`] as plain values.
pub struct ErrorResponseView {
    pub error_message: Seq<char>,
    pub error_type: Seq<char>,
    pub stack_trace: Option<Seq<Seq<char>>>,
}

/// The frames of a stack trace as plain values.
pub open spec fn frames_view(frames: Seq<String>) -> Seq<Seq<char>> {
    Seq::new(frames.len(), |i: int| frames[i]@)
}

impl View for ErrorResponse {
    type V = ErrorResponseView;

    open spec fn view(&self) -> ErrorResponseView {
        ErrorResponseView {
            error_message: self.error_message@,
            error_type: self.error_type@,
            stack_trace: match self.stack_trace {
                Some(frames) => Some(frames_view(frames@)),
                None => None,
            },
        }
    }
}

/// An error that can be reported to the runtime API.
///
/// The report of an error depends on the error alone: asked twice, an error
/// gives the same report. An implementation that Verus does not see is
/// taken at its word for this; its `report` is never run, and its body may
/// be `unreachable!()`.
pub trait RuntimeApiError {
    /// The report that stands for this error, as plain values.
    spec fn report(&self) -> ErrorResponseView;

    /// The report that stands for this error.
    fn to_response(&self) -> (r: ErrorResponse)
        ensures
            r@ == self.report(),
    ;
}

/// What went wrong in a call of the client.
#[derive(Clone, Copy, Debug, PartialEq, Eq, Structural)]
pub enum ErrorKind {
    /// A poll reply lacks a header that it must carry.
    MissingHeader(LambdaHeaders),
    /// The value of a header holds bytes that are not visible ASCII.
    HeaderNotText(LambdaHeaders),
    /// The value of a header is text, but not of the form the header asks for.
    MalformedHeader(LambdaHeaders),
    /// The value of a header is not the JSON document the header asks for.
    MalformedJson(LambdaHeaders),
    /// The endpoint and the path do not make a URI.
    MalformedUri,
    /// The request could not be sent, or its reply could not be read.
    Transport,
    /// The runtime API answered with a status that is not a success.
    Status(u16),
}

/// An [`ApiError`] as plain values.
pub struct ApiErrorView {
    pub kind: ErrorKind,
    pub message: Seq<char>,
    pub unrecoverable: bool,
}

/// The error type of every call of the client.
#[derive(Clone, Debug)]
pub struct ApiError {
    kind: ErrorKind,
    msg: String,
    unrecoverable: bool,
}

impl View for ApiError {
    type V = ApiErrorView;

    closed spec fn view(&self) -> ApiErrorView {
        ApiErrorView { kind: self.kind, message: self.msg@, unrecoverable: self.unrecoverable }
    }
}

/// The recoverable error of kind `kind` with the message `message`.
pub open spec fn recoverable(kind: ErrorKind, message: Seq<char>) -> ApiErrorView {
    ApiErrorView { kind, message, unrecoverable: false }
}

/// The error `e`, flagged unrecoverable.
pub open spec fn fatal(e: ApiErrorView) -> ApiErrorView {
    ApiErrorView { kind: e.kind, message: e.message, unrecoverable: true }
}

/// The error for a poll reply without the header `header`.
pub open spec fn missing_header(header: LambdaHeaders) -> ApiErrorView {
    recoverable(ErrorKind::MissingHeader(header), "Missing "@ + header.name() + " header"@)
}

/// The error for a header whose value is not visible ASCII.
pub open spec fn header_not_text(header: LambdaHeaders) -> ApiErrorView {
    recoverable(
        ErrorKind::HeaderNotText(header),
        "Value of "@ + header.name() + " header is not visible ASCII"@,
    )
}

/// The error for a header whose text is not of the form asked for.
pub open spec fn malformed_header(header: LambdaHeaders) -> ApiErrorView {
    recoverable(ErrorKind::MalformedHeader(header), "Malformed "@ + header.name() + " header"@)
}

/// The error for a header whose text is not the JSON document asked for.
pub open spec fn malformed_json(header: LambdaHeaders) -> ApiErrorView {
    recoverable(
        ErrorKind::MalformedJson(header),
        "Malformed JSON in "@ + header.name() + " header"@,
    )
}

/// The error for a text that is not a URI.
pub open spec fn malformed_uri(uri: Seq<char>) -> ApiErrorView {
    recoverable(ErrorKind::MalformedUri, "Invalid URI "@ + uri)
}

/// The error for a request that could not be sent.
pub open spec fn transport_failure(message: Seq<char>) -> ApiErrorView {
    recoverable(ErrorKind::Transport, message)
}

impl ApiError {
    /// A recoverable error of the given kind.
    pub fn new(kind: ErrorKind, description: &str) -> (e: ApiError)
        ensures
            e@ == recoverable(kind, description@),
    {
        ApiError { kind, msg: String::from_str(description), unrecoverable: false }
    }

    /// Flags the error as one after which the worker must stop.
    pub fn unrecoverable(self) -> (e: ApiError)
        ensures
            e@ == fatal(self@),
    {
        ApiError { kind: self.kind, msg: self.msg, unrecoverable: true }
    }

    /// Whether the worker may go on polling after this error.
    pub fn is_recoverable(&self) -> (r: bool)
        ensures
            r == !self@.unrecoverable,
    {
        !self.unrecoverable
    }

    /// What went wrong.
    pub fn kind(&self) -> (k: ErrorKind)
        ensures
            k == self@.kind,
    {
        self.kind
    }

    /// The message of the error.
    pub fn message(&self) -> (m: &str)
        ensures
            m@ == self@.message,
    {
        self.msg.as_str()
    }

    /// The message of the error, as the error is shown.
    pub fn to_string(&self) -> (m: String)
        ensures
            m@ == self@.message,
    {
        self.msg.clone()
    }

    /// The error for a poll reply without the header `header`.
    pub fn missing_header(header: LambdaHeaders) -> (e: ApiError)
        ensures
            e@ == missing_header(header),
    {
        let mut msg = String::from_str("Missing ");
        msg.append(header.as_str());
        msg.append(" header");
        ApiError { kind: ErrorKind::MissingHeader(header), msg, unrecoverable: false }
    }

    /// The error for a header whose value is not visible ASCII.
    pub fn header_not_text(header: LambdaHeaders) -> (e: ApiError)
        ensures
            e@ == header_not_text(header),
    {
        let mut msg = String::from_str("Value of ");
        msg.append(header.as_str());
        msg.append(" header is not visible ASCII");
        ApiError { kind: ErrorKind::HeaderNotText(header), msg, unrecoverable: false }
    }

    /// The error for a header whose text is not of the form asked for.
    pub fn malformed_header(header: LambdaHeaders) -> (e: ApiError)
        ensures
            e@ == malformed_header(header),
    {
        let mut msg = String::from_str("Malformed ");
        msg.append(header.as_str());
        msg.append(" header");
        ApiError { kind: ErrorKind::MalformedHeader(header), msg, unrecoverable: false }
    }

    /// The error for a header whose text is not the JSON document asked for.
    pub fn malformed_json(header: LambdaHeaders) -> (e: ApiError)
        ensures
            e@ == malformed_json(header),
    {
        let mut msg = String::from_str("Malformed JSON in ");
        msg.append(header.as_str());
        msg.append(" header");
        ApiError { kind: ErrorKind::MalformedJson(header), msg, unrecoverable: false }
    }

    /// The error for a text that is not a URI.
    pub fn malformed_uri(uri: &str) -> (e: ApiError)
        ensures
            e@ == malformed_uri(uri@),
    {
        let mut msg = String::from_str("Invalid URI ");
        msg.append(uri);
        ApiError { kind: ErrorKind::MalformedUri, msg, unrecoverable: false }
    }

    /// The error for a request that could not be sent, or whose reply could
    /// not be read; `description` says why.
    pub fn transport(description: &str) -> (e: ApiError)
        ensures
            e@ == transport_failure(description@),
    {
        ApiError::new(ErrorKind::Transport, description)
    }
}

/// The report that stands for an [`ApiError`]: its message, as an error that
/// nothing handled, without a stack trace.
pub open spec fn api_error_report(e: ApiErrorView) -> ErrorResponseView {
    ErrorResponseView {
        error_message: e.message,
        error_type: ERROR_TYPE_UNHANDLED@,
        stack_trace: None,
    }
}

impl RuntimeApiError for ApiError {
    open spec fn report(&self) -> ErrorResponseView {
        api_error_report(self@)
    }

    fn to_response(&self) -> (r: ErrorResponse) {
        ErrorResponse {
            error_message: self.msg.clone(),
            error_type: String::from_str(ERROR_TYPE_UNHANDLED),
            stack_trace: None,
        }
    }
}

} // verus!

//! The four exchanges of the runtime API: polling for the next event,
//! posting a response, posting an error, and reporting a failed start.
//!
//! For each exchange the client makes the request and judges the reply.
//! Sending the one and receiving the other is the caller's part.

use vstd::prelude::*;
use hyper::header::HeaderValue;
use hyper::HeaderMap;
use crate::codec::{
    context_result_view,
    event_context_of,
    lemma_required_headers_decode,
    present_as_text,
    text_of,
};
use crate::context::{EventContext, EventContextView};
use crate::decimal::decimal_i64;
use crate::error::{
    fatal,
    malformed_uri,
    recoverable,
    ApiError,
    ApiErrorView,
    ErrorKind,
    ErrorResponse,
    ErrorResponseView,
    RuntimeApiError,
};
use crate::headers::LambdaHeaders;
use crate::json::{error_response_json, error_response_to_json};
use crate::wire::{
    begins_with_code,
    code_digits,
    header_field,
    parses_as_uri,
    status_display,
    uri_valid,
    HttpStatus,
    Method,
    RuntimeRequest,
    RuntimeRequestView,
};

verus! {

/// The version of the runtime API that a client speaks unless it is made
/// for another.
pub const RUNTIME_API_VERSION: &'static str = "2018-06-01";

/// The content type of a response.
pub const API_CONTENT_TYPE: &'static str = "application/json";

/// The content type of an error report.
pub const API_ERROR_CONTENT_TYPE: &'static str = "application/vnd.aws.lambda.error+json";

/// The header that tells the runtime API the type of a reported error.
pub const RUNTIME_ERROR_HEADER: &'static str = "Lambda-Runtime-Function-Error-Type";

/// Used by the worker to talk to the runtime API at one endpoint.
#[derive(Clone, Debug)]
pub struct RuntimeClient {
    endpoint: String,
    api_version: String,
}

/// A [`RuntimeClient`] as plain values.
pub struct RuntimeClientView {
    pub endpoint: Seq<char>,
    pub api_version: Seq<char>,
}

impl View for RuntimeClient {
    type V = RuntimeClientView;

    closed spec fn view(&self) -> RuntimeClientView {
        RuntimeClientView { endpoint: self.endpoint@, api_version: self.api_version@ }
    }
}

/// The address of the runtime API at `endpoint`, in the version
/// `api_version`.
pub open spec fn base_uri(client: RuntimeClientView) -> Seq<char> {
    "http://"@ + client.endpoint + "/"@ + client.api_version
}

/// The URI that the next event is polled from.
pub open spec fn next_event_uri(client: RuntimeClientView) -> Seq<char> {
    base_uri(client) + "/runtime/invocation/next"@
}

/// The URI that the response to the request `request_id` is posted to.
pub open spec fn event_response_uri(client: RuntimeClientView, request_id: Seq<char>) -> Seq<
    char,
> {
    base_uri(client) + "/runtime/invocation/"@ + request_id + "/response"@
}

/// The URI that an error of the request `request_id` is posted to.
pub open spec fn event_error_uri(client: RuntimeClientView, request_id: Seq<char>) -> Seq<char> {
    base_uri(client) + "/runtime/invocation/"@ + request_id + "/error"@
}

/// The URI that a failed start is reported to.
pub open spec fn init_error_uri(client: RuntimeClientView) -> Seq<char> {
    base_uri(client) + "/runtime/init/error"@
}

/// The request that asks `uri` for the next event.
pub open spec fn poll_request(uri: Seq<char>) -> RuntimeRequestView {
    RuntimeRequestView { method: Method::Get, uri, headers: Seq::empty(), body: Seq::empty() }
}

/// The request that posts `body` to `uri` as JSON.
pub open spec fn post_request(uri: Seq<char>, body: Seq<u8>) -> RuntimeRequestView {
    RuntimeRequestView {
        method: Method::Post,
        uri,
        headers: seq![("content-type"@, API_CONTENT_TYPE@)],
        body,
    }
}

/// The request that posts the error report `report` to `uri`: the report
/// as JSON text in UTF-8, marked as a Lambda error of the runtime.
pub open spec fn error_request(uri: Seq<char>, report: ErrorResponseView) -> RuntimeRequestView {
    RuntimeRequestView {
        method: Method::Post,
        uri,
        headers: seq![
            ("content-type"@, API_ERROR_CONTENT_TYPE@),
            (RUNTIME_ERROR_HEADER@, "RuntimeError"@),
        ],
        body: vstd::utf8::encode_utf8(error_response_json(report)),
    }
}

/// The request `request` where its URI is one, else the error that says it
/// is not.
pub open spec fn checked_request(request: RuntimeRequestView) -> Result<
    RuntimeRequestView,
    ApiErrorView,
> {
    if uri_valid(request.uri) {
        Ok(request)
    } else {
        Err(malformed_uri(request.uri))
    }
}

/// The outcome of making a request, as plain values.
pub open spec fn request_result_view(r: Result<RuntimeRequest, ApiError>) -> Result<
    RuntimeRequestView,
    ApiErrorView,
> {
    match r {
        Ok(request) => Ok(request@),
        Err(e) => Err(e@),
    }
}

/// The error for a poll that a client error answered.
pub open spec fn poll_client_error(status: HttpStatus) -> ApiErrorView {
    recoverable(
        ErrorKind::Status(status.code()),
        "Error "@ + status_display(status.code()) + " when polling for events"@,
    )
}

/// The error for a poll that a server error answered: the one error of the
/// client that is unrecoverable by itself.
pub open spec fn poll_server_error(status: HttpStatus) -> ApiErrorView {
    fatal(
        recoverable(
            ErrorKind::Status(status.code()),
            "Server error "@ + status_display(status.code()) + " when polling for new events"@,
        ),
    )
}

/// The two posts that end an invocation.
#[derive(Clone, Copy, Debug, PartialEq, Eq, Structural)]
pub enum Post {
    /// The post of the response to an event.
    Response,
    /// The post of the report of an error.
    ErrorReport,
}

impl Post {
    /// What the post sends, as the messages of its errors call it.
    pub open spec fn name(self) -> Seq<char> {
        match self {
            Post::Response => "response"@,
            Post::ErrorReport => "error report"@,
        }
    }

    /// What the post sends, as the messages of its errors call it.
    pub fn as_str(&self) -> (r: &'static str)
        ensures
            r@ == self.name(),
    {
        match self {
            Post::Response => "response",
            Post::ErrorReport => "error report",
        }
    }
}

/// The error for the post `post` that anything but a success answered: its
/// message holds the status and says which of the two posts was refused.
pub open spec fn post_status_error(post: Post, status: HttpStatus) -> ApiErrorView {
    recoverable(
        ErrorKind::Status(status.code()),
        "Error "@ + status_display(status.code()) + " while sending "@ + post.name(),
    )
}

/// Whether `message` holds the status `code` in digits behind its first word
/// and a space.
pub open spec fn names_status(message: Seq<char>, first_word: Seq<char>, code: u16) -> bool {
    message.len() >= first_word.len() + 4 && message.subrange(0, first_word.len() as int)
        == first_word && message.subrange(first_word.len() as int, first_word.len() as int + 3)
        == code_digits(code)
}

/// A message that is made of a first word, a space, the text of a status
/// that begins with its code, and more, holds that code behind the first
/// word.
proof fn lemma_names_status(first: Seq<char>, status: Seq<char>, rest: Seq<char>, code: u16)
    requires
        begins_with_code(status, code),
    ensures
        names_status(first + status + rest, first, code),
{
    let message = first + status + rest;
    assert(message.subrange(0, first.len() as int) =~= first);
    assert(message.subrange(first.len() as int, first.len() as int + 3) =~= status.subrange(0, 3));
}

/// What the head of a poll reply, its status and headers, comes to: the
/// error of the status where it is a client or a server error, else what
/// the headers hold.
pub open spec fn poll_head(status: HttpStatus, headers: HeaderMap<HeaderValue>) -> Result<
    EventContextView,
    ApiErrorView,
> {
    if status.client_error() {
        Err(poll_client_error(status))
    } else if status.server_error() {
        Err(poll_server_error(status))
    } else {
        event_context_of(headers)
    }
}

/// What a whole poll reply comes to: the body as it came, with the context,
/// or the error of the head.
pub open spec fn poll_reply(
    status: HttpStatus,
    headers: HeaderMap<HeaderValue>,
    body: Seq<u8>,
) -> Result<(Seq<u8>, EventContextView), ApiErrorView> {
    match poll_head(status, headers) {
        Ok(context) => Ok((body, context)),
        Err(e) => Err(e),
    }
}

/// The outcome of a poll, as plain values.
pub open spec fn event_result_view(r: Result<(Vec<u8>, EventContext), ApiError>) -> Result<
    (Seq<u8>, EventContextView),
    ApiErrorView,
> {
    match r {
        Ok((body, context)) => Ok((body@, context@)),
        Err(e) => Err(e@),
    }
}

/// The outcome of sending a request, as plain values: the status of the
/// reply, or the error that kept the reply from coming.
pub open spec fn sent_view(sent: Result<HttpStatus, ApiError>) -> Result<HttpStatus, ApiErrorView> {
    match sent {
        Ok(status) => Ok(status),
        Err(e) => Err(e@),
    }
}

/// What the post `post` comes to: success where a success answered, the
/// error of the status, in the words of that post, where anything else did, and
/// the error of the transport where nothing did. None of these errors is
/// unrecoverable unless the transport's was.
pub open spec fn post_outcome(post: Post, sent: Result<HttpStatus, ApiErrorView>) -> Result<
    (),
    ApiErrorView,
> {
    match sent {
        Ok(status) => if status.success() {
            Ok(())
        } else {
            Err(post_status_error(post, status))
        },
        Err(e) => Err(e),
    }
}

/// Whether the error `r` of a post that the status in `sent` answered holds
/// that status in digits behind the word `Error`.
pub open spec fn post_names_status(
    sent: Result<HttpStatus, ApiError>,
    r: Result<(), ApiError>,
) -> bool {
    sent is Ok && r is Err ==> names_status(r->Err_0@.message, "Error "@, sent->Ok_0.code())
}

/// What reporting a failed start comes to: success where any reply came,
/// and an unrecoverable error where none did.
pub open spec fn init_outcome(sent: Result<HttpStatus, ApiErrorView>) -> Result<(), ApiErrorView> {
    match sent {
        Ok(_) => Ok(()),
        Err(e) => Err(fatal(e)),
    }
}

/// The outcome of an exchange without a result, as plain values.
pub open spec fn unit_result_view(r: Result<(), ApiError>) -> Result<(), ApiErrorView> {
    match r {
        Ok(_) => Ok(()),
        Err(e) => Err(e@),
    }
}

/// The unrecoverable form of the outcome of making a request.
pub open spec fn fatal_request(r: Result<RuntimeRequestView, ApiErrorView>) -> Result<
    RuntimeRequestView,
    ApiErrorView,
> {
    match r {
        Ok(request) => Ok(request),
        Err(e) => Err(fatal(e)),
    }
}

impl RuntimeClient {
    /// Creates a new client for the runtime API at `endpoint`, the address
    /// of the host, in the version [`RUNTIME_API_VERSION`].
    pub fn new(endpoint: String) -> (client: RuntimeClient)
        ensures
            client@ == (RuntimeClientView { endpoint: endpoint@, api_version: RUNTIME_API_VERSION@ }),
    {
        RuntimeClient { endpoint, api_version: String::from_str(RUNTIME_API_VERSION) }
    }

    /// Creates a new client for the runtime API at `endpoint`, in the
    /// version `api_version`.
    pub fn with_api_version(endpoint: String, api_version: String) -> (client: RuntimeClient)
        ensures
            client@ == (RuntimeClientView { endpoint: endpoint@, api_version: api_version@ }),
    {
        RuntimeClient { endpoint, api_version }
    }

    /// Returns the endpoint configured for this client.
    pub fn get_endpoint(&self) -> (endpoint: String)
        ensures
            endpoint@ == self@.endpoint,
    {
        self.endpoint.clone()
    }

    /// Returns the version of the runtime API that this client speaks.
    pub fn get_api_version(&self) -> (api_version: String)
        ensures
            api_version@ == self@.api_version,
    {
        self.api_version.clone()
    }

    /// `http://`, the endpoint, a slash and the version.
    fn base(&self) -> (uri: String)
        ensures
            uri@ == base_uri(self@),
    {
        let mut uri = String::from_str("http://");
        uri.append(self.endpoint.as_str());
        uri.append("/");
        uri.append(self.api_version.as_str());
        uri
    }

    /// Hands `request` on where its URI is one.
    fn checked(request: RuntimeRequest) -> (r: Result<RuntimeRequest, ApiError>)
        ensures
            request_result_view(r) == checked_request(request@),
    {
        if parses_as_uri(request.uri.as_str()) {
            Ok(request)
        } else {
            Err(ApiError::malformed_uri(request.uri.as_str()))
        }
    }

    /// Creates the request that posts `body` to `uri`. Sets the method to
    /// `POST` and the `Content-Type` header to `application/json`.
    pub fn get_runtime_post_request(uri: &str, body: Vec<u8>) -> (request: RuntimeRequest)
        ensures
            request@ == post_request(uri@, body@),
    {
        let mut headers: Vec<(String, String)> = Vec::new();
        headers.push((String::from_str("content-type"), String::from_str(API_CONTENT_TYPE)));
        let request = RuntimeRequest {
            method: Method::Post,
            uri: String::from_str(uri),
            headers,
            body,
        };
        assert(request@.headers =~= seq![("content-type"@, API_CONTENT_TYPE@)]);
        request
    }

    /// Creates the request that posts the error report `e` to `uri`. Sets
    /// the method to `POST`, the `Content-Type` header to the content type
    /// of a Lambda error, the error-type header to `RuntimeError`, and the
    /// body to the report as JSON.
    pub fn get_runtime_error_request(&self, uri: &str, e: &ErrorResponse) -> (request:
        RuntimeRequest)
        ensures
            request@ == error_request(uri@, e@),
    {
        let body = error_response_to_json(e).as_str().as_bytes_vec();
        let mut headers: Vec<(String, String)> = Vec::new();
        headers.push((String::from_str("content-type"), String::from_str(API_ERROR_CONTENT_TYPE)));
        headers.push((String::from_str(RUNTIME_ERROR_HEADER), String::from_str("RuntimeError")));
        let request = RuntimeRequest {
            method: Method::Post,
            uri: String::from_str(uri),
            headers,
            body,
        };
        assert(request@.headers =~= seq![
            ("content-type"@, API_ERROR_CONTENT_TYPE@),
            (RUNTIME_ERROR_HEADER@, "RuntimeError"@),
        ]);
        request
    }

    /// The request that polls for the next event: a `GET` of
    /// `/runtime/invocation/next`. It is an error, a recoverable one, where
    /// the endpoint does not make a URI.
    pub fn next_event_request(&self) -> (r: Result<RuntimeRequest, ApiError>)
        ensures
            request_result_view(r) == checked_request(poll_request(next_event_uri(self@))),
    {
        let mut uri = self.base();
        uri.append("/runtime/invocation/next");
        let request = RuntimeRequest {
            method: Method::Get,
            uri,
            headers: Vec::new(),
            body: Vec::new(),
        };
        assert(request@.headers =~= Seq::empty());
        Self::checked(request)
    }

    /// Judges the head of a poll reply, before its body is read. A client
    /// error is a recoverable error of this one poll, a server error an
    /// unrecoverable one; on any other status the headers are read, and
    /// what they lack or hold wrongly is an error too, after which the body
    /// need not be read.
    pub fn next_event_head(&self, status: HttpStatus, headers: &HeaderMap<HeaderValue>) -> (r:
        Result<EventContext, ApiError>)
        ensures
            context_result_view(r) == poll_head(status, *headers),
            status.client_error() ==> r is Err && names_status(
                r->Err_0@.message,
                "Error "@,
                status.code(),
            ),
            status.server_error() ==> r is Err && names_status(
                r->Err_0@.message,
                "Server error "@,
                status.code(),
            ),
    {
        if status.is_client_error() {
            let text = status.to_string();
            let mut msg = String::from_str("Error ");
            msg.append(text.as_str());
            msg.append(" when polling for events");
            proof {
                lemma_names_status("Error "@, text@, " when polling for events"@, status.code());
            }
            return Err(ApiError::new(ErrorKind::Status(status.as_u16()), msg.as_str()));
        }
        if status.is_server_error() {
            let text = status.to_string();
            let mut msg = String::from_str("Server error ");
            msg.append(text.as_str());
            msg.append(" when polling for new events");
            proof {
                lemma_names_status(
                    "Server error "@,
                    text@,
                    " when polling for new events"@,
                    status.code(),
                );
            }
            return Err(
                ApiError::new(ErrorKind::Status(status.as_u16()), msg.as_str()).unrecoverable(),
            );
        }
        Self::get_event_context(headers)
    }

    /// Judges a whole poll reply: the payload, which is the body as it
    /// came, and the context of the event, or the error of the status or the
    /// headers.
    pub fn next_event(&self, status: HttpStatus, headers: &HeaderMap<HeaderValue>, body: Vec<u8>) -> (r:
        Result<(Vec<u8>, EventContext), ApiError>)
        ensures
            event_result_view(r) == poll_reply(status, *headers, body@),
            status.client_error() ==> r is Err && names_status(
                r->Err_0@.message,
                "Error "@,
                status.code(),
            ),
            status.server_error() ==> r is Err && names_status(
                r->Err_0@.message,
                "Server error "@,
                status.code(),
            ),
    {
        match self.next_event_head(status, headers) {
            Ok(context) => Ok((body, context)),
            Err(e) => Err(e),
        }
    }

    /// The request that submits the response `output` to the event of the
    /// request `request_id`: a `POST` of `output`, as JSON, to
    /// `/runtime/invocation/{request_id}/response`.
    pub fn event_response_request(&self, request_id: &str, output: Vec<u8>) -> (r: Result<
        RuntimeRequest,
        ApiError,
    >)
        ensures
            request_result_view(r) == checked_request(
                post_request(event_response_uri(self@, request_id@), output@),
            ),
    {
        let mut uri = self.base();
        uri.append("/runtime/invocation/");
        uri.append(request_id);
        uri.append("/response");
        Self::checked(Self::get_runtime_post_request(uri.as_str(), output))
    }

    /// Judges the reply to a posted response. Every status but a success
    /// is an error whose message names the status and the sending of the
    /// response; like an error of the transport it leaves the worker free to
    /// poll again.
    pub fn event_response(&self, sent: Result<HttpStatus, ApiError>) -> (r: Result<(), ApiError>)
        ensures
            unit_result_view(r) == post_outcome(Post::Response, sent_view(sent)),
            post_names_status(sent, r),
    {
        Self::posted(Post::Response, sent)
    }

    /// Judges the reply to the post `post`.
    fn posted(post: Post, sent: Result<HttpStatus, ApiError>) -> (r: Result<(), ApiError>)
        ensures
            unit_result_view(r) == post_outcome(post, sent_view(sent)),
            post_names_status(sent, r),
    {
        match sent {
            Ok(status) => {
                if !status.is_success() {
                    let text = status.to_string();
                    let mut msg = String::from_str("Error ");
                    msg.append(text.as_str());
                    msg.append(" while sending ");
                    msg.append(post.as_str());
                    proof {
                        lemma_names_status(
                            "Error "@,
                            text@,
                            " while sending "@ + post.name(),
                            status.code(),
                        );
                        assert(msg@ =~= "Error "@ + text@ + (" while sending "@ + post.name()));
                    }
                    return Err(ApiError::new(ErrorKind::Status(status.as_u16()), msg.as_str()));
                }
                Ok(())
            },
            Err(e) => Err(e),
        }
    }

    /// The request that reports `report` as the error of the request
    /// `request_id`: a `POST` of the report to
    /// `/runtime/invocation/{request_id}/error`.
    pub fn event_error_report(&self, request_id: &str, report: &ErrorResponse) -> (r: Result<
        RuntimeRequest,
        ApiError,
    >)
        ensures
            request_result_view(r) == checked_request(
                error_request(event_error_uri(self@, request_id@), report@),
            ),
    {
        let mut uri = self.base();
        uri.append("/runtime/invocation/");
        uri.append(request_id);
        uri.append("/error");
        Self::checked(self.get_runtime_error_request(uri.as_str(), report))
    }

    /// The request that reports the error `e` of the request `request_id`:
    /// the request of [`RuntimeClient::event_error_report`] for the report
    /// that `e` gives of itself.
    pub fn event_error_request<E: RuntimeApiError + ?Sized>(&self, request_id: &str, e: &E) -> (r:
        Result<RuntimeRequest, ApiError>)
        ensures
            request_result_view(r) == checked_request(
                error_request(event_error_uri(self@, request_id@), e.report()),
            ),
    {
        let report = e.to_response();
        self.event_error_report(request_id, &report)
    }

    /// Judges the reply to a posted error report. Every status but a
    /// success is an error whose message names the status and the sending
    /// of the error report; no status makes the error unrecoverable.
    pub fn event_error(&self, sent: Result<HttpStatus, ApiError>) -> (r: Result<(), ApiError>)
        ensures
            unit_result_view(r) == post_outcome(Post::ErrorReport, sent_view(sent)),
            post_names_status(sent, r),
    {
        Self::posted(Post::ErrorReport, sent)
    }

    /// The request that reports `report` as the reason for which the
    /// worker could not start: a `POST` of the report to
    /// `/runtime/init/error`. Where the endpoint does not make a URI the
    /// report cannot be sent, and the error is unrecoverable.
    pub fn fail_init_report(&self, report: &ErrorResponse) -> (r: Result<RuntimeRequest, ApiError>)
        ensures
            request_result_view(r) == fatal_request(
                checked_request(error_request(init_error_uri(self@), report@)),
            ),
    {
        let mut uri = self.base();
        uri.append("/runtime/init/error");
        match Self::checked(self.get_runtime_error_request(uri.as_str(), report)) {
            Ok(request) => Ok(request),
            Err(e) => Err(e.unrecoverable()),
        }
    }

    /// The request that reports the error `e` as the reason for which the
    /// worker could not start: the request of
    /// [`RuntimeClient::fail_init_report`] for the report that `e` gives of
    /// itself.
    pub fn fail_init_request<E: RuntimeApiError + ?Sized>(&self, e: &E) -> (r: Result<
        RuntimeRequest,
        ApiError,
    >)
        ensures
            request_result_view(r) == fatal_request(
                checked_request(error_request(init_error_uri(self@), e.report())),
            ),
    {
        let report = e.to_response();
        self.fail_init_report(&report)
    }

    /// Judges the sending of the report of a failed start. Any reply will
    /// do; that the report could not be sent is an unrecoverable error,
    /// after which the worker must stop.
    pub fn fail_init(&self, sent: Result<HttpStatus, ApiError>) -> (r: Result<(), ApiError>)
        ensures
            unit_result_view(r) == init_outcome(sent_view(sent)),
    {
        match sent {
            Ok(_) => Ok(()),
            Err(e) => Err(e.unrecoverable()),
        }
    }
}

/// Of the errors that a poll reply can come to, those of a server error
/// are unrecoverable and no others.
pub proof fn lemma_poll_error_fatal_iff_server_error(
    status: HttpStatus,
    headers: HeaderMap<HeaderValue>,
)
    ensures
        poll_head(status, headers) is Err ==> (poll_head(status, headers)->Err_0.unrecoverable
            <==> status.server_error() && !status.client_error()),
        status.client_error() ==> poll_head(status, headers) == Err::<
            EventContextView,
            ApiErrorView,
        >(poll_client_error(status)),
{
}

/// A poll reply that comes to an event hands on the body as it came, byte
/// for byte.
pub proof fn lemma_poll_keeps_body(
    status: HttpStatus,
    headers: HeaderMap<HeaderValue>,
    body: Seq<u8>,
)
    ensures
        poll_reply(status, headers, body) is Ok <==> poll_head(status, headers) is Ok,
        poll_reply(status, headers, body) is Ok ==> poll_reply(status, headers, body)->Ok_0.0
            == body,
{
}

/// A poll reply whose status is no error, and whose headers hold the four
/// required headers as text, the deadline a base-10 integer, and neither of
/// the other two, comes to the body as it came and a context with exactly
/// these four values.
pub proof fn lemma_poll_success(status: HttpStatus, headers: HeaderMap<HeaderValue>, body: Seq<u8>)
    requires
        !status.client_error(),
        !status.server_error(),
        forall|header: LambdaHeaders|
            header.required() ==> #[trigger] present_as_text(headers, header),
        decimal_i64(text_of(headers, LambdaHeaders::Deadline)) is Some,
        header_field(headers, LambdaHeaders::ClientContext.name()) is None,
        header_field(headers, LambdaHeaders::CognitoIdentity.name()) is None,
    ensures
        poll_reply(status, headers, body) == Ok::<(Seq<u8>, EventContextView), ApiErrorView>(
            (
                body,
                EventContextView {
                    invoked_function_arn: text_of(headers, LambdaHeaders::FunctionArn),
                    aws_request_id: text_of(headers, LambdaHeaders::RequestId),
                    xray_trace_id: text_of(headers, LambdaHeaders::TraceId),
                    deadline: decimal_i64(text_of(headers, LambdaHeaders::Deadline))->Some_0,
                    client_context: None,
                    identity: None,
                },
            ),
        ),
{
    lemma_required_headers_decode(headers);
}

/// Whatever status answers a posted response or error report, the outcome
/// is a success on a 2xx status and else an error that is not
/// unrecoverable.
pub proof fn lemma_post_status_never_fatal(post: Post, status: HttpStatus)
    ensures
        post_outcome(post, Ok(status)) is Ok <==> status.success(),
        post_outcome(post, Ok(status)) is Err ==> !post_outcome(
            post,
            Ok(status),
        )->Err_0.unrecoverable,
{
}

/// The error of a refused response and the error of a refused error report
/// differ in their messages, whatever the status: each names its own post.
pub proof fn lemma_posts_name_their_own_call(status: HttpStatus)
    ensures
        post_status_error(Post::Response, status).message != post_status_error(
            Post::ErrorReport,
            status,
        ).message,
        post_status_error(Post::Response, status).message == "Error "@ + status_display(
            status.code(),
        ) + " while sending response"@,
        post_status_error(Post::ErrorReport, status).message == "Error "@ + status_display(
            status.code(),
        ) + " while sending error report"@,
{
    reveal_strlit("response");
    reveal_strlit("error report");
    reveal_strlit(" while sending ");
    reveal_strlit(" while sending response");
    reveal_strlit(" while sending error report");
    let head = "Error "@ + status_display(status.code());
    assert(" while sending "@ + "response"@ =~= " while sending response"@);
    assert(" while sending "@ + "error report"@ =~= " while sending error report"@);
    assert(head + " while sending "@ + "response"@ =~= head + (" while sending "@
        + "response"@));
    assert(head + " while sending "@ + "error report"@ =~= head + (" while sending "@
        + "error report"@));
    assert((head + " while sending response"@).len() != (head
        + " while sending error report"@).len());
}

/// A report of a failed start that could not be sent always comes to an
/// unrecoverable error, and one that was answered never comes to an error.
pub proof fn lemma_init_failure_fatal_iff_unsent(sent: Result<HttpStatus, ApiErrorView>)
    ensures
        init_outcome(sent) is Err <==> sent is Err,
        init_outcome(sent) is Err ==> init_outcome(sent)->Err_0.unrecoverable,
{
}

} // verus!

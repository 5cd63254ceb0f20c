//! The header codec: from the headers of a poll reply to the context of
//! the event.
//!
//! The header names are fixed by the runtime API. Four of them must be
//! there; the other two, where they are there, hold JSON documents.

use vstd::prelude::*;
use hyper::header::HeaderValue;
use hyper::HeaderMap;
use crate::client::RuntimeClient;
use crate::context::{ClientContextView, CognitoIdentityView, EventContext, EventContextView};
use crate::decimal::{decimal_i64, parse_i64};
use crate::error::{
    header_not_text,
    malformed_header,
    malformed_json,
    missing_header,
    ApiError,
    ApiErrorView,
    ErrorKind,
};
use crate::headers::LambdaHeaders;
use crate::json::{
    client_context_from,
    cognito_identity_from,
    parse_client_context,
    parse_cognito_identity,
};
use crate::wire::{ascii_text, header_field, header_get, header_value_bytes, visible_ascii};

verus! {

/// The text of the header `header` in `headers`: an error where the header
/// is missing, or its value is not visible ASCII.
pub open spec fn required_text(headers: HeaderMap<HeaderValue>, header: LambdaHeaders) -> Result<
    Seq<char>,
    ApiErrorView,
> {
    match header_field(headers, header.name()) {
        None => Err(missing_header(header)),
        Some(value) => if visible_ascii(header_value_bytes(value)) {
            Ok(ascii_text(header_value_bytes(value)))
        } else {
            Err(header_not_text(header))
        },
    }
}

/// The text of the header `header` in `headers`, `None` where the header is
/// missing: an error where its value is not visible ASCII.
pub open spec fn optional_text(headers: HeaderMap<HeaderValue>, header: LambdaHeaders) -> Result<
    Option<Seq<char>>,
    ApiErrorView,
> {
    match header_field(headers, header.name()) {
        None => Ok(None),
        Some(value) => if visible_ascii(header_value_bytes(value)) {
            Ok(Some(ascii_text(header_value_bytes(value))))
        } else {
            Err(header_not_text(header))
        },
    }
}

/// The deadline that `headers` give: an error where the header is missing,
/// is not text, or is not a base-10 integer that fits in an `i64`.
pub open spec fn deadline_of(headers: HeaderMap<HeaderValue>) -> Result<i64, ApiErrorView> {
    match required_text(headers, LambdaHeaders::Deadline) {
        Ok(text) => match decimal_i64(text) {
            Some(deadline) => Ok(deadline),
            None => Err(malformed_header(LambdaHeaders::Deadline)),
        },
        Err(e) => Err(e),
    }
}

/// The client context that `headers` give, `None` where they have no such
/// header: an error where the header is not text, or its text is not the
/// JSON document of a client context.
pub open spec fn client_context_in(headers: HeaderMap<HeaderValue>) -> Result<
    Option<ClientContextView>,
    ApiErrorView,
> {
    match optional_text(headers, LambdaHeaders::ClientContext) {
        Ok(Some(text)) => match client_context_from(text) {
            Some(context) => Ok(Some(context)),
            None => Err(malformed_json(LambdaHeaders::ClientContext)),
        },
        Ok(None) => Ok(None),
        Err(e) => Err(e),
    }
}

/// The Cognito identity that `headers` give, `None` where they have no such
/// header: an error where the header is not text, or its text is not the
/// JSON document of an identity.
pub open spec fn identity_in(headers: HeaderMap<HeaderValue>) -> Result<
    Option<CognitoIdentityView>,
    ApiErrorView,
> {
    match optional_text(headers, LambdaHeaders::CognitoIdentity) {
        Ok(Some(text)) => match cognito_identity_from(text) {
            Some(identity) => Ok(Some(identity)),
            None => Err(malformed_json(LambdaHeaders::CognitoIdentity)),
        },
        Ok(None) => Ok(None),
        Err(e) => Err(e),
    }
}

/// The event context that the headers of a poll reply stand for, or the
/// error of the first header, in the order request id, function ARN, trace
/// id, deadline, client context, identity, that is missing though required
/// or holds what it may not.
pub open spec fn event_context_of(headers: HeaderMap<HeaderValue>) -> Result<
    EventContextView,
    ApiErrorView,
> {
    match required_text(headers, LambdaHeaders::RequestId) {
        Err(e) => Err(e),
        Ok(aws_request_id) => match required_text(headers, LambdaHeaders::FunctionArn) {
            Err(e) => Err(e),
            Ok(invoked_function_arn) => match required_text(headers, LambdaHeaders::TraceId) {
                Err(e) => Err(e),
                Ok(xray_trace_id) => match deadline_of(headers) {
                    Err(e) => Err(e),
                    Ok(deadline) => match client_context_in(headers) {
                        Err(e) => Err(e),
                        Ok(client_context) => match identity_in(headers) {
                            Err(e) => Err(e),
                            Ok(identity) => Ok(
                                EventContextView {
                                    invoked_function_arn,
                                    aws_request_id,
                                    xray_trace_id,
                                    deadline,
                                    client_context,
                                    identity,
                                },
                            ),
                        },
                    },
                },
            },
        },
    }
}

/// The outcome of reading an event context, as plain values.
pub open spec fn context_result_view(r: Result<EventContext, ApiError>) -> Result<
    EventContextView,
    ApiErrorView,
> {
    match r {
        Ok(context) => Ok(context@),
        Err(e) => Err(e@),
    }
}

/// Reads the header `header`, which must be there, as text.
fn read_required(headers: &HeaderMap<HeaderValue>, header: LambdaHeaders) -> (r: Result<
    String,
    ApiError,
>)
    ensures
        match r {
            Ok(text) => required_text(*headers, header) == Ok::<Seq<char>, ApiErrorView>(text@),
            Err(e) => required_text(*headers, header) == Err::<Seq<char>, ApiErrorView>(e@),
        },
{
    proof {
        header.lemma_name_is_short();
    }
    match header_get(headers, header.as_str()) {
        Some(value) => match value.to_str() {
            Ok(text) => Ok(String::from_str(text)),
            Err(_) => Err(ApiError::header_not_text(header)),
        },
        None => Err(ApiError::missing_header(header)),
    }
}

/// Reads the header `header`, where it is there, as text.
fn read_optional(headers: &HeaderMap<HeaderValue>, header: LambdaHeaders) -> (r: Result<
    Option<String>,
    ApiError,
>)
    ensures
        match r {
            Ok(Some(text)) => optional_text(*headers, header) == Ok::<
                Option<Seq<char>>,
                ApiErrorView,
            >(Some(text@)),
            Ok(None) => optional_text(*headers, header) == Ok::<Option<Seq<char>>, ApiErrorView>(
                None,
            ),
            Err(e) => optional_text(*headers, header) == Err::<Option<Seq<char>>, ApiErrorView>(
                e@,
            ),
        },
{
    proof {
        header.lemma_name_is_short();
    }
    match header_get(headers, header.as_str()) {
        Some(value) => match value.to_str() {
            Ok(text) => Ok(Some(String::from_str(text))),
            Err(_) => Err(ApiError::header_not_text(header)),
        },
        None => Ok(None),
    }
}

impl RuntimeClient {
    /// Creates an `EventContext` object based on the headers of the reply
    /// that the `/next` endpoint gave.
    ///
    /// The four required headers are read first, in the order request id,
    /// function ARN, trace id, deadline; then the client context and the
    /// Cognito identity, where the reply has them. The first header that is
    /// missing though required, is not text, or does not hold what it
    /// should, decides the error.
    pub fn get_event_context(headers: &HeaderMap<HeaderValue>) -> (r: Result<
        EventContext,
        ApiError,
    >)
        ensures
            context_result_view(r) == event_context_of(*headers),
    {
        let aws_request_id = match read_required(headers, LambdaHeaders::RequestId) {
            Ok(text) => text,
            Err(e) => {
                return Err(e);
            },
        };
        let invoked_function_arn = match read_required(headers, LambdaHeaders::FunctionArn) {
            Ok(text) => text,
            Err(e) => {
                return Err(e);
            },
        };
        let xray_trace_id = match read_required(headers, LambdaHeaders::TraceId) {
            Ok(text) => text,
            Err(e) => {
                return Err(e);
            },
        };
        let deadline = match read_required(headers, LambdaHeaders::Deadline) {
            Ok(text) => match parse_i64(text.as_str()) {
                Some(deadline) => deadline,
                None => {
                    return Err(ApiError::malformed_header(LambdaHeaders::Deadline));
                },
            },
            Err(e) => {
                return Err(e);
            },
        };
        let client_context = match read_optional(headers, LambdaHeaders::ClientContext) {
            Ok(Some(text)) => match parse_client_context(text.as_str()) {
                Some(context) => Some(context),
                None => {
                    return Err(ApiError::malformed_json(LambdaHeaders::ClientContext));
                },
            },
            Ok(None) => None,
            Err(e) => {
                return Err(e);
            },
        };
        let identity = match read_optional(headers, LambdaHeaders::CognitoIdentity) {
            Ok(Some(text)) => match parse_cognito_identity(text.as_str()) {
                Some(identity) => Some(identity),
                None => {
                    return Err(ApiError::malformed_json(LambdaHeaders::CognitoIdentity));
                },
            },
            Ok(None) => None,
            Err(e) => {
                return Err(e);
            },
        };
        Ok(
            EventContext {
                invoked_function_arn,
                aws_request_id,
                xray_trace_id,
                deadline,
                client_context,
                identity,
            },
        )
    }
}

/// The place of a header in the order in which the headers of a poll reply
/// are read.
pub open spec fn reading_order(header: LambdaHeaders) -> int {
    match header {
        LambdaHeaders::RequestId => 0,
        LambdaHeaders::FunctionArn => 1,
        LambdaHeaders::TraceId => 2,
        LambdaHeaders::Deadline => 3,
        LambdaHeaders::ClientContext => 4,
        LambdaHeaders::CognitoIdentity => 5,
    }
}

/// Whether `headers` hold the header `header` with a value that is text.
pub open spec fn present_as_text(headers: HeaderMap<HeaderValue>, header: LambdaHeaders) -> bool {
    header_field(headers, header.name()) is Some && visible_ascii(
        header_value_bytes(header_field(headers, header.name())->Some_0),
    )
}

/// The text of the header `header` in `headers`, where it is there as text.
pub open spec fn text_of(headers: HeaderMap<HeaderValue>, header: LambdaHeaders) -> Seq<char> {
    ascii_text(header_value_bytes(header_field(headers, header.name())->Some_0))
}

/// Headers that lack one of the four required headers, and hold as text the
/// required headers that are read before it, give the missing-header error
/// that names exactly the header they lack. This holds of each of the four.
pub proof fn lemma_missing_header_is_named(headers: HeaderMap<HeaderValue>, header: LambdaHeaders)
    requires
        header.required(),
        header_field(headers, header.name()) is None,
        forall|earlier: LambdaHeaders|
            earlier.required() && reading_order(earlier) < reading_order(header)
                ==> #[trigger] present_as_text(headers, earlier),
    ensures
        event_context_of(headers) == Err::<EventContextView, ApiErrorView>(missing_header(header)),
        missing_header(header).kind == ErrorKind::MissingHeader(header),
        !missing_header(header).unrecoverable,
{
    if reading_order(header) > 0 {
        assert(present_as_text(headers, LambdaHeaders::RequestId));
    }
    if reading_order(header) > 1 {
        assert(present_as_text(headers, LambdaHeaders::FunctionArn));
    }
    if reading_order(header) > 2 {
        assert(present_as_text(headers, LambdaHeaders::TraceId));
    }
}

/// Headers that hold all six headers as text, the deadline a base-10
/// integer, give a context whose fields are exactly the texts of the
/// headers, the deadline as a number, and the client context and the
/// identity that the two JSON documents describe. Where one of the two
/// documents does not describe what it should, no context is given: the
/// error is that of the first of the two.
pub proof fn lemma_complete_headers_decode(headers: HeaderMap<HeaderValue>)
    requires
        forall|header: LambdaHeaders| #[trigger] present_as_text(headers, header),
        decimal_i64(text_of(headers, LambdaHeaders::Deadline)) is Some,
    ensures
        match (
            client_context_from(text_of(headers, LambdaHeaders::ClientContext)),
            cognito_identity_from(text_of(headers, LambdaHeaders::CognitoIdentity)),
        ) {
            (Some(client_context), Some(identity)) => event_context_of(headers) == Ok::<
                EventContextView,
                ApiErrorView,
            >(
                EventContextView {
                    invoked_function_arn: text_of(headers, LambdaHeaders::FunctionArn),
                    aws_request_id: text_of(headers, LambdaHeaders::RequestId),
                    xray_trace_id: text_of(headers, LambdaHeaders::TraceId),
                    deadline: decimal_i64(text_of(headers, LambdaHeaders::Deadline))->Some_0,
                    client_context: Some(client_context),
                    identity: Some(identity),
                },
            ),
            (None, _) => event_context_of(headers) == Err::<EventContextView, ApiErrorView>(
                malformed_json(LambdaHeaders::ClientContext),
            ),
            (Some(_), None) => event_context_of(headers) == Err::<EventContextView, ApiErrorView>(
                malformed_json(LambdaHeaders::CognitoIdentity),
            ),
        },
{
    assert(present_as_text(headers, LambdaHeaders::RequestId));
    assert(present_as_text(headers, LambdaHeaders::FunctionArn));
    assert(present_as_text(headers, LambdaHeaders::TraceId));
    assert(present_as_text(headers, LambdaHeaders::Deadline));
    assert(present_as_text(headers, LambdaHeaders::ClientContext));
    assert(present_as_text(headers, LambdaHeaders::CognitoIdentity));
}

/// Headers that hold the four required headers as text, the deadline a
/// base-10 integer, and neither of the other two, give a context with
/// exactly these four values, without client context and identity.
pub proof fn lemma_required_headers_decode(headers: HeaderMap<HeaderValue>)
    requires
        forall|header: LambdaHeaders|
            header.required() ==> #[trigger] present_as_text(headers, header),
        decimal_i64(text_of(headers, LambdaHeaders::Deadline)) is Some,
        header_field(headers, LambdaHeaders::ClientContext.name()) is None,
        header_field(headers, LambdaHeaders::CognitoIdentity.name()) is None,
    ensures
        event_context_of(headers) == Ok::<EventContextView, ApiErrorView>(
            EventContextView {
                invoked_function_arn: text_of(headers, LambdaHeaders::FunctionArn),
                aws_request_id: text_of(headers, LambdaHeaders::RequestId),
                xray_trace_id: text_of(headers, LambdaHeaders::TraceId),
                deadline: decimal_i64(text_of(headers, LambdaHeaders::Deadline))->Some_0,
                client_context: None,
                identity: None,
            },
        ),
{
    assert(present_as_text(headers, LambdaHeaders::RequestId));
    assert(present_as_text(headers, LambdaHeaders::FunctionArn));
    assert(present_as_text(headers, LambdaHeaders::TraceId));
    assert(present_as_text(headers, LambdaHeaders::Deadline));
}

/// Reading the same headers twice gives two contexts that are equal field
/// by field, or twice the same error.
pub proof fn lemma_decoding_is_repeatable(
    headers: HeaderMap<HeaderValue>,
    first: Result<EventContext, ApiError>,
    second: Result<EventContext, ApiError>,
)
    requires
        context_result_view(first) == event_context_of(headers),
        context_result_view(second) == event_context_of(headers),
    ensures
        first is Ok <==> second is Ok,
        first is Ok ==> first->Ok_0@ == second->Ok_0@,
        first is Err ==> first->Err_0@ == second->Err_0@,
{
}

} // verus!

//! The HTTP values that the client reads and writes: the headers of a
//! reply, its status, and a request as plain values.
//!
//! Header maps, header values, status texts and URIs are those of the HTTP
//! library, the crate `http` as `hyper` hands it on; what this crate relies
//! on of them is stated here and not proved.

use vstd::prelude::*;
use hyper::header::{HeaderValue, ToStrError};
use hyper::HeaderMap;

verus! {

/// The HTTP library's header value, `http::header::HeaderValue`, as a type
/// whose values are carried and not looked into.
#[verifier::external_type_specification]
#[verifier::external_body]
pub struct ExHeaderValue(HeaderValue);

/// The HTTP library's header map, `http::HeaderMap`, as a type whose values
/// are carried and not looked into.
#[verifier::external_type_specification]
#[verifier::external_body]
#[verifier::reject_recursive_types(T)]
pub struct ExHeaderMap<T>(HeaderMap<T>);

/// The error of `HeaderValue::to_str`, `http::header::ToStrError`, which
/// says nothing but that the value is not text.
#[verifier::external_type_specification]
#[verifier::external_body]
pub struct ExToStrError(ToStrError);

/// The first value that `headers` holds under the header name `name`, in
/// whatever letter case the name is written; `None` where it holds no value
/// under that name.
pub uninterp spec fn header_field(headers: HeaderMap<HeaderValue>, name: Seq<char>) -> Option<
    HeaderValue,
>;

/// The bytes of a header value.
pub uninterp spec fn header_value_bytes(value: HeaderValue) -> Seq<u8>;

/// Whether `b` is a visible ASCII character, a space or a tab.
pub open spec fn is_visible_ascii(b: u8) -> bool {
    (32 <= b && b < 127) || b == 9
}

/// Whether every byte of `bytes` is visible ASCII.
pub open spec fn visible_ascii(bytes: Seq<u8>) -> bool {
    forall|i: int| 0 <= i < bytes.len() ==> is_visible_ascii(#[trigger] bytes[i])
}

/// ASCII bytes as text: one character for each byte.
pub open spec fn ascii_text(bytes: Seq<u8>) -> Seq<char> {
    Seq::new(bytes.len(), |i: int| bytes[i] as char)
}

/// `http::HeaderMap::get` with a string key: the first value stored under
/// the name, which is compared without regard to letter case, or `None`
/// where there is none. The contract only gives that value the name
/// [`header_field`]. The HTTP library panics on a name of 65,536 bytes or
/// more; with fewer than 16,384 characters, each of four bytes at most, a
/// name stays below that. Not proved.
#[verifier::external_body]
pub(crate) fn header_get<'a>(headers: &'a HeaderMap<HeaderValue>, name: &str) -> (r: Option<
    &'a HeaderValue,
>)
    requires
        name@.len() < 16384,
    ensures
        match r {
            Some(value) => header_field(*headers, name@) == Some(*value),
            None => header_field(*headers, name@) is None,
        },
{
    headers.get(name)
}

/// `http::header::HeaderValue::to_str`: the value as a string slice, one
/// character for each byte, where all its bytes are visible ASCII, spaces or
/// tabs; an error where one is not. Not proved.
pub assume_specification[ HeaderValue::to_str ](value: &HeaderValue) -> (r: Result<
    &str,
    ToStrError,
>)
    ensures
        r is Ok <==> visible_ascii(header_value_bytes(*value)),
        r is Ok ==> r->Ok_0@ == ascii_text(header_value_bytes(*value)),
;

/// How the HTTP library writes the status `code`: the number, a space and
/// the reason phrase that is usual for it.
pub uninterp spec fn status_display(code: u16) -> Seq<char>;

/// The digit for a number from 0 to 9.
pub open spec fn digit_char(d: int) -> char {
    (48 + d) as u8 as char
}

/// A status code as it is written: three decimal digits.
pub open spec fn code_digits(code: u16) -> Seq<char> {
    seq![digit_char(code as int / 100), digit_char((code as int / 10) % 10), digit_char(code as int % 10)]
}

/// Whether `text` begins with the status `code` in digits and a space.
pub open spec fn begins_with_code(text: Seq<char>, code: u16) -> bool {
    text.len() >= 4 && text.subrange(0, 3) == code_digits(code) && text[3] == ' '
}

/// `http::StatusCode::from_u16`, which takes the codes from 100 to 599,
/// followed by the status's `Display`: the text that the HTTP library shows
/// for a status code. The contract gives that text the name
/// [`status_display`], and says that it begins with the code in digits and
/// a space. Not proved.
#[verifier::external_body]
fn status_text(code: u16) -> (r: String)
    requires
        100 <= code < 600,
    ensures
        r@ == status_display(code),
        begins_with_code(r@, code),
{
    match hyper::StatusCode::from_u16(code) {
        Ok(status) => status.to_string(),
        Err(e) => e.to_string(),
    }
}

/// Whether the HTTP library takes `text` for a URI.
pub uninterp spec fn uri_valid(text: Seq<char>) -> bool;

/// `http::Uri::from_str`, for whether it succeeds. The contract only gives
/// the answer the name [`uri_valid`]. Not proved.
#[verifier::external_body]
pub(crate) fn parses_as_uri(text: &str) -> (r: bool)
    ensures
        r == uri_valid(text@),
{
    text.parse::<hyper::Uri>().is_ok()
}

/// The status of a reply: a number from 100 to 599.
#[derive(Clone, Copy, Debug, PartialEq, Eq)]
pub struct HttpStatus {
    code: u16,
}

impl HttpStatus {
    #[verifier::type_invariant]
    spec fn in_range(self) -> bool {
        100 <= self.code < 600
    }

    /// The status code as a number.
    pub closed spec fn code(self) -> u16 {
        self.code
    }

    /// Whether the status is one of the successes, 200 to 299.
    pub open spec fn success(self) -> bool {
        200 <= self.code() < 300
    }

    /// Whether the status is a client error, 400 to 499.
    pub open spec fn client_error(self) -> bool {
        400 <= self.code() < 500
    }

    /// Whether the status is a server error, 500 to 599.
    pub open spec fn server_error(self) -> bool {
        500 <= self.code() < 600
    }

    /// The status with the code `code`; `None` where `code` is not between
    /// 100 and 599.
    pub fn new(code: u16) -> (r: Option<HttpStatus>)
        ensures
            r is Some <==> 100 <= code < 600,
            r is Some ==> r->Some_0.code() == code,
    {
        if 100 <= code && code < 600 {
            Some(HttpStatus { code })
        } else {
            None
        }
    }

    /// The status code as a number.
    pub fn as_u16(&self) -> (r: u16)
        ensures
            r == self.code(),
            100 <= r < 600,
    {
        proof {
            use_type_invariant(self);
        }
        self.code
    }

    /// Check if status is within 200-299.
    pub fn is_success(&self) -> (r: bool)
        ensures
            r == self.success(),
    {
        300 > self.code && self.code >= 200
    }

    /// Check if status is within 400-499.
    pub fn is_client_error(&self) -> (r: bool)
        ensures
            r == self.client_error(),
    {
        500 > self.code && self.code >= 400
    }

    /// Check if status is within 500-599.
    pub fn is_server_error(&self) -> (r: bool)
        ensures
            r == self.server_error(),
    {
        proof {
            use_type_invariant(self);
        }
        self.code >= 500
    }

    /// The status as it is shown in messages: the number and the reason
    /// phrase.
    pub fn to_string(&self) -> (r: String)
        ensures
            r@ == status_display(self.code()),
            begins_with_code(r@, self.code()),
    {
        proof {
            use_type_invariant(self);
        }
        status_text(self.code)
    }
}

/// The method of a request.
#[derive(Clone, Copy, Debug, PartialEq, Eq, Structural)]
pub enum Method {
    Get,
    Post,
}

/// A request to the runtime API as plain values: whoever sends it writes
/// the method, the URI, each header and the body as they stand here.
#[derive(Clone, Debug)]
pub struct RuntimeRequest {
    /// The method.
    pub method: Method,
    /// The URI, which the HTTP library takes for one.
    pub uri: String,
    /// The headers, as pairs of name and value, in the order in which they
    /// are set.
    pub headers: Vec<(String, String)>,
    /// The body.
    pub body: Vec<u8>,
}

/// A [`RuntimeRequest`] as plain values.
pub struct RuntimeRequestView {
    pub method: Method,
    pub uri: Seq<char>,
    pub headers: Seq<(Seq<char>, Seq<char>)>,
    pub body: Seq<u8>,
}

/// The headers of a request as plain values.
pub open spec fn headers_view(headers: Seq<(String, String)>) -> Seq<(Seq<char>, Seq<char>)> {
    Seq::new(headers.len(), |i: int| (headers[i].0@, headers[i].1@))
}

impl View for RuntimeRequest {
    type V = RuntimeRequestView;

    open spec fn view(&self) -> RuntimeRequestView {
        RuntimeRequestView {
            method: self.method,
            uri: self.uri@,
            headers: headers_view(self.headers@),
            body: self.body@,
        }
    }
}

} // verus!

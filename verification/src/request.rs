//! HTTP requests, and what becomes of the responses to them.
use core::marker::PhantomData;
use vstd::prelude::*;
use vstd::utf8::{decode_utf8, is_ascii_chars, valid_utf8};

use crate::error::{is_catch_all, request_error, surf_error, Error, Failure};
use crate::http::{
    header_lines, is_header, lemma_values_of_header, lemma_values_of_sum,
    lemma_values_of_without, lower, texts, values_of, without, Headers, Method, StatusCode,
    BAD_REQUEST, OK, UNSUPPORTED_MEDIA_TYPE,
};
use crate::text::{decimal, hex, hex_encode, hex_fits, join_text, same_text, utf8_text};
use crate::url::Address;

verus! {

/// What a request consists of.
#[verifier::ext_equal]
pub struct RequestView {
    /// The request method.
    pub method: Method,
    /// The URL that the request goes to.
    pub url: Seq<char>,
    /// The header lines.
    pub headers: Seq<(Seq<char>, Seq<char>)>,
    /// The body, if there is one.
    pub body: Option<Seq<u8>>,
}

impl RequestView {
    /// This request with the header `key` set to `values`.
    pub open spec fn with_header(self, key: Seq<char>, values: Seq<Seq<char>>) -> RequestView {
        RequestView {
            headers: without(self.headers, lower(key)) + header_lines(key, values),
            ..self
        }
    }

    /// This request with a body of the given content type.
    pub open spec fn with_body(self, content_type: Seq<char>, body: Seq<u8>) -> RequestView {
        RequestView {
            body: Some(body),
            ..self.with_header("content-type"@, seq![content_type])
        }
    }
}

/// A request for a response that is read as a `T`, or as an error `E`.
#[must_use]
#[derive(Debug)]
pub struct Request<T, E> {
    method: Method,
    url: Address,
    headers: Headers,
    body: Option<Vec<u8>>,
    marker: PhantomData<(T, E)>,
}

impl<T, E> View for Request<T, E> {
    type V = RequestView;

    closed spec fn view(&self) -> RequestView {
        RequestView {
            method: self.method,
            url: self.url@,
            headers: self.headers@,
            body: match self.body {
                Some(bytes) => Some(bytes@),
                None => None,
            },
        }
    }
}

/// The values of a header that has one value.
fn one_value(value: &str) -> (r: Vec<String>)
    requires
        is_ascii_chars(value@),
    ensures
        texts(r@) == seq![value@],
        forall|i: int| 0 <= i < r@.len() ==> is_ascii_chars((#[trigger] r@[i])@),
{
    let mut values: Vec<String> = Vec::new();
    values.push(value.to_owned());
    assert(texts(values@) =~= seq![value@]);
    values
}

impl<T, E: Error> Request<T, E> {
    /// A request without headers and body.
    pub fn new(method: Method, url: Address) -> (r: Self)
        ensures
            r@ == (RequestView { method, url: url@, headers: Seq::empty(), body: None }),
    {
        Request { method, url, headers: Headers::new(), body: None, marker: PhantomData }
    }

    /// The request method.
    pub fn method(&self) -> (r: Method)
        ensures
            r == self@.method,
    {
        self.method
    }

    /// The URL that the request goes to.
    pub fn url(&self) -> (r: &Address)
        ensures
            r@ == self@.url,
    {
        &self.url
    }

    /// The headers of the request.
    pub fn headers(&self) -> (r: &Headers)
        ensures
            r@ == self@.headers,
    {
        &self.headers
    }

    /// The body of the request, if there is one.
    pub fn body(&self) -> (r: Option<&Vec<u8>>)
        ensures
            match r {
                Some(bytes) => self@.body == Some(bytes@),
                None => self@.body is None,
            },
    {
        match &self.body {
            Some(bytes) => Some(bytes),
            None => None,
        }
    }

    /// Set a header on the request.
    pub fn header(self, key: &str, values: &Vec<String>) -> (r: Self)
        requires
            is_header(key@, values@),
        ensures
            r@ == self@.with_header(key@, texts(values@)),
    {
        let mut r = self;
        r.headers.insert(key, values);
        r
    }

    /// Set the body and its content type.
    fn content(self, content_type: &str, body: Vec<u8>) -> (r: Self)
        requires
            is_ascii_chars(content_type@),
        ensures
            r@ == self@.with_body(content_type@, body@),
    {
        proof {
            reveal_strlit("content-type");
        }
        let values = one_value(content_type);
        let mut r = self.header("content-type", &values);
        r.body = Some(body);
        r
    }

    /// Set the request body using JSON.
    ///
    /// `encoded` is what serializing the body to JSON gave. It becomes the body, and the
    /// `Content-Type` header is set to `application/json`.
    ///
    /// # Errors
    ///
    /// Fails if the body did not serialize successfully.
    pub fn body_json(self, encoded: Result<Vec<u8>, Failure>) -> (r: Result<Self, E>)
        ensures
            match (encoded, r) {
                (Ok(bytes), Ok(req)) => req@ == self@.with_body("application/json"@, bytes@),
                (Err(f), Err(e)) => is_catch_all(f.status, f.message@, e),
                _ => false,
            },
    {
        match encoded {
            Ok(bytes) => {
                proof {
                    reveal_strlit("application/json");
                }
                Ok(self.content("application/json", bytes))
            },
            Err(f) => Err(surf_error(f)),
        }
    }

    /// Set the request body using the binary format.
    ///
    /// `encoded` is what serializing the body gave, or the description of the error. It becomes
    /// the body, and the `Content-Type` header is set to `application/octet-stream`.
    ///
    /// # Errors
    ///
    /// Fails if the body did not serialize successfully.
    pub fn body_binary(self, encoded: Result<Vec<u8>, String>) -> (r: Result<Self, E>)
        ensures
            match (encoded, r) {
                (Ok(bytes), Ok(req)) => req@ == self@.with_body(
                    "application/octet-stream"@,
                    bytes@,
                ),
                (Err(m), Err(e)) => is_catch_all(
                    StatusCode { code: BAD_REQUEST },
                    m@,
                    e,
                ),
                _ => false,
            },
    {
        match encoded {
            Ok(bytes) => {
                proof {
                    reveal_strlit("application/octet-stream");
                }
                Ok(self.content("application/octet-stream", bytes))
            },
            Err(m) => Err(request_error(m)),
        }
    }
}

/// What a response starts with: its status, and its content type where it has one.
pub struct ResponseHead {
    /// The status of the response.
    pub status: StatusCode,
    /// The value of the `Content-Type` header.
    pub content_type: Option<String>,
}

/// How far the exchange of a request for its response has come.
pub enum Sending {
    /// The request is on its way.
    AwaitingResponse,
    /// The body of a successful response is being read as JSON.
    ReadingJson,
    /// The body of a successful response in the binary format is being read.
    ReadingBinary,
    /// The body of a successful response in the binary format is being decoded.
    DecodingBinary,
    /// The body of a successful response in a format that is not known is being read.
    ReadingUnknown { format: String },
    /// The body of an error response is being read.
    ReadingError { status: StatusCode, content_type: Option<String> },
    /// The body of an error response is being decoded.
    DecodingError { status: StatusCode, format: String, body: Vec<u8> },
    /// The exchange is over.
    Finished,
}

/// What came of the last action in the exchange.
pub enum SendEvent<T, E> {
    /// The server answered, or could not be reached.
    Responded(Result<ResponseHead, Failure>),
    /// The body was read as JSON.
    JsonRead(Result<T, Failure>),
    /// The bytes of the body were read.
    BytesRead(Result<Vec<u8>, Failure>),
    /// The bytes of the body were decoded, or the description of the error.
    Decoded(Result<T, String>),
    /// The bytes of the body were decoded as an error, if they are one.
    ErrorDecoded(Option<E>),
}

/// What to do next in the exchange.
pub enum SendAction<T, E> {
    /// Transmit the request.
    Transmit(Request<T, E>),
    /// Read the body of the response as JSON.
    ReadJson,
    /// Read the bytes of the body of the response.
    ReadBytes,
    /// Decode bytes from the binary format.
    DecodeBinary(Vec<u8>),
    /// Decode bytes from JSON as an error.
    DecodeErrorJson(Vec<u8>),
    /// Decode bytes from the binary format as an error.
    DecodeErrorBinary(Vec<u8>),
    /// Return the result.
    Finish(Result<T, E>),
}

/// The message about a successful response in a format that is not known: for help in
/// debugging it holds the body, as text if it is text.
pub open spec fn unknown_type_message(
    content_type: Seq<char>,
    body: Result<Vec<u8>, Failure>,
) -> Seq<char> {
    "unsupported content type "@ + content_type + " "@ + match body {
        Ok(bytes) => "body: "@ + if valid_utf8(bytes@) {
            decode_utf8(bytes@)
        } else {
            hex(bytes@)
        },
        Err(_) => Seq::empty(),
    }
}

/// The message about an error response whose body cannot be read.
pub open spec fn unread_body_message(status: StatusCode, reason: Seq<char>) -> Seq<char> {
    "Request terminated with error "@ + decimal(status.code as nat)
        + ". Failed to read request body due to "@ + reason
}

/// The message about an error response whose body is not understood: the body itself if it is
/// text, else the status code, the content type and the raw body.
pub open spec fn error_message(
    status: StatusCode,
    content_type: Option<Seq<char>>,
    body: Seq<u8>,
) -> Seq<char> {
    if valid_utf8(body) {
        decode_utf8(body)
    } else {
        "Request terminated with error "@ + decimal(status.code as nat) + ". Content-Type: "@
            + match content_type {
            Some(t) => t,
            None => "unspecified"@,
        } + ". Body: 0x"@ + hex(body)
    }
}

/// Whether a body can be written out: as text, or in hexadecimal if that is not too long.
pub open spec fn is_showable(body: Seq<u8>) -> bool {
    valid_utf8(body) || hex_fits(body)
}

/// Whether this is one of the two formats that can be decoded.
pub open spec fn is_known_format(content_type: Seq<char>) -> bool {
    content_type == "application/json"@ || content_type == "application/octet-stream"@
}

/// The text in an optional string.
pub open spec fn opt_text(s: Option<String>) -> Option<Seq<char>> {
    match s {
        Some(t) => Some(t@),
        None => None,
    }
}

/// Whether `r` is the error made of `status` and `msg`.
pub open spec fn is_failed<T, E: Error>(
    status: StatusCode,
    msg: Seq<char>,
    r: Result<T, E>,
) -> bool {
    r matches Err(e) && is_catch_all(status, msg, e)
}

impl Sending {
    /// Whether the exchange can be in this state.
    pub open spec fn well_formed(self) -> bool {
        self matches Sending::DecodingError { format, .. } ==> is_known_format(format@)
    }

    /// Whether a body that has to be written out after `event` in this state can be.
    pub open spec fn can_show<T, E>(self, event: SendEvent<T, E>) -> bool {
        match (self, event) {
            (Sending::ReadingUnknown { .. }, SendEvent::BytesRead(Ok(body))) => is_showable(body@),
            (
                Sending::ReadingError { content_type, .. },
                SendEvent::BytesRead(Ok(body)),
            ) => content_type is Some && is_known_format(content_type->0@) || is_showable(body@),
            (Sending::DecodingError { body, .. }, SendEvent::ErrorDecoded(None)) => is_showable(
                body@,
            ),
            _ => true,
        }
    }

    /// Whether `event` can happen in this state.
    pub open spec fn expects<T, E>(self, event: SendEvent<T, E>) -> bool {
        match self {
            Sending::AwaitingResponse => event is Responded,
            Sending::ReadingJson => event is JsonRead,
            Sending::ReadingBinary => event is BytesRead,
            Sending::DecodingBinary => event is Decoded,
            Sending::ReadingUnknown { .. } => event is BytesRead,
            Sending::ReadingError { .. } => event is BytesRead,
            Sending::DecodingError { .. } => event is ErrorDecoded,
            Sending::Finished => false,
        }
    }

    /// How many events can still happen.
    pub open spec fn events_left(self) -> nat {
        match self {
            Sending::AwaitingResponse => 3,
            Sending::ReadingBinary | Sending::ReadingError { .. } => 2,
            Sending::ReadingJson | Sending::DecodingBinary | Sending::ReadingUnknown { .. }
            | Sending::DecodingError { .. } => 1,
            Sending::Finished => 0,
        }
    }

    /// Whether `next` and `action` are what follows when `head` comes in.
    pub open spec fn on_response<T, E: Error>(
        head: ResponseHead,
        next: Sending,
        action: SendAction<T, E>,
    ) -> bool {
        if head.status.code != OK {
            &&& next == (Sending::ReadingError {
                status: head.status,
                content_type: head.content_type,
            })
            &&& action is ReadBytes
        } else {
            match head.content_type {
                None => {
                    &&& next is Finished
                    &&& action matches SendAction::Finish(r) && is_failed(
                        StatusCode { code: UNSUPPORTED_MEDIA_TYPE },
                        "unspecified content type in response"@,
                        r,
                    )
                },
                Some(content_type) => if content_type@ == "application/json"@ {
                    next is ReadingJson && action is ReadJson
                } else if content_type@ == "application/octet-stream"@ {
                    next is ReadingBinary && action is ReadBytes
                } else {
                    next == (Sending::ReadingUnknown { format: content_type }) && action is ReadBytes
                },
            }
        }
    }

    /// Whether `next` and `action` are what follows when the body of an error response has been
    /// read.
    pub open spec fn on_error_body<T, E: Error>(
        status: StatusCode,
        content_type: Option<String>,
        body: Result<Vec<u8>, Failure>,
        next: Sending,
        action: SendAction<T, E>,
    ) -> bool {
        match body {
            Err(f) => {
                &&& next is Finished
                &&& action matches SendAction::Finish(r) && is_failed(
                    status,
                    unread_body_message(status, f.message@),
                    r,
                )
            },
            Ok(bytes) => if content_type is Some && is_known_format(content_type->0@) {
                &&& next == (Sending::DecodingError {
                    status,
                    format: content_type->0,
                    body: bytes,
                })
                &&& if content_type->0@ == "application/json"@ {
                    action matches SendAction::DecodeErrorJson(b) && b@ == bytes@
                } else {
                    action matches SendAction::DecodeErrorBinary(b) && b@ == bytes@
                }
            } else {
                &&& next is Finished
                &&& action matches SendAction::Finish(r) && is_failed(
                    status,
                    error_message(status, opt_text(content_type), bytes@),
                    r,
                )
            },
        }
    }

    /// Whether `next` and `action` are what follows when `event` happens in this state.
    pub open spec fn leads_to<T, E: Error>(
        self,
        event: SendEvent<T, E>,
        next: Sending,
        action: SendAction<T, E>,
    ) -> bool {
        match (self, event) {
            (Sending::AwaitingResponse, SendEvent::Responded(Ok(head))) => Sending::on_response(
                head,
                next,
                action,
            ),
            (Sending::AwaitingResponse, SendEvent::Responded(Err(f))) => {
                &&& next is Finished
                &&& action matches SendAction::Finish(r) && is_failed(f.status, f.message@, r)
            },
            (Sending::ReadingJson, SendEvent::JsonRead(Ok(value))) => {
                &&& next is Finished
                &&& action == SendAction::<T, E>::Finish(Ok(value))
            },
            (Sending::ReadingJson, SendEvent::JsonRead(Err(f))) => {
                &&& next is Finished
                &&& action matches SendAction::Finish(r) && is_failed(f.status, f.message@, r)
            },
            (Sending::ReadingBinary, SendEvent::BytesRead(Ok(bytes))) => {
                &&& next is DecodingBinary
                &&& action == SendAction::<T, E>::DecodeBinary(bytes)
            },
            (Sending::ReadingBinary, SendEvent::BytesRead(Err(f))) => {
                &&& next is Finished
                &&& action matches SendAction::Finish(r) && is_failed(f.status, f.message@, r)
            },
            (Sending::DecodingBinary, SendEvent::Decoded(Ok(value))) => {
                &&& next is Finished
                &&& action == SendAction::<T, E>::Finish(Ok(value))
            },
            (Sending::DecodingBinary, SendEvent::Decoded(Err(m))) => {
                &&& next is Finished
                &&& action matches SendAction::Finish(r) && is_failed(
                    StatusCode { code: BAD_REQUEST },
                    m@,
                    r,
                )
            },
            (Sending::ReadingUnknown { format }, SendEvent::BytesRead(body)) => {
                &&& next is Finished
                &&& action matches SendAction::Finish(r) && is_failed(
                    StatusCode { code: UNSUPPORTED_MEDIA_TYPE },
                    unknown_type_message(format@, body),
                    r,
                )
            },
            (
                Sending::ReadingError { status, content_type },
                SendEvent::BytesRead(body),
            ) => Sending::on_error_body(status, content_type, body, next, action),
            (Sending::DecodingError { .. }, SendEvent::ErrorDecoded(Some(e))) => {
                &&& next is Finished
                &&& action == SendAction::<T, E>::Finish(Err(e))
            },
            (
                Sending::DecodingError { status, format, body },
                SendEvent::ErrorDecoded(None),
            ) => {
                &&& next is Finished
                &&& action matches SendAction::Finish(r) && is_failed(
                    status,
                    error_message(status, Some(format@), body@),
                    r,
                )
            },
            _ => false,
        }
    }

    /// Whether the exchange can go on after `event`: it can happen in this state, and a body that
    /// has to be written out is not too long for it.
    pub fn accepts<T, E>(&self, event: &SendEvent<T, E>) -> (r: bool)
        ensures
            r == (self.well_formed() && self.expects(*event) && self.can_show(*event)),
    {
        match (self, event) {
            (Sending::AwaitingResponse, SendEvent::Responded(_)) => true,
            (Sending::ReadingJson, SendEvent::JsonRead(_)) => true,
            (Sending::ReadingBinary, SendEvent::BytesRead(_)) => true,
            (Sending::DecodingBinary, SendEvent::Decoded(_)) => true,
            (Sending::ReadingUnknown { .. }, SendEvent::BytesRead(read)) => match read {
                Ok(body) => Sending::shows(body),
                Err(_) => true,
            },
            (Sending::ReadingError { content_type, .. }, SendEvent::BytesRead(read)) => match read {
                Ok(body) => (match content_type {
                    Some(t) => Sending::knows(t.as_str()),
                    None => false,
                }) || Sending::shows(body),
                Err(_) => true,
            },
            (Sending::DecodingError { format, body, .. }, SendEvent::ErrorDecoded(decoded)) => {
                Sending::knows(format.as_str()) && (decoded.is_some() || Sending::shows(body))
            },
            _ => false,
        }
    }

    /// Whether a body can be written out.
    fn shows(body: &Vec<u8>) -> (r: bool)
        ensures
            r == is_showable(body@),
    {
        body.len() <= isize::MAX as usize / 2 || utf8_text(body).is_some()
    }

    /// Whether this is one of the two formats that can be decoded.
    fn knows(content_type: &str) -> (r: bool)
        ensures
            r == is_known_format(content_type@),
    {
        same_text(content_type, "application/json") || same_text(
            content_type,
            "application/octet-stream",
        )
    }

    /// Go on with the exchange after `event`.
    pub fn advance<T, E: Error>(self, event: SendEvent<T, E>) -> (r: (Sending, SendAction<T, E>))
        requires
            self.well_formed(),
            self.expects(event),
            self.can_show(event),
        ensures
            self.leads_to(event, r.0, r.1),
            r.0.well_formed(),
    {
        match (self, event) {
            (Sending::AwaitingResponse, SendEvent::Responded(response)) => match response {
                Ok(head) => Sending::responded(head),
                Err(f) => (Sending::Finished, SendAction::Finish(Err(surf_error(f)))),
            },
            (Sending::ReadingJson, SendEvent::JsonRead(read)) => match read {
                Ok(value) => (Sending::Finished, SendAction::Finish(Ok(value))),
                Err(f) => (Sending::Finished, SendAction::Finish(Err(surf_error(f)))),
            },
            (Sending::ReadingBinary, SendEvent::BytesRead(read)) => match read {
                Ok(bytes) => (Sending::DecodingBinary, SendAction::DecodeBinary(bytes)),
                Err(f) => (Sending::Finished, SendAction::Finish(Err(surf_error(f)))),
            },
            (Sending::DecodingBinary, SendEvent::Decoded(decoded)) => match decoded {
                Ok(value) => (Sending::Finished, SendAction::Finish(Ok(value))),
                Err(m) => (Sending::Finished, SendAction::Finish(Err(request_error(m)))),
            },
            (Sending::ReadingUnknown { format }, SendEvent::BytesRead(read)) => {
                let msg = Sending::unknown_type(format.as_str(), &read);
                let e = E::catch_all(StatusCode { code: UNSUPPORTED_MEDIA_TYPE }, msg);
                (Sending::Finished, SendAction::Finish(Err(e)))
            },
            (
                Sending::ReadingError { status, content_type },
                SendEvent::BytesRead(read),
            ) => Sending::error_body(status, content_type, read),
            (
                Sending::DecodingError { status, format, body },
                SendEvent::ErrorDecoded(decoded),
            ) => match decoded {
                Some(e) => (Sending::Finished, SendAction::Finish(Err(e))),
                None => {
                    let e = Sending::error_response(status, Some(format.as_str()), &body);
                    (Sending::Finished, SendAction::Finish(Err(e)))
                },
            },
            _ => {
                assert(false);
                vstd::pervasive::unreached()
            },
        }
    }

    /// Go on with a response that came in: a successful one is read in the format that its
    /// content type says.
    fn responded<T, E: Error>(head: ResponseHead) -> (r: (Sending, SendAction<T, E>))
        ensures
            Sending::on_response(head, r.0, r.1),
            r.0.well_formed(),
    {
        if head.status.code != OK {
            let next = Sending::ReadingError {
                status: head.status,
                content_type: head.content_type,
            };
            (next, SendAction::ReadBytes)
        } else {
            match head.content_type {
                None => {
                    let e = E::catch_all(
                        StatusCode { code: UNSUPPORTED_MEDIA_TYPE },
                        "unspecified content type in response".to_owned(),
                    );
                    (Sending::Finished, SendAction::Finish(Err(e)))
                },
                Some(content_type) => if same_text(content_type.as_str(), "application/json") {
                    (Sending::ReadingJson, SendAction::ReadJson)
                } else if same_text(content_type.as_str(), "application/octet-stream") {
                    (Sending::ReadingBinary, SendAction::ReadBytes)
                } else {
                    (Sending::ReadingUnknown { format: content_type }, SendAction::ReadBytes)
                },
            }
        }
    }

    /// Go on with the body of an error response: if its content type is one of those that are
    /// known, see whether it is a serialized error.
    fn error_body<T, E: Error>(
        status: StatusCode,
        content_type: Option<String>,
        body: Result<Vec<u8>, Failure>,
    ) -> (r: (Sending, SendAction<T, E>))
        requires
            body matches Ok(bytes) ==> content_type is Some && is_known_format(content_type->0@)
                || is_showable(bytes@),
        ensures
            Sending::on_error_body(status, content_type, body, r.0, r.1),
            r.0.well_formed(),
    {
        match body {
            Err(f) => {
                let number = status.to_text();
                let a = join_text("Request terminated with error ", number.as_str());
                let b = join_text(a.as_str(), ". Failed to read request body due to ");
                let msg = join_text(b.as_str(), f.message.as_str());
                (Sending::Finished, SendAction::Finish(Err(E::catch_all(status, msg))))
            },
            Ok(bytes) => match content_type {
                None => {
                    let e = Sending::error_response(status, None, &bytes);
                    (Sending::Finished, SendAction::Finish(Err(e)))
                },
                Some(t) => if same_text(t.as_str(), "application/json") {
                    let copy = bytes.clone();
                    assert(copy@ =~= bytes@);
                    (
                        Sending::DecodingError { status, format: t, body: bytes },
                        SendAction::DecodeErrorJson(copy),
                    )
                } else if same_text(t.as_str(), "application/octet-stream") {
                    let copy = bytes.clone();
                    assert(copy@ =~= bytes@);
                    proof {
                        reveal_strlit("application/json");
                        reveal_strlit("application/octet-stream");
                    }
                    (
                        Sending::DecodingError { status, format: t, body: bytes },
                        SendAction::DecodeErrorBinary(copy),
                    )
                } else {
                    let e = Sending::error_response(status, Some(t.as_str()), &bytes);
                    (Sending::Finished, SendAction::Finish(Err(e)))
                },
            },
        }
    }

    /// Write the message about a successful response in a format that is not known.
    fn unknown_type(content_type: &str, body: &Result<Vec<u8>, Failure>) -> (r: String)
        requires
            body matches Ok(bytes) ==> is_showable(bytes@),
        ensures
            r@ == unknown_type_message(content_type@, *body),
    {
        let shown = match body {
            Ok(bytes) => match utf8_text(bytes) {
                Some(s) => join_text("body: ", s),
                None => {
                    let digits = hex_encode(bytes);
                    join_text("body: ", digits.as_str())
                },
            },
            Err(_) => String::new(),
        };
        let a = join_text("unsupported content type ", content_type);
        let b = join_text(a.as_str(), " ");
        join_text(b.as_str(), shown.as_str())
    }

    /// Make an error of an error response whose body is not a serialized error.
    fn error_response<E: Error>(
        status: StatusCode,
        content_type: Option<&str>,
        body: &Vec<u8>,
    ) -> (e: E)
        requires
            is_showable(body@),
        ensures
            is_catch_all(
                status,
                error_message(
                    status,
                    match content_type {
                        Some(t) => Some(t@),
                        None => None,
                    },
                    body@,
                ),
                e,
            ),
    {
        match utf8_text(body) {
            Some(s) => E::catch_all(status, s.to_owned()),
            None => {
                let number = status.to_text();
                let a = join_text("Request terminated with error ", number.as_str());
                let b = join_text(a.as_str(), ". Content-Type: ");
                let c = match content_type {
                    Some(t) => join_text(b.as_str(), t),
                    None => join_text(b.as_str(), "unspecified"),
                };
                let d = join_text(c.as_str(), ". Body: 0x");
                let digits = hex_encode(body);
                let msg = join_text(d.as_str(), digits.as_str());
                E::catch_all(status, msg)
            },
        }
    }
}

impl<T, E: Error> Request<T, E> {
    /// Send the request and get a response from the server.
    ///
    /// This begins the exchange; [`Sending::advance`] goes on with it.
    ///
    /// If the request succeeds (receives a response with the status OK) the response body is
    /// converted to a `T`, using a format determined by the `Content-Type` header of the
    /// response.
    ///
    /// # Errors
    ///
    /// If the client is unable to reach the server, or if the response body cannot be
    /// interpreted as a `T`, an error message is created using
    /// [catch_all](Error::catch_all) and returned.
    ///
    /// If the request completes but the response status code is not OK, an error message is
    /// constructed using the body of the response. If there is a body and it can be converted to
    /// an `E` using the content type specified in the response's `Content-Type` header, that `E`
    /// will be returned directly. Otherwise, an error message is synthesized using
    /// [catch_all](Error::catch_all) that includes human-readable information about the
    /// response.
    pub fn send(self) -> (r: (Sending, SendAction<T, E>))
        ensures
            r.0 is AwaitingResponse,
            r.0.well_formed(),
            r.1 == SendAction::Transmit(self),
    {
        (Sending::AwaitingResponse, SendAction::Transmit(self))
    }
}

/// Everything that the outside can answer in the course of one exchange.
pub struct Answers<T, E> {
    /// The response that comes in.
    pub response: Result<ResponseHead, Failure>,
    /// The body of the response, read as JSON.
    pub json: Result<T, Failure>,
    /// The bytes of the body of the response.
    pub bytes: Result<Vec<u8>, Failure>,
    /// The bytes of the body, decoded from the binary format.
    pub decoded: Result<T, String>,
    /// The bytes of the body, decoded as an error from the format of the response.
    pub error: Option<E>,
}

impl<T, E: Error> Answers<T, E> {
    /// The event that happens in the state `s`.
    pub open spec fn event(self, s: Sending) -> SendEvent<T, E> {
        match s {
            Sending::AwaitingResponse => SendEvent::Responded(self.response),
            Sending::ReadingJson => SendEvent::JsonRead(self.json),
            Sending::ReadingBinary => SendEvent::BytesRead(self.bytes),
            Sending::DecodingBinary => SendEvent::Decoded(self.decoded),
            Sending::ReadingUnknown { .. } => SendEvent::BytesRead(self.bytes),
            Sending::ReadingError { .. } => SendEvent::BytesRead(self.bytes),
            Sending::DecodingError { .. } => SendEvent::ErrorDecoded(self.error),
            Sending::Finished => arbitrary(),
        }
    }

    /// Whether the exchange, once it is in the state `s`, can end with the result `r`.
    pub open spec fn can_end(self, s: Sending, r: Result<T, E>) -> bool
        decreases s.events_left(),
    {
        exists|next: Sending, action: SendAction<T, E>|
            {
                &&& #[trigger] s.leads_to(self.event(s), next, action)
                &&& match action {
                    SendAction::Finish(result) => r == result,
                    _ => next.events_left() < s.events_left() && self.can_end(next, r),
                }
            }
    }

    /// Whether `r` is the result that a successful response is to have.
    pub open spec fn is_success_result(self, content_type: Option<String>, r: Result<T, E>) -> bool {
        match opt_text(content_type) {
            None => is_failed(
                StatusCode { code: UNSUPPORTED_MEDIA_TYPE },
                "unspecified content type in response"@,
                r,
            ),
            Some(format) => if format == "application/json"@ {
                match self.json {
                    Ok(value) => r == Ok::<T, E>(value),
                    Err(f) => is_failed(f.status, f.message@, r),
                }
            } else if format == "application/octet-stream"@ {
                match (self.bytes, self.decoded) {
                    (Err(f), _) => is_failed(f.status, f.message@, r),
                    (Ok(_), Ok(value)) => r == Ok::<T, E>(value),
                    (Ok(_), Err(m)) => is_failed(
                        StatusCode { code: BAD_REQUEST },
                        m@,
                        r,
                    ),
                }
            } else {
                is_failed(
                    StatusCode { code: UNSUPPORTED_MEDIA_TYPE },
                    unknown_type_message(format, self.bytes),
                    r,
                )
            },
        }
    }

    /// Whether `r` is the result that an error response is to have.
    pub open spec fn is_error_result(self, head: ResponseHead, r: Result<T, E>) -> bool {
        match self.bytes {
            Err(f) => is_failed(head.status, unread_body_message(head.status, f.message@), r),
            Ok(bytes) => if head.content_type is Some && is_known_format(head.content_type->0@)
                && self.error is Some {
                r == Err::<T, E>(self.error->0)
            } else {
                is_failed(
                    head.status,
                    error_message(head.status, opt_text(head.content_type), bytes@),
                    r,
                )
            },
        }
    }

    /// Whether `r` is the result that the exchange is to have.
    pub open spec fn is_result(self, r: Result<T, E>) -> bool {
        match self.response {
            Err(f) => is_failed(f.status, f.message@, r),
            Ok(head) => if head.status.code == OK {
                self.is_success_result(head.content_type, r)
            } else {
                self.is_error_result(head, r)
            },
        }
    }
}

/// An exchange is over after three events at most: every action but the last leaves fewer
/// events to come.
pub proof fn law_send_ends<T, E: Error>(
    s: Sending,
    event: SendEvent<T, E>,
    next: Sending,
    action: SendAction<T, E>,
)
    requires
        s.leads_to(event, next, action),
    ensures
        s.events_left() <= 3,
        next.events_left() < s.events_left(),
        next is Finished <==> action is Finish,
        !(action is Transmit),
{
}

/// A request ends as its documentation says: what an exchange that has begun can end with is
/// the result for the answers that were given in it.
pub proof fn law_send_result<T, E: Error>(answers: Answers<T, E>, r: Result<T, E>)
    requires
        answers.can_end(Sending::AwaitingResponse, r),
    ensures
        answers.is_result(r),
{
    reveal_with_fuel(Answers::can_end, 4);
    reveal_strlit("application/json");
    reveal_strlit("application/octet-stream");
    assert("application/json"@.len() == 16 && "application/octet-stream"@.len() == 24);
    let s0 = Sending::AwaitingResponse;
    let (s1, a1) = choose|next: Sending, action: SendAction<T, E>|
        {
            &&& #[trigger] s0.leads_to(answers.event(s0), next, action)
            &&& match action {
                SendAction::Finish(result) => r == result,
                _ => next.events_left() < s0.events_left() && answers.can_end(next, r),
            }
        };
    if !(a1 is Finish) {
        let (s2, a2) = choose|next: Sending, action: SendAction<T, E>|
            {
                &&& #[trigger] s1.leads_to(answers.event(s1), next, action)
                &&& match action {
                    SendAction::Finish(result) => r == result,
                    _ => next.events_left() < s1.events_left() && answers.can_end(next, r),
                }
            };
        if !(a2 is Finish) {
            let (s3, a3) = choose|next: Sending, action: SendAction<T, E>|
                {
                    &&& #[trigger] s2.leads_to(answers.event(s2), next, action)
                    &&& match action {
                        SendAction::Finish(result) => r == result,
                        _ => next.events_left() < s2.events_left() && answers.can_end(next, r),
                    }
                };
            law_send_ends(s2, answers.event(s2), s3, a3);
        }
    }
}

/// A value comes only out of a response with the status OK in one of the two formats.
pub proof fn law_value_from_success<T, E: Error>(answers: Answers<T, E>, value: T)
    requires
        answers.can_end(Sending::AwaitingResponse, Ok(value)),
    ensures
        answers.response is Ok,
        answers.response->Ok_0.status.code == OK,
        answers.response->Ok_0.content_type is Some,
        is_known_format(answers.response->Ok_0.content_type->0@),
        answers.json == Ok::<T, Failure>(value) || answers.decoded == Ok::<T, String>(value),
{
    law_send_result(answers, Ok(value));
}

/// The error that a server serialized in one of the two formats is returned as it is.
pub proof fn law_server_error_returned<T, E: Error>(
    answers: Answers<T, E>,
    head: ResponseHead,
    e: E,
    r: Result<T, E>,
)
    requires
        answers.can_end(Sending::AwaitingResponse, r),
        answers.response == Ok::<ResponseHead, Failure>(head),
        head.status.code != OK,
        head.content_type matches Some(t) && is_known_format(t@),
        answers.bytes is Ok,
        answers.error == Some(e),
    ensures
        r == Err::<T, E>(e),
{
    law_send_result(answers, r);
}

/// A header that is set has the values it was set to, whatever it was before; the other headers
/// and all else in the request stay.
pub proof fn law_header_set(req: RequestView, key: Seq<char>, values: Seq<Seq<char>>, name: Seq<char>)
    ensures
        values_of(req.with_header(key, values).headers, name) == if name == lower(key) {
            values
        } else {
            values_of(req.headers, name)
        },
        req.with_header(key, values) == (RequestView {
            headers: req.with_header(key, values).headers,
            ..req
        }),
{
    let kept = without(req.headers, lower(key));
    lemma_values_of_sum(kept, header_lines(key, values), name);
    lemma_values_of_without(req.headers, lower(key), name);
    lemma_values_of_header(key, values, name);
    assert(Seq::<Seq<char>>::empty() + values =~= values);
    let own = values_of(req.headers, name);
    assert(own + Seq::<Seq<char>>::empty() =~= own);
}

/// A request with a body has the content type of the body that was set last, and that one only;
/// the other headers stay.
pub proof fn law_body_content_type(
    req: RequestView,
    content_type: Seq<char>,
    body: Seq<u8>,
    name: Seq<char>,
)
    ensures
        req.with_body(content_type, body).body == Some(body),
        req.with_body(content_type, body).method == req.method,
        req.with_body(content_type, body).url == req.url,
        values_of(req.with_body(content_type, body).headers, name) == if name == "content-type"@ {
            seq![content_type]
        } else {
            values_of(req.headers, name)
        },
{
    reveal_strlit("content-type");
    assert(lower("content-type"@) =~= "content-type"@);
    law_header_set(req, "content-type"@, seq![content_type], name);
}

} // verus!

//! What the operations are for: laws on what they give for what they are given, whatever state
//! and messages they go through on the way.
use vstd::prelude::*;
use vstd::utf8::{decode_utf8, valid_utf8};

use crate::client::{Client, ClientBuilder};
use crate::error::{request_error, surf_error, Error, Failure};
use crate::http::{lower, texts, Headers, Method, StatusCode};
use crate::poll::{AwaitingHealth, Connecting, PollAction, PollState};
use crate::request::{Request, RequestView, ResponseHead, SendAction, SendEvent, Sending};
use crate::socket::{
    Connection, Handshake, HandshakeAction, HandshakeEvent, Incoming, Message, Polled,
    SocketRequest, SocketView, WsError,
};
use crate::time::Duration;
use crate::url::{
    has_scheme, is_after_authority, is_after_path, is_colon, lemma_find_from,
    lemma_found_at, law_parts_in_order, url_join, url_parse, url_path, url_path_end,
    url_path_set, url_path_start, url_scheme, url_scheme_end, Address, ParseError,
};

verus! {

/// Whether `e` is what `catch_all` makes of a status code and a message.
pub open spec fn is_error<E: Error>(code: u16, msg: Seq<char>, e: E) -> bool {
    exists|m: String| m@ == msg && #[trigger] call_ensures(E::catch_all, (StatusCode { code }, m), e)
}

/// What a decimal numeral stands for.
pub open spec fn decimal_value(digits: Seq<char>) -> int
    decreases digits.len(),
{
    if digits.len() == 0 {
        0
    } else {
        10 * decimal_value(digits.drop_last()) + (digits.last() as int - '0' as int)
    }
}

/// What a hexadecimal digit stands for.
pub open spec fn hex_value(digit: char) -> int {
    if '0' <= digit <= '9' {
        digit as int - '0' as int
    } else {
        digit as int - 'a' as int + 10
    }
}

/// Whether `c` is a hexadecimal digit, in lower case if it is a letter.
pub open spec fn is_hex_digit(c: char) -> bool {
    '0' <= c <= '9' || 'a' <= c <= 'f'
}

/// A numeral is made of digits, does not start with a zero unless it is one, and stands for the
/// number it was made of.
pub proof fn law_decimal(n: nat)
    ensures
        decimal_value(crate::text::decimal(n)) == n,
        crate::text::decimal(n).len() > 0,
        forall|i: int|
            0 <= i < crate::text::decimal(n).len() ==> '0' <= #[trigger] crate::text::decimal(n)[i]
                <= '9',
        n >= 10 ==> crate::text::decimal(n)[0] != '0',
        n < 10 ==> crate::text::decimal(n).len() == 1,
        n > 0 ==> crate::text::decimal(n)[0] != '0',
    decreases n,
{
    let s = crate::text::decimal(n);
    if n < 10 {
        assert(s.drop_last() =~= Seq::empty());
        assert(decimal_value(s.drop_last()) == 0);
        assert(s.last() as int == 48 + n);
    } else {
        law_decimal(n / 10);
        assert(s.drop_last() =~= crate::text::decimal(n / 10));
        assert(s.last() as int == 48 + n % 10);
        assert forall|i: int| 0 <= i < s.len() implies '0' <= #[trigger] s[i] <= '9' by {
            if i < s.len() - 1 {
                assert(s[i] == crate::text::decimal(n / 10)[i]);
            }
        }
        assert(s[0] == crate::text::decimal(n / 10)[0]);
    }
}

/// Two hexadecimal digits stand for each byte, the high half first.
pub proof fn law_hex(bytes: Seq<u8>, i: int)
    requires
        0 <= i < bytes.len(),
    ensures
        crate::text::hex(bytes).len() == 2 * bytes.len(),
        is_hex_digit(crate::text::hex(bytes)[2 * i]),
        is_hex_digit(crate::text::hex(bytes)[2 * i + 1]),
        16 * hex_value(crate::text::hex(bytes)[2 * i]) + hex_value(
            crate::text::hex(bytes)[2 * i + 1],
        ) == bytes[i],
{
    let b = bytes[i] as int;
    assert((2 * i) / 2 == i && (2 * i + 1) / 2 == i && (2 * i) % 2 == 0 && (2 * i + 1) % 2 == 1);
    assert(0 <= b / 16 < 16 && 0 <= b % 16 < 16 && 16 * (b / 16) + b % 16 == b);
}

/// A status code is written as the decimal numeral that stands for it.
pub proof fn law_status_text(status: StatusCode, r: String)
    requires
        call_ensures(StatusCode::to_text, (&status,), r),
    ensures
        decimal_value(r@) == status.code,
        r@.len() > 0,
        forall|i: int| 0 <= i < r@.len() ==> '0' <= #[trigger] r@[i] <= '9',
        status.code > 0 ==> r@[0] != '0',
{
    law_decimal(status.code as nat);
}

/// A span is told apart into the seconds and the nanoseconds that it was made of.
pub proof fn law_duration_parts(secs: u64, nanos: u32, d: Duration, s: u64, n: u32)
    requires
        nanos < 1_000_000_000,
        call_ensures(Duration::new, (secs, nanos), d),
        call_ensures(Duration::as_secs, (&d,), s),
        call_ensures(Duration::subsec_nanos, (&d,), n),
    ensures
        d@ == secs * 1_000_000_000 + nanos,
        s == secs,
        n == nanos,
{
    assert(d@ == secs * 1_000_000_000 + nanos);
    assert((secs * 1_000_000_000 + nanos) / 1_000_000_000 == secs);
    assert((secs * 1_000_000_000 + nanos) % 1_000_000_000 == nanos as int);
}

/// Whole seconds are a thousand million nanoseconds each, and a span is shorter than another if
/// it has fewer nanoseconds.
pub proof fn law_durations_compared(secs: u64, a: Duration, b: Duration, r: bool)
    requires
        call_ensures(Duration::from_secs, (secs,), a),
        call_ensures(Duration::is_shorter, (&a, &b), r),
    ensures
        a@ == secs * 1_000_000_000,
        r == (secs * 1_000_000_000 < b@),
{
}

/// What is wrong with a request is reported with the status 400, a failure of the HTTP client
/// with its own status.
pub proof fn law_errors_reported<E: Error>(source: String, failure: Failure, a: E, b: E)
    requires
        call_ensures(request_error::<E>, (source,), a),
        call_ensures(surf_error::<E>, (failure,), b),
    ensures
        is_error(400, source@, a),
        is_error(failure.status.code, failure.message@, b),
{
}

/// The letters of a header name are put in lower case; nothing else in it is changed.
pub proof fn law_lower(s: Seq<char>, i: int)
    requires
        0 <= i < s.len(),
    ensures
        lower(s).len() == s.len(),
        'A' <= s[i] <= 'Z' ==> lower(s)[i] as int == s[i] as int + 32,
        !('A' <= s[i] <= 'Z') ==> lower(s)[i] == s[i],
{
}

/// The lines for a header with each of its values.
pub open spec fn lines_for(key: Seq<char>, values: Seq<String>) -> Seq<(Seq<char>, Seq<char>)> {
    Seq::new(values.len(), |i: int| (lower(key), values[i]@))
}

/// What the lines of all headers but `name` satisfy.
pub open spec fn is_other(name: Seq<char>) -> spec_fn((Seq<char>, Seq<char>)) -> bool {
    |l: (Seq<char>, Seq<char>)| l.0 != name
}

/// The lines of the other headers, in the order that they were in.
pub open spec fn lines_of_others(lines: Seq<(Seq<char>, Seq<char>)>, key: Seq<char>) -> Seq<
    (Seq<char>, Seq<char>),
> {
    lines.filter(is_other(lower(key)))
}

/// To leave the lines of a header out is to keep the others.
proof fn lemma_without_is_filter(lines: Seq<(Seq<char>, Seq<char>)>, name: Seq<char>)
    ensures
        crate::http::without(lines, name) == lines.filter(is_other(name)),
    decreases lines.len(),
{
    reveal(Seq::filter);
    if lines.len() > 0 {
        lemma_without_is_filter(lines.drop_last(), name);
    } else {
        assert(lines =~= Seq::empty());
    }
}

/// The values of a header are those in its lines, in order.
pub proof fn law_values_of(lines: Seq<(Seq<char>, Seq<char>)>, name: Seq<char>)
    ensures
        crate::http::values_of(lines, name) == lines.filter(
            |l: (Seq<char>, Seq<char>)| l.0 == name,
        ).map_values(|l: (Seq<char>, Seq<char>)| l.1),
    decreases lines.len(),
{
    reveal(Seq::filter);
    let kept = lines.filter(|l: (Seq<char>, Seq<char>)| l.0 == name);
    if lines.len() > 0 {
        law_values_of(lines.drop_last(), name);
        let rest = lines.drop_last().filter(|l: (Seq<char>, Seq<char>)| l.0 == name);
        if lines.last().0 == name {
            assert(kept.map_values(|l: (Seq<char>, Seq<char>)| l.1) =~= rest.map_values(
                |l: (Seq<char>, Seq<char>)| l.1,
            ).push(lines.last().1));
        }
    } else {
        assert(kept.map_values(|l: (Seq<char>, Seq<char>)| l.1) =~= Seq::empty());
    }
}

/// The lines that are made for a header are one for each value.
proof fn lemma_lines_for(key: Seq<char>, values: Seq<String>)
    ensures
        crate::http::header_lines(key, texts(values)) == lines_for(key, values),
{
    assert(crate::http::header_lines(key, texts(values)) =~= lines_for(key, values));
}

/// Appending adds a line for each value behind those that are there; inserting drops the lines
/// of the header first.
pub proof fn law_headers_changed(
    a: &mut Headers,
    b: &mut Headers,
    key: &str,
    values: Vec<String>,
    ra: (),
    rb: (),
)
    requires
        call_ensures(Headers::append, (a, key, &values), ra),
        call_ensures(Headers::insert, (b, key, &values), rb),
    ensures
        final(a)@ == old(a)@ + lines_for(key@, values@),
        final(b)@ == lines_of_others(old(b)@, key@) + lines_for(key@, values@),
{
    lemma_lines_for(key@, values@);
    lemma_without_is_filter(old(b)@, lower(key@));
}

/// A header that is set on a request takes the place of the lines it had; nothing else changes.
pub proof fn law_request_header<T, E: Error>(
    req: Request<T, E>,
    key: &str,
    values: Vec<String>,
    r: Request<T, E>,
)
    requires
        call_ensures(Request::<T, E>::header, (req, key, &values), r),
    ensures
        r@.headers == lines_of_others(req@.headers, key@) + lines_for(key@, values@),
        r@.method == req@.method,
        r@.url == req@.url,
        r@.body == req@.body,
{
    lemma_lines_for(key@, values@);
    lemma_without_is_filter(req@.headers, lower(key@));
}

/// The headers of a request with a body of a content type: all that it had but for the content
/// type, and that one line.
pub open spec fn with_content_type(lines: Seq<(Seq<char>, Seq<char>)>, content_type: Seq<char>) -> Seq<
    (Seq<char>, Seq<char>),
> {
    lines.filter(is_other("content-type"@)).push(("content-type"@, content_type))
}

/// What a body does to the headers.
proof fn lemma_with_body(req: RequestView, content_type: Seq<char>, body: Seq<u8>)
    ensures
        req.with_body(content_type, body).headers == with_content_type(req.headers, content_type),
{
    reveal_strlit("content-type");
    assert(lower("content-type"@) =~= "content-type"@);
    lemma_without_is_filter(req.headers, "content-type"@);
    assert(req.with_body(content_type, body).headers =~= with_content_type(
        req.headers,
        content_type,
    ));
}

/// A body that serialized becomes the body, byte for byte, with its content type; one that did not
/// is the error that serializing gave.
pub proof fn law_request_bodies<T, E: Error>(
    req: Request<T, E>,
    json: Result<Vec<u8>, Failure>,
    binary: Result<Vec<u8>, String>,
    a: Result<Request<T, E>, E>,
    b: Result<Request<T, E>, E>,
)
    requires
        call_ensures(Request::<T, E>::body_json, (req, json), a),
        call_ensures(Request::<T, E>::body_binary, (req, binary), b),
    ensures
        json matches Ok(bytes) ==> a is Ok && a->Ok_0@ == (RequestView {
            method: req@.method,
            url: req@.url,
            headers: with_content_type(req@.headers, "application/json"@),
            body: Some(bytes@),
        }),
        json matches Err(f) ==> a is Err && is_error(f.status.code, f.message@, a->Err_0),
        binary matches Ok(bytes) ==> b is Ok && b->Ok_0@ == (RequestView {
            method: req@.method,
            url: req@.url,
            headers: with_content_type(req@.headers, "application/octet-stream"@),
            body: Some(bytes@),
        }),
        binary matches Err(m) ==> b is Err && is_error(400, m@, b->Err_0),
{
    if json is Ok {
        lemma_with_body(req@, "application/json"@, json->Ok_0@);
    }
    if binary is Ok {
        lemma_with_body(req@, "application/octet-stream"@, binary->Ok_0@);
    }
}

/// The outside of an exchange: what comes back from the server, and what the formats make of bytes.
pub struct Outside<T, E> {
    /// The response that comes in.
    pub response: Result<ResponseHead, Failure>,
    /// The body of the response, read as JSON.
    pub json: Result<T, Failure>,
    /// The bytes of the body of the response.
    pub bytes: Result<Vec<u8>, Failure>,
    /// What bytes in the binary format are decoded to.
    pub decode: spec_fn(Seq<u8>) -> Result<T, String>,
    /// The error that bytes in JSON are decoded to.
    pub error_from_json: spec_fn(Seq<u8>) -> Option<E>,
    /// The error that bytes in the binary format are decoded to.
    pub error_from_binary: spec_fn(Seq<u8>) -> Option<E>,
}

impl<T, E: Error> Outside<T, E> {
    /// What comes of an action.
    pub open spec fn event(self, action: SendAction<T, E>) -> SendEvent<T, E> {
        match action {
            SendAction::Transmit(_) => SendEvent::Responded(self.response),
            SendAction::ReadJson => SendEvent::JsonRead(self.json),
            SendAction::ReadBytes => SendEvent::BytesRead(self.bytes),
            SendAction::DecodeBinary(b) => SendEvent::Decoded((self.decode)(b@)),
            SendAction::DecodeErrorJson(b) => SendEvent::ErrorDecoded((self.error_from_json)(b@)),
            SendAction::DecodeErrorBinary(b) => SendEvent::ErrorDecoded(
                (self.error_from_binary)(b@),
            ),
            SendAction::Finish(_) => arbitrary(),
        }
    }

    /// Whether an exchange that is to perform `action` in the state `s` can end with `r` after at
    /// most `n` further events.
    pub open spec fn can_end(
        self,
        n: nat,
        s: Sending,
        action: SendAction<T, E>,
        r: Result<T, E>,
    ) -> bool
        decreases n,
    {
        match action {
            SendAction::Finish(result) => r == result,
            _ => n > 0 && exists|next: (Sending, SendAction<T, E>)|
                {
                    &&& #[trigger] call_ensures(
                        Sending::advance::<T, E>,
                        (s, self.event(action)),
                        next,
                    )
                    &&& self.can_end((n - 1) as nat, next.0, next.1, r)
                },
        }
    }

    /// Whether sending `req` can end with `r`.
    pub open spec fn can_send(self, req: Request<T, E>, r: Result<T, E>) -> bool {
        exists|n: nat, begun: (Sending, SendAction<T, E>)|
            {
                &&& #[trigger] call_ensures(Request::<T, E>::send, (req,), begun)
                &&& #[trigger] self.can_end(n, begun.0, begun.1, r)
            }
    }
}

/// An exchange that is not over goes on with what advancing it gives.
proof fn lemma_step<T, E: Error>(
    outside: Outside<T, E>,
    n: nat,
    s: Sending,
    action: SendAction<T, E>,
    r: Result<T, E>,
) -> (next: (Sending, SendAction<T, E>))
    requires
        outside.can_end(n, s, action, r),
        !(action is Finish),
    ensures
        n > 0,
        call_ensures(Sending::advance::<T, E>, (s, outside.event(action)), next),
        outside.can_end((n - 1) as nat, next.0, next.1, r),
{
    choose|next: (Sending, SendAction<T, E>)|
        {
            &&& #[trigger] call_ensures(Sending::advance::<T, E>, (s, outside.event(action)), next)
            &&& outside.can_end((n - 1) as nat, next.0, next.1, r)
        }
}

/// An exchange begins with the request itself, and goes on once there is a response.
proof fn lemma_begin<T, E: Error>(outside: Outside<T, E>, req: Request<T, E>, r: Result<T, E>) -> (res:
    (nat, (Sending, SendAction<T, E>)))
    requires
        outside.can_send(req, r),
    ensures
        call_ensures(
            Sending::advance::<T, E>,
            (Sending::AwaitingResponse, SendEvent::Responded(outside.response)),
            res.1,
        ),
        outside.can_end(res.0, res.1.0, res.1.1, r),
{
    let (n, begun) = choose|n: nat, begun: (Sending, SendAction<T, E>)|
        {
            &&& #[trigger] call_ensures(Request::<T, E>::send, (req,), begun)
            &&& #[trigger] outside.can_end(n, begun.0, begun.1, r)
        };
    let next = lemma_step(outside, n, begun.0, begun.1, r);
    ((n - 1) as nat, next)
}

/// The two formats are different.
proof fn lemma_formats()
    ensures
        "application/json"@ != "application/octet-stream"@,
{
    reveal_strlit("application/json");
    reveal_strlit("application/octet-stream");
    assert("application/json"@.len() == 16 && "application/octet-stream"@.len() == 24);
}

/// Sending a request transmits that request; if the server cannot be reached, the failure is
/// returned.
pub proof fn law_send_unreachable<T, E: Error>(
    outside: Outside<T, E>,
    req: Request<T, E>,
    begun: (Sending, SendAction<T, E>),
    f: Failure,
    r: Result<T, E>,
)
    requires
        call_ensures(Request::<T, E>::send, (req,), begun),
        outside.can_send(req, r),
        outside.response == Err::<ResponseHead, Failure>(f),
    ensures
        begun.1 == SendAction::<T, E>::Transmit(req),
        r is Err,
        is_error(f.status.code, f.message@, r->Err_0),
{
    let (n, next) = lemma_begin(outside, req, r);
}

/// What a successful response in one of the two formats ends with: the value that the whole body
/// is decoded to, or the error that says why it is none.
pub proof fn law_send_value<T, E: Error>(
    outside: Outside<T, E>,
    req: Request<T, E>,
    head: ResponseHead,
    content_type: String,
    r: Result<T, E>,
)
    requires
        outside.can_send(req, r),
        outside.response == Ok::<ResponseHead, Failure>(head),
        head.status.code == 200,
        head.content_type == Some(content_type),
    ensures
        content_type@ == "application/json"@ ==> match outside.json {
            Ok(value) => r == Ok::<T, E>(value),
            Err(f) => r is Err && is_error(f.status.code, f.message@, r->Err_0),
        },
        content_type@ == "application/octet-stream"@ ==> match outside.bytes {
            Ok(body) => match (outside.decode)(body@) {
                Ok(value) => r == Ok::<T, E>(value),
                Err(m) => r is Err && is_error(400, m@, r->Err_0),
            },
            Err(f) => r is Err && is_error(f.status.code, f.message@, r->Err_0),
        },
{
    lemma_formats();
    let (n, a) = lemma_begin(outside, req, r);
    if content_type@ == "application/json"@ {
        let b = lemma_step(outside, n, a.0, a.1, r);
    } else if content_type@ == "application/octet-stream"@ {
        let b = lemma_step(outside, n, a.0, a.1, r);
        if outside.bytes is Ok {
            let c = lemma_step(outside, (n - 1) as nat, b.0, b.1, r);
        }
    }
}

/// What a successful response in no known format ends with: an error that shows the content type,
/// and the body as far as it can be read.
pub proof fn law_send_unknown_type<T, E: Error>(
    outside: Outside<T, E>,
    req: Request<T, E>,
    head: ResponseHead,
    r: Result<T, E>,
)
    requires
        outside.can_send(req, r),
        outside.response == Ok::<ResponseHead, Failure>(head),
        head.status.code == 200,
        head.content_type matches Some(t) ==> t@ != "application/json"@ && t@
            != "application/octet-stream"@,
    ensures
        r is Err,
        head.content_type is None ==> is_error(
            415,
            "unspecified content type in response"@,
            r->Err_0,
        ),
        head.content_type matches Some(t) ==> match outside.bytes {
            Ok(body) if valid_utf8(body@) => is_error(
                415,
                "unsupported content type "@ + t@ + " "@ + ("body: "@ + decode_utf8(body@)),
                r->Err_0,
            ),
            Ok(body) => is_error(
                415,
                "unsupported content type "@ + t@ + " "@ + ("body: "@ + crate::text::hex(body@)),
                r->Err_0,
            ),
            Err(_) => is_error(415, "unsupported content type "@ + t@ + " "@, r->Err_0),
        },
{
    let (n, a) = lemma_begin(outside, req, r);
    if head.content_type is Some {
        let t = head.content_type->0@;
        let b = lemma_step(outside, n, a.0, a.1, r);
        let shown = "unsupported content type "@ + t + " "@;
        assert(shown + Seq::<char>::empty() =~= shown);
    }
}

/// The error that the body of an error response is decoded to, if it is one.
pub open spec fn server_error<T, E: Error>(
    outside: Outside<T, E>,
    content_type: Option<String>,
    body: Seq<u8>,
) -> Option<E> {
    match content_type {
        Some(t) => if t@ == "application/json"@ {
            (outside.error_from_json)(body)
        } else if t@ == "application/octet-stream"@ {
            (outside.error_from_binary)(body)
        } else {
            None
        },
        None => None,
    }
}

/// What an error response ends with: the error that the server serialized, if its whole body is
/// one; else an error with the status of the response, whose message is the body if that is text,
/// and tells of the response otherwise.
pub proof fn law_send_error<T, E: Error>(
    outside: Outside<T, E>,
    req: Request<T, E>,
    head: ResponseHead,
    r: Result<T, E>,
)
    requires
        outside.can_send(req, r),
        outside.response == Ok::<ResponseHead, Failure>(head),
        head.status.code != 200,
    ensures
        r is Err,
        outside.bytes matches Err(f) ==> is_error(
            head.status.code,
            "Request terminated with error "@ + crate::text::decimal(head.status.code as nat)
                + ". Failed to read request body due to "@ + f.message@,
            r->Err_0,
        ),
        outside.bytes matches Ok(body) ==> match server_error(outside, head.content_type, body@) {
            Some(e) => r->Err_0 == e,
            None => if valid_utf8(body@) {
                is_error(head.status.code, decode_utf8(body@), r->Err_0)
            } else {
                is_error(
                    head.status.code,
                    "Request terminated with error "@ + crate::text::decimal(
                        head.status.code as nat,
                    ) + ". Content-Type: "@ + match head.content_type {
                        Some(t) => t@,
                        None => "unspecified"@,
                    } + ". Body: 0x"@ + crate::text::hex(body@),
                    r->Err_0,
                )
            },
        },
{
    lemma_formats();
    let (n, a) = lemma_begin(outside, req, r);
    let b = lemma_step(outside, n, a.0, a.1, r);
    if outside.bytes is Ok && head.content_type is Some && (head.content_type->0@
        == "application/json"@ || head.content_type->0@ == "application/octet-stream"@) {
        let c = lemma_step(outside, (n - 1) as nat, b.0, b.1, r);
    }
}

/// The bytes of a body are handed out to be decoded as they were read.
pub proof fn law_body_decoded_whole<T, E: Error>(
    s: Sending,
    bytes: Vec<u8>,
    r: (Sending, SendAction<T, E>),
)
    requires
        call_ensures(Sending::advance::<T, E>, (s, SendEvent::BytesRead(Ok(bytes))), r),
    ensures
        s is ReadingBinary ==> r.1 is DecodeBinary,
        r.1 matches SendAction::DecodeBinary(b) ==> b@ == bytes@,
        r.1 matches SendAction::DecodeErrorJson(b) ==> b@ == bytes@,
        r.1 matches SendAction::DecodeErrorBinary(b) ==> b@ == bytes@,
{
}

/// Whether a body can be written out, as text or in hexadecimal.
pub open spec fn can_be_shown(body: Seq<u8>) -> bool {
    valid_utf8(body) || 2 * body.len() <= isize::MAX
}

/// An exchange accepts what comes of the action it called for, and nothing else; but a body that
/// has to be written out and cannot be is refused.
pub proof fn law_accepts<T, E: Error>(s: Sending, event: SendEvent<T, E>, r: bool)
    requires
        call_ensures(Sending::accepts::<T, E>, (&s, &event), r),
    ensures
        r == match (s, event) {
            (Sending::AwaitingResponse, SendEvent::Responded(_)) => true,
            (Sending::ReadingJson, SendEvent::JsonRead(_)) => true,
            (Sending::ReadingBinary, SendEvent::BytesRead(_)) => true,
            (Sending::DecodingBinary, SendEvent::Decoded(_)) => true,
            (Sending::ReadingUnknown { .. }, SendEvent::BytesRead(Ok(b))) => can_be_shown(b@),
            (Sending::ReadingUnknown { .. }, SendEvent::BytesRead(Err(_))) => true,
            (Sending::ReadingError { content_type, .. }, SendEvent::BytesRead(Ok(b))) => {
                ||| content_type matches Some(t) && (t@ == "application/json"@ || t@
                    == "application/octet-stream"@)
                ||| can_be_shown(b@)
            },
            (Sending::ReadingError { .. }, SendEvent::BytesRead(Err(_))) => true,
            (Sending::DecodingError { format, body, .. }, SendEvent::ErrorDecoded(decoded)) => {
                &&& format@ == "application/json"@ || format@ == "application/octet-stream"@
                &&& decoded is Some || can_be_shown(body@)
            },
            _ => false,
        },
{
}

/// Whether there is time left when `elapsed` nanoseconds have gone by.
pub open spec fn has_time(timeout: Option<nat>, elapsed: nat) -> bool {
    timeout is None || elapsed < timeout->0
}

/// Whenever the clock is looked at and there is time left, an attempt is made; otherwise connecting
/// is over, and has failed.
pub proof fn law_connect_clock(c: &mut Connecting, elapsed: Duration, r: PollAction<bool>)
    requires
        call_ensures(Connecting::clock, (c, elapsed), r),
    ensures
        has_time(old(c).timeout(), elapsed@) ==> r is Try && final(c).state() == PollState::Trying,
        !has_time(old(c).timeout(), elapsed@) ==> r == PollAction::Finish(false)
            && final(c).state() == PollState::Finished,
        final(c).timeout() == old(c).timeout(),
        final(c).target() == old(c).target(),
{
}

/// Connecting succeeds with an answer in time that has the status OK, fails with an answer that
/// comes too late, and pauses for ten seconds after any other.
pub proof fn law_connect_answer(
    c: &mut Connecting,
    status: Option<StatusCode>,
    elapsed: Duration,
    r: PollAction<bool>,
)
    requires
        call_ensures(Connecting::answered, (c, status, elapsed), r),
    ensures
        !has_time(old(c).timeout(), elapsed@) ==> r == PollAction::Finish(false)
            && final(c).state() == PollState::Finished,
        has_time(old(c).timeout(), elapsed@) && (status matches Some(s) && s.code == 200) ==> r
            == PollAction::Finish(true) && final(c).state() == PollState::Finished,
        has_time(old(c).timeout(), elapsed@) && !(status matches Some(s) && s.code == 200) ==> r == (
        PollAction::<bool>::Sleep { secs: 10 }) && final(c).state() == PollState::Waiting,
        final(c).timeout() == old(c).timeout(),
        final(c).target() == old(c).target(),
{
}

/// Whenever the clock is looked at and there is time left, an attempt is made; otherwise waiting is
/// over, without a result.
pub proof fn law_health_clock<H>(
    c: &mut AwaitingHealth,
    elapsed: Duration,
    r: PollAction<Option<H>>,
)
    requires
        call_ensures(AwaitingHealth::clock::<H>, (c, elapsed), r),
    ensures
        has_time(old(c).timeout(), elapsed@) ==> r is Try && final(c).state() == PollState::Trying,
        !has_time(old(c).timeout(), elapsed@) ==> r == PollAction::Finish(None::<H>)
            && final(c).state() == PollState::Finished,
        final(c).timeout() == old(c).timeout(),
        final(c).target() == old(c).target(),
{
}

/// Waiting ends with an answer in time that the predicate says yes to, with nothing once time is
/// up, and pauses for ten seconds after any other answer.
pub proof fn law_health_answer<H, E, F: Fn(&H) -> bool>(
    c: &mut AwaitingHealth,
    answer: Result<H, E>,
    elapsed: Duration,
    healthy: F,
    r: PollAction<Option<H>>,
)
    requires
        call_ensures(AwaitingHealth::answered::<H, E, F>, (c, answer, elapsed, &healthy), r),
    ensures
        !has_time(old(c).timeout(), elapsed@) ==> r == PollAction::Finish(None::<H>)
            && final(c).state() == PollState::Finished,
        has_time(old(c).timeout(), elapsed@) ==> {
            ||| r == PollAction::<Option<H>>::Sleep { secs: 10 } && final(c).state()
                == PollState::Waiting
            ||| answer is Ok && r == PollAction::Finish(Some(answer->Ok_0)) && call_ensures(
                healthy,
                (&answer->Ok_0,),
                true,
            ) && final(c).state() == PollState::Finished
        },
        has_time(old(c).timeout(), elapsed@) && answer is Ok && !call_ensures(
            healthy,
            (&answer->Ok_0,),
            false,
        ) ==> r == PollAction::Finish(Some(answer->Ok_0)),
        final(c).timeout() == old(c).timeout(),
        final(c).target() == old(c).target(),
{
}

/// The attempts of connecting are plain `GET` requests to the endpoint, those of waiting for health
/// are `GET` requests to it that ask for binary content.
pub proof fn law_attempts<H, E: Error>(
    c: Connecting,
    w: AwaitingHealth,
    a: Option<Request<(), E>>,
    b: Option<(Sending, SendAction<H, E>)>,
)
    requires
        call_ensures(Connecting::try_attempt::<E>, (&c,), a),
        call_ensures(AwaitingHealth::try_attempt::<H, E>, (&w,), b),
    ensures
        a is Some <==> c.target() is Some,
        a matches Some(req) ==> req@ == (RequestView {
            method: Method::Get,
            url: c.target()->0,
            headers: Seq::empty(),
            body: None,
        }),
        b is Some <==> w.target() is Some,
        b matches Some(begun) ==> is_begun(w.target()->0, begun),
{
    if w.target() is Some {
        lemma_accept(Method::Get, w.target()->0);
    }
}

/// What a client asks for by default.
pub open spec fn asks_for_binary(method: Method, url: Seq<char>) -> RequestView {
    RequestView {
        method,
        url,
        headers: seq![("accept"@, "application/octet-stream"@)],
        body: None,
    }
}

/// Whether a health check at `url` has begun.
pub open spec fn is_begun<H, E: Error>(url: Seq<char>, begun: (Sending, SendAction<H, E>)) -> bool {
    &&& begun.0 is AwaitingResponse
    &&& begun.1 matches SendAction::Transmit(req) && req@ == asks_for_binary(Method::Get, url)
}

/// The request that a client makes, written out.
proof fn lemma_accept(method: Method, url: Seq<char>)
    ensures
        crate::client::client_request(method, url) == asks_for_binary(method, url),
{
    crate::client::law_binary_by_default(method, url);
}

/// What `route` leads to for a client: what joining the whole route to the base URL gives, or what
/// parsing it gives if there is no base URL.
pub open spec fn led_to<E>(client: Client<E>, route: Seq<char>) -> Result<Seq<char>, Seq<char>> {
    if client@.base_url is Some {
        url_join(client@.base_url->0, route)
    } else {
        url_parse(route)
    }
}

/// A request goes to what the whole route leads to, with the method that was asked for, and asks
/// for binary content.
pub proof fn law_requests<T, E: Error>(
    client: Client<E>,
    method: Method,
    route: &str,
    a: Request<T, E>,
    b: Request<T, E>,
    c: Request<T, E>,
    d: Result<Request<T, E>, ParseError>,
)
    requires
        call_ensures(Client::<E>::request::<T>, (&client, method, route), a),
        call_ensures(Client::<E>::get::<T>, (&client, route), b),
        call_ensures(Client::<E>::post::<T>, (&client, route), c),
        call_ensures(Client::<E>::try_request::<T>, (&client, method, route), d),
    ensures
        led_to(client, route@) == Ok::<Seq<char>, Seq<char>>(a@.url),
        a@ == asks_for_binary(method, a@.url),
        b@ == asks_for_binary(Method::Get, a@.url),
        c@ == asks_for_binary(Method::Post, a@.url),
        d is Ok,
        d->Ok_0@ == a@,
{
    lemma_accept(method, a@.url);
    lemma_accept(Method::Get, b@.url);
    lemma_accept(Method::Post, c@.url);
}

/// A route that leads nowhere is refused with the error that joining or parsing gives.
pub proof fn law_request_refused<T, E: Error>(
    client: Client<E>,
    method: Method,
    route: &str,
    r: Result<Request<T, E>, ParseError>,
)
    requires
        call_ensures(Client::<E>::try_request::<T>, (&client, method, route), r),
    ensures
        r is Ok <==> led_to(client, route@) is Ok,
        r matches Ok(req) ==> led_to(client, route@) == Ok::<Seq<char>, Seq<char>>(req@.url) && req@
            == asks_for_binary(method, req@.url),
        r matches Err(e) ==> led_to(client, route@) == Err::<Seq<char>, Seq<char>>(e.description@),
{
    if r is Ok {
        lemma_accept(method, r->Ok_0@.url);
    }
}

/// A URL is made of what parsing gives, or joining it to another one, each with the whole text;
/// what cannot be parsed or joined is refused with the description of the error.
pub proof fn law_urls_made(
    input: &str,
    base: Address,
    a: Result<Address, ParseError>,
    b: Result<Address, ParseError>,
)
    requires
        call_ensures(Address::parse, (input,), a),
        call_ensures(Address::join, (&base, input), b),
    ensures
        match url_parse(input@) {
            Ok(text) => a is Ok && a->Ok_0@ == text,
            Err(m) => a is Err && a->Err_0.description@ == m,
        },
        match url_join(base@, input@) {
            Ok(text) => b is Ok && b->Ok_0@ == text,
            Err(m) => b is Err && b->Err_0.description@ == m,
        },
{
}

/// What a URL tells of itself: its text, the number of characters in it, its scheme and its path.
pub proof fn law_url_parts(
    url: Address,
    text: &str,
    len: usize,
    scheme: String,
    path: String,
    copy: Address,
)
    requires
        call_ensures(Address::as_str, (&url,), text),
        call_ensures(Address::len, (&url,), len),
        call_ensures(Address::scheme, (&url,), scheme),
        call_ensures(Address::path, (&url,), path),
        call_ensures(<Address as Clone>::clone, (&url,), copy),
    ensures
        text@ == url@,
        len == url@.len(),
        scheme@ == url_scheme(url@),
        path@ == url_path(url@),
        copy@ == url@,
{
}

/// A request starts with the method and the URL it is given and nothing else, and tells what it
/// consists of.
pub proof fn law_request_parts<T, E: Error>(
    method: Method,
    url: Address,
    new: Request<T, E>,
    req: Request<T, E>,
    m: Method,
    u: &Address,
    h: &Headers,
    b: Option<&Vec<u8>>,
)
    requires
        call_ensures(Request::<T, E>::new, (method, url), new),
        call_ensures(Request::<T, E>::method, (&req,), m),
        call_ensures(Request::<T, E>::url, (&req,), u),
        call_ensures(Request::<T, E>::headers, (&req,), h),
        call_ensures(Request::<T, E>::body, (&req,), b),
    ensures
        new@ == (RequestView { method, url: url@, headers: Seq::empty(), body: None }),
        m == req@.method,
        u@ == req@.url,
        h@ == req@.headers,
        b is Some <==> req@.body is Some,
        b matches Some(bytes) ==> req@.body == Some(bytes@),
{
}

/// Headers start out empty, and tell what stands in each of their lines.
pub proof fn law_headers_read(new: Headers, headers: Headers, n: usize, i: usize, l: (&str, &str))
    requires
        call_ensures(Headers::new, (), new),
        call_ensures(Headers::len, (&headers,), n),
        i < n,
        call_ensures(Headers::line, (&headers, i), l),
    ensures
        new@.len() == 0,
        n == headers@.len(),
        l.0@ == headers@[i as int].0,
        l.1@ == headers@[i as int].1,
{
}

/// A request for a connection, and a handshake, tell where they go and with which headers.
pub proof fn law_socket_parts<E: Error>(
    req: SocketRequest<E>,
    handshake: Handshake<E>,
    ru: &Address,
    rh: &Headers,
    hu: &Address,
    hh: &Headers,
)
    requires
        call_ensures(SocketRequest::<E>::url, (&req,), ru),
        call_ensures(SocketRequest::<E>::headers, (&req,), rh),
        call_ensures(Handshake::<E>::url, (&handshake,), hu),
        call_ensures(Handshake::<E>::headers, (&handshake,), hh),
    ensures
        ru@ == req@.url,
        rh@ == req@.headers,
        hu@ == handshake@.url,
        hh@ == handshake@.headers,
{
}

/// Whether `s` starts with `prefix`.
pub open spec fn starts_with(s: Seq<char>, prefix: Seq<char>) -> bool {
    prefix.len() <= s.len() && s.take(prefix.len() as int) == prefix
}

/// The WebSockets counterpart of a URL: `ws:` stands in place of `http:`, and `wss:` in place of
/// `https:`; any other URL is its own.
pub open spec fn websocket_url(url: Seq<char>) -> Seq<char> {
    if starts_with(url, "http:"@) {
        "ws:"@ + url.skip(5)
    } else if starts_with(url, "https:"@) {
        "wss:"@ + url.skip(6)
    } else {
        url
    }
}

/// The scheme of a URL is what stands before its first colon.
pub proof fn law_scheme(scheme: Seq<char>, rest: Seq<char>)
    requires
        forall|i: int| 0 <= i < scheme.len() ==> #[trigger] scheme[i] != ':',
    ensures
        url_scheme(scheme + ":"@ + rest) == scheme,
        url_scheme_end(scheme + ":"@ + rest) == scheme.len(),
        has_scheme(scheme + ":"@ + rest),
{
    reveal_strlit(":");
    let url = scheme + ":"@ + rest;
    assert(url[scheme.len() as int] == ':');
    assert forall|i: int| 0 <= i < scheme.len() implies !is_colon()(#[trigger] url[i]) by {
        assert(url[i] == scheme[i]);
    }
    lemma_found_at(url, 0, is_colon(), scheme.len() as int);
    assert(url.take(scheme.len() as int) =~= scheme);
}

/// A URL with an authority, taken apart: the path is what stands between the authority and the
/// query or the fragment.
pub proof fn law_path(scheme: Seq<char>, authority: Seq<char>, path: Seq<char>, rest: Seq<char>)
    requires
        forall|i: int| 0 <= i < scheme.len() ==> #[trigger] scheme[i] != ':',
        forall|i: int|
            0 <= i < authority.len() ==> #[trigger] authority[i] != '/' && authority[i] != '?'
                && authority[i] != '#',
        path.len() > 0 && path[0] == '/',
        forall|i: int| 0 <= i < path.len() ==> #[trigger] path[i] != '?' && path[i] != '#',
        rest.len() == 0 || rest[0] == '?' || rest[0] == '#',
    ensures
        ({
            let url = scheme + "://"@ + authority + path + rest;
            &&& url_scheme(url) == scheme
            &&& url_path(url) == path
            &&& url_path_start(url) == scheme.len() + 3 + authority.len()
            &&& url.skip(url_path_end(url)) == rest
        }),
{
    reveal_strlit("://");
    let url = scheme + "://"@ + authority + path + rest;
    let n = scheme.len() as int;
    let ps = n + 3 + authority.len();
    let pe = ps + path.len();
    assert forall|i: int| 0 <= i < n implies !is_colon()(#[trigger] url[i]) by {
        assert(url[i] == scheme[i]);
    }
    assert(url[n] == ':' && url[n + 1] == '/' && url[n + 2] == '/');
    lemma_found_at(url, 0, is_colon(), n);
    assert forall|i: int| n + 3 <= i < ps implies !is_after_authority()(#[trigger] url[i]) by {
        assert(url[i] == authority[i - n - 3]);
    }
    assert(url[ps] == path[0]);
    lemma_found_at(url, n + 3, is_after_authority(), ps);
    assert forall|i: int| ps <= i < pe implies !is_after_path()(#[trigger] url[i]) by {
        assert(url[i] == path[i - ps]);
    }
    assert(pe < url.len() ==> url[pe] == rest[0]);
    lemma_found_at(url, ps, is_after_path(), pe);
    assert(url.take(n) =~= scheme);
    assert(url.subrange(ps, pe) =~= path);
    assert(url.skip(pe) =~= rest);
}

/// The schemes, letter by letter.
proof fn lemma_scheme_letters()
    ensures
        "http"@ == seq!['h', 't', 't', 'p'],
        "https"@ == seq!['h', 't', 't', 'p', 's'],
        "ws"@ == seq!['w', 's'],
        "wss"@ == seq!['w', 's', 's'],
        "http:"@ == seq!['h', 't', 't', 'p', ':'],
        "https:"@ == seq!['h', 't', 't', 'p', 's', ':'],
        "ws:"@ == seq!['w', 's', ':'],
        "wss:"@ == seq!['w', 's', 's', ':'],
{
    reveal_strlit("http");
    reveal_strlit("https");
    reveal_strlit("ws");
    reveal_strlit("wss");
    reveal_strlit("http:");
    reveal_strlit("https:");
    reveal_strlit("ws:");
    reveal_strlit("wss:");
    assert("http"@ =~= seq!['h', 't', 't', 'p']);
    assert("https"@ =~= seq!['h', 't', 't', 'p', 's']);
    assert("ws"@ =~= seq!['w', 's']);
    assert("wss"@ =~= seq!['w', 's', 's']);
    assert("http:"@ =~= seq!['h', 't', 't', 'p', ':']);
    assert("https:"@ =~= seq!['h', 't', 't', 'p', 's', ':']);
    assert("ws:"@ =~= seq!['w', 's', ':']);
    assert("wss:"@ =~= seq!['w', 's', 's', ':']);
}

/// A URL starts with a scheme without colons and a colon just if it has that scheme.
proof fn lemma_starts_with_scheme(url: Seq<char>, scheme: Seq<char>)
    requires
        has_scheme(url),
        forall|i: int| 0 <= i < scheme.len() ==> #[trigger] scheme[i] != ':',
    ensures
        starts_with(url, scheme.push(':')) <==> url_scheme(url) == scheme,
        url_scheme(url) == scheme ==> url_scheme_end(url) == scheme.len(),
{
    let n = scheme.len() as int;
    let k = url_scheme_end(url);
    lemma_find_from(url, 0, is_colon());
    assert(url[k] == ':');
    if starts_with(url, scheme.push(':')) {
        let t = url.take(n + 1);
        assert(t == scheme.push(':'));
        assert(t[n] == ':');
        assert forall|i: int| 0 <= i < n implies !is_colon()(#[trigger] url[i]) by {
            assert(t[i] == scheme[i]);
        }
        lemma_found_at(url, 0, is_colon(), n);
        assert(url_scheme(url) =~= scheme) by {
            assert forall|i: int| 0 <= i < n implies url_scheme(url)[i] == #[trigger] scheme[i] by {
                assert(t[i] == url[i]);
            }
        }
    }
    if url_scheme(url) == scheme {
        assert(url.take(k).len() == k);
        assert(url.take(n + 1) =~= scheme.push(':')) by {
            assert forall|i: int| 0 <= i < n implies url[i] == #[trigger] scheme[i] by {
                assert(url_scheme(url)[i] == url[i]);
            }
        }
    }
}

/// Putting the counterpart of a URL's scheme in its place gives the counterpart of the URL.
proof fn lemma_websocket_url(url: Seq<char>)
    requires
        has_scheme(url),
    ensures
        crate::url::with_scheme(url, crate::url::upgraded_scheme(url_scheme(url))) == websocket_url(
            url,
        ),
{
    lemma_scheme_letters();
    lemma_find_from(url, 0, is_colon());
    let k = url_scheme_end(url);
    assert(url[k] == ':');
    lemma_starts_with_scheme(url, "http"@);
    lemma_starts_with_scheme(url, "https"@);
    assert("http"@.push(':') =~= "http:"@);
    assert("https"@.push(':') =~= "https:"@);
    assert("http"@.len() == 4 && "https"@.len() == 5);
    assert("ws"@ + url.skip(k) =~= "ws:"@ + url.skip(k + 1));
    assert("wss"@ + url.skip(k) =~= "wss:"@ + url.skip(k + 1));
    assert(url_scheme(url) + url.skip(k) =~= url);
}

/// Upgrading a URL gives its WebSockets counterpart, and so does making a request for a connection
/// of it.
pub proof fn law_upgrade<E>(u: &mut Address, r: (), url: Address, s: SocketRequest<E>)
    requires
        call_ensures(Address::upgrade, (u,), r),
        call_ensures(SocketRequest::<E>::from, (url,), s),
        has_scheme(old(u)@),
        has_scheme(url@),
    ensures
        final(u)@ == websocket_url(old(u)@),
        s@ == (SocketView { url: websocket_url(url@), headers: Seq::empty() }),
{
    lemma_websocket_url(old(u)@);
    lemma_websocket_url(url@);
}

/// The scheme of a connection is `ws` for `http`, `wss` for `https`, and any other scheme itself.
pub proof fn law_socket_scheme(scheme: &str, r: String)
    requires
        call_ensures(crate::socket::socket_scheme, (scheme,), r),
    ensures
        scheme@ == "http"@ ==> r@ == "ws"@,
        scheme@ == "https"@ ==> r@ == "wss"@,
        scheme@ != "http"@ && scheme@ != "https"@ ==> r@ == scheme@,
{
    reveal_strlit("http");
    reveal_strlit("https");
    assert("https"@.len() == 5 && "http"@.len() == 4);
}

/// A streaming connection goes to the WebSockets counterpart of what the whole route leads to.
pub proof fn law_sockets<E: Error>(
    client: Client<E>,
    route: &str,
    url: Seq<char>,
    a: SocketRequest<E>,
    b: Option<SocketRequest<E>>,
)
    requires
        call_ensures(Client::<E>::socket, (&client, route), a),
        call_ensures(Client::<E>::try_socket, (&client, route), b),
        client@.base_url is Some,
        led_to(client, route@) == Ok::<Seq<char>, Seq<char>>(url),
        has_scheme(url),
    ensures
        a@ == (SocketView { url: websocket_url(url), headers: Seq::empty() }),
        b is Some <==> url_scheme(url) != "file"@,
        b matches Some(req) ==> req@ == a@,
{
    lemma_websocket_url(url);
}

/// A base URL with a slash put behind its path, unless it has one: before the query and the
/// fragment, and nothing else is changed.
pub open spec fn slash_behind_path(url: Seq<char>) -> Seq<char> {
    let end = url_path_end(url);
    if url_path_start(url) < end && url[end - 1] == '/' {
        url
    } else {
        url.take(end).push('/') + url.skip(end)
    }
}

/// Whether `base` is what a base URL is made of `url`: `url` with a slash behind its path. For an
/// opaque URL without a path the slash is encoded, and the path of a `file` URL is set anew.
pub open spec fn is_based_on(url: Seq<char>, base: Seq<char>) -> bool {
    let start = url_path_start(url);
    let end = url_path_end(url);
    if url_scheme(url) != "file"@ && !(start == end && !(url_scheme_end(url) + 1 < url.len() && url[
    url_scheme_end(url) + 1] == '/')) {
        base == slash_behind_path(url)
    } else if start < end && url[end - 1] == '/' {
        base == url
    } else if url_scheme(url) == "file"@ {
        base == url.take(start) + url_path_set(url, url.subrange(start, end).push('/')) + url.skip(
            end,
        )
    } else {
        base == url.take(start) + "%2F"@ + url.skip(end)
    }
}

/// The directory of a URL is what a base URL is made of it.
proof fn lemma_is_based_on(url: Seq<char>)
    requires
        has_scheme(url),
    ensures
        is_based_on(url, crate::url::directory_url(url)),
{
    law_parts_in_order(url);
    let start = url_path_start(url);
    let end = url_path_end(url);
    let path = url_path(url);
    if start < end {
        assert(path.last() == url[end - 1]);
    }
    assert(url.take(start) + path.push('/') + url.skip(end) =~= url.take(end).push('/') + url.skip(
        end,
    ));
}

/// A URL that is made to name a directory gets a slash behind its path; one whose path is set has
/// that path, and keeps what stands around it.
pub proof fn law_url_changed(u: &mut Address, v: &mut Address, path: &str, ru: (), rv: ())
    requires
        call_ensures(Address::make_directory, (u,), ru),
        call_ensures(Address::set_path, (v, path), rv),
    ensures
        is_based_on(old(u)@, final(u)@),
        final(v)@ == old(v)@.take(url_path_start(old(v)@)) + url_path_set(old(v)@, path@)
            + old(v)@.skip(url_path_end(old(v)@)),
{
    lemma_is_based_on(old(u)@);
}

/// A client is made for the URL it is given, as a directory, with a timeout of a minute; so is the
/// client for a module, for what the whole prefix leads to.
pub proof fn law_clients_made<E: Error, M: Error>(
    url: Address,
    client: Client<E>,
    prefix: &str,
    module: Result<Client<M>, ParseError>,
    tried: Option<Result<Client<M>, ParseError>>,
)
    requires
        call_ensures(Client::<E>::new, (url,), client),
        call_ensures(Client::<E>::module::<M>, (&client, prefix), module),
        call_ensures(Client::<E>::try_module::<M>, (&client, prefix), tried),
    ensures
        client@.base_url is Some,
        is_based_on(url@, client@.base_url->0),
        client@.timeout == Some(60_000_000_000nat),
        match url_join(client@.base_url->0, prefix@) {
            Ok(below) => {
                &&& module is Ok
                &&& module->Ok_0@.base_url is Some
                &&& is_based_on(below, module->Ok_0@.base_url->0)
                &&& module->Ok_0@.timeout == Some(60_000_000_000nat)
            },
            Err(m) => module is Err && module->Err_0.description@ == m,
        },
        tried matches Some(Ok(c)) ==> module is Ok && c@ == module->Ok_0@,
        tried matches Some(Err(e)) ==> module is Err && e.description@
            == module->Err_0.description@,
        tried is None <==> (url_join(client@.base_url->0, prefix@) matches Ok(below) && below.len()
            > 4_294_967_292),
{
    lemma_is_based_on(url@);
    if module is Ok {
        lemma_is_based_on(url_join(client@.base_url->0, prefix@)->Ok_0);
    }
}

/// A builder sets nothing but the timeout it is given; the client has the settings of the builder.
pub proof fn law_builder<E: Error>(
    url: Address,
    new: Client<E>,
    builder: ClientBuilder<E>,
    timeout: Option<Duration>,
    set: ClientBuilder<E>,
    built: Client<E>,
    plain: Client<E>,
)
    requires
        call_ensures(Client::<E>::new, (url,), new),
        call_ensures(Client::<E>::builder, (url,), builder),
        call_ensures(ClientBuilder::<E>::set_timeout, (builder, timeout), set),
        call_ensures(ClientBuilder::<E>::build, (set,), built),
        call_ensures(<Client<E> as Default>::default, (), plain),
    ensures
        builder@ == new@,
        built@ == set@,
        built@.base_url == new@.base_url,
        timeout is None ==> built@.timeout is None,
        timeout matches Some(t) ==> built@.timeout == Some(t@),
        plain@.base_url is None,
        plain@.timeout == Some(60_000_000_000nat),
{
}

/// What a client tells of itself is what it was made with; a clone is no different.
pub proof fn law_client_settings<E: Error>(
    client: Client<E>,
    base_url: Option<&Address>,
    timeout: Option<Duration>,
    copy: Client<E>,
)
    requires
        call_ensures(Client::<E>::base_url, (&client,), base_url),
        call_ensures(Client::<E>::timeout, (&client,), timeout),
        call_ensures(<Client<E> as Clone>::clone, (&client,), copy),
    ensures
        base_url is Some <==> client@.base_url is Some,
        base_url matches Some(url) ==> client@.base_url == Some(url@),
        timeout is Some <==> client@.timeout is Some,
        timeout matches Some(t) ==> client@.timeout == Some(t@),
        copy@ == client@,
{
}

/// The endpoint for connecting is `/healthcheck` at the root of the host, the one for health checks
/// is `healthcheck` below the base URL; the time that is given is the time there is.
pub proof fn law_endpoints<H, E: Error>(
    client: Client<E>,
    timeout: Option<Duration>,
    c: Connecting,
    w: AwaitingHealth,
    h: Option<(Sending, SendAction<H, E>)>,
)
    requires
        call_ensures(Client::<E>::connect, (&client, timeout), c),
        call_ensures(Client::<E>::wait_for_health, (&client, timeout), w),
        call_ensures(Client::<E>::try_healthcheck::<H>, (&client,), h),
    ensures
        match led_to(client, "/healthcheck"@) {
            Ok(url) => c.target() == Some(url),
            Err(_) => c.target() is None,
        },
        match led_to(client, "healthcheck"@) {
            Ok(url) => w.target() == Some(url) && h is Some && is_begun(url, h->0),
            Err(_) => w.target() is None && h is None,
        },
        c.state() == PollState::Waiting,
        w.state() == PollState::Waiting,
        c.timeout() is Some <==> timeout is Some,
        w.timeout() is Some <==> timeout is Some,
        timeout matches Some(t) ==> c.timeout() == Some(t@) && w.timeout() == Some(t@),
{
    if h is Some {
        lemma_accept(Method::Get, led_to(client, "healthcheck"@)->Ok_0);
    }
}

/// A health check goes to the endpoint below the base URL.
pub proof fn law_healthcheck<H, E: Error>(client: Client<E>, r: (Sending, SendAction<H, E>))
    requires
        call_ensures(Client::<E>::healthcheck::<H>, (&client,), r),
    ensures
        led_to(client, "healthcheck"@) is Ok,
        is_begun(led_to(client, "healthcheck"@)->Ok_0, r),
{
    lemma_accept(Method::Get, led_to(client, "healthcheck"@)->Ok_0);
}

/// A header that is set on a request for a connection adds its lines; connecting begins with that
/// request, and subscribing does the same.
pub proof fn law_socket_request<E: Error>(
    req: SocketRequest<E>,
    key: &str,
    values: Vec<String>,
    r: SocketRequest<E>,
    c: (Handshake<E>, HandshakeAction<E>),
    s: (Handshake<E>, HandshakeAction<E>),
)
    requires
        call_ensures(SocketRequest::<E>::header, (req, key, &values), r),
        call_ensures(SocketRequest::<E>::connect, (r,), c),
        call_ensures(SocketRequest::<E>::subscribe, (r,), s),
    ensures
        r@.url == req@.url,
        r@.headers == req@.headers + lines_for(key@, values@),
        c.0@ == r@,
        c.1 is Open,
        s.0@ == r@,
        s.1 is Open,
{
    lemma_lines_for(key@, values@);
}

/// Every response with a status from 301 to 308 and a location is followed, whatever the location
/// is: the path of the URL is set to it, and the connection is tried again.
pub proof fn law_redirect_followed<E: Error>(
    h: &mut Handshake<E>,
    status: StatusCode,
    location: String,
    description: String,
    r: HandshakeAction<E>,
)
    requires
        301 <= status.code <= 308,
        call_ensures(
            Handshake::<E>::advance,
            (h, HandshakeEvent::Refused { status, location: Some(location), description }),
            r,
        ),
    ensures
        r is Open,
        final(h)@.headers == old(h)@.headers,
        final(h)@.url == old(h)@.url.take(url_path_start(old(h)@.url)) + url_path_set(
            old(h)@.url,
            location@,
        ) + old(h)@.url.skip(url_path_end(old(h)@.url)),
{
}

/// Any other response is an error, as is a failure; only a connection that is open is handed out.
/// The request stays as it is.
pub proof fn law_handshake_ends<E: Error>(
    h: &mut Handshake<E>,
    event: HandshakeEvent,
    r: HandshakeAction<E>,
)
    requires
        call_ensures(Handshake::<E>::advance, (h, event), r),
        event matches HandshakeEvent::Refused { status, location, .. } ==> location is None
            || status.code < 301 || status.code > 308,
    ensures
        final(h)@ == old(h)@,
        match event {
            HandshakeEvent::Opened => r is Connected,
            HandshakeEvent::Malformed(m) => r matches HandshakeAction::Fail(e) && is_error(
                400,
                m@,
                e,
            ),
            HandshakeEvent::Failed(m) => r matches HandshakeAction::Fail(e) && is_error(400, m@, e),
            HandshakeEvent::Refused { description, .. } => r matches HandshakeAction::Fail(e)
                && is_error(400, description@, e),
        },
{
}

/// The redirects are the responses with a status from 301 to 308 and a location; they can be
/// followed on an HTTP or WebSocket URL that stays below 4 GB.
pub proof fn law_redirects<E: Error>(
    event: HandshakeEvent,
    r: Option<&str>,
    h: Handshake<E>,
    location: &str,
    f: bool,
)
    requires
        call_ensures(HandshakeEvent::redirect, (&event,), r),
        call_ensures(Handshake::<E>::can_follow, (&h, location), f),
    ensures
        match event {
            HandshakeEvent::Refused { status, location: Some(l), .. } => if 301 <= status.code
                <= 308 {
                r is Some && r->0@ == l@
            } else {
                r is None
            },
            _ => r is None,
        },
        f <==> (url_scheme(h@.url) == "http"@ || url_scheme(h@.url) == "https"@ || url_scheme(
            h@.url,
        ) == "ws"@ || url_scheme(h@.url) == "wss"@) && h@.url.len() + 12 * location@.len() + 12
            <= 4_294_967_295,
{
}

/// What comes in over a connection: bytes and texts are handed out to be decoded as they came in;
/// the stream ends with the connection; anything else is an error.
pub proof fn law_incoming<FromServer, E: Error>(
    item: Option<Result<Message, WsError>>,
    r: Polled<Incoming<E>>,
)
    requires
        call_ensures(Connection::<FromServer, E>::poll_next, (Polled::Ready(item),), r),
    ensures
        r is Ready,
        match item {
            None => r->Ready_0 matches Incoming::Return(None),
            Some(Ok(Message::Text(text))) => r->Ready_0 matches Incoming::DecodeJson(t) && t@
                == text@,
            Some(Ok(Message::Binary(bytes))) => r->Ready_0 matches Incoming::DecodeBinary(b) && b@
                == bytes@,
            Some(Ok(Message::Close)) => r->Ready_0 matches Incoming::Return(None),
            Some(Ok(_)) => r->Ready_0 matches Incoming::Return(Some(e)) && is_error(
                415,
                "unsupported WebSocket message"@,
                e,
            ),
            Some(Err(WsError::ConnectionClosed)) => r->Ready_0 matches Incoming::Return(None),
            Some(Err(WsError::AlreadyClosed)) => r->Ready_0 matches Incoming::Return(None),
            Some(Err(WsError::Other(m))) => r->Ready_0 matches Incoming::Return(Some(e))
                && is_error(500, m@, e),
        },
{
}

/// Where nothing has come in, there is nothing to be done.
pub proof fn law_incoming_pending<FromServer, E: Error>(r: Polled<Incoming<E>>)
    requires
        call_ensures(Connection::<FromServer, E>::poll_next, (Polled::Pending,), r),
    ensures
        r is Pending,
{
}

/// What decoding gave is the item; if it gave none, the error says which format it failed in.
pub proof fn law_decoded<FromServer, E: Error>(
    decoded: Result<FromServer, String>,
    a: Result<FromServer, E>,
    b: Result<FromServer, E>,
)
    requires
        call_ensures(Connection::<FromServer, E>::decoded_binary, (decoded,), a),
        call_ensures(Connection::<FromServer, E>::decoded_json, (decoded,), b),
    ensures
        decoded matches Ok(value) ==> a == Ok::<FromServer, E>(value) && b == Ok::<FromServer, E>(
            value,
        ),
        decoded matches Err(m) ==> {
            &&& a is Err && is_error(500, "invalid binary serialization: "@ + m@, a->Err_0)
            &&& b is Err && is_error(500, "invalid JSON: "@ + m@, b->Err_0)
        },
{
}

/// What is sent goes out as a binary message of the serialized bytes, all of them; what cannot be
/// serialized or sent is an error.
pub proof fn law_sent<FromServer, E: Error>(
    serialized: Result<Vec<u8>, String>,
    taken: Result<(), String>,
    a: Result<Message, E>,
    b: Result<(), E>,
)
    requires
        call_ensures(Connection::<FromServer, E>::start_send, (serialized,), a),
        call_ensures(Connection::<FromServer, E>::sent, (taken,), b),
    ensures
        serialized matches Ok(bytes) ==> a is Ok && (a->Ok_0 matches Message::Binary(sent) && sent@
            == bytes@),
        serialized matches Err(m) ==> a is Err && is_error(
            400,
            "invalid binary serialization: "@ + m@,
            a->Err_0,
        ),
        taken is Ok ==> b is Ok,
        taken matches Err(m) ==> b is Err && is_error(
            500,
            "error sending WebSocket message: "@ + m@,
            b->Err_0,
        ),
{
}

/// Whether `r` is `polled`, with the error of the connection reported.
pub open spec fn is_reported<E: Error>(
    polled: Polled<Result<(), String>>,
    r: Polled<Result<(), E>>,
) -> bool {
    match polled {
        Polled::Pending => r is Pending,
        Polled::Ready(Ok(_)) => r is Ready && r->Ready_0 is Ok,
        Polled::Ready(Err(m)) => r is Ready && r->Ready_0 is Err && is_error(
            500,
            "error in WebSocket connection: "@ + m@,
            r->Ready_0->Err_0,
        ),
    }
}

/// The sink is ready, flushed or closed when the connection is, and reports its errors.
pub proof fn law_sink<FromServer, E: Error>(
    polled: Polled<Result<(), String>>,
    a: Polled<Result<(), E>>,
    b: Polled<Result<(), E>>,
    c: Polled<Result<(), E>>,
)
    requires
        call_ensures(Connection::<FromServer, E>::poll_ready, (polled,), a),
        call_ensures(Connection::<FromServer, E>::poll_flush, (polled,), b),
        call_ensures(Connection::<FromServer, E>::poll_close, (polled,), c),
    ensures
        is_reported(polled, a),
        is_reported(polled, b),
        is_reported(polled, c),
{
}

/// A request can be made for every route that leads to a URL; a connection and a module can be
/// asked for as well, unless the URL is one of a file or of 4 GB.
pub proof fn law_routes_allowed<T, M: Error, E: Error>(
    client: Client<E>,
    method: Method,
    route: &str,
    url: Seq<char>,
)
    requires
        client@.base_url is Some,
        led_to(client, route@) == Ok::<Seq<char>, Seq<char>>(url),
    ensures
        call_requires(Client::<E>::request::<T>, (&client, method, route)),
        call_requires(Client::<E>::get::<T>, (&client, route)),
        call_requires(Client::<E>::post::<T>, (&client, route)),
        url_scheme(url) != "file"@ ==> call_requires(Client::<E>::socket, (&client, route)),
        url.len() <= 4_294_967_292 ==> call_requires(
            Client::<E>::module::<M>,
            (&client, route),
        ),
{
}

/// A client can be made for every URL below 4 GB, and a header of every ASCII name and ASCII
/// values.
pub proof fn law_inputs_allowed<T, E: Error>(
    url: Address,
    req: Request<T, E>,
    socket: SocketRequest<E>,
    key: &str,
    values: Vec<String>,
)
    requires
        url@.len() <= 4_294_967_292,
        vstd::utf8::is_ascii_chars(key@),
        forall|i: int|
            0 <= i < values@.len() ==> vstd::utf8::is_ascii_chars((#[trigger] values@[i])@),
    ensures
        call_requires(Client::<E>::new, (url,)),
        call_requires(Client::<E>::builder, (url,)),
        call_requires(Request::<T, E>::header, (req, key, &values)),
        call_requires(SocketRequest::<E>::header, (socket, key, &values)),
        url_scheme(url@) != "file"@ ==> call_requires(SocketRequest::<E>::from, (url,)),
{
}

/// An exchange can be advanced by every event that it accepts.
pub proof fn law_accepted_events<T, E: Error>(s: Sending, event: SendEvent<T, E>)
    requires
        call_ensures(Sending::accepts::<T, E>, (&s, &event), true),
    ensures
        call_requires(Sending::advance::<T, E>, (s, event)),
{
}

} // verus!

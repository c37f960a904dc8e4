//! WebSocket connections.
use core::marker::PhantomData;
use vstd::prelude::*;
use vstd::string::StrSliceExecFns;

use crate::error::{is_catch_all, request_error, Error};
use crate::http::{
    header_lines, is_header, lemma_values_of_header, lemma_values_of_sum, lower, texts, values_of,
    Headers, StatusCode, BAD_REQUEST, INTERNAL_SERVER_ERROR, UNSUPPORTED_MEDIA_TYPE,
};
use crate::text::{join_text, same_text};
use crate::url::{
    has_scheme, is_plain_absolute, is_web_scheme, law_parts_in_order, lemma_same_scheme, path_fits,
    replace_path, same_but_path, upgraded_scheme, url_path_start, url_scheme, with_path, with_scheme, Address,
};

verus! {

/// Get the scheme for a WebSockets connection upgraded from an existing stateless connection.
///
/// `scheme` is the scheme of the stateless connection, e.g. HTTP or HTTPS. If the scheme has a
/// known WebSockets counterpart, e.g. WS or WSS, we return it. Otherwise we trust the user knows
/// what they're doing and return `scheme` unmodified.
pub fn socket_scheme(scheme: &str) -> (r: String)
    ensures
        r@ == upgraded_scheme(scheme@),
{
    if same_text(scheme, "http") {
        "ws".to_owned()
    } else if same_text(scheme, "https") {
        "wss".to_owned()
    } else {
        scheme.to_owned()
    }
}

/// What a request for a WebSocket connection consists of.
#[verifier::ext_equal]
pub struct SocketView {
    /// The URL to connect to.
    pub url: Seq<char>,
    /// The header lines.
    pub headers: Seq<(Seq<char>, Seq<char>)>,
}

/// A request for a WebSocket connection.
#[must_use]
#[derive(Debug)]
pub struct SocketRequest<E> {
    url: Address,
    headers: Headers,
    marker: PhantomData<E>,
}

impl<E> View for SocketRequest<E> {
    type V = SocketView;

    closed spec fn view(&self) -> SocketView {
        SocketView { url: self.url@, headers: self.headers@ }
    }
}

impl<E> SocketRequest<E> {
    /// A request for a connection to the WebSockets counterpart of `url`.
    pub fn from(url: Address) -> (r: Self)
        requires
            url_scheme(url@) != "file"@,
        ensures
            r@ == (SocketView {
                url: with_scheme(url@, upgraded_scheme(url_scheme(url@))),
                headers: Seq::empty(),
            }),
    {
        let mut url = url;
        url.upgrade();
        SocketRequest { url, headers: Headers::new(), marker: PhantomData }
    }
}

impl SocketView {
    /// This request with lines for the header `key` with each of `values` behind its own.
    pub open spec fn with_header(self, key: Seq<char>, values: Seq<Seq<char>>) -> SocketView {
        SocketView { headers: self.headers + header_lines(key, values), ..self }
    }
}

/// What came of an attempt to open a connection.
pub enum HandshakeEvent {
    /// The request for the connection could not be built, with the description of the error.
    Malformed(String),
    /// The connection is open.
    Opened,
    /// The server answered with a response of its own.
    Refused {
        /// The status of the response.
        status: StatusCode,
        /// The value of the `Location` header, if there is one and it is text.
        location: Option<String>,
        /// The description of the error.
        description: String,
    },
    /// The connection failed in another way, with the description of the error.
    Failed(String),
}

/// What to do next in the handshake.
pub enum HandshakeAction<E> {
    /// Try to open a connection with the request as it is now.
    Open,
    /// Hand out the connection that is open.
    Connected,
    /// Return the error.
    Fail(E),
}

/// Whether a response with this status tells where else to go, if it says where.
pub open spec fn is_redirect(status: StatusCode) -> bool {
    301 <= status.code <= 308
}

/// Where to go after `event`, if it is a redirect.
pub open spec fn redirect(event: HandshakeEvent) -> Option<Seq<char>> {
    match event {
        HandshakeEvent::Refused { status, location: Some(l), .. } => if is_redirect(status) {
            Some(l@)
        } else {
            None
        },
        _ => None,
    }
}

/// Whether `after` is the request that is left of `before` once a redirect to `location` has been
/// followed: the path of the URL is set to the location, and nothing else changes.
pub open spec fn is_redirected(before: SocketView, location: Seq<char>, after: SocketView) -> bool {
    &&& after == (SocketView { url: with_path(before.url, location), ..before })
    &&& same_but_path(before.url, after.url)
}

/// Whether `after` is left of `before` once some redirect has been followed.
pub open spec fn follows_redirect(before: SocketView, after: SocketView) -> bool {
    exists|location: Seq<char>| #[trigger] is_redirected(before, location, after)
}

/// What an event says about itself.
pub open spec fn description(event: HandshakeEvent) -> Seq<char> {
    match event {
        HandshakeEvent::Malformed(m) => m@,
        HandshakeEvent::Opened => Seq::empty(),
        HandshakeEvent::Refused { description, .. } => description@,
        HandshakeEvent::Failed(m) => m@,
    }
}

impl HandshakeEvent {
    /// Where to go after this event, if it is a redirect.
    pub fn redirect(&self) -> (r: Option<&str>)
        ensures
            match r {
                Some(location) => redirect(*self) == Some(location@),
                None => redirect(*self) is None,
            },
    {
        match self {
            HandshakeEvent::Refused { status, location: Some(location), .. } => {
                if 301 <= status.code && status.code <= 308 {
                    Some(location.as_str())
                } else {
                    None
                }
            },
            _ => None,
        }
    }
}

/// Opening a connection, and following redirects on the way.
pub struct Handshake<E> {
    request: SocketRequest<E>,
}

impl<E> View for Handshake<E> {
    type V = SocketView;

    /// The request as it is now.
    closed spec fn view(&self) -> SocketView {
        self.request@
    }
}

impl<E> Handshake<E> {
    /// The URL to connect to.
    pub fn url(&self) -> (r: &Address)
        ensures
            r@ == self@.url,
    {
        &self.request.url
    }

    /// The headers of the request.
    pub fn headers(&self) -> (r: &Headers)
        ensures
            r@ == self@.headers,
    {
        &self.request.headers
    }
}

impl<E: Error> Handshake<E> {
    /// Whether a redirect to `location` can be followed: the URL is one that can be answered, and
    /// stays below 4 GB.
    pub fn can_follow(&self, location: &str) -> (r: bool)
        ensures
            r == (is_web_scheme(url_scheme(self@.url)) && path_fits(self@.url, location@)),
    {
        let scheme = self.request.url.scheme();
        let is_web = same_text(scheme.as_str(), "http") || same_text(scheme.as_str(), "https")
            || same_text(scheme.as_str(), "ws") || same_text(scheme.as_str(), "wss");
        let long: u128 = self.request.url.len() as u128 + 12 * location.unicode_len() as u128 + 12;
        is_web && long <= u32::MAX as u128
    }

    /// Go on with the handshake after `event`. Only a WebSocket URL can be answered with a
    /// redirect.
    pub fn advance(&mut self, event: HandshakeEvent) -> (r: HandshakeAction<E>)
        requires
            redirect(event) matches Some(location) ==> is_web_scheme(url_scheme(old(self)@.url))
                && path_fits(old(self)@.url, location),
        ensures
            match redirect(event) {
                Some(location) => {
                    &&& r is Open
                    &&& is_redirected(old(self)@, location, final(self)@)
                    &&& is_plain_absolute(location) ==> final(self)@.url == replace_path(
                        old(self)@.url,
                        location,
                    )
                    &&& is_web_scheme(url_scheme(final(self)@.url))
                },
                None => {
                    &&& final(self)@ == old(self)@
                    &&& if event is Opened {
                        r is Connected
                    } else {
                        r matches HandshakeAction::Fail(e) && is_catch_all(
                            StatusCode { code: BAD_REQUEST },
                            description(event),
                            e,
                        )
                    }
                },
            },
    {
        if let Some(location) = event.redirect() {
            self.request.url.set_path(location);
            return HandshakeAction::Open;
        }
        match event {
            HandshakeEvent::Opened => HandshakeAction::Connected,
            HandshakeEvent::Malformed(m) => HandshakeAction::Fail(request_error(m)),
            HandshakeEvent::Failed(m) => HandshakeAction::Fail(request_error(m)),
            HandshakeEvent::Refused { description, .. } => HandshakeAction::Fail(
                request_error(description),
            ),
        }
    }
}

impl<E: Error> SocketRequest<E> {
    /// The URL to connect to.
    pub fn url(&self) -> (r: &Address)
        ensures
            r@ == self@.url,
    {
        &self.url
    }

    /// The headers of the request.
    pub fn headers(&self) -> (r: &Headers)
        ensures
            r@ == self@.headers,
    {
        &self.headers
    }

    /// Set a header on the request.
    pub fn header(self, key: &str, values: &Vec<String>) -> (r: Self)
        requires
            is_header(key@, values@),
        ensures
            r@ == self@.with_header(key@, texts(values@)),
    {
        let mut r = self;
        r.headers.append(key, values);
        r
    }

    /// Start the WebSocket handshake and initiate a connection to the server.
    ///
    /// The first thing to do is to open a connection; [`Handshake::advance`] goes on from there.
    pub fn connect(self) -> (r: (Handshake<E>, HandshakeAction<E>))
        ensures
            r.0@ == self@,
            r.1 is Open,
    {
        (Handshake { request: self }, HandshakeAction::Open)
    }

    /// Initiate a unidirectional connection to the server.
    ///
    /// This is equivalent to `self.connect()`, for a connection that [Unsupported] messages are
    /// sent to.
    pub fn subscribe(self) -> (r: (Handshake<E>, HandshakeAction<E>))
        ensures
            r.0@ == self@,
            r.1 is Open,
    {
        self.connect()
    }
}

/// Type without values, used to disable sending on a [Connection].
#[derive(Clone, Copy, Debug)]
pub enum Unsupported {
    /// A value that there is none of.
    Never(core::convert::Infallible),
}

/// A WebSocket message.
pub enum Message {
    /// A text.
    Text(String),
    /// Bytes.
    Binary(Vec<u8>),
    /// A ping with its payload.
    Ping(Vec<u8>),
    /// A pong with its payload.
    Pong(Vec<u8>),
    /// The end of the connection.
    Close,
    /// A raw frame.
    Frame,
}

/// What can go wrong on a WebSocket connection.
pub enum WsError {
    /// The connection was closed in order.
    ConnectionClosed,
    /// The connection had been closed before.
    AlreadyClosed,
    /// Any other error, with its description.
    Other(String),
}

/// The state of an operation that may have to wait.
pub enum Polled<T> {
    /// The operation is done.
    Ready(T),
    /// The operation is still to be done.
    Pending,
}

/// What the next message from the server calls for.
pub enum Incoming<E> {
    /// Return this: the end of the stream, or an error.
    Return(Option<E>),
    /// Decode bytes from the binary format.
    DecodeBinary(Vec<u8>),
    /// Decode a text from JSON.
    DecodeJson(String),
}

/// A bi-directional connection to a WebSocket server: how what passes over it is understood.
pub struct Connection<FromServer, E> {
    marker: PhantomData<(FromServer, E)>,
}

/// The message that serialized bytes are sent as.
pub open spec fn message_of(bytes: Vec<u8>) -> Message {
    Message::Binary(bytes)
}

/// The status for what goes wrong on the way.
pub open spec fn internal() -> StatusCode {
    StatusCode { code: INTERNAL_SERVER_ERROR }
}

/// Whether `r` is what is to be done with what the connection gave next.
pub open spec fn is_incoming<E: Error>(
    item: Option<Result<Message, WsError>>,
    r: Incoming<E>,
) -> bool {
    match item {
        None => r == Incoming::<E>::Return(None),
        Some(Err(WsError::ConnectionClosed)) => r == Incoming::<E>::Return(None),
        Some(Err(WsError::AlreadyClosed)) => r == Incoming::<E>::Return(None),
        Some(Err(WsError::Other(m))) => r matches Incoming::Return(Some(e)) && is_catch_all(
            internal(),
            m@,
            e,
        ),
        Some(Ok(Message::Binary(bytes))) => r == Incoming::<E>::DecodeBinary(bytes),
        Some(Ok(Message::Text(text))) => r == Incoming::<E>::DecodeJson(text),
        Some(Ok(Message::Close)) => r == Incoming::<E>::Return(None),
        Some(Ok(_)) => r matches Incoming::Return(Some(e)) && is_catch_all(
            StatusCode { code: UNSUPPORTED_MEDIA_TYPE },
            "unsupported WebSocket message"@,
            e,
        ),
    }
}

/// Whether `r` is `polled` with its error reported as one of the connection.
pub open spec fn is_sink_result<E: Error>(
    polled: Polled<Result<(), String>>,
    r: Polled<Result<(), E>>,
) -> bool {
    match polled {
        Polled::Pending => r is Pending,
        Polled::Ready(Ok(_)) => r == Polled::Ready(Ok::<(), E>(())),
        Polled::Ready(Err(m)) => r matches Polled::Ready(Err(e)) && is_catch_all(
            internal(),
            "error in WebSocket connection: "@ + m@,
            e,
        ),
    }
}

impl<FromServer, E: Error> Connection<FromServer, E> {
    /// See what is to be done with what the connection gives next.
    pub fn poll_next(polled: Polled<Option<Result<Message, WsError>>>) -> (r: Polled<Incoming<E>>)
        ensures
            match (polled, r) {
                (Polled::Pending, Polled::Pending) => true,
                (Polled::Ready(item), Polled::Ready(incoming)) => is_incoming(item, incoming),
                _ => false,
            },
    {
        match polled {
            Polled::Pending => Polled::Pending,
            Polled::Ready(item) => Polled::Ready(
                match item {
                    None => Incoming::Return(None),
                    Some(Err(err)) => match err {
                        WsError::ConnectionClosed | WsError::AlreadyClosed => Incoming::Return(
                            None,
                        ),
                        WsError::Other(m) => Incoming::Return(
                            Some(E::catch_all(StatusCode { code: INTERNAL_SERVER_ERROR }, m)),
                        ),
                    },
                    Some(Ok(msg)) => match msg {
                        Message::Binary(bytes) => Incoming::DecodeBinary(bytes),
                        Message::Text(text) => Incoming::DecodeJson(text),
                        Message::Close => Incoming::Return(None),
                        _ => Incoming::Return(
                            Some(
                                E::catch_all(
                                    StatusCode { code: UNSUPPORTED_MEDIA_TYPE },
                                    "unsupported WebSocket message".to_owned(),
                                ),
                            ),
                        ),
                    },
                },
            ),
        }
    }

    /// Return what decoding bytes from the binary format gave.
    pub fn decoded_binary(decoded: Result<FromServer, String>) -> (r: Result<FromServer, E>)
        ensures
            match (decoded, r) {
                (Ok(value), Ok(item)) => item == value,
                (Err(m), Err(e)) => is_catch_all(
                    internal(),
                    "invalid binary serialization: "@ + m@,
                    e,
                ),
                _ => false,
            },
    {
        match decoded {
            Ok(value) => Ok(value),
            Err(m) => Err(
                E::catch_all(
                    StatusCode { code: INTERNAL_SERVER_ERROR },
                    join_text("invalid binary serialization: ", m.as_str()),
                ),
            ),
        }
    }

    /// Return what decoding a text from JSON gave.
    pub fn decoded_json(decoded: Result<FromServer, String>) -> (r: Result<FromServer, E>)
        ensures
            match (decoded, r) {
                (Ok(value), Ok(item)) => item == value,
                (Err(m), Err(e)) => is_catch_all(internal(), "invalid JSON: "@ + m@, e),
                _ => false,
            },
    {
        match decoded {
            Ok(value) => Ok(value),
            Err(m) => Err(
                E::catch_all(
                    StatusCode { code: INTERNAL_SERVER_ERROR },
                    join_text("invalid JSON: ", m.as_str()),
                ),
            ),
        }
    }

    /// Report whether the connection is ready for a message.
    pub fn poll_ready(polled: Polled<Result<(), String>>) -> (r: Polled<Result<(), E>>)
        ensures
            is_sink_result(polled, r),
    {
        match polled {
            Polled::Pending => Polled::Pending,
            Polled::Ready(Ok(_)) => Polled::Ready(Ok(())),
            Polled::Ready(Err(m)) => Polled::Ready(
                Err(
                    E::catch_all(
                        StatusCode { code: INTERNAL_SERVER_ERROR },
                        join_text("error in WebSocket connection: ", m.as_str()),
                    ),
                ),
            ),
        }
    }

    /// Begin to send an item: make a message of what serializing it gave.
    pub fn start_send(serialized: Result<Vec<u8>, String>) -> (r: Result<Message, E>)
        ensures
            match (serialized, r) {
                (Ok(bytes), Ok(msg)) => msg == message_of(bytes),
                (Err(m), Err(e)) => is_catch_all(
                    StatusCode { code: BAD_REQUEST },
                    "invalid binary serialization: "@ + m@,
                    e,
                ),
                _ => false,
            },
    {
        match serialized {
            Ok(bytes) => Ok(Message::Binary(bytes)),
            Err(m) => Err(request_error(join_text("invalid binary serialization: ", m.as_str()))),
        }
    }

    /// Report whether the connection took the message.
    pub fn sent(taken: Result<(), String>) -> (r: Result<(), E>)
        ensures
            match (taken, r) {
                (Ok(_), Ok(_)) => true,
                (Err(m), Err(e)) => is_catch_all(
                    internal(),
                    "error sending WebSocket message: "@ + m@,
                    e,
                ),
                _ => false,
            },
    {
        match taken {
            Ok(_) => Ok(()),
            Err(m) => Err(
                E::catch_all(
                    StatusCode { code: INTERNAL_SERVER_ERROR },
                    join_text("error sending WebSocket message: ", m.as_str()),
                ),
            ),
        }
    }

    /// Report whether all messages are on their way.
    pub fn poll_flush(polled: Polled<Result<(), String>>) -> (r: Polled<Result<(), E>>)
        ensures
            is_sink_result(polled, r),
    {
        Self::poll_ready(polled)
    }

    /// Report whether the connection is closed.
    pub fn poll_close(polled: Polled<Result<(), String>>) -> (r: Polled<Result<(), E>>)
        ensures
            is_sink_result(polled, r),
    {
        Self::poll_ready(polled)
    }
}

/// However many redirects a handshake follows, it goes to the same server, with the same scheme,
/// the same query and the same headers: the requests of all attempts differ in the paths of their
/// URLs only.
pub proof fn law_redirects_change_the_path(requests: Seq<SocketView>, n: int)
    requires
        0 <= n < requests.len(),
        forall|i: int| 0 <= i <= n ==> has_scheme((#[trigger] requests[i]).url),
        forall|i: int|
            0 <= i < n ==> follows_redirect(#[trigger] requests[i], requests[i + 1]),
    ensures
        requests[n].headers == requests[0].headers,
        same_but_path(requests[0].url, requests[n].url),
        url_scheme(requests[n].url) == url_scheme(requests[0].url),
    decreases n,
{
    if n > 0 {
        law_redirects_change_the_path(requests, n - 1);
        assert(follows_redirect(requests[n - 1], requests[n]));
        let first = requests[0].url;
        let last = requests[n].url;
        law_parts_in_order(first);
        law_parts_in_order(last);
        let start = url_path_start(first);
        assert(first.take(start) == last.take(url_path_start(last)));
        assert forall|i: int| 0 <= i < start implies first[i] == #[trigger] last[i] by {
            assert(first.take(start)[i] == last.take(url_path_start(last))[i]);
        }
        lemma_same_scheme(first, last, start);
    }
}

/// A header that is set on a request for a connection has its new values behind those that it
/// had; the other headers and the URL stay.
pub proof fn law_header_added(
    req: SocketView,
    key: Seq<char>,
    values: Seq<Seq<char>>,
    name: Seq<char>,
)
    ensures
        values_of(req.with_header(key, values).headers, name) == if name == lower(key) {
            values_of(req.headers, name) + values
        } else {
            values_of(req.headers, name)
        },
        req.with_header(key, values).url == req.url,
{
    lemma_values_of_sum(req.headers, header_lines(key, values), name);
    lemma_values_of_header(key, values, name);
    let own = values_of(req.headers, name);
    assert(own + Seq::<Seq<char>>::empty() =~= own);
}

/// What one end of a connection sends, the other end decodes: the message for serialized bytes,
/// when it comes in, calls for decoding the same bytes.
pub proof fn law_sent_is_decoded<E: Error>(bytes: Vec<u8>, r: Incoming<E>)
    requires
        is_incoming(Some(Ok(message_of(bytes))), r),
    ensures
        r == Incoming::<E>::DecodeBinary(bytes),
{
}

/// A message that comes in is decoded, or ends the stream, or is an error: one of these, and the
/// stream ends only when the connection does.
pub proof fn law_stream_ends_with_connection<E: Error>(
    item: Option<Result<Message, WsError>>,
    r: Incoming<E>,
)
    requires
        is_incoming(item, r),
    ensures
        r == Incoming::<E>::Return(None) <==> {
            ||| item is None
            ||| item matches Some(Err(WsError::ConnectionClosed))
            ||| item matches Some(Err(WsError::AlreadyClosed))
            ||| item matches Some(Ok(Message::Close))
        },
        r is DecodeBinary <==> item matches Some(Ok(Message::Binary(_))),
        r is DecodeJson <==> item matches Some(Ok(Message::Text(_))),
{
}

} // verus!

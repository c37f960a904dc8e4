use surf_disco::socket::{
    socket_scheme, Connection, Handshake, HandshakeAction, HandshakeEvent, Incoming, Message,
    Polled, SocketRequest, Unsupported, WsError,
};
use surf_disco::{Error, StatusCode, Address};

#[derive(Debug, PartialEq)]
struct ServerError {
    status: StatusCode,
    message: String,
}

impl Error for ServerError {
    fn catch_all(status: StatusCode, msg: String) -> Self {
        ServerError { status, message: msg }
    }
}

type Conn = Connection<String, ServerError>;

fn error(code: u16, message: &str) -> ServerError {
    ServerError { status: StatusCode { code }, message: message.to_string() }
}

fn request(url: &str) -> SocketRequest<ServerError> {
    SocketRequest::from(Address::parse(url).unwrap())
}

fn strings(values: &[&str]) -> Vec<String> {
    values.iter().map(|v| v.to_string()).collect()
}

fn refused(code: u16, location: Option<&str>) -> HandshakeEvent {
    HandshakeEvent::Refused {
        status: StatusCode { code },
        location: location.map(|l| l.to_string()),
        description: format!("HTTP error: {}", code),
    }
}

fn failed(action: HandshakeAction<ServerError>) -> ServerError {
    match action {
        HandshakeAction::Fail(e) => e,
        _ => panic!("the handshake is to fail"),
    }
}

fn incoming(item: Option<Result<Message, WsError>>) -> Incoming<ServerError> {
    match Conn::poll_next(Polled::Ready(item)) {
        Polled::Ready(r) => r,
        Polled::Pending => panic!("there is a message"),
    }
}

#[test]
fn schemes_are_upgraded() {
    assert_eq!(socket_scheme("http"), "ws");
    assert_eq!(socket_scheme("https"), "wss");
    for other in ["ws", "wss", "foo", ""] {
        assert_eq!(socket_scheme(other), other);
    }
}

#[test]
fn requests_have_the_upgraded_scheme() {
    assert_eq!(request("http://localhost/a?q").url().as_str(), "ws://localhost/a?q");
    assert_eq!(request("https://localhost/a").url().as_str(), "wss://localhost/a");
    assert_eq!(request("wss://localhost/a").url().as_str(), "wss://localhost/a");
}

#[test]
fn headers_add_up() {
    let req = request("http://localhost")
        .header("X-One", &strings(&["a", "b"]))
        .header("x-two", &strings(&["c"]))
        .header("x-one", &strings(&["d"]));
    assert_eq!(req.headers().len(), 4);
    assert_eq!(req.headers().line(0), ("x-one", "a"));
    assert_eq!(req.headers().line(1), ("x-one", "b"));
    assert_eq!(req.headers().line(2), ("x-two", "c"));
    assert_eq!(req.headers().line(3), ("x-one", "d"));
    assert_eq!(req.url().as_str(), "ws://localhost/");
}

#[test]
fn handshake_that_succeeds() {
    let (mut handshake, action) = request("http://localhost/mod/echo").connect();
    assert!(matches!(action, HandshakeAction::Open));
    assert_eq!(handshake.url().as_str(), "ws://localhost/mod/echo");
    let action = handshake.advance(HandshakeEvent::Opened);
    assert!(matches!(action, HandshakeAction::Connected));
}

#[test]
fn subscribing_is_connecting() {
    let (mut handshake, action) =
        request("http://localhost/mod/naturals").header("x", &strings(&["y"])).subscribe();
    assert!(matches!(action, HandshakeAction::Open));
    assert_eq!(handshake.url().as_str(), "ws://localhost/mod/naturals");
    assert_eq!(handshake.headers().line(0), ("x", "y"));
    let action = handshake.advance(HandshakeEvent::Opened);
    assert!(matches!(action, HandshakeAction::Connected));
}

#[test]
fn redirects_are_followed() {
    let start = || -> Handshake<ServerError> {
        request("http://localhost:5000/a?q").header("x", &strings(&["y"])).connect().0
    };
    for code in 301..=308u16 {
        let mut handshake = start();
        let action = handshake.advance(refused(code, Some("/b/c")));
        assert!(matches!(action, HandshakeAction::Open));
        assert_eq!(handshake.url().as_str(), "ws://localhost:5000/b/c?q");
        assert_eq!(handshake.headers().line(0), ("x", "y"));
        let action = handshake.advance(refused(code, Some("d e")));
        assert!(matches!(action, HandshakeAction::Open));
        assert_eq!(handshake.url().as_str(), "ws://localhost:5000/d%20e?q");
        let action = handshake.advance(HandshakeEvent::Opened);
        assert!(matches!(action, HandshakeAction::Connected));
    }
}

#[test]
fn refusals_are_errors() {
    for code in [200u16, 300, 309, 404] {
        let mut handshake = request("http://localhost/a").connect().0;
        let action = handshake.advance(refused(code, Some("/b")));
        assert_eq!(failed(action), error(400, &format!("HTTP error: {}", code)));
        assert_eq!(handshake.url().as_str(), "ws://localhost/a");
    }
    let mut handshake = request("http://localhost/a").connect().0;
    let action = handshake.advance(refused(301, None));
    assert_eq!(failed(action), error(400, "HTTP error: 301"));
}

#[test]
fn failures_are_errors() {
    let mut handshake = request("http://localhost/a").connect().0;
    let action = handshake.advance(HandshakeEvent::Malformed("invalid uri".to_string()));
    assert_eq!(failed(action), error(400, "invalid uri"));
    let mut handshake = request("http://localhost/a").connect().0;
    let action = handshake.advance(HandshakeEvent::Failed("IO error".to_string()));
    assert_eq!(failed(action), error(400, "IO error"));
}

#[test]
fn messages_are_decoded() {
    assert!(matches!(Conn::poll_next(Polled::Pending), Polled::Pending));
    match incoming(Some(Ok(Message::Binary(vec![1, 2])))) {
        Incoming::DecodeBinary(bytes) => assert_eq!(bytes, vec![1, 2]),
        _ => panic!("the bytes are to be decoded"),
    }
    match incoming(Some(Ok(Message::Text("\"foo\"".to_string())))) {
        Incoming::DecodeJson(text) => assert_eq!(text, "\"foo\""),
        _ => panic!("the text is to be decoded"),
    }
    assert_eq!(Conn::decoded_binary(Ok("foo".to_string())), Ok("foo".to_string()));
    assert_eq!(
        Conn::decoded_binary(Err("too short".to_string())),
        Err(error(500, "invalid binary serialization: too short"))
    );
    assert_eq!(Conn::decoded_json(Ok("bar".to_string())), Ok("bar".to_string()));
    assert_eq!(
        Conn::decoded_json(Err("expected value".to_string())),
        Err(error(500, "invalid JSON: expected value"))
    );
}

#[test]
fn the_stream_ends_with_the_connection() {
    assert!(matches!(incoming(None), Incoming::Return(None)));
    assert!(matches!(incoming(Some(Err(WsError::ConnectionClosed))), Incoming::Return(None)));
    assert!(matches!(incoming(Some(Err(WsError::AlreadyClosed))), Incoming::Return(None)));
    assert!(matches!(incoming(Some(Ok(Message::Close))), Incoming::Return(None)));
}

#[test]
fn other_messages_are_errors() {
    match incoming(Some(Err(WsError::Other("IO error".to_string())))) {
        Incoming::Return(Some(e)) => assert_eq!(e, error(500, "IO error")),
        _ => panic!("the error is to be returned"),
    }
    for msg in [Message::Ping(vec![]), Message::Pong(vec![1]), Message::Frame] {
        match incoming(Some(Ok(msg))) {
            Incoming::Return(Some(e)) => {
                assert_eq!(e, error(415, "unsupported WebSocket message"))
            }
            _ => panic!("the message is an error"),
        }
    }
}

#[test]
fn items_are_sent_as_binary_messages() {
    match Conn::start_send(Ok(vec![1, 2])).unwrap() {
        Message::Binary(bytes) => match incoming(Some(Ok(Message::Binary(bytes)))) {
            Incoming::DecodeBinary(bytes) => assert_eq!(bytes, vec![1, 2]),
            _ => panic!("the bytes are to be decoded"),
        },
        _ => panic!("the message is to be binary"),
    }
    match Conn::start_send(Err("no bytes".to_string())) {
        Err(e) => assert_eq!(e, error(400, "invalid binary serialization: no bytes")),
        Ok(_) => panic!("there is nothing to send"),
    }
    assert_eq!(Conn::sent(Ok(())), Ok(()));
    assert_eq!(
        Conn::sent(Err("full".to_string())),
        Err(error(500, "error sending WebSocket message: full"))
    );
}

#[test]
fn the_sink_reports_errors_of_the_connection() {
    let all = [Conn::poll_ready, Conn::poll_flush, Conn::poll_close];
    for poll in all {
        assert!(matches!(poll(Polled::Pending), Polled::Pending));
        assert!(matches!(poll(Polled::Ready(Ok(()))), Polled::Ready(Ok(()))));
        match poll(Polled::Ready(Err("reset".to_string()))) {
            Polled::Ready(Err(e)) => {
                assert_eq!(e, error(500, "error in WebSocket connection: reset"))
            }
            _ => panic!("the error is to be reported"),
        }
    }
}

#[test]
fn unsupported_items_cannot_be_made() {
    let none: Option<Unsupported> = None;
    assert!(none.is_none());
    assert_eq!(std::mem::size_of::<Option<Unsupported>>(), 0);
}

#[test]
fn redirects_are_told_from_other_refusals() {
    assert_eq!(refused(301, Some("/b")).redirect(), Some("/b"));
    assert_eq!(refused(308, Some("/b")).redirect(), Some("/b"));
    assert_eq!(refused(301, None).redirect(), None);
    assert_eq!(refused(300, Some("/b")).redirect(), None);
    assert_eq!(refused(309, Some("/b")).redirect(), None);
    assert_eq!(HandshakeEvent::Opened.redirect(), None);
    assert!(request("http://localhost/a").connect().0.can_follow("/b"));
    assert!(!request("foo://localhost/a").connect().0.can_follow("/b"));
}

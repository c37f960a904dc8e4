use surf_disco::error::{request_error, surf_error, Failure};
use surf_disco::http::{Headers, Method};
use surf_disco::request::{Request, ResponseHead, SendAction, SendEvent, Sending};
use surf_disco::{Error, StatusCode, Address};

#[derive(Debug, PartialEq)]
struct ServerError {
    status: StatusCode,
    message: String,
}

impl Error for ServerError {
    fn catch_all(status: StatusCode, msg: String) -> Self {
        ServerError { status, message: msg }
    }
}

type Event = SendEvent<String, ServerError>;
type Action = SendAction<String, ServerError>;

fn error(code: u16, message: &str) -> ServerError {
    ServerError { status: StatusCode { code }, message: message.to_string() }
}

fn failure(code: u16, message: &str) -> Failure {
    Failure { status: StatusCode { code }, message: message.to_string() }
}

fn head(code: u16, content_type: Option<&str>) -> Event {
    SendEvent::Responded(Ok(ResponseHead {
        status: StatusCode { code },
        content_type: content_type.map(|t| t.to_string()),
    }))
}

fn request() -> Request<String, ServerError> {
    Request::new(Method::Post, Address::parse("http://localhost/mod/post").unwrap())
}

fn strings(values: &[&str]) -> Vec<String> {
    values.iter().map(|v| v.to_string()).collect()
}

fn lines(headers: &Headers) -> Vec<(String, String)> {
    (0..headers.len())
        .map(|i| (headers.line(i).0.to_string(), headers.line(i).1.to_string()))
        .collect()
}

fn pair(name: &str, value: &str) -> (String, String) {
    (name.to_string(), value.to_string())
}

/// Drives an exchange with the given events to its result.
fn run(events: Vec<Event>) -> Result<String, ServerError> {
    let (mut state, mut action) = request().send();
    assert!(matches!(action, SendAction::Transmit(_)));
    for event in events {
        assert!(!matches!(action, SendAction::Finish(_)));
        (state, action) = state.advance(event);
    }
    assert!(matches!(state, Sending::Finished));
    match action {
        SendAction::Finish(r) => r,
        _ => panic!("the exchange is not over"),
    }
}

/// The action that is called for after the given events.
fn after(events: Vec<Event>) -> Action {
    let (mut state, mut action) = request().send();
    for event in events {
        (state, action) = state.advance(event);
    }
    action
}

#[test]
fn setting_a_header_replaces_it() {
    let req = request()
        .header("X-One", &strings(&["a", "b"]))
        .header("x-two", &strings(&["c"]))
        .header("X-ONE", &strings(&["d"]));
    assert_eq!(lines(req.headers()), vec![pair("x-two", "c"), pair("x-one", "d")]);
    let req = req.header("x-two", &strings(&[]));
    assert_eq!(lines(req.headers()), vec![pair("x-one", "d")]);
}

#[test]
fn sending_transmits_the_request() {
    let req = request().header("x-one", &strings(&["a"]));
    match req.send().1 {
        SendAction::Transmit(req) => {
            assert_eq!(req.method(), Method::Post);
            assert_eq!(req.url().as_str(), "http://localhost/mod/post");
            assert_eq!(lines(req.headers()), vec![pair("x-one", "a")]);
            assert!(req.body().is_none());
        }
        _ => panic!("the request is to be transmitted"),
    }
}

#[test]
fn json_body() {
    let req = request().body_json(Ok(b"\"body\"".to_vec())).unwrap();
    assert_eq!(req.body(), Some(&b"\"body\"".to_vec()));
    assert_eq!(lines(req.headers()), vec![pair("content-type", "application/json")]);
    let err = request().body_json(Err(failure(500, "no JSON"))).unwrap_err();
    assert_eq!(err, error(500, "no JSON"));
}

#[test]
fn binary_body() {
    let req = request().body_binary(Ok(vec![1, 2, 3])).unwrap();
    assert_eq!(req.body(), Some(&vec![1, 2, 3]));
    assert_eq!(lines(req.headers()), vec![pair("content-type", "application/octet-stream")]);
    let err = request().body_binary(Err("too long".to_string())).unwrap_err();
    assert_eq!(err, error(400, "too long"));
}

#[test]
fn the_last_body_counts() {
    let req = request()
        .header("accept", &strings(&["application/json"]))
        .body_json(Ok(vec![b'1']))
        .unwrap()
        .body_binary(Ok(vec![1]))
        .unwrap();
    assert_eq!(req.body(), Some(&vec![1]));
    assert_eq!(
        lines(req.headers()),
        vec![
            pair("accept", "application/json"),
            pair("content-type", "application/octet-stream"),
        ]
    );
}

#[test]
fn unreachable_server() {
    let r = run(vec![SendEvent::Responded(Err(failure(500, "connection refused")))]);
    assert_eq!(r, Err(error(500, "connection refused")));
}

#[test]
fn json_response() {
    let json = "application/json";
    assert!(matches!(after(vec![head(200, Some(json))]), SendAction::ReadJson));
    let r = run(vec![
        head(200, Some(json)),
        SendEvent::JsonRead(Ok("response".to_string())),
    ]);
    assert_eq!(r, Ok("response".to_string()));
    let r = run(vec![
        head(200, Some(json)),
        SendEvent::JsonRead(Err(failure(422, "expected value"))),
    ]);
    assert_eq!(r, Err(error(422, "expected value")));
}

#[test]
fn binary_response() {
    let binary = "application/octet-stream";
    assert!(matches!(after(vec![head(200, Some(binary))]), SendAction::ReadBytes));
    let read = || SendEvent::BytesRead(Ok(vec![7, 8]));
    match after(vec![head(200, Some(binary)), read()]) {
        SendAction::DecodeBinary(bytes) => assert_eq!(bytes, vec![7, 8]),
        _ => panic!("the bytes are to be decoded"),
    }
    let r = run(vec![
        head(200, Some(binary)),
        read(),
        SendEvent::Decoded(Ok("response".to_string())),
    ]);
    assert_eq!(r, Ok("response".to_string()));
    let r = run(vec![
        head(200, Some(binary)),
        read(),
        SendEvent::Decoded(Err("unexpected end".to_string())),
    ]);
    assert_eq!(r, Err(error(400, "unexpected end")));
    let r = run(vec![head(200, Some(binary)), SendEvent::BytesRead(Err(failure(408, "slow")))]);
    assert_eq!(r, Err(error(408, "slow")));
}

#[test]
fn response_without_content_type() {
    let r = run(vec![head(200, None)]);
    assert_eq!(r, Err(error(415, "unspecified content type in response")));
}

#[test]
fn response_of_unknown_type() {
    let cases: [(Result<Vec<u8>, Failure>, &str); 4] = [
        (Ok("h\u{e9}".as_bytes().to_vec()), "unsupported content type text/html body: h\u{e9}"),
        (Ok(vec![0xff, 0x00, 0x3a]), "unsupported content type text/html body: ff003a"),
        (Ok(vec![]), "unsupported content type text/html body: "),
        (Err(failure(500, "gone")), "unsupported content type text/html "),
    ];
    for (body, message) in cases {
        let r = run(vec![head(200, Some("text/html")), SendEvent::BytesRead(body)]);
        assert_eq!(r, Err(error(415, message)));
    }
}

#[test]
fn content_types_are_compared_as_they_stand() {
    let r = run(vec![
        head(200, Some("application/json;charset=utf-8")),
        SendEvent::BytesRead(Ok(b"1".to_vec())),
    ]);
    let message = "unsupported content type application/json;charset=utf-8 body: 1";
    assert_eq!(r, Err(error(415, message)));
}

#[test]
fn error_response_with_a_serialized_error() {
    let body = || SendEvent::BytesRead(Ok(vec![1, 2]));
    match after(vec![head(400, Some("application/json")), body()]) {
        SendAction::DecodeErrorJson(bytes) => assert_eq!(bytes, vec![1, 2]),
        _ => panic!("the error is to be decoded from JSON"),
    }
    match after(vec![head(400, Some("application/octet-stream")), body()]) {
        SendAction::DecodeErrorBinary(bytes) => assert_eq!(bytes, vec![1, 2]),
        _ => panic!("the error is to be decoded from the binary format"),
    }
    for format in ["application/json", "application/octet-stream"] {
        let r = run(vec![
            head(400, Some(format)),
            body(),
            SendEvent::ErrorDecoded(Some(error(418, "invalid body"))),
        ]);
        assert_eq!(r, Err(error(418, "invalid body")));
    }
}

#[test]
fn error_response_with_a_text() {
    let body = || SendEvent::BytesRead(Ok(b"invalid body".to_vec()));
    assert_eq!(run(vec![head(404, None), body()]), Err(error(404, "invalid body")));
    assert_eq!(
        run(vec![head(404, Some("text/plain")), body()]),
        Err(error(404, "invalid body"))
    );
    let r = run(vec![
        head(404, Some("application/json")),
        body(),
        SendEvent::ErrorDecoded(None),
    ]);
    assert_eq!(r, Err(error(404, "invalid body")));
}

#[test]
fn error_response_with_other_bytes() {
    let body = || SendEvent::BytesRead(Ok(vec![0xff, 0xad]));
    assert_eq!(
        run(vec![head(503, None), body()]),
        Err(error(
            503,
            "Request terminated with error 503. Content-Type: unspecified. Body: 0xffad"
        ))
    );
    let r = run(vec![
        head(404, Some("application/octet-stream")),
        body(),
        SendEvent::ErrorDecoded(None),
    ]);
    assert_eq!(
        r,
        Err(error(
            404,
            "Request terminated with error 404. Content-Type: application/octet-stream. \
             Body: 0xffad"
        ))
    );
}

#[test]
fn error_response_without_a_body() {
    let r = run(vec![head(502, None), SendEvent::BytesRead(Err(failure(500, "cut off")))]);
    assert_eq!(
        r,
        Err(error(
            502,
            "Request terminated with error 502. Failed to read request body due to cut off"
        ))
    );
}

#[test]
fn only_ok_is_a_success() {
    for code in [201u16, 204, 301] {
        let action = after(vec![head(code, Some("application/json"))]);
        assert!(matches!(action, SendAction::ReadBytes));
    }
}

#[test]
fn errors_are_made_by_catch_all() {
    let e: ServerError = request_error("bad".to_string());
    assert_eq!(e, error(400, "bad"));
    let e: ServerError = surf_error(failure(502, "gateway"));
    assert_eq!(e, error(502, "gateway"));
}

#[test]
fn status_codes_are_written_in_decimal() {
    for (code, text) in [(0u16, "0"), (7, "7"), (10, "10"), (404, "404"), (65535, "65535")] {
        assert_eq!(StatusCode { code }.to_text(), text);
    }
}

#[test]
fn events_are_accepted_where_they_can_happen() {
    let responded = || head(200, Some("application/json"));
    let read = || -> Event { SendEvent::BytesRead(Ok(vec![0xff])) };
    assert!(Sending::AwaitingResponse.accepts(&responded()));
    assert!(!Sending::AwaitingResponse.accepts(&read()));
    assert!(!Sending::ReadingJson.accepts(&read()));
    assert!(Sending::ReadingBinary.accepts(&read()));
    assert!(!Sending::Finished.accepts(&responded()));
    let unknown = Sending::ReadingUnknown { format: "text/html".to_string() };
    assert!(unknown.accepts(&read()));
    let decoding = |format: &str| Sending::DecodingError {
        status: StatusCode { code: 400 },
        format: format.to_string(),
        body: vec![0xff],
    };
    let decoded = || -> Event { SendEvent::ErrorDecoded(None) };
    assert!(decoding("application/json").accepts(&decoded()));
    assert!(!decoding("text/html").accepts(&decoded()));
}

use surf_disco::client::{Client, ClientBuilder};
use surf_disco::http::Method;
use surf_disco::poll::PollAction;
use surf_disco::request::{Request, SendAction, Sending};
use surf_disco::socket::SocketRequest;
use surf_disco::time::Duration;
use surf_disco::{Error, StatusCode, Address};

#[derive(Debug, PartialEq)]
struct ServerError {
    status: StatusCode,
    message: String,
}

impl Error for ServerError {
    fn catch_all(status: StatusCode, msg: String) -> Self {
        ServerError { status, message: msg }
    }
}

fn url(text: &str) -> Address {
    Address::parse(text).unwrap()
}

fn client(base: &str) -> Client<ServerError> {
    Client::new(url(base))
}

fn target(req: &Request<String, ServerError>) -> String {
    req.url().as_str().to_string()
}

fn base(client: &Client<ServerError>) -> String {
    client.base_url().unwrap().as_str().to_string()
}

#[test]
fn test_builder() {
    let client = Client::<ServerError>::builder(url("http://www.example.com"))
        .set_timeout(None)
        .build();
    assert_eq!(
        client.base_url().map(|u| u.as_str()),
        Some(url("http://www.example.com").as_str())
    );
    assert!(client.timeout().is_none());
}

#[test]
fn default_timeout_is_a_minute() {
    let client = client("http://localhost:80");
    let timeout = client.timeout().unwrap();
    assert_eq!(timeout.as_secs(), 60);
    assert_eq!(timeout.subsec_nanos(), 0);
}

#[test]
fn builder_keeps_the_timeout_it_is_given() {
    let builder: ClientBuilder<ServerError> =
        Client::builder(url("http://localhost")).set_timeout(Some(Duration::new(2, 500)));
    let client: Client<ServerError> = Client::from(builder);
    let timeout = client.timeout().unwrap();
    assert_eq!(timeout.as_secs(), 2);
    assert_eq!(timeout.subsec_nanos(), 500);
    assert_eq!(base(&client), "http://localhost/");
    let copy = client.clone();
    assert_eq!(base(&copy), "http://localhost/");
    assert_eq!(copy.timeout().unwrap().as_secs(), 2);
}

#[test]
fn base_url_becomes_a_directory() {
    assert_eq!(base(&client("http://localhost:1234/mod")), "http://localhost:1234/mod/");
    assert_eq!(base(&client("http://localhost:1234/mod/")), "http://localhost:1234/mod/");
    assert_eq!(base(&client("http://localhost/a%20b?x=1#f")), "http://localhost/a%20b/?x=1#f");
    assert_eq!(base(&client("mailto:")), "mailto:%2F");
    assert_eq!(base(&client("mailto:someone")), "mailto:someone/");
}

#[test]
fn default_client_has_no_base_url() {
    let client = Client::<ServerError>::default();
    assert!(client.base_url().is_none());
    assert_eq!(client.timeout().unwrap().as_secs(), 60);
    assert!(client.try_socket("http://localhost/x").is_none());
    assert!(client.try_module::<ServerError>("http://localhost/x").is_none());
    let req = client.try_request::<String>(Method::Get, "http://localhost/x").unwrap();
    assert_eq!(target(&req), "http://localhost/x");
    let err = client.try_request::<String>(Method::Get, "/x").unwrap_err();
    assert_eq!(err.description, "relative URL without a base");
}

#[test]
fn requests_go_below_the_base_url() {
    let client = client("http://localhost:5000/api");
    let get = client.get::<String>("mod/get");
    assert_eq!(get.method(), Method::Get);
    assert_eq!(target(&get), "http://localhost:5000/api/mod/get");
    let post = client.post::<String>("mod/post");
    assert_eq!(post.method(), Method::Post);
    assert_eq!(target(&post), "http://localhost:5000/api/mod/post");
    let put = client.request::<String>(Method::Put, "/root");
    assert_eq!(put.method(), Method::Put);
    assert_eq!(target(&put), "http://localhost:5000/root");
}

#[test]
fn requests_ask_for_binary_content() {
    let req = client("http://localhost").get::<String>("x");
    assert_eq!(req.headers().len(), 1);
    assert_eq!(req.headers().line(0), ("accept", "application/octet-stream"));
    assert!(req.body().is_none());
}

#[test]
fn routes_that_lead_nowhere_are_refused() {
    let client = client("http://localhost/");
    let err = client.try_request::<String>(Method::Get, "http://[").unwrap_err();
    assert_eq!(err.description, "invalid IPv6 address");
    assert!(client.try_socket("http://[").is_none());
    assert!(client.try_socket("file:///x").is_none());
    let req = client.try_request::<String>(Method::Post, "x?y=1").unwrap();
    assert_eq!(req.method(), Method::Post);
    assert_eq!(target(&req), "http://localhost/x?y=1");
    let req = client.try_request::<String>(Method::Delete, "x").unwrap();
    assert_eq!(req.method(), Method::Delete);
}

#[test]
fn sockets_go_to_the_websocket_counterpart() {
    let plain: SocketRequest<ServerError> = client("http://localhost:5000").socket("mod/echo");
    assert_eq!(plain.url().as_str(), "ws://localhost:5000/mod/echo");
    assert_eq!(plain.headers().len(), 0);
    let secure = client("https://localhost/mod").socket("naturals/10");
    assert_eq!(secure.url().as_str(), "wss://localhost/mod/naturals/10");
    let other = client("http://localhost").try_socket("foo://host/bar").unwrap();
    assert_eq!(other.url().as_str(), "foo://host/bar");
}

#[test]
fn modules_are_clients_of_their_own() {
    let app = client("http://localhost:5000");
    let module = app.module::<ServerError>("mod").unwrap();
    assert_eq!(base(&module), "http://localhost:5000/mod/");
    assert_eq!(
        target(&module.get::<String>("get")),
        target(&app.get::<String>("mod/get"))
    );
    let err = app.try_module::<ServerError>("http://[").unwrap().unwrap_err();
    assert_eq!(err.description, "invalid IPv6 address");
    let deep = module.try_module::<ServerError>("deep/er").unwrap().unwrap();
    assert_eq!(base(&deep), "http://localhost:5000/mod/deep/er/");
    assert_eq!(deep.timeout().unwrap().as_secs(), 60);
}

#[test]
fn routes_and_modules_of_a_base_with_query_and_fragment() {
    let app = client("http://localhost:5000/api?x=1#f");
    assert_eq!(base(&app), "http://localhost:5000/api/?x=1#f");
    let place = target(&app.get::<String>("mod/sub/get"));
    assert_eq!(place, "http://localhost:5000/api/mod/sub/get");
    for prefix in ["mod/sub", "mod/sub/"] {
        let module = app.module::<ServerError>(prefix).unwrap();
        assert_eq!(base(&module), "http://localhost:5000/api/mod/sub/");
        assert_eq!(target(&module.post::<String>("get")), place);
        assert_eq!(
            module.socket("get").url().as_str(),
            app.socket("mod/sub/get").url().as_str()
        );
    }
    assert_eq!(app.socket("mod").url().as_str(), "ws://localhost:5000/api/mod");
}

#[test]
fn modules_of_a_file_keep_the_host() {
    let app = client("file://host/dir");
    assert_eq!(base(&app), "file://host/dir/");
    let module = app.module::<ServerError>("../C:/x").unwrap();
    assert_eq!(base(&module), "file://host/C:/x/");
}

#[test]
fn modules_start_with_the_default_timeout() {
    let app = Client::<ServerError>::builder(url("http://localhost")).set_timeout(None).build();
    assert!(app.timeout().is_none());
    let module = app.module::<ServerError>("mod").unwrap();
    assert_eq!(module.timeout().unwrap().as_secs(), 60);
}

#[test]
fn connecting_asks_the_healthcheck_of_the_host() {
    let client = client("http://localhost:5000/mod");
    let mut connecting = client.connect(None);
    let req = connecting.attempt::<ServerError>();
    assert_eq!(req.method(), Method::Get);
    assert_eq!(req.url().as_str(), "http://localhost:5000/healthcheck");
    assert_eq!(req.headers().len(), 0);
    assert!(matches!(connecting.clock(Duration::from_secs(0)), PollAction::Try));
    let action = connecting.answered(Some(StatusCode { code: 200 }), Duration::from_secs(1));
    assert!(matches!(action, PollAction::Finish(true)));
}

#[test]
fn clients_without_an_endpoint() {
    let opaque = client("mailto:someone");
    for client in [Client::<ServerError>::default(), opaque] {
        assert!(client.try_healthcheck::<String>().is_none());
        let mut connecting = client.connect(Some(Duration::from_secs(0)));
        assert!(connecting.try_attempt::<ServerError>().is_none());
        let action = connecting.clock(Duration::from_secs(0));
        assert!(matches!(action, PollAction::Finish(false)));
        let waiting = client.wait_for_health(None);
        assert!(waiting.try_attempt::<String, ServerError>().is_none());
    }
    assert!(client("http://localhost").try_healthcheck::<String>().is_some());
}

#[test]
fn health_that_comes_too_late_does_not_count() {
    let client = client("http://localhost");
    let mut waiting = client.wait_for_health(Some(Duration::from_secs(1)));
    assert!(matches!(waiting.clock::<u32>(Duration::from_secs(0)), PollAction::Try));
    let action =
        waiting.answered(Ok::<u32, ServerError>(2), Duration::from_secs(1), &|_: &u32| true);
    assert!(matches!(action, PollAction::Finish(None)));
}

#[test]
fn attempts_at_health_are_healthchecks() {
    let client = client("http://localhost:5000/mod?x");
    let waiting = client.wait_for_health(None);
    for begun in [waiting.attempt::<String, ServerError>(), client.healthcheck::<String>()] {
        assert!(matches!(begun.0, Sending::AwaitingResponse));
        match begun.1 {
            SendAction::Transmit(req) => {
                assert_eq!(req.method(), Method::Get);
                assert_eq!(target(&req), "http://localhost:5000/mod/healthcheck");
                assert_eq!(req.headers().len(), 1);
            }
            _ => panic!("the request is to be transmitted"),
        }
    }
}

#[test]
fn healthcheck_goes_below_the_base_url() {
    let client = client("http://localhost:5000/mod");
    let (state, action) = client.healthcheck::<String>();
    assert!(matches!(state, Sending::AwaitingResponse));
    match action {
        SendAction::Transmit(req) => {
            assert_eq!(req.method(), Method::Get);
            assert_eq!(target(&req), "http://localhost:5000/mod/healthcheck");
            assert_eq!(req.headers().line(0), ("accept", "application/octet-stream"));
        }
        _ => panic!("the request is to be transmitted"),
    }
}

#[test]
fn waiting_for_health_goes_on_until_the_server_is_ready() {
    let client = client("http://localhost:5000/mod");
    let ready = |h: &u32| *h == 2;

    // Within a second there is time for one attempt only.
    let mut waiting = client.wait_for_health(Some(Duration::from_secs(1)));
    assert!(matches!(waiting.clock::<u32>(Duration::from_secs(0)), PollAction::Try));
    let action = waiting.answered(Ok::<u32, ServerError>(1), Duration::new(0, 5), &ready);
    assert!(matches!(action, PollAction::Sleep { secs: 10 }));
    let action = waiting.clock::<u32>(Duration::from_secs(10));
    assert!(matches!(action, PollAction::Finish(None)));

    // Without a timeout there is time for more.
    let mut waiting = client.wait_for_health(None);
    assert!(matches!(waiting.clock::<u32>(Duration::from_secs(0)), PollAction::Try));
    let failure = ServerError::catch_all(StatusCode { code: 500 }, "down".to_string());
    let action =
        waiting.answered(Err::<u32, ServerError>(failure), Duration::from_secs(0), &ready);
    assert!(matches!(action, PollAction::Sleep { secs: 10 }));
    assert!(matches!(waiting.clock::<u32>(Duration::from_secs(10)), PollAction::Try));
    let action = waiting.answered(Ok::<u32, ServerError>(2), Duration::from_secs(11), &ready);
    assert!(matches!(action, PollAction::Finish(Some(2))));
}

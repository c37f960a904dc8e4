//! The client of an application: where requests go, and how long they may take.
use core::marker::PhantomData;
use vstd::prelude::*;
use vstd::std_specs::convert::FromSpecImpl;

use crate::error::Error;
use crate::http::{lower, values_of, Method};
use crate::poll::{is_health_check, timeout_nanos, AwaitingHealth, Connecting, PollState};
use crate::request::{Request, RequestView, SendAction, Sending};
use crate::socket::{SocketRequest, SocketView};
use crate::text::same_text;
use crate::time::{Duration, NANOS_PER_SEC};
use crate::url::{
    directory_url, found, has_scheme, is_directory, is_formed, is_opaque, is_plain_absolute,
    is_plain_char, is_plain_relative, is_short, is_web_directory, is_web_scheme,
    law_below_directory, law_directory_path, law_parts_in_order, law_scheme_without_colon,
    law_web_directory, law_with_scheme, lemma_rooted_path_not_empty, lemma_same_scheme,
    lemma_web_is_not_file, same_but_path, upgraded_scheme, url_join, url_outcome, url_parse,
    url_path, url_path_end, url_path_start, url_scheme, url_scheme_end, with_scheme, ParseError,
    Address,
};

verus! {

/// Calls `surf::Config::new` and reads the timeout of the HTTP client in it, in seconds and
/// nanoseconds beyond them: a minute.
#[verifier::external_body]
fn default_timeout() -> (r: Option<(u64, u32)>)
    ensures
        r == Some((60u64, 0u32)),
{
    surf::Config::new().http_config.timeout.map(|d| (d.as_secs(), d.subsec_nanos()))
}

/// The settings of a client.
#[verifier::ext_equal]
pub struct Settings {
    /// The URL that routes are relative to.
    pub base_url: Option<Seq<char>>,
    /// The timeout for connections, in nanoseconds.
    pub timeout: Option<nat>,
}

impl Settings {
    /// The settings that a client for `base_url` starts with.
    pub open spec fn initial(base_url: Option<Seq<char>>) -> Settings {
        Settings { base_url, timeout: Some(60 * NANOS_PER_SEC as nat) }
    }

    /// The URL that `route` leads to.
    pub open spec fn resolve(self, route: Seq<char>) -> Result<Seq<char>, Seq<char>> {
        match self.base_url {
            Some(base) => url_join(base, route),
            None => url_parse(route),
        }
    }

    /// Whether the base URL is one that paths of plain characters can be resolved against.
    pub open spec fn has_base(self) -> bool {
        self.base_url is Some && !is_opaque(self.base_url->0)
    }

    /// Whether `route` leads to a URL: always so for a path of plain characters.
    pub open spec fn leads(self, route: Seq<char>) -> bool {
        ||| self.resolve(route) is Ok
        ||| self.has_base() && (is_plain_relative(route) || is_plain_absolute(route))
    }

    /// Whether `route` is a path of plain characters whose place below or beside the base URL is
    /// known.
    pub open spec fn is_placed(self, route: Seq<char>) -> bool {
        &&& self.base_url is Some
        &&& {
            ||| is_web_directory(self.base_url->0) && is_plain_relative(route)
            ||| is_web_scheme(url_scheme(self.base_url->0)) && is_plain_absolute(route)
        }
    }

    /// The URL that a path of plain characters leads to: behind the path of the base URL, or from
    /// the root of its host.
    pub open spec fn place(self, route: Seq<char>) -> Seq<char> {
        let base = self.base_url->0;
        if is_plain_relative(route) {
            base.take(url_path_end(base)) + route
        } else {
            base.take(url_path_start(base)) + route
        }
    }

    /// Whether `route` leads to a URL that can have a WebSocket connection.
    pub open spec fn leads_to_socket(self, route: Seq<char>) -> bool {
        &&& self.base_url is Some
        &&& {
            ||| self.resolve(route) matches Ok(url) && url_scheme(url) != "file"@
            ||| self.is_placed(route)
        }
    }
}

/// Whether `base` is a base URL for `url`: a URL as well, and, unless `url` is opaque and without
/// a path, one that names a directory and differs from `url` in its path only.
pub open spec fn is_base(url: Seq<char>, base: Seq<char>) -> bool {
    &&& is_formed(url)
    &&& is_formed(base)
    &&& url_path(url).len() > 0 || !is_opaque(url) ==> is_directory(base) && same_but_path(
        url,
        base,
    )
}

/// The request that a client makes for `url`. By default, it asks for binary content.
pub open spec fn client_request(method: Method, url: Seq<char>) -> RequestView {
    RequestView { method, url, headers: Seq::empty(), body: None }.with_header(
        "accept"@,
        seq!["application/octet-stream"@],
    )
}

/// A request of a client for `url`.
pub(crate) fn request_to<T, E: Error>(method: Method, url: Address) -> (r: Request<T, E>)
    ensures
        r@ == client_request(method, url@),
{
    // By default, request binary content from the server, as this is the most compact format
    // supported by all Tide Disco applications.
    proof {
        reveal_strlit("accept");
        reveal_strlit("application/octet-stream");
    }
    let mut values: Vec<String> = Vec::new();
    values.push("application/octet-stream".to_owned());
    assert(crate::http::texts(values@) =~= seq!["application/octet-stream"@]);
    Request::new(method, url).header("accept", &values)
}

/// The text of a URL, if there is one.
pub open spec fn text_of(outcome: Result<Seq<char>, Seq<char>>) -> Option<Seq<char>> {
    match outcome {
        Ok(url) => Some(url),
        Err(_) => None,
    }
}

/// Interface to specify optional configuration values before creating a [Client].
#[derive(Debug)]
pub struct ClientBuilder<E> {
    base_url: Address,
    timeout: Option<Duration>,
    marker: PhantomData<E>,
}

impl<E> View for ClientBuilder<E> {
    type V = Settings;

    closed spec fn view(&self) -> Settings {
        Settings { base_url: Some(self.base_url@), timeout: timeout_nanos(self.timeout) }
    }
}

/// A client of a Tide Disco application.
#[derive(Debug)]
pub struct Client<E> {
    base_url: Option<Address>,
    timeout: Option<Duration>,
    marker: PhantomData<E>,
}

impl<E> View for Client<E> {
    type V = Settings;

    closed spec fn view(&self) -> Settings {
        Settings {
            base_url: match self.base_url {
                Some(url) => Some(url@),
                None => None,
            },
            timeout: timeout_nanos(self.timeout),
        }
    }
}

impl<E> Clone for Client<E> {
    fn clone(&self) -> (r: Self)
        ensures
            r@ == self@,
    {
        let base_url = match &self.base_url {
            Some(url) => Some(url.clone()),
            None => None,
        };
        Client { base_url, timeout: self.timeout, marker: PhantomData }
    }
}

/// The timeout that a client starts with.
fn initial_timeout() -> (r: Option<Duration>)
    ensures
        timeout_nanos(r) == Some(60 * NANOS_PER_SEC as nat),
{
    match default_timeout() {
        Some((secs, nanos)) => Some(Duration::new(secs, nanos)),
        None => None,
    }
}

impl<E: Error> Default for Client<E> {
    fn default() -> (r: Self)
        ensures
            r@ == Settings::initial(None),
    {
        Client { base_url: None, timeout: initial_timeout(), marker: PhantomData }
    }
}

impl<E: Error> ClientBuilder<E> {
    /// The client with the settings specified in this builder.
    pub closed spec fn client(self) -> Client<E> {
        Client { base_url: Some(self.base_url), timeout: self.timeout, marker: PhantomData }
    }

    /// Begin with the default settings.
    fn new(base_url: Address) -> (r: Self)
        requires
            is_short(base_url@),
        ensures
            r@ == Settings::initial(Some(directory_url(base_url@))),
            is_base(base_url@, directory_url(base_url@)),
    {
        // If the path part of `base_url` does not end in `/`, `join` will treat it as a filename
        // and remove it, which is never what we want: `base_url` is _always_ a directory-like
        // path. To avoid the annoyance of having every caller add a trailing slash if necessary,
        // we will add a trailing slash here if there isn't one already.
        let mut base_url = base_url;
        base_url.make_directory();
        ClientBuilder { base_url, timeout: initial_timeout(), marker: PhantomData }
    }

    /// Set connection timeout duration.
    ///
    /// Passing `None` will remove the timeout.
    ///
    /// Default: a minute.
    pub fn set_timeout(self, timeout: Option<Duration>) -> (r: Self)
        ensures
            r@ == (Settings { timeout: timeout_nanos(timeout), ..self@ }),
    {
        ClientBuilder { base_url: self.base_url, timeout, marker: PhantomData }
    }

    /// Create a [Client] with the settings specified in this builder.
    pub fn build(self) -> (r: Client<E>)
        ensures
            r@ == self@,
            r == self.client(),
    {
        Client { base_url: Some(self.base_url), timeout: self.timeout, marker: PhantomData }
    }
}

impl<E: Error> From<ClientBuilder<E>> for Client<E> {
    fn from(builder: ClientBuilder<E>) -> (r: Self) {
        builder.build()
    }
}

impl<E: Error> FromSpecImpl<ClientBuilder<E>> for Client<E> {
    open spec fn obeys_from_spec() -> bool {
        true
    }

    open spec fn from_spec(builder: ClientBuilder<E>) -> Client<E> {
        builder.client()
    }
}

impl<E: Error> Client<E> {
    /// Create a client and connect to the Tide Disco server at `base_url`.
    pub fn new(base_url: Address) -> (r: Self)
        requires
            is_short(base_url@),
        ensures
            r@ == Settings::initial(Some(directory_url(base_url@))),
            is_base(base_url@, directory_url(base_url@)),
    {
        Self::builder(base_url).build()
    }

    /// Create a client with customization.
    pub fn builder(base_url: Address) -> (r: ClientBuilder<E>)
        requires
            is_short(base_url@),
        ensures
            r@ == Settings::initial(Some(directory_url(base_url@))),
            is_base(base_url@, directory_url(base_url@)),
    {
        ClientBuilder::new(base_url)
    }

    /// The URL that routes are relative to.
    pub fn base_url(&self) -> (r: Option<&Address>)
        ensures
            match r {
                Some(url) => self@.base_url == Some(url@),
                None => self@.base_url is None,
            },
    {
        match &self.base_url {
            Some(url) => Some(url),
            None => None,
        }
    }

    /// The timeout for connections.
    pub fn timeout(&self) -> (r: Option<Duration>)
        ensures
            timeout_nanos(r) == self@.timeout,
    {
        self.timeout
    }

    /// The URL that `route` leads to.
    fn url(&self, route: &str) -> (r: Result<Address, ParseError>)
        ensures
            url_outcome(r) == self@.resolve(route@),
            self@.leads(route@) ==> r is Ok,
            self@.is_placed(route@) ==> url_outcome(r) == found(self@.place(route@)),
            self@.base_url is Some ==> is_formed(self@.base_url->0),
            r matches Ok(url) ==> is_formed(url@),
            self@.base_url is None && (is_plain_relative(route@) || is_plain_absolute(route@))
                ==> r is Err,
    {
        match &self.base_url {
            Some(base) => base.join(route),
            None => Address::parse(route),
        }
    }

    /// Build an HTTP request with the specified method.
    ///
    /// The route must lead to a URL; [`try_request`](Self::try_request) finds out whether it
    /// does.
    pub fn request<T>(&self, method: Method, route: &str) -> (r: Request<T, E>)
        requires
            self@.leads(route@),
        ensures
            self@.resolve(route@) == found(r@.url),
            r@ == client_request(method, r@.url),
            self@.is_placed(route@) ==> r@ == client_request(method, self@.place(route@)),
    {
        match self.url(route) {
            Ok(url) => request_to(method, url),
            Err(_) => {
                assert(false);
                vstd::pervasive::unreached()
            },
        }
    }

    /// Build an HTTP `GET` request.
    pub fn get<T>(&self, route: &str) -> (r: Request<T, E>)
        requires
            self@.leads(route@),
        ensures
            self@.resolve(route@) == found(r@.url),
            r@ == client_request(Method::Get, r@.url),
            self@.is_placed(route@) ==> r@ == client_request(Method::Get, self@.place(route@)),
    {
        self.request(Method::Get, route)
    }

    /// Build an HTTP `POST` request.
    pub fn post<T>(&self, route: &str) -> (r: Request<T, E>)
        requires
            self@.leads(route@),
        ensures
            self@.resolve(route@) == found(r@.url),
            r@ == client_request(Method::Post, r@.url),
            self@.is_placed(route@) ==> r@ == client_request(Method::Post, self@.place(route@)),
    {
        self.request(Method::Post, route)
    }

    /// Build an HTTP request with the specified method, if the route leads to a URL.
    pub fn try_request<T>(&self, method: Method, route: &str) -> (r: Result<
        Request<T, E>,
        ParseError,
    >)
        ensures
            match (self@.resolve(route@), r) {
                (Ok(url), Ok(req)) => req@ == client_request(method, url),
                (Err(m), Err(e)) => e.description@ == m,
                _ => false,
            },
    {
        match self.url(route) {
            Ok(_) => Ok(
                match method {
                    Method::Get => self.get(route),
                    Method::Post => self.post(route),
                    other => self.request(other, route),
                },
            ),
            Err(e) => Err(e),
        }
    }

    /// Connect to the server, retrying if the server is not running.
    ///
    /// It is not necessary to call this function when creating a new client. The client will
    /// automatically connect when a request is made, if the server is available. However, this
    /// can be useful to wait for the server to come up, if the server may be offline when the
    /// client is created.
    ///
    /// This begins the attempts. The request of an attempt, [`Connecting::attempt`], is an HTTP
    /// `GET` request to the server's `/healthcheck` endpoint, to test if the server is available;
    /// [`Connecting::clock`] and [`Connecting::answered`] go on with the attempts. If an attempt
    /// succeeds, they end with `true`. Otherwise, the client will continue retrying
    /// `/healthcheck` requests until `timeout` has elapsed (or forever, if `timeout` is `None`).
    /// If the timeout expires before a `/healthcheck` request succeeds, they end with `false`.
    pub fn connect(&self, timeout: Option<Duration>) -> (r: Connecting)
        ensures
            r.timeout() == timeout_nanos(timeout),
            r.state() == PollState::Waiting,
            r.target() == text_of(self@.resolve("/healthcheck"@)),
            self@.has_base() ==> r.target() is Some,
            self@.base_url is None ==> r.target() is None,
            self@.base_url is Some && is_web_scheme(url_scheme(self@.base_url->0)) ==> r.target()
                == Some(
                self@.base_url->0.take(url_path_start(self@.base_url->0)) + "/healthcheck"@,
            ),
    {
        proof {
            reveal_strlit("/healthcheck");
            assert(is_plain_absolute("/healthcheck"@));
        }
        Connecting::new(timeout, self.url("/healthcheck").ok())
    }

    /// Connect to the server, retrying until the server is healthy.
    ///
    /// This function is similar to [connect](Self::connect). It begins attempts, each of which,
    /// [`AwaitingHealth::attempt`], is a [healthcheck](Self::healthcheck), that go on until a
    /// request succeeds. However, they will then continue until the response satisfies the
    /// predicate that [`AwaitingHealth::answered`] is given.
    ///
    /// On success, they end with the response from `/healthcheck`. On timeout, with `None`.
    pub fn wait_for_health(&self, timeout: Option<Duration>) -> (r: AwaitingHealth)
        ensures
            r.timeout() == timeout_nanos(timeout),
            r.state() == PollState::Waiting,
            r.target() == text_of(self@.resolve("healthcheck"@)),
            self@.has_base() ==> r.target() is Some,
            self@.base_url is None ==> r.target() is None,
            self@.base_url is Some && is_web_directory(self@.base_url->0) ==> r.target() == Some(
                self@.base_url->0.take(url_path_end(self@.base_url->0)) + "healthcheck"@,
            ),
    {
        proof {
            reveal_strlit("healthcheck");
            assert(is_plain_relative("healthcheck"@));
        }
        AwaitingHealth::new(timeout, self.url("healthcheck").ok())
    }

    /// Query the server's healthcheck endpoint.
    ///
    /// The client must have a base URL that the endpoint can be found from;
    /// [`try_healthcheck`](Self::try_healthcheck) finds out whether it has.
    pub fn healthcheck<H>(&self) -> (r: (Sending, SendAction<H, E>))
        requires
            self@.leads("healthcheck"@),
        ensures
            self@.resolve("healthcheck"@) is Ok,
            is_health_check(self@.resolve("healthcheck"@)->Ok_0, r.0, r.1),
            self@.base_url is Some && is_web_directory(self@.base_url->0) ==> is_health_check(
                self@.base_url->0.take(url_path_end(self@.base_url->0)) + "healthcheck"@,
                r.0,
                r.1,
            ),
    {
        proof {
            reveal_strlit("healthcheck");
            assert(is_plain_relative("healthcheck"@));
        }
        self.get("healthcheck").send()
    }

    /// Query the server's healthcheck endpoint, if the client has a base URL that it can be found
    /// from.
    pub fn try_healthcheck<H>(&self) -> (r: Option<(Sending, SendAction<H, E>)>)
        ensures
            match (self@.resolve("healthcheck"@), r) {
                (Ok(url), Some(begun)) => is_health_check(url, begun.0, begun.1),
                (Err(_), None) => true,
                _ => false,
            },
            self@.has_base() ==> r is Some,
            self@.base_url is None ==> r is None,
    {
        proof {
            reveal_strlit("healthcheck");
            assert(is_plain_relative("healthcheck"@));
        }
        match self.url("healthcheck") {
            Ok(_) => Some(self.healthcheck()),
            Err(_) => None,
        }
    }

    /// Build a streaming connection request.
    ///
    /// The route must lead to a URL that can have a WebSocket connection;
    /// [`try_socket`](Self::try_socket) finds out whether it does.
    pub fn socket(&self, route: &str) -> (r: SocketRequest<E>)
        requires
            self@.leads_to_socket(route@),
        ensures
            self@.resolve(route@) is Ok,
            r@ == socket_to(self@.resolve(route@)->Ok_0),
            self@.is_placed(route@) ==> r@ == socket_to(self@.place(route@)),
    {
        match self.url(route) {
            Ok(url) => {
                proof {
                    if self@.is_placed(route@) {
                        law_place_keeps_scheme(self@, route@);
                    }
                }
                SocketRequest::from(url)
            },
            Err(_) => {
                assert(false);
                vstd::pervasive::unreached()
            },
        }
    }

    /// Build a streaming connection request, if the route leads to a URL that can have a
    /// WebSocket connection.
    pub fn try_socket(&self, route: &str) -> (r: Option<SocketRequest<E>>)
        ensures
            match r {
                Some(req) => {
                    &&& self@.base_url is Some
                    &&& self@.resolve(route@) is Ok
                    &&& url_scheme(self@.resolve(route@)->Ok_0) != "file"@
                    &&& req@ == socket_to(self@.resolve(route@)->Ok_0)
                },
                None => {
                    ||| self@.base_url is None
                    ||| self@.resolve(route@) is Err
                    ||| url_scheme(self@.resolve(route@)->Ok_0) == "file"@
                },
            },
    {
        if self.base_url.is_none() {
            return None;
        }
        match self.url(route) {
            Ok(url) => if same_text(url.scheme().as_str(), "file") {
                None
            } else {
                Some(self.socket(route))
            },
            Err(_) => None,
        }
    }

    /// Create a client for a sub-module of the connected application.
    ///
    /// If the prefix leads to a URL, it must be one of less than 4 GB;
    /// [`try_module`](Self::try_module) finds out whether it is.
    pub fn module<ModError: Error>(&self, prefix: &str) -> (r: Result<
        Client<ModError>,
        ParseError,
    >)
        requires
            self@.base_url is Some,
            ({
                ||| self@.resolve(prefix@) matches Ok(url) ==> is_short(url)
                ||| self@.is_placed(prefix@) && is_short(self@.place(prefix@))
            }),
        ensures
            match (self@.resolve(prefix@), r) {
                (Ok(url), Ok(client)) => client@ == Settings::initial(Some(directory_url(url)))
                    && is_base(url, directory_url(url)),
                (Err(m), Err(e)) => e.description@ == m,
                _ => false,
            },
            self@.is_placed(prefix@) ==> r is Ok && r->Ok_0@ == Settings::initial(
                Some(directory_url(self@.place(prefix@))),
            ),
    {
        match self.url(prefix) {
            Ok(url) => Ok(Client::new(url)),
            Err(e) => Err(e),
        }
    }

    /// Create a client for a sub-module of the connected application, if this client has a base
    /// URL and the URL of the module is one of less than 4 GB.
    pub fn try_module<ModError: Error>(&self, prefix: &str) -> (r: Option<
        Result<Client<ModError>, ParseError>,
    >)
        ensures
            r is None <==> self@.base_url is None || (self@.resolve(prefix@) is Ok && !is_short(
                self@.resolve(prefix@)->Ok_0,
            )),
            r is Some ==> match (self@.resolve(prefix@), r->0) {
                (Ok(url), Ok(client)) => client@ == Settings::initial(Some(directory_url(url)))
                    && is_base(url, directory_url(url)),
                (Err(m), Err(e)) => e.description@ == m,
                _ => false,
            },
    {
        if self.base_url.is_none() {
            return None;
        }
        match self.url(prefix) {
            Ok(url) => if url.len() > u32::MAX as usize - 3 {
                None
            } else {
                Some(self.module(prefix))
            },
            Err(e) => Some(Err(e)),
        }
    }
}

/// The request for a WebSocket connection to the counterpart of `url`.
pub open spec fn socket_to(url: Seq<char>) -> SocketView {
    SocketView { url: with_scheme(url, upgraded_scheme(url_scheme(url))), headers: Seq::empty() }
}

/// A client that is made of a builder has the settings specified in it.
pub proof fn law_client_of_builder<E: Error>(builder: ClientBuilder<E>)
    ensures
        builder.client()@ == builder@,
{
}

/// A path of plain characters does not lead to another scheme.
pub proof fn law_place_keeps_scheme(settings: Settings, route: Seq<char>)
    requires
        settings.is_placed(route),
        has_scheme(settings.base_url->0),
    ensures
        has_scheme(settings.place(route)),
        url_scheme(settings.place(route)) == url_scheme(settings.base_url->0),
        url_scheme(settings.place(route)) != "file"@,
{
    let base = settings.base_url->0;
    law_parts_in_order(base);
    let n = if is_plain_relative(route) {
        url_path_end(base)
    } else {
        url_path_start(base)
    };
    assert(settings.place(route) =~= base.take(n) + route);
    lemma_same_scheme(base, settings.place(route), n);
    lemma_web_is_not_file(url_scheme(base));
}

/// Nothing of the URL that a client is made for is lost when a route is resolved, save what
/// follows its path: a relative path of plain characters leads to the place below that URL, with
/// or without a slash at its end. This is for HTTP and WebSocket URLs.
pub proof fn law_routes_below_base(url: Seq<char>, route: Seq<char>)
    requires
        is_formed(url),
        is_web_scheme(url_scheme(url)),
        is_plain_relative(route),
    ensures
        ({
            let client = Settings::initial(Some(directory_url(url)));
            let place = client.place(route);
            &&& client.is_placed(route)
            &&& is_formed(place)
            &&& place.take(url_path_start(place)) == url.take(url_path_start(url))
            &&& url_path(place) == with_slash(url_path(url)) + route
            &&& url_path_end(place) == place.len()
        }),
{
    law_web_directory(url);
    law_below_directory(directory_url(url), route);
    law_parts_in_order(url);
    lemma_web_is_not_file(url_scheme(url));
    law_directory_path(url);
    lemma_rooted_path_not_empty(url);
}

/// `prefix` with a slash at its end.
pub open spec fn with_slash(prefix: Seq<char>) -> Seq<char> {
    if prefix.last() == '/' {
        prefix
    } else {
        prefix.push('/')
    }
}

/// The base URL of a module: that of the application up to the end of its path, with the prefix
/// and a slash behind it.
proof fn lemma_module_base(base: Seq<char>, prefix: Seq<char>)
    requires
        is_formed(base),
        is_web_directory(base),
        is_plain_relative(prefix),
    ensures
        ({
            let module = directory_url(base.take(url_path_end(base)) + prefix);
            &&& module == base.take(url_path_end(base)) + with_slash(prefix)
            &&& is_formed(module)
            &&& is_web_directory(module)
            &&& url_path_end(module) == module.len()
        }),
{
    let below = base.take(url_path_end(base)) + prefix;
    let module = directory_url(below);
    law_below_directory(base, prefix);
    law_web_directory(below);
    law_parts_in_order(base);
    law_parts_in_order(below);
    law_parts_in_order(module);
    lemma_web_is_not_file(url_scheme(below));
    lemma_rooted_path_not_empty(below);
    assert(url_path(below).last() == prefix.last());
    assert(module.skip(url_path_end(module)).len() == 0);
    assert(module =~= base.take(url_path_end(base)) + with_slash(prefix));
}

/// Paths of plain characters, one behind the other, are one.
proof fn lemma_plain_behind(prefix: Seq<char>, route: Seq<char>)
    requires
        is_plain_relative(prefix),
        is_plain_relative(route),
    ensures
        is_plain_relative(with_slash(prefix) + route),
{
    let behind = with_slash(prefix);
    let long = behind + route;
    assert forall|i: int| 0 <= i < long.len() implies is_plain_char(#[trigger] long[i]) by {
        if i < prefix.len() {
            assert(is_plain_char(prefix[i]));
        } else if i >= behind.len() {
            assert(is_plain_char(route[i - behind.len()]));
        }
    }
    assert(long[0] == prefix[0]);
}

/// The routes of a module lie below those of the application: from the client for the module
/// `prefix`, `route` leads to the place that the prefix, a slash and the route lead to from the
/// client for the application, whether a request or a streaming connection is made. This is for
/// clients that were made for an HTTP or WebSocket URL, and for paths of plain characters.
pub proof fn law_module_routes(url: Seq<char>, prefix: Seq<char>, route: Seq<char>, method: Method)
    requires
        is_formed(url),
        is_web_scheme(url_scheme(url)),
        is_plain_relative(prefix),
        is_plain_relative(route),
    ensures
        ({
            let app = Settings::initial(Some(directory_url(url)));
            let module = Settings::initial(Some(directory_url(app.place(prefix))));
            let long = with_slash(prefix) + route;
            &&& app.is_placed(prefix)
            &&& app.is_placed(long)
            &&& module.is_placed(route)
            &&& module.place(route) == app.place(long)
            &&& client_request(method, module.place(route)) == client_request(
                method,
                app.place(long),
            )
            &&& socket_to(module.place(route)) == socket_to(app.place(long))
        }),
{
    let base = directory_url(url);
    let long = with_slash(prefix) + route;
    law_web_directory(url);
    lemma_module_base(base, prefix);
    lemma_plain_behind(prefix, route);
    let module = directory_url(base.take(url_path_end(base)) + prefix);
    assert(module.take(url_path_end(module)) == module);
    assert(module + route =~= base.take(url_path_end(base)) + long);
}

/// A streaming connection goes to the same place as a request for the same route: their URLs
/// differ in the scheme only.
pub proof fn law_socket_beside_request(method: Method, url: Seq<char>)
    requires
        has_scheme(url),
        url_scheme(url) != "file"@,
    ensures
        socket_to(url).url.skip(upgraded_scheme(url_scheme(url)).len() as int) == client_request(
            method,
            url,
        ).url.skip(url_scheme_end(url)),
        url_scheme(socket_to(url).url) == upgraded_scheme(url_scheme(url)),
{
    let scheme = upgraded_scheme(url_scheme(url));
    law_scheme_without_colon(url);
    reveal_strlit("ws");
    reveal_strlit("wss");
    law_with_scheme(url, scheme);
}

/// By default a request asks for binary content, and for nothing else.
pub proof fn law_binary_by_default(method: Method, url: Seq<char>)
    ensures
        client_request(method, url).headers == seq![("accept"@, "application/octet-stream"@)],
        values_of(client_request(method, url).headers, "accept"@) == seq![
            "application/octet-stream"@,
        ],
{
    reveal_strlit("accept");
    let headers = client_request(method, url).headers;
    assert(lower("accept"@) =~= "accept"@);
    assert(headers =~= seq![("accept"@, "application/octet-stream"@)]);
    reveal_with_fuel(values_of, 2);
    assert(values_of(headers, "accept"@) =~= seq!["application/octet-stream"@]);
}

} // verus!

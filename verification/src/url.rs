//! URLs, by their serialization.
//!
//! An [`Address`] holds a URL. Where the parts of its text lie is stated here; how a text is
//! parsed, joined with another or given another path is left to `surf::Url`.
use vstd::prelude::*;
use vstd::string::StrSliceExecFns;

verus! {

/// The first index from `from` on at which `stop` holds, or the length of `s`.
pub open spec fn find_from(s: Seq<char>, from: int, stop: spec_fn(char) -> bool) -> int
    decreases s.len() - from,
{
    if from >= s.len() {
        s.len() as int
    } else if stop(s[from]) {
        from
    } else {
        find_from(s, from + 1, stop)
    }
}

/// Whether `s` has the character `c` at index `i`.
pub open spec fn char_at(s: Seq<char>, i: int, c: char) -> bool {
    0 <= i < s.len() && s[i] == c
}

/// What ends the scheme of a URL.
pub open spec fn is_colon() -> spec_fn(char) -> bool {
    |c: char| c == ':'
}

/// What ends the path of a URL.
pub open spec fn is_after_path() -> spec_fn(char) -> bool {
    |c: char| c == '?' || c == '#'
}

/// What ends the authority of a URL.
pub open spec fn is_after_authority() -> spec_fn(char) -> bool {
    |c: char| c == '/' || c == '?' || c == '#'
}

/// The index of the colon that ends the scheme.
pub open spec fn url_scheme_end(url: Seq<char>) -> int {
    find_from(url, 0, is_colon())
}

/// The scheme of a URL, without the colon.
pub open spec fn url_scheme(url: Seq<char>) -> Seq<char> {
    url.take(url_scheme_end(url))
}

/// Whether a colon ends the scheme of `url`.
pub open spec fn has_scheme(url: Seq<char>) -> bool {
    url_scheme_end(url) < url.len()
}

/// The index at which the path starts: after the authority where there is one, else after the
/// colon. A path without an authority that starts with two slashes has `/.` before it.
pub open spec fn url_path_start(url: Seq<char>) -> int {
    let e = url_scheme_end(url) + 1;
    if char_at(url, e, '/') && char_at(url, e + 1, '/') {
        find_from(url, e + 2, is_after_authority())
    } else if char_at(url, e, '/') && char_at(url, e + 1, '.') && char_at(url, e + 2, '/')
        && char_at(url, e + 3, '/') {
        e + 2
    } else {
        e
    }
}

/// The index at which the path ends: at the query, the fragment or the end of the URL.
pub open spec fn url_path_end(url: Seq<char>) -> int {
    find_from(url, url_path_start(url), is_after_path())
}

/// The path of a URL.
pub open spec fn url_path(url: Seq<char>) -> Seq<char> {
    url.subrange(url_path_start(url), url_path_end(url))
}

/// Whether nothing can be resolved against `url`, as with `mailto:` URLs.
pub open spec fn is_opaque(url: Seq<char>) -> bool {
    !char_at(url, url_scheme_end(url) + 1, '/')
}

/// Whether `scheme` is one of HTTP or WebSocket.
pub open spec fn is_web_scheme(scheme: Seq<char>) -> bool {
    scheme == "http"@ || scheme == "https"@ || scheme == "ws"@ || scheme == "wss"@
}

/// Whether `scheme` is one whose URLs always have an authority, which may be empty, and a path
/// from the root.
pub open spec fn is_rooted_scheme(scheme: Seq<char>) -> bool {
    is_web_scheme(scheme) || scheme == "file"@
}

/// Whether two slashes stand behind the scheme, and a slash where the path starts.
pub open spec fn is_rooted(url: Seq<char>) -> bool {
    &&& char_at(url, url_scheme_end(url) + 1, '/')
    &&& char_at(url, url_scheme_end(url) + 2, '/')
    &&& char_at(url, url_path_start(url), '/')
}

/// Whether `url` has the form of a URL: a scheme, and an authority and a path from the root
/// where the scheme calls for them. An HTTP or WebSocket URL is thus not opaque.
pub open spec fn is_formed(url: Seq<char>) -> bool {
    &&& has_scheme(url)
    &&& is_rooted_scheme(url_scheme(url)) ==> is_rooted(url)
}

/// Whether `c` stands for itself in a path.
pub open spec fn is_plain_char(c: char) -> bool {
    'a' <= c <= 'z' || 'A' <= c <= 'Z' || '0' <= c <= '9' || c == '-' || c == '_' || c == '/'
}

/// Whether `route` is a path of plain characters that is relative to the current directory.
pub open spec fn is_plain_relative(route: Seq<char>) -> bool {
    &&& route.len() > 0
    &&& route[0] != '/'
    &&& forall|i: int| 0 <= i < route.len() ==> is_plain_char(#[trigger] route[i])
}

/// Whether `route` is a path of plain characters from the root.
pub open spec fn is_plain_absolute(route: Seq<char>) -> bool {
    &&& char_at(route, 0, '/')
    &&& !char_at(route, 1, '/')
    &&& forall|i: int| 0 <= i < route.len() ==> is_plain_char(#[trigger] route[i])
}

/// Whether `url` names a directory: its path ends with a slash.
pub open spec fn is_directory(url: Seq<char>) -> bool {
    url_path(url).len() > 0 && url_path(url).last() == '/'
}

/// Whether `url` is an HTTP or WebSocket URL that names a directory.
pub open spec fn is_web_directory(url: Seq<char>) -> bool {
    is_web_scheme(url_scheme(url)) && is_directory(url)
}

/// A URL as the URL parser gives it.
#[verifier::external_type_specification]
#[verifier::external_body]
pub struct ExternalUrl(surf::Url);

/// The text that a URL holds: its serialization.
pub uninterp spec fn url_text(url: surf::Url) -> Seq<char>;

/// What `surf::Url::parse` makes of a text: the serialization of the URL, or the description
/// of the error.
pub uninterp spec fn url_parse(input: Seq<char>) -> Result<Seq<char>, Seq<char>>;

/// What `surf::Url::join` makes of a base URL and a reference: the serialization of the URL
/// that the reference leads to, or the description of the error.
pub uninterp spec fn url_join(base: Seq<char>, reference: Seq<char>) -> Result<
    Seq<char>,
    Seq<char>,
>;

/// The path that a URL has once `surf::Url::set_path` has been given `path`.
pub uninterp spec fn url_path_set(url: Seq<char>, path: Seq<char>) -> Seq<char>;

/// The URL with the text `s`, as the outcome of parsing or joining.
pub open spec fn found(s: Seq<char>) -> Result<Seq<char>, Seq<char>> {
    Ok(s)
}

/// The outcome of parsing or joining, by the texts in it.
pub open spec fn outcome(r: Result<Address, String>) -> Result<Seq<char>, Seq<char>> {
    match r {
        Ok(url) => Ok(url@),
        Err(m) => Err(m@),
    }
}

/// `url` with `path` in place of its path, as it stands.
pub open spec fn replace_path(url: Seq<char>, path: Seq<char>) -> Seq<char> {
    url.take(url_path_start(url)) + path + url.skip(url_path_end(url))
}

/// `url` with its path set to `path`: what stands around the path stays.
pub open spec fn with_path(url: Seq<char>, path: Seq<char>) -> Seq<char> {
    replace_path(url, url_path_set(url, path))
}

/// Whether two URLs differ in their paths only.
pub open spec fn same_but_path(a: Seq<char>, b: Seq<char>) -> bool {
    &&& a.take(url_path_start(a)) == b.take(url_path_start(b))
    &&& a.skip(url_path_end(a)) == b.skip(url_path_end(b))
}

/// `url` with `scheme` in place of its scheme.
pub open spec fn with_scheme(url: Seq<char>, scheme: Seq<char>) -> Seq<char> {
    scheme + url.skip(url_scheme_end(url))
}

/// The scheme of the WebSockets counterpart of a stateless connection: `ws` for `http`, `wss`
/// for `https`, and the scheme itself for any other.
pub open spec fn upgraded_scheme(scheme: Seq<char>) -> Seq<char> {
    if scheme == "http"@ {
        "ws"@
    } else if scheme == "https"@ {
        "wss"@
    } else {
        scheme
    }
}

/// Whether `url` is short enough to have a slash put behind its path: URLs of 4 GB and more
/// are not supported.
pub open spec fn is_short(url: Seq<char>) -> bool {
    url.len() + 3 <= u32::MAX
}

/// Whether `url` is short enough to have its path set to `path`, with each character of it
/// percent-encoded.
pub open spec fn path_fits(url: Seq<char>, path: Seq<char>) -> bool {
    url.len() + 12 * path.len() + 12 <= u32::MAX
}

/// `url` as a directory: with a slash behind its path, unless one is there already. An opaque
/// URL without a path gets an encoded slash. The path of a `file` URL is set anew, so that the
/// rules for drive letters are applied to it.
pub open spec fn directory_url(url: Seq<char>) -> Seq<char> {
    let path = url_path(url);
    if is_directory(url) {
        url
    } else if url_scheme(url) == "file"@ {
        with_path(url, path.push('/'))
    } else if path.len() == 0 && is_opaque(url) {
        replace_path(url, "%2F"@)
    } else {
        replace_path(url, path.push('/'))
    }
}

/// Why a text is no URL.
#[derive(Debug)]
pub struct ParseError {
    /// The description of the error.
    pub description: String,
}

impl Clone for ParseError {
    fn clone(&self) -> (r: Self)
        ensures
            r.description@ == self.description@,
    {
        ParseError { description: self.description.clone() }
    }
}

/// The outcome of parsing or joining, by the texts in it.
pub open spec fn url_outcome(r: Result<Address, ParseError>) -> Result<Seq<char>, Seq<char>> {
    match r {
        Ok(url) => Ok(url@),
        Err(e) => Err(e.description@),
    }
}

/// A URL.
#[derive(Debug)]
pub struct Address {
    inner: surf::Url,
}

impl View for Address {
    type V = Seq<char>;

    /// The serialization of the URL.
    closed spec fn view(&self) -> Seq<char> {
        url_text(self.inner)
    }
}

/// Calls `surf::Url::parse`. The contract names its result, and claims that the serialization of
/// a URL has the form of one, and that a path of plain characters alone is no URL.
#[verifier::external_body]
fn parse_url(input: &str) -> (r: Result<Address, String>)
    ensures
        outcome(r) == url_parse(input@),
        r matches Ok(url) ==> is_formed(url@),
        is_plain_relative(input@) || is_plain_absolute(input@) ==> r is Err,
{
    Ok(Address { inner: surf::Url::parse(input).map_err(|e| e.to_string())? })
}

/// Calls `surf::Url::join`. The contract names the result, and claims that it has the form of a
/// URL. Beside the name stand three cases: a path of plain characters can be joined to every URL
/// that is not opaque; a relative one is put behind the path of an HTTP or WebSocket URL that
/// names a directory, in place of what follows the path; an absolute one replaces the path of an
/// HTTP or WebSocket URL and what follows it.
#[verifier::external_body]
fn join_url(base: &Address, reference: &str) -> (r: Result<Address, String>)
    ensures
        outcome(r) == url_join(base@, reference@),
        r matches Ok(url) ==> is_formed(url@),
        !is_opaque(base@) && (is_plain_relative(reference@) || is_plain_absolute(reference@))
            ==> r is Ok,
        is_web_directory(base@) && is_plain_relative(reference@) ==> outcome(r) == found(
            base@.take(url_path_end(base@)) + reference@,
        ),
        is_web_scheme(url_scheme(base@)) && is_plain_absolute(reference@) ==> outcome(r) == found(
            base@.take(url_path_start(base@)) + reference@,
        ),
{
    Ok(Address { inner: base.inner.join(reference).map_err(|e| e.to_string())? })
}

/// Calls `surf::Url::as_str`, which gives the serialization of the URL.
#[verifier::external_body]
fn serialization(url: &surf::Url) -> (r: &str)
    ensures
        r@ == url_text(*url),
{
    url.as_str()
}

/// Calls `surf::Url::clone`, which gives a URL with the same serialization.
#[verifier::external_body]
fn copy_url(url: &Address) -> (r: Address)
    ensures
        r@ == url@,
{
    Address { inner: url.inner.clone() }
}

/// Calls `surf::Url::scheme`: what stands before the first colon.
#[verifier::external_body]
fn scheme_text(url: &Address) -> (r: String)
    ensures
        r@ == url_scheme(url@),
{
    url.inner.scheme().to_string()
}

/// Calls `surf::Url::path`: what stands between the authority, or the scheme where there is none,
/// and the query or the fragment.
#[verifier::external_body]
fn path_text(url: &Address) -> (r: String)
    ensures
        r@ == url_path(url@),
{
    url.inner.path().to_string()
}

/// Calls `surf::Url::set_path` on a copy of a URL. The contract names the path that the URL then
/// has, and claims that nothing around it changes and that the result has the form of a URL. On
/// an HTTP, WebSocket or `file` URL the path starts with a slash, holds neither `?` nor `#`, so
/// that it is found again where it was put, and ends with a slash if it was given with one; on an
/// HTTP or WebSocket URL, a path of plain characters is taken as it is. On a URL of another kind,
/// only a slash is put behind the path. The path stays as it is then, but a leading slash is
/// encoded if the URL is opaque, and on a `file` URL the rules for drive letters are applied.
#[verifier::external_body]
fn path_set(url: &Address, path: &str) -> (r: Address)
    requires
        ({
            ||| is_web_scheme(url_scheme(url@)) && path_fits(url@, path@)
            ||| path@ == url_path(url@).push('/') && is_short(url@)
        }),
    ensures
        r@ == replace_path(url@, url_path_set(url@, path@)),
        url_scheme(url@) != "file"@ && path@ == url_path(url@).push('/') ==> r@ == (
        if path@.len() == 1 && is_opaque(url@) {
            replace_path(url@, "%2F"@)
        } else {
            replace_path(url@, path@)
        }),
        is_web_scheme(url_scheme(url@)) && is_plain_absolute(path@) ==> r@ == replace_path(
            url@,
            path@,
        ),
        is_formed(r@),
        is_rooted_scheme(url_scheme(url@)) ==> url_path_start(r@) == url_path_start(url@)
            && url_path(r@) == url_path_set(url@, path@),
        is_rooted_scheme(url_scheme(url@)) && path@.len() > 0 && path@.last() == '/'
            ==> is_directory(r@),
{
    let mut inner = url.inner.clone();
    inner.set_path(path);
    Address { inner }
}

/// Calls `surf::Url::set_scheme` on a copy of a URL. On every URL but those with the scheme
/// `file` it succeeds for the WebSockets counterpart of the URL's own scheme, and puts it in the
/// place of the scheme; the default ports of the two are the same.
#[verifier::external_body]
fn scheme_set(url: &Address, scheme: &str) -> (r: Address)
    requires
        url_scheme(url@) != "file"@,
        scheme@ == upgraded_scheme(url_scheme(url@)),
    ensures
        r@ == with_scheme(url@, scheme@),
        is_formed(r@),
{
    let mut inner = url.inner.clone();
    inner.set_scheme(scheme).unwrap();
    Address { inner }
}

impl Clone for Address {
    fn clone(&self) -> (r: Self)
        ensures
            r@ == self@,
    {
        copy_url(self)
    }
}

impl Address {
    #[verifier::type_invariant]
    closed spec fn well_formed(self) -> bool {
        is_formed(self@)
    }

    /// Parse an absolute URL.
    pub fn parse(input: &str) -> (r: Result<Address, ParseError>)
        ensures
            url_outcome(r) == url_parse(input@),
            r matches Ok(url) ==> is_formed(url@),
            is_plain_relative(input@) || is_plain_absolute(input@) ==> r is Err,
    {
        match parse_url(input) {
            Ok(url) => Ok(url),
            Err(description) => Err(ParseError { description }),
        }
    }

    /// Parse `reference` with this URL as the base.
    pub fn join(&self, reference: &str) -> (r: Result<Address, ParseError>)
        ensures
            url_outcome(r) == url_join(self@, reference@),
            is_formed(self@),
            r matches Ok(url) ==> is_formed(url@),
            !is_opaque(self@) && (is_plain_relative(reference@) || is_plain_absolute(reference@))
                ==> r is Ok,
            is_web_directory(self@) && is_plain_relative(reference@) ==> url_outcome(r) == found(
                self@.take(url_path_end(self@)) + reference@,
            ),
            is_web_scheme(url_scheme(self@)) && is_plain_absolute(reference@) ==> url_outcome(r)
                == found(self@.take(url_path_start(self@)) + reference@),
    {
        proof {
            use_type_invariant(self);
        }
        match join_url(self, reference) {
            Ok(url) => Ok(url),
            Err(description) => Err(ParseError { description }),
        }
    }

    /// The serialization of this URL.
    pub fn as_str(&self) -> (r: &str)
        ensures
            r@ == self@,
            is_formed(self@),
    {
        proof {
            use_type_invariant(self);
        }
        serialization(&self.inner)
    }

    /// This URL as the HTTP client takes it.
    pub fn as_surf(&self) -> (r: &surf::Url)
        ensures
            url_text(*r) == self@,
    {
        &self.inner
    }

    /// The number of characters in the serialization of this URL.
    pub fn len(&self) -> (r: usize)
        ensures
            r == self@.len(),
    {
        self.as_str().unicode_len()
    }

    /// The scheme of this URL, without the colon.
    pub fn scheme(&self) -> (r: String)
        ensures
            r@ == url_scheme(self@),
            is_formed(self@),
    {
        proof {
            use_type_invariant(self);
        }
        scheme_text(self)
    }

    /// The path of this URL.
    pub fn path(&self) -> (r: String)
        ensures
            r@ == url_path(self@),
            is_formed(self@),
    {
        proof {
            use_type_invariant(self);
        }
        path_text(self)
    }

    /// Change the path of this URL, which is an HTTP or WebSocket URL.
    pub fn set_path(&mut self, path: &str)
        requires
            is_web_scheme(url_scheme(old(self)@)),
            path_fits(old(self)@, path@),
        ensures
            final(self)@ == with_path(old(self)@, path@),
            same_but_path(old(self)@, final(self)@),
            is_web_scheme(url_scheme(final(self)@)),
            is_plain_absolute(path@) ==> final(self)@ == replace_path(old(self)@, path@),
    {
        proof {
            use_type_invariant(&*self);
        }
        let ghost before = self@;
        *self = path_set(&*self, path);
        proof {
            lemma_path_set(before, url_path_set(before, path@), self@);
        }
    }

    /// Make this URL name a directory: put a slash behind its path, unless one is there. Only an
    /// opaque URL without a path is none then.
    pub fn make_directory(&mut self)
        requires
            is_short(old(self)@),
        ensures
            final(self)@ == directory_url(old(self)@),
            is_formed(old(self)@),
            is_formed(final(self)@),
            url_path(old(self)@).len() > 0 || !is_opaque(old(self)@) ==> is_directory(final(self)@)
                && same_but_path(old(self)@, final(self)@),
    {
        proof {
            use_type_invariant(&*self);
        }
        let ghost before = self@;
        let path = path_text(&*self);
        if crate::text::ends_with_slash(path.as_str()) {
            return;
        }
        let path = crate::text::join_text(path.as_str(), "/");
        proof {
            reveal_strlit("/");
            assert(path@ =~= url_path(before).push('/'));
        }
        *self = path_set(&*self, path.as_str());
        proof {
            if url_scheme(before) == "file"@ {
                lemma_path_set(before, url_path_set(before, path@), self@);
            } else if url_path(before).len() > 0 || !is_opaque(before) {
                law_directory_path(before);
            }
        }
    }

    /// Change the scheme of this URL to its WebSockets counterpart.
    pub fn upgrade(&mut self)
        requires
            url_scheme(old(self)@) != "file"@,
        ensures
            final(self)@ == with_scheme(old(self)@, upgraded_scheme(url_scheme(old(self)@))),
    {
        let scheme = crate::socket::socket_scheme(scheme_text(&*self).as_str());
        *self = scheme_set(&*self, scheme.as_str());
    }
}

/// `find_from` gives the first index at which `stop` holds.
pub proof fn lemma_find_from(s: Seq<char>, from: int, stop: spec_fn(char) -> bool)
    requires
        0 <= from <= s.len(),
    ensures
        from <= find_from(s, from, stop) <= s.len(),
        forall|i: int| from <= i < find_from(s, from, stop) ==> !stop(#[trigger] s[i]),
        find_from(s, from, stop) < s.len() ==> stop(s[find_from(s, from, stop)]),
    decreases s.len() - from,
{
    if from < s.len() && !stop(s[from]) {
        lemma_find_from(s, from + 1, stop);
    }
}

/// Only one index is the first at which `stop` holds.
pub proof fn lemma_found_at(s: Seq<char>, from: int, stop: spec_fn(char) -> bool, k: int)
    requires
        0 <= from <= k <= s.len(),
        forall|i: int| from <= i < k ==> !stop(#[trigger] s[i]),
        k < s.len() ==> stop(s[k]),
    ensures
        find_from(s, from, stop) == k,
    decreases k - from,
{
    if from < k {
        lemma_found_at(s, from + 1, stop, k);
    }
}

/// Texts that agree up to the end of the scheme have the same scheme.
pub proof fn lemma_same_scheme(url: Seq<char>, other: Seq<char>, n: int)
    requires
        has_scheme(url),
        url_scheme_end(url) < n <= url.len(),
        n <= other.len(),
        forall|i: int| 0 <= i < n ==> url[i] == #[trigger] other[i],
    ensures
        has_scheme(other),
        url_scheme_end(other) == url_scheme_end(url),
        url_scheme(other) == url_scheme(url),
{
    lemma_find_from(url, 0, is_colon());
    lemma_found_at(other, 0, is_colon(), url_scheme_end(url));
    assert(url_scheme(other) =~= url_scheme(url));
}

/// The parts of a URL come in order.
pub proof fn law_parts_in_order(url: Seq<char>)
    requires
        has_scheme(url),
    ensures
        0 <= url_scheme_end(url) < url_path_start(url) <= url_path_end(url) <= url.len(),
{
    lemma_find_from(url, 0, is_colon());
    let e = url_scheme_end(url) + 1;
    if char_at(url, e, '/') && char_at(url, e + 1, '/') {
        lemma_find_from(url, e + 2, is_after_authority());
    }
    lemma_find_from(url, url_path_start(url), is_after_path());
}

/// What stands before the path is kept when the path is replaced, and so is what follows it.
pub proof fn law_replace_path_keeps_the_rest(url: Seq<char>, path: Seq<char>)
    requires
        has_scheme(url),
    ensures
        replace_path(url, path).take(url_path_start(url)) == url.take(url_path_start(url)),
        replace_path(url, path).skip(url_path_start(url) + path.len()) == url.skip(
            url_path_end(url),
        ),
        has_scheme(replace_path(url, path)),
        url_scheme(replace_path(url, path)) == url_scheme(url),
{
    law_parts_in_order(url);
    lemma_find_from(url, 0, is_colon());
    let r = replace_path(url, path);
    let k = url_scheme_end(url);
    assert(forall|i: int| 0 <= i < url_path_start(url) ==> r[i] == url[i]);
    lemma_found_at(r, 0, is_colon(), k);
    assert(r.take(k) =~= url.take(k));
    assert(r.take(url_path_start(url)) =~= url.take(url_path_start(url)));
    assert(r.skip(url_path_start(url) + path.len()) =~= url.skip(url_path_end(url)));
}

/// HTTP and WebSocket URLs are no `file` URLs.
pub proof fn lemma_web_is_not_file(scheme: Seq<char>)
    requires
        is_web_scheme(scheme),
    ensures
        scheme != "file"@,
{
    reveal_strlit("http");
    reveal_strlit("https");
    reveal_strlit("ws");
    reveal_strlit("wss");
    reveal_strlit("file");
    assert("http"@[0] == 'h' && "https"@[0] == 'h' && "ws"@[0] == 'w' && "wss"@[0] == 'w'
        && "file"@[0] == 'f');
}

/// A path from the root is not empty.
pub proof fn lemma_rooted_path_not_empty(url: Seq<char>)
    requires
        has_scheme(url),
        is_rooted(url),
    ensures
        url_path(url).len() > 0,
        url_path(url)[0] == '/',
        !is_opaque(url),
{
    law_parts_in_order(url);
    lemma_find_from(url, url_path_start(url), is_after_path());
    assert(!is_after_path()(url[url_path_start(url)]));
}

/// A path from the root that is put behind the authority is found again.
proof fn lemma_path_behind_authority(url: Seq<char>, path: Seq<char>, rest: Seq<char>)
    requires
        has_scheme(url),
        is_rooted(url),
        char_at(path, 0, '/'),
        forall|i: int| 0 <= i < path.len() ==> !is_after_path()(#[trigger] path[i]),
        rest.len() > 0 ==> is_after_path()(rest[0]),
    ensures
        ({
            let r = url.take(url_path_start(url)) + path + rest;
            &&& has_scheme(r)
            &&& url_scheme(r) == url_scheme(url)
            &&& is_rooted(r)
            &&& url_path_start(r) == url_path_start(url)
            &&& url_path_end(r) == url_path_start(url) + path.len()
            &&& url_path(r) == path
        }),
{
    let r = url.take(url_path_start(url)) + path + rest;
    let e = url_scheme_end(url) + 1;
    let ps = url_path_start(url);
    law_parts_in_order(url);
    lemma_find_from(url, 0, is_colon());
    lemma_find_from(url, e + 2, is_after_authority());
    assert(forall|i: int| 0 <= i < ps ==> r[i] == url[i]);
    lemma_same_scheme(url, r, ps);
    assert(r[ps] == path[0]);
    lemma_found_at(r, e + 2, is_after_authority(), ps);
    assert forall|i: int| ps <= i < ps + path.len() implies !is_after_path()(#[trigger] r[i]) by {
        assert(r[i] == path[i - ps]);
    }
    assert(ps + path.len() < r.len() ==> r[ps + path.len()] == rest[0]);
    lemma_found_at(r, ps, is_after_path(), ps + path.len());
    assert(url_path(r) =~= path);
}

/// A path from the root that is put in place of another is found again.
pub proof fn law_replaced_path(url: Seq<char>, path: Seq<char>)
    requires
        has_scheme(url),
        is_rooted(url),
        char_at(path, 0, '/'),
        forall|i: int| 0 <= i < path.len() ==> !is_after_path()(#[trigger] path[i]),
    ensures
        has_scheme(replace_path(url, path)),
        url_scheme(replace_path(url, path)) == url_scheme(url),
        is_rooted(replace_path(url, path)),
        url_path_start(replace_path(url, path)) == url_path_start(url),
        url_path(replace_path(url, path)) == path,
        same_but_path(url, replace_path(url, path)),
{
    let rest = url.skip(url_path_end(url));
    law_parts_in_order(url);
    lemma_find_from(url, url_path_start(url), is_after_path());
    assert(rest.len() > 0 ==> rest[0] == url[url_path_end(url)]);
    lemma_path_behind_authority(url, path, rest);
    law_replace_path_keeps_the_rest(url, path);
}

/// A URL whose path was set and is found where it was put differs from the one before in its path
/// only.
proof fn lemma_path_set(before: Seq<char>, path: Seq<char>, after: Seq<char>)
    requires
        has_scheme(before),
        after == replace_path(before, path),
        url_path_start(after) == url_path_start(before),
        url_path(after) == path,
    ensures
        same_but_path(before, after),
        url_scheme(after) == url_scheme(before),
{
    law_parts_in_order(before);
    law_replace_path_keeps_the_rest(before, path);
    law_parts_in_order(after);
    assert(url_path_end(after) == url_path_start(before) + path.len());
}

/// `url` with a slash put behind its path.
spec fn slashed(url: Seq<char>) -> Seq<char> {
    url.take(url_path_end(url)).push('/') + url.skip(url_path_end(url))
}

/// A slash put behind a path that does not end with one leaves the scheme and the start of the
/// path where they are.
proof fn lemma_slashed_start(url: Seq<char>)
    requires
        has_scheme(url),
        url_path(url).len() > 0 || !is_opaque(url),
        url_path(url).len() > 0 ==> url_path(url).last() != '/',
    ensures
        url_scheme_end(slashed(url)) == url_scheme_end(url),
        is_opaque(slashed(url)) == is_opaque(url),
        url_path_start(slashed(url)) == url_path_start(url),
{
    let r = slashed(url);
    let e = url_scheme_end(url) + 1;
    let ps = url_path_start(url);
    let pe = url_path_end(url);
    law_parts_in_order(url);
    lemma_find_from(url, 0, is_colon());
    lemma_find_from(url, ps, is_after_path());
    assert(forall|i: int| 0 <= i < pe ==> r[i] == url[i]);
    assert(r[pe] == '/');
    assert(forall|i: int| pe < i < r.len() ==> r[i] == url[i - 1]);
    lemma_found_at(r, 0, is_colon(), e - 1);
    assert(pe > ps ==> url_path(url).last() == url[pe - 1]);
    if char_at(url, e, '/') && char_at(url, e + 1, '/') {
        lemma_find_from(url, e + 2, is_after_authority());
        assert(char_at(r, e, '/') && char_at(r, e + 1, '/'));
        lemma_found_at(r, e + 2, is_after_authority(), ps);
    } else if char_at(url, e, '/') && char_at(url, e + 1, '.') && char_at(url, e + 2, '/')
        && char_at(url, e + 3, '/') {
        assert(!is_after_path()(url[e + 2]) && !is_after_path()(url[e + 3]));
        assert(pe >= e + 4);
    } else if char_at(url, e, '/') {
        assert(!is_after_path()(url[e]));
        assert(pe > e);
        assert(url[pe - 1] != '/');
        assert(pe >= e + 2);
        assert(r[e + 1] == url[e + 1]);
        assert(!char_at(r, e + 1, '/'));
        if pe == e + 2 {
            assert(char_at(r, e + 3, '/') ==> url[pe] == '/');
            assert(!char_at(r, e + 3, '/'));
        } else if pe == e + 3 {
            assert(r[e + 2] == url[e + 2]);
            assert(url[e + 2] != '/');
        }
    } else {
        assert(pe > e);
        assert(r[e] == url[e]);
    }
}

/// The path of a directory URL is that of the URL it was made from, with a slash behind it; the
/// scheme and what follows the path are the same. This leaves out the opaque URLs without a
/// path, and the `file` URLs, whose drive letters may be written anew.
pub proof fn law_directory_path(url: Seq<char>)
    requires
        has_scheme(url),
        url_scheme(url) != "file"@,
        url_path(url).len() > 0 || !is_opaque(url),
    ensures
        has_scheme(directory_url(url)),
        url_scheme(directory_url(url)) == url_scheme(url),
        is_opaque(directory_url(url)) == is_opaque(url),
        is_directory(directory_url(url)),
        is_directory(url) ==> directory_url(url) == url,
        !is_directory(url) ==> url_path(directory_url(url)) == url_path(url).push('/'),
        same_but_path(url, directory_url(url)),
{
    law_parts_in_order(url);
    let path = url_path(url);
    if !is_directory(url) {
        let r = directory_url(url);
        let ps = url_path_start(url);
        let pe = url_path_end(url);
        law_replace_path_keeps_the_rest(url, path.push('/'));
        assert(r =~= slashed(url));
        lemma_slashed_start(url);
        lemma_find_from(url, ps, is_after_path());
        assert forall|i: int| ps <= i < pe + 1 implies !is_after_path()(#[trigger] r[i]) by {
            assert(i < pe ==> r[i] == url[i]);
        }
        assert(pe + 1 < r.len() ==> r[pe + 1] == url[pe]);
        lemma_found_at(r, ps, is_after_path(), pe + 1);
        assert(url_path(r) =~= path.push('/'));
        assert(r.skip(pe + 1) =~= url.skip(pe));
        assert(r.take(ps) =~= url.take(ps));
    }
}

/// A URL that names a directory is its own directory URL. [`Address::make_directory`] makes one of
/// every URL but an opaque one without a path: `foo:` becomes `foo:%2F`, which becomes `foo:%2F/`.
pub proof fn law_directory_idempotent(url: Seq<char>)
    requires
        is_directory(directory_url(url)),
    ensures
        directory_url(directory_url(url)) == directory_url(url),
{
}

/// Upgrading a scheme twice is upgrading it once.
pub proof fn law_upgrade_idempotent(scheme: Seq<char>)
    ensures
        upgraded_scheme(upgraded_scheme(scheme)) == upgraded_scheme(scheme),
{
    reveal_strlit("http");
    reveal_strlit("https");
    reveal_strlit("ws");
    reveal_strlit("wss");
    assert("ws"@.len() == 2 && "wss"@.len() == 3 && "http"@.len() == 4 && "https"@.len() == 5);
}

/// The scheme of a URL holds no colon.
pub proof fn law_scheme_without_colon(url: Seq<char>)
    ensures
        forall|i: int| 0 <= i < url_scheme(url).len() ==> #[trigger] url_scheme(url)[i] != ':',
{
    lemma_find_from(url, 0, is_colon());
    assert forall|i: int| 0 <= i < url_scheme(url).len() implies #[trigger] url_scheme(url)[i]
        != ':' by {
        assert(!is_colon()(url[i]));
    }
}

/// A scheme put in place of the scheme of a URL is the scheme of the result, if it holds no
/// colon; the rest of the URL stays.
pub proof fn law_with_scheme(url: Seq<char>, scheme: Seq<char>)
    requires
        has_scheme(url),
        forall|i: int| 0 <= i < scheme.len() ==> #[trigger] scheme[i] != ':',
    ensures
        has_scheme(with_scheme(url, scheme)),
        url_scheme(with_scheme(url, scheme)) == scheme,
        with_scheme(url, scheme).skip(scheme.len() as int) == url.skip(url_scheme_end(url)),
{
    lemma_find_from(url, 0, is_colon());
    let r = with_scheme(url, scheme);
    lemma_found_at(r, 0, is_colon(), scheme.len() as int);
    assert(r.take(scheme.len() as int) =~= scheme);
    assert(r.skip(scheme.len() as int) =~= url.skip(url_scheme_end(url)));
}

/// The directory URL of an HTTP or WebSocket URL is one that names a directory; it differs from
/// the URL in its path only.
pub proof fn law_web_directory(url: Seq<char>)
    requires
        is_formed(url),
        is_web_scheme(url_scheme(url)),
    ensures
        is_formed(directory_url(url)),
        is_web_directory(directory_url(url)),
        same_but_path(url, directory_url(url)),
        url_path(directory_url(url)) == url_path(url) || url_path(directory_url(url)) == url_path(
            url,
        ).push('/'),
{
    lemma_web_is_not_file(url_scheme(url));
    law_directory_path(url);
    law_parts_in_order(url);
    let path = url_path(url).push('/');
    if !is_directory(url) {
        lemma_find_from(url, url_path_start(url), is_after_path());
        lemma_rooted_path_not_empty(url);
        assert forall|i: int| 0 <= i < path.len() implies !is_after_path()(#[trigger] path[i]) by {
            assert(i < path.len() - 1 ==> path[i] == url[url_path_start(url) + i]);
        }
        law_replaced_path(url, path);
    }
}

/// What a relative path of plain characters leads to from a directory: a URL with the same
/// scheme and authority, whose path is that of the directory with the relative path behind it,
/// and with nothing behind the path.
pub proof fn law_below_directory(base: Seq<char>, route: Seq<char>)
    requires
        is_formed(base),
        is_web_directory(base),
        is_plain_relative(route),
    ensures
        ({
            let r = base.take(url_path_end(base)) + route;
            &&& is_formed(r)
            &&& url_scheme(r) == url_scheme(base)
            &&& url_path_start(r) == url_path_start(base)
            &&& url_path_end(r) == r.len()
            &&& url_path(r) == url_path(base) + route
            &&& r.take(url_path_start(r)) == base.take(url_path_start(base))
        }),
{
    let r = base.take(url_path_end(base)) + route;
    let ps = url_path_start(base);
    let path = url_path(base) + route;
    law_parts_in_order(base);
    lemma_find_from(base, ps, is_after_path());
    assert(path[0] == base[ps]);
    assert forall|i: int| 0 <= i < path.len() implies !is_after_path()(#[trigger] path[i]) by {
        if i < url_path(base).len() {
            assert(path[i] == base[ps + i]);
        } else {
            assert(is_plain_char(route[i - url_path(base).len()]));
        }
    }
    lemma_path_behind_authority(base, path, Seq::empty());
    assert(r =~= base.take(ps) + path + Seq::<char>::empty());
    assert(r.take(ps) =~= base.take(ps));
}

} // verus!

//! The parts of HTTP messages.
use vstd::prelude::*;
use vstd::utf8::is_ascii_chars;

use crate::text::{decimal, decimal_text, same_text};

verus! {

/// The status of a successful request.
pub const OK: u16 = 200;

/// The status of a request that is at fault itself.
pub const BAD_REQUEST: u16 = 400;

/// The status of data in a format that is not understood.
pub const UNSUPPORTED_MEDIA_TYPE: u16 = 415;

/// The status of a failure that no other status describes.
pub const INTERNAL_SERVER_ERROR: u16 = 500;

/// An HTTP status code.
#[derive(Clone, Copy, Debug, PartialEq, Eq, Structural)]
pub struct StatusCode {
    /// The number of the status.
    pub code: u16,
}

impl StatusCode {
    /// The number of the status in decimal.
    pub fn to_text(&self) -> (r: String)
        ensures
            r@ == decimal(self.code as nat),
    {
        decimal_text(self.code)
    }
}

/// An HTTP request method.
#[derive(Clone, Copy, Debug, PartialEq, Eq, Structural)]
pub enum Method {
    Acl,
    BaselineControl,
    Bind,
    Checkin,
    Checkout,
    Connect,
    Copy,
    Delete,
    Get,
    Head,
    Label,
    Link,
    Lock,
    Merge,
    MkActivity,
    MkCalendar,
    MkCol,
    MkRedirectRef,
    MkWorkspace,
    Move,
    Options,
    OrderPatch,
    Patch,
    Post,
    Pri,
    PropFind,
    PropPatch,
    Put,
    Rebind,
    Report,
    Search,
    Trace,
    Unbind,
    Uncheckout,
    Unlink,
    Unlock,
    Update,
    UpdateRedirectRef,
    VersionControl,
}

/// `c` in lower case, if it is an ASCII letter.
pub open spec fn lower_char(c: char) -> char {
    if 'A' <= c <= 'Z' {
        (c as int + 32) as char
    } else {
        c
    }
}

/// `s` with its ASCII letters in lower case.
pub open spec fn lower(s: Seq<char>) -> Seq<char> {
    s.map_values(|c: char| lower_char(c))
}

/// The texts that `strings` hold.
pub open spec fn texts(strings: Seq<String>) -> Seq<Seq<char>> {
    strings.map_values(|s: String| s@)
}

/// Whether a header can be made of `key` and `values`.
pub open spec fn is_header(key: Seq<char>, values: Seq<String>) -> bool {
    &&& is_ascii_chars(key)
    &&& forall|i: int| 0 <= i < values.len() ==> is_ascii_chars((#[trigger] values[i])@)
}

/// The header lines for `key` with each of `values`. Header names are written in lower case.
pub open spec fn header_lines(key: Seq<char>, values: Seq<Seq<char>>) -> Seq<
    (Seq<char>, Seq<char>),
> {
    values.map_values(|v: Seq<char>| (lower(key), v))
}

/// The header lines of `lines` with another name than `name`.
pub open spec fn without(lines: Seq<(Seq<char>, Seq<char>)>, name: Seq<char>) -> Seq<
    (Seq<char>, Seq<char>),
>
    decreases lines.len(),
{
    if lines.len() == 0 {
        Seq::empty()
    } else if lines.last().0 == name {
        without(lines.drop_last(), name)
    } else {
        without(lines.drop_last(), name).push(lines.last())
    }
}

/// The values of the header `name` in `lines`, in order.
pub open spec fn values_of(lines: Seq<(Seq<char>, Seq<char>)>, name: Seq<char>) -> Seq<Seq<char>>
    decreases lines.len(),
{
    if lines.len() == 0 {
        Seq::empty()
    } else if lines.last().0 == name {
        values_of(lines.drop_last(), name).push(lines.last().1)
    } else {
        values_of(lines.drop_last(), name)
    }
}

/// Calls `surf::http::headers::HeaderName::from` and writes the name out: the text in lower
/// case. It panics on a text that is not ASCII.
#[verifier::external_body]
fn header_name(key: &str) -> (r: String)
    requires
        is_ascii_chars(key@),
    ensures
        r@ == lower(key@),
{
    surf::http::headers::HeaderName::from(key).to_string()
}

/// Calls `surf::http::headers::ToHeaderValues::to_header_values` on a text and writes the value
/// out: one value, the text itself. It fails on a text that is not ASCII.
#[verifier::external_body]
fn header_value(value: &str) -> (r: String)
    requires
        is_ascii_chars(value@),
    ensures
        r@ == value@,
{
    let mut values = surf::http::headers::ToHeaderValues::to_header_values(&value).unwrap();
    values.next().unwrap().to_string()
}

/// The headers of a request, line by line.
#[derive(Debug)]
pub struct Headers {
    lines: Vec<(String, String)>,
}

impl View for Headers {
    type V = Seq<(Seq<char>, Seq<char>)>;

    /// The header lines: names, in lower case, with their values.
    closed spec fn view(&self) -> Seq<(Seq<char>, Seq<char>)> {
        self.lines@.map_values(|l: (String, String)| (l.0@, l.1@))
    }
}

impl Headers {
    /// No headers.
    pub fn new() -> (r: Headers)
        ensures
            r@ == Seq::<(Seq<char>, Seq<char>)>::empty(),
    {
        let r = Headers { lines: Vec::new() };
        assert(r@ =~= Seq::<(Seq<char>, Seq<char>)>::empty());
        r
    }

    /// The number of header lines.
    pub fn len(&self) -> (r: usize)
        ensures
            r == self@.len(),
    {
        self.lines.len()
    }

    /// The name and the value in line `i`.
    pub fn line(&self, i: usize) -> (r: (&str, &str))
        requires
            i < self@.len(),
        ensures
            (r.0@, r.1@) == self@[i as int],
    {
        (self.lines[i].0.as_str(), self.lines[i].1.as_str())
    }

    /// Add a line for each of `values`, behind the lines that are there.
    pub fn append(&mut self, key: &str, values: &Vec<String>)
        requires
            is_header(key@, values@),
        ensures
            final(self)@ == old(self)@ + header_lines(key@, texts(values@)),
    {
        let name = header_name(key);
        let ghost before = self@;
        let ghost added = header_lines(key@, texts(values@));
        assert(before =~= before + added.take(0));
        let mut i: usize = 0;
        while i < values.len()
            invariant
                i <= values.len(),
                is_header(key@, values@),
                name@ == lower(key@),
                added == header_lines(key@, texts(values@)),
                self@ == before + added.take(i as int),
            decreases values.len() - i,
        {
            let value = header_value(values[i].as_str());
            let ghost current = self@;
            self.lines.push((name.clone(), value));
            assert(self@ =~= current.push((name@, value@)));
            assert(added.take(i + 1) =~= added.take(i as int).push(added[i as int]));
            assert(self@ =~= before + added.take(i + 1));
            i = i + 1;
        }
        assert(added.take(i as int) =~= added);
    }

    /// Remove the lines with the name `name`.
    fn remove(&mut self, name: &str)
        ensures
            final(self)@ == without(old(self)@, name@),
    {
        let mut kept = Headers::new();
        let mut i: usize = 0;
        assert(self@.take(0) =~= Seq::empty());
        while i < self.lines.len()
            invariant
                i <= self.lines@.len(),
                kept@ == without(self@.take(i as int), name@),
            decreases self.lines.len() - i,
        {
            let ghost before = kept@;
            let ghost line = (self.lines[i as int].0@, self.lines[i as int].1@);
            assert(self@[i as int] == line);
            assert(self@.take(i + 1).drop_last() =~= self@.take(i as int));
            if !same_text(self.lines[i].0.as_str(), name) {
                kept.lines.push((self.lines[i].0.clone(), self.lines[i].1.clone()));
                assert(kept@ =~= before.push(line));
            }
            i = i + 1;
        }
        assert(self@.take(i as int) =~= self@);
        self.lines = kept.lines;
        assert(self@ =~= kept@);
    }

    /// Set a header: the lines for `key` that are there give way to one for each of `values`.
    pub fn insert(&mut self, key: &str, values: &Vec<String>)
        requires
            is_header(key@, values@),
        ensures
            final(self)@ == without(old(self)@, lower(key@)) + header_lines(
                key@,
                texts(values@),
            ),
    {
        let name = header_name(key);
        self.remove(name.as_str());
        self.append(key, values);
    }
}

/// The values of a header in lines that are put together are those in the first, then those in
/// the second.
pub proof fn lemma_values_of_sum(
    a: Seq<(Seq<char>, Seq<char>)>,
    b: Seq<(Seq<char>, Seq<char>)>,
    name: Seq<char>,
)
    ensures
        values_of(a + b, name) == values_of(a, name) + values_of(b, name),
    decreases b.len(),
{
    if b.len() == 0 {
        assert(a + b =~= a);
    } else {
        lemma_values_of_sum(a, b.drop_last(), name);
        assert((a + b).drop_last() =~= a + b.drop_last());
        assert((a + b).last() == b.last());
    }
    assert(values_of(a + b, name) =~= values_of(a, name) + values_of(b, name));
}

/// The lines that are left without a header have no value of it, and the values of the others.
pub proof fn lemma_values_of_without(
    lines: Seq<(Seq<char>, Seq<char>)>,
    removed: Seq<char>,
    name: Seq<char>,
)
    ensures
        values_of(without(lines, removed), name) == if name == removed {
            Seq::empty()
        } else {
            values_of(lines, name)
        },
    decreases lines.len(),
{
    if lines.len() > 0 {
        let rest = without(lines.drop_last(), removed);
        lemma_values_of_without(lines.drop_last(), removed, name);
        assert(rest.push(lines.last()).drop_last() =~= rest);
    }
}

/// The lines of a header have its values, and those of no other.
pub proof fn lemma_values_of_header(key: Seq<char>, values: Seq<Seq<char>>, name: Seq<char>)
    ensures
        values_of(header_lines(key, values), name) == if name == lower(key) {
            values
        } else {
            Seq::empty()
        },
    decreases values.len(),
{
    let lines = header_lines(key, values);
    if values.len() > 0 {
        lemma_values_of_header(key, values.drop_last(), name);
        assert(lines.drop_last() =~= header_lines(key, values.drop_last()));
        assert(values =~= values.drop_last().push(values.last()));
    } else {
        assert(values =~= Seq::empty());
    }
}

/// Header names are the same in upper and in lower case.
pub proof fn law_header_names_ignore_case(a: Seq<char>, b: Seq<char>, values: Seq<Seq<char>>)
    requires
        lower(a) == lower(b),
    ensures
        header_lines(a, values) == header_lines(b, values),
        lower(lower(a)) == lower(b),
{
    assert(header_lines(a, values) =~= header_lines(b, values));
    assert(lower(lower(a)) =~= lower(a));
}

} // verus!

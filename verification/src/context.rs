//! What the gateway reads of a request and writes of a response, as plain
//! values. Bodies are streamed by the caller and never pass through here.

use crate::text::eq_ignore_case;
use crate::text::same_name;
use std::time::Duration;
use vstd::prelude::*;

verus! {

/// One header line: a name and its value.
#[derive(Clone, Debug, PartialEq, Eq)]
pub struct Header {
    pub name: String,
    pub value: String,
}

impl View for Header {
    type V = (Seq<char>, Seq<char>);

    open spec fn view(&self) -> (Seq<char>, Seq<char>) {
        (self.name@, self.value@)
    }
}

impl Header {
    pub fn new(name: &str, value: &str) -> (r: Header)
        ensures
            r@ == (name@, value@),
    {
        Header { name: name.to_owned(), value: value.to_owned() }
    }

    /// A copy with the same name and value.
    pub fn duplicate(&self) -> (r: Header)
        ensures
            r@ == self@,
    {
        Header { name: self.name.clone(), value: self.value.clone() }
    }
}

/// The header lines of a message as pairs of name and value, in order.
pub open spec fn headers_view(hs: Seq<Header>) -> Seq<(Seq<char>, Seq<char>)> {
    hs.map_values(|h: Header| h@)
}

/// The value of the first header whose name is `name`, compared without
/// regard to ASCII case; `None` where no header has that name.
pub open spec fn find_header(hs: Seq<(Seq<char>, Seq<char>)>, name: Seq<char>) -> Option<
    Seq<char>,
>
    decreases hs.len(),
{
    if hs.len() == 0 {
        None
    } else if same_name(hs[0].0, name) {
        Some(hs[0].1)
    } else {
        find_header(hs.drop_first(), name)
    }
}

/// The view of an optional string.
pub open spec fn text_view(s: Option<String>) -> Option<Seq<char>> {
    match s {
        Some(t) => Some(t@),
        None => None,
    }
}

/// The view of an optional borrowed string.
pub open spec fn text_ref_view(s: Option<&String>) -> Option<Seq<char>> {
    match s {
        Some(t) => Some(t@),
        None => None,
    }
}

/// The view of an optional string slice.
pub open spec fn str_view(s: Option<&str>) -> Option<Seq<char>> {
    match s {
        Some(t) => Some(t@),
        None => None,
    }
}

/// Looks a header up by name, without regard to ASCII case. Where several
/// headers carry the name, the first one counts.
pub fn header_value<'a>(headers: &'a Vec<Header>, name: &str) -> (r: Option<&'a String>)
    ensures
        text_ref_view(r) == find_header(headers_view(headers@), name@),
{
    let ghost hv = headers_view(headers@);
    let mut i: usize = 0;
    assert(hv.skip(0) =~= hv);
    while i < headers.len()
        invariant
            i <= headers.len(),
            hv == headers_view(headers@),
            find_header(hv, name@) == find_header(hv.skip(i as int), name@),
        decreases headers.len() - i,
    {
        let h = &headers[i];
        proof {
            let rest = hv.skip(i as int);
            assert(rest[0] == h@);
            assert(rest.drop_first() =~= hv.skip(i + 1));
        }
        if eq_ignore_case(h.name.as_str(), name) {
            return Some(&h.value);
        }
        i += 1;
    }
    assert(hv.skip(i as int).len() == 0);
    None
}

/// What the gateway reads of an inbound request.
#[derive(Clone, Debug, PartialEq, Eq)]
pub struct RequestContext {
    /// The HTTP method, as sent.
    pub method: String,
    /// The path of the request target, starting at the first `/`.
    pub path: String,
    /// The query string without its `?`, where the target has one.
    pub query: Option<String>,
    /// The header lines in the order received.
    pub headers: Vec<Header>,
    /// The caller's IP address in text form, where it is known.
    pub peer_addr: Option<String>,
}

impl RequestContext {
    /// The header lines as pairs of name and value.
    pub open spec fn header_lines(&self) -> Seq<(Seq<char>, Seq<char>)> {
        headers_view(self.headers@)
    }

    /// The value of the named header, `None` where the request has none.
    pub fn header(&self, name: &str) -> (r: Option<&String>)
        ensures
            text_ref_view(r) == find_header(self.header_lines(), name@),
    {
        header_value(&self.headers, name)
    }
}

/// The slot in which the forwarder leaves the time it waited for the
/// upstream, for the latency stage to pick up. It starts empty, is filled at
/// most once, and is emptied by the one read.
#[derive(Clone, Copy, Debug, PartialEq, Eq)]
pub struct ResponseMetadata {
    egress: Option<Duration>,
}

impl ResponseMetadata {
    /// The recorded egress time, if any.
    pub closed spec fn egress(&self) -> Option<Duration> {
        self.egress
    }

    /// An empty slot.
    pub fn new() -> (r: ResponseMetadata)
        ensures
            r.egress() is None,
    {
        ResponseMetadata { egress: None }
    }

    /// Fills an empty slot and says `true`; a slot that is already filled is
    /// left as it is, with `false`.
    pub fn record_egress(&mut self, span: Duration) -> (r: bool)
        ensures
            r == (old(self).egress() is None),
            final(self).egress() == if r {
                Some(span)
            } else {
                old(self).egress()
            },
    {
        if self.egress.is_none() {
            self.egress = Some(span);
            true
        } else {
            false
        }
    }

    /// Reads the slot and leaves it empty.
    pub fn take_egress(&mut self) -> (r: Option<Duration>)
        ensures
            r == old(self).egress(),
            final(self).egress() is None,
    {
        let r = self.egress;
        self.egress = None;
        r
    }

    /// Reads the slot without emptying it.
    pub fn peek_egress(&self) -> (r: Option<Duration>)
        ensures
            r == self.egress(),
    {
        self.egress
    }
}

/// What the gateway hands back for a request: the status, the header lines,
/// and the side channel between forwarder and latency stage.
#[derive(Clone, Debug, PartialEq, Eq)]
pub struct ResponseContext {
    pub status: u16,
    pub headers: Vec<Header>,
    pub metadata: ResponseMetadata,
}

} // verus!

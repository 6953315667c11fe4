//! The forwarder: what is sent to the upstream for a request, and what is
//! relayed of the upstream's answer. The caller moves the bytes; every
//! decision is taken here.

use crate::border::host_control::origin_text;
use crate::border::host_control::Destination;
use crate::context::find_header;
use crate::context::header_value;
use crate::context::headers_view;
use crate::context::str_view;
use crate::context::text_view;
use crate::context::Header;
use crate::context::RequestContext;
use crate::context::ResponseContext;
use crate::context::ResponseMetadata;
use crate::locator::byte_len;
use crate::locator::parsed_url;
use crate::locator::url_after_path;
use crate::locator::url_after_query;
use crate::locator::url_text;
use crate::locator::MAX_URL_PART;
use crate::metrics::MetricsCollection;
use crate::text::eq_ignore_case;
use crate::text::parse_i64;
use crate::text::parsed_i64;
use crate::text::same_name;
use std::time::Duration;
use stopwatch::Stopwatch;
use url::Url;
use vstd::prelude::*;

verus! {

pub const CONNECTION: &'static str = "connection";

pub const CONTENT_LENGTH: &'static str = "content-length";

pub const CONTENT_ENCODING: &'static str = "content-encoding";

pub const X_FORWARDED_FOR: &'static str = "x-forwarded-for";

/// Why a request could not be forwarded.
#[derive(Clone, Copy, Debug, PartialEq, Eq, Structural)]
pub enum ForwardError {
    /// No outbound URL can be written for the destination and the request.
    InvalidUrl,
    /// The upstream did not accept the connection in time.
    ConnectTimeout,
    /// The upstream could not be connected to.
    Connect,
    /// The upstream's answer took too long.
    Timeout,
    /// The exchange with the upstream broke off.
    Stream,
}

/// The status that the caller sees for a failed forward.
pub open spec fn failure_status(error: ForwardError) -> u16 {
    match error {
        ForwardError::ConnectTimeout => 504,
        ForwardError::Connect => 502,
        _ => 500,
    }
}

impl ForwardError {
    /// The status for this failure, always one of the server errors.
    pub fn status(&self) -> (r: u16)
        ensures
            r == failure_status(*self),
            500 <= r < 600,
    {
        match self {
            ForwardError::ConnectTimeout => 504,
            ForwardError::Connect => 502,
            _ => 500,
        }
    }
}

/// A header that belongs to one leg of the connection and is never relayed:
/// `Connection`, `Content-Length` and `Content-Encoding`. The length is set
/// anew by whoever serves the relayed body, and the body is relayed without
/// its upstream encoding being announced.
pub open spec fn is_hop_by_hop(name: Seq<char>) -> bool {
    same_name(name, CONNECTION@) || same_name(name, CONTENT_LENGTH@) || same_name(
        name,
        CONTENT_ENCODING@,
    )
}

/// Whether an upstream header with this name is relayed to the caller.
pub fn include_header(name: &str) -> (r: bool)
    ensures
        r == !is_hop_by_hop(name@),
{
    !(eq_ignore_case(name, CONNECTION) || eq_ignore_case(name, CONTENT_LENGTH) || eq_ignore_case(
        name,
        CONTENT_ENCODING,
    ))
}

/// Whether a header line is relayed.
pub open spec fn relayable(line: (Seq<char>, Seq<char>)) -> bool {
    !is_hop_by_hop(line.0)
}

/// The upstream's header lines without the hop-by-hop ones, in order.
pub open spec fn relayed_headers(lines: Seq<(Seq<char>, Seq<char>)>) -> Seq<
    (Seq<char>, Seq<char>),
> {
    lines.filter(|line: (Seq<char>, Seq<char>)| relayable(line))
}

/// No hop-by-hop header is among the relayed lines, whatever the upstream
/// sent, and every relayed line is one that the upstream sent.
pub proof fn relayed_headers_hold_no_hop_by_hop(lines: Seq<(Seq<char>, Seq<char>)>)
    ensures
        forall|i: int|
            0 <= i < relayed_headers(lines).len() ==> !is_hop_by_hop(
                #[trigger] relayed_headers(lines)[i].0,
            ) && lines.contains(relayed_headers(lines)[i]),
{
    let keep = |line: (Seq<char>, Seq<char>)| relayable(line);
    assert forall|i: int| 0 <= i < relayed_headers(lines).len() implies !is_hop_by_hop(
        #[trigger] relayed_headers(lines)[i].0,
    ) && lines.contains(relayed_headers(lines)[i]) by {
        lines.lemma_filter_pred(keep, i);
        lines.lemma_filter_contains_rev(keep, relayed_headers(lines)[i]);
    }
}

/// Whether a header line says nothing of whom the request was forwarded for.
pub open spec fn not_forwarded_for(line: (Seq<char>, Seq<char>)) -> bool {
    !same_name(line.0, X_FORWARDED_FOR@)
}

/// The header lines of the outbound request: those of the inbound one, and,
/// where the caller's address is known, `X-Forwarded-For` set to it in place
/// of whatever lines of that name came in.
pub open spec fn outbound_headers(
    lines: Seq<(Seq<char>, Seq<char>)>,
    peer: Option<Seq<char>>,
) -> Seq<(Seq<char>, Seq<char>)> {
    match peer {
        Some(ip) => lines.filter(|line: (Seq<char>, Seq<char>)| not_forwarded_for(line)).push(
            (X_FORWARDED_FOR@, ip),
        ),
        None => lines,
    }
}

/// Whether a text is short enough to be handed to the URL setters.
pub open spec fn fits(text: Seq<char>) -> bool {
    byte_len(text) <= MAX_URL_PART
}

/// The outbound URL: what the URL parser makes of the destination's origin,
/// with the request's path and then its query put in place by the URL
/// setters, as text. `None` where the origin is no URL or a part is too long
/// to be handled.
pub open spec fn outbound_url(
    dest: (Seq<char>, u16),
    path: Seq<char>,
    query: Option<Seq<char>>,
) -> Option<Seq<char>> {
    if !fits(path) || (query matches Some(q) && !fits(q)) {
        None
    } else {
        match parsed_url(origin_text(dest)) {
            None => None,
            Some(base) => if !fits(url_text(base)) {
                None
            } else if !fits(url_text(url_after_path(base, path))) {
                None
            } else {
                Some(url_text(url_after_query(url_after_path(base, path), query)))
            },
        }
    }
}

/// Writes the outbound URL for a destination, a path and a query.
pub fn compose_url(dest: &Destination, path: &str, query: Option<&str>) -> (r: Option<String>)
    ensures
        text_view(r) == outbound_url(dest@, path@, str_view(query)),
{
    if path.as_bytes().len() > MAX_URL_PART {
        return None;
    }
    match query {
        Some(q) => {
            if q.as_bytes().len() > MAX_URL_PART {
                return None;
            }
        },
        None => {},
    }
    let origin = dest.origin();
    match Url::parse(origin.as_str()) {
        Err(_) => None,
        Ok(mut url) => {
            if url.as_str().as_bytes().len() > MAX_URL_PART {
                return None;
            }
            url.set_path(path);
            if url.as_str().as_bytes().len() > MAX_URL_PART {
                return None;
            }
            url.set_query(query);
            Some(url.as_str().to_owned())
        },
    }
}

/// The body size that a request announces: its `Content-Length`, where it
/// has one that is a number.
pub open spec fn announced_size(lines: Seq<(Seq<char>, Seq<char>)>) -> Option<i64> {
    match find_header(lines, CONTENT_LENGTH@) {
        Some(v) => parsed_i64(v),
        None => None,
    }
}

/// Reads the announced body size of a request.
pub fn body_size_of(req: &RequestContext) -> (r: Option<i64>)
    ensures
        r == announced_size(req.header_lines()),
{
    match header_value(&req.headers, CONTENT_LENGTH) {
        Some(v) => parse_i64(v.as_str()),
        None => None,
    }
}

/// Copies the header lines that `keep` admits. `keep` is one of the two
/// rules of this file, told apart by `relaying`.
fn copy_lines(lines: &Vec<Header>, relaying: bool) -> (r: Vec<Header>)
    ensures
        relaying ==> headers_view(r@) == relayed_headers(headers_view(lines@)),
        !relaying ==> headers_view(r@) == headers_view(lines@).filter(
            |line: (Seq<char>, Seq<char>)| not_forwarded_for(line),
        ),
{
    let ghost hv = headers_view(lines@);
    let ghost keep = if relaying {
        |line: (Seq<char>, Seq<char>)| relayable(line)
    } else {
        |line: (Seq<char>, Seq<char>)| not_forwarded_for(line)
    };
    let mut out: Vec<Header> = Vec::new();
    let mut i: usize = 0;
    proof {
        reveal(Seq::filter);
        assert(hv.take(0) =~= Seq::empty());
        assert(headers_view(out@) =~= hv.take(0).filter(keep));
    }
    while i < lines.len()
        invariant
            i <= lines.len(),
            hv == headers_view(lines@),
            keep == if relaying {
                |line: (Seq<char>, Seq<char>)| relayable(line)
            } else {
                |line: (Seq<char>, Seq<char>)| not_forwarded_for(line)
            },
            headers_view(out@) == hv.take(i as int).filter(keep),
        decreases lines.len() - i,
    {
        let line = &lines[i];
        let kept = if relaying {
            include_header(line.name.as_str())
        } else {
            !eq_ignore_case(line.name.as_str(), X_FORWARDED_FOR)
        };
        proof {
            reveal(Seq::filter);
            let next = hv.take(i + 1);
            assert(next.drop_last() =~= hv.take(i as int));
            assert(next.last() == line@);
            assert(kept == keep(line@));
        }
        if kept {
            let ghost before = headers_view(out@);
            out.push(line.duplicate());
            assert(headers_view(out@) =~= before.push(line@));
        }
        i += 1;
    }
    assert(hv.take(lines.len() as int) =~= hv);
    out
}

/// What is sent to the upstream for one request.
pub struct OutboundRequest {
    /// The URL that the request goes to.
    pub url: String,
    /// The method, as it came in.
    pub method: String,
    /// The header lines to send.
    pub headers: Vec<Header>,
    /// Runs from the moment the request was handed out.
    pub timer: Stopwatch,
}

/// Prepares the forwarding of a request to a destination: the outbound URL,
/// the method and the header lines, and the announced body size shown on the
/// gauge. The stopwatch in the result runs from the return of this call.
/// Fails with `ForwardError::InvalidUrl` exactly where no outbound URL can be
/// written.
pub fn forward(req: &RequestContext, dest: &Destination, metrics: &mut MetricsCollection) -> (r:
    Result<OutboundRequest, ForwardError>)
    ensures
        final(metrics).body_size() == match announced_size(req.header_lines()) {
            Some(size) => size,
            None => old(metrics).body_size(),
        },
        match r {
            Ok(out) => outbound_url(dest@, req.path@, text_view(req.query)) == Some(out.url@)
                && out.method@ == req.method@ && headers_view(out.headers@) == outbound_headers(
                req.header_lines(),
                text_view(req.peer_addr),
            ),
            Err(e) => e == ForwardError::InvalidUrl && outbound_url(
                dest@,
                req.path@,
                text_view(req.query),
            ) is None,
        },
{
    match body_size_of(req) {
        Some(size) => metrics.record_body_size(size),
        None => {},
    }
    let query = match &req.query {
        Some(q) => Some(q.as_str()),
        None => None,
    };
    let url = match compose_url(dest, req.path.as_str(), query) {
        Some(url) => url,
        None => {
            return Err(ForwardError::InvalidUrl);
        },
    };
    let headers = match &req.peer_addr {
        Some(ip) => {
            let mut lines = copy_lines(&req.headers, false);
            let ghost before = headers_view(lines@);
            lines.push(Header::new(X_FORWARDED_FOR, ip.as_str()));
            assert(headers_view(lines@) =~= before.push((X_FORWARDED_FOR@, ip@)));
            lines
        },
        None => copy_all(&req.headers),
    };
    Ok(OutboundRequest { url, method: req.method.clone(), headers, timer: Stopwatch::start_new() })
}

/// Copies header lines as they are.
fn copy_all(lines: &Vec<Header>) -> (r: Vec<Header>)
    ensures
        headers_view(r@) == headers_view(lines@),
{
    let mut out: Vec<Header> = Vec::new();
    let mut i: usize = 0;
    while i < lines.len()
        invariant
            i <= lines.len(),
            headers_view(out@) == headers_view(lines@).take(i as int),
        decreases lines.len() - i,
    {
        let ghost before = headers_view(out@);
        let line = &lines[i];
        out.push(line.duplicate());
        assert(headers_view(out@) =~= before.push(line@));
        assert(headers_view(lines@).take(i + 1) =~= headers_view(lines@).take(i as int).push(
            line@,
        ));
        i += 1;
    }
    assert(headers_view(lines@).take(lines.len() as int) =~= headers_view(lines@));
    out
}

/// The response for the caller, given what the upstream answered and how
/// long its answer took: the upstream's status, its header lines without the
/// hop-by-hop ones, and the time in the metadata.
pub fn respond(status: u16, headers: &Vec<Header>, egress: Duration) -> (r: ResponseContext)
    ensures
        r.status == status,
        headers_view(r.headers@) == relayed_headers(headers_view(headers@)),
        forall|i: int| 0 <= i < r.headers@.len() ==> !is_hop_by_hop(#[trigger] r.headers@[i].name@),
        r.metadata.egress() == Some(egress),
{
    let relayed = copy_lines(headers, true);
    let mut metadata = ResponseMetadata::new();
    metadata.record_egress(egress);
    proof {
        let lines = headers_view(headers@);
        assert forall|i: int| 0 <= i < relayed@.len() implies !is_hop_by_hop(
            #[trigger] relayed@[i].name@,
        ) by {
            lines.lemma_filter_pred(|line: (Seq<char>, Seq<char>)| relayable(line), i);
            assert(headers_view(relayed@)[i] == relayed@[i]@);
        }
    }
    ResponseContext { status, headers: relayed, metadata }
}

/// The response for the caller once the upstream's status and header lines
/// are in. The stopwatch of the outbound request is read here, so call this
/// as soon as they are in and before the body is moved.
pub fn relay(outbound: &OutboundRequest, status: u16, headers: &Vec<Header>) -> (r:
    ResponseContext)
    ensures
        r.status == status,
        headers_view(r.headers@) == relayed_headers(headers_view(headers@)),
        forall|i: int| 0 <= i < r.headers@.len() ==> !is_hop_by_hop(#[trigger] r.headers@[i].name@),
        r.metadata.egress() is Some,
{
    respond(status, headers, outbound.timer.elapsed())
}

/// The response for the caller where forwarding failed: the status of the
/// failure, no header lines, and no time in the metadata.
pub fn failure(error: ForwardError) -> (r: ResponseContext)
    ensures
        r.status == failure_status(error),
        500 <= r.status < 600,
        r.headers@.len() == 0,
        r.metadata.egress() is None,
{
    ResponseContext { status: error.status(), headers: Vec::new(), metadata: ResponseMetadata::new() }
}

} // verus!

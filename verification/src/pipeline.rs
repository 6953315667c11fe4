//! The stages in their order: the latency stage around the access filter
//! around the forwarder. A request enters through `receive`; where it is
//! forwarded, the caller talks to the upstream and comes back through
//! `complete` or `fail`.

use crate::border::host_control::policy_of;
use crate::border::host_control::resolve;
use crate::border::host_control::BorderPolicy;
use crate::border::BorderControl;
use crate::border::Denial;
use crate::context::headers_view;
use crate::context::text_view;
use crate::context::Header;
use crate::context::RequestContext;
use crate::context::ResponseContext;
use crate::handlers::proxy::announced_size;
use crate::handlers::proxy::failure;
use crate::handlers::proxy::failure_status;
use crate::handlers::proxy::forward;
use crate::handlers::proxy::is_hop_by_hop;
use crate::handlers::proxy::outbound_headers;
use crate::handlers::proxy::outbound_url;
use crate::handlers::proxy::relay;
use crate::handlers::proxy::relayed_headers;
use crate::handlers::proxy::ForwardError;
use crate::handlers::proxy::OutboundRequest;
use crate::instruments::counted;
use crate::instruments::label_slot;
use crate::instruments::sampled;
use crate::metrics::MetricsCollection;
use crate::middleware::latency::LatencyTimer;
use crate::middleware::latency::MeasureLatencyMiddleware;
use crate::middleware::proxy_filter::is_rejection;
use crate::middleware::proxy_filter::ProxyFilterMiddleware;
use crate::middleware::proxy_filter::Verdict;
use crate::middleware::proxy_filter::REJECTION_STATUS;
use vstd::prelude::*;

verus! {

/// A request on its way to the upstream: what is sent, and the running time
/// of the whole pipeline.
pub struct InFlight {
    pub timer: LatencyTimer,
    pub outbound: OutboundRequest,
}

/// What becomes of a request at the gateway's door.
pub enum Passage {
    /// It is forwarded: the caller sends this to the upstream.
    Forward(InFlight),
    /// It is answered here, and the upstream is not contacted.
    Reply(ResponseContext),
}

/// What the instruments of a pipeline show.
pub struct Readings {
    /// The counts of allowed requests.
    pub allowed: Map<u64, i64>,
    /// The counts of blocked requests.
    pub blocked: Map<u64, i64>,
    /// The numbers of samples of whole-pipeline time.
    pub total: Map<u64, u64>,
    /// The numbers of samples of upstream time.
    pub egress: Map<u64, u64>,
    /// The numbers of samples of overhead.
    pub overhead: Map<u64, u64>,
    /// The announced body size on the gauge.
    pub body_size: i64,
}

/// The three stages, in their order.
pub struct Pipeline<B: BorderControl> {
    latency: MeasureLatencyMiddleware,
    filter: ProxyFilterMiddleware<B>,
    metrics: MetricsCollection,
}

/// What `receive` owes for a request, given what the border says of it and
/// what the instruments showed before.
///
/// A request that the border denies is answered with the rejection; it is
/// counted as blocked and its time is recorded, and nothing else moves. A
/// request that may pass is counted as allowed and its announced body size
/// is shown. It is then forwarded with the outbound URL, its method and the
/// outbound header lines, and nothing is recorded yet; or, where no
/// outbound URL can be written, it is answered with the failure's status,
/// and its time is recorded.
pub open spec fn received(
    visa: Result<(Seq<char>, u16), Denial>,
    req: RequestContext,
    before: Readings,
    passage: Passage,
    after: Readings,
) -> bool {
    match visa {
        Err(_) => {
            &&& passage matches Passage::Reply(response)
            &&& is_rejection(response)
            &&& after.blocked == counted(before.blocked, req.method@)
            &&& after.allowed == before.allowed
            &&& after.total == sampled(before.total, req.method@)
            &&& after.egress == before.egress
            &&& after.overhead == before.overhead
            &&& after.body_size == before.body_size
        },
        Ok(dest) => {
            &&& after.allowed == counted(before.allowed, req.method@)
            &&& after.blocked == before.blocked
            &&& after.egress == before.egress
            &&& after.overhead == before.overhead
            &&& after.body_size == match announced_size(req.header_lines()) {
                Some(size) => size,
                None => before.body_size,
            }
            &&& match outbound_url(dest, req.path@, text_view(req.query)) {
                Some(url) => {
                    &&& passage matches Passage::Forward(flight)
                    &&& flight.outbound.url@ == url
                    &&& flight.outbound.method@ == req.method@
                    &&& headers_view(flight.outbound.headers@) == outbound_headers(
                        req.header_lines(),
                        text_view(req.peer_addr),
                    )
                    &&& flight.timer.method@ == req.method@
                    &&& after.total == before.total
                },
                None => {
                    &&& passage matches Passage::Reply(response)
                    &&& response.status == failure_status(ForwardError::InvalidUrl)
                    &&& response.headers@.len() == 0
                    &&& response.metadata.egress() is None
                    &&& after.total == sampled(before.total, req.method@)
                },
            }
        },
    }
}

/// A gateway without destinations never forwards: whatever the request, it
/// is answered with the rejection, it is counted as blocked once, and no
/// request is counted as allowed.
pub proof fn closed_gateway_forwards_nothing(
    table: Map<Seq<char>, (Seq<char>, u16)>,
    req: RequestContext,
    before: Readings,
    passage: Passage,
    after: Readings,
)
    requires
        policy_of(table) == BorderPolicy::Closed,
        received(resolve(table, req.header_lines()), req, before, passage, after),
    ensures
        passage matches Passage::Reply(response) && response.status == REJECTION_STATUS,
        after.blocked == counted(before.blocked, req.method@),
        before.blocked[label_slot(req.method@)] < i64::MAX ==> after.blocked[label_slot(
            req.method@,
        )] == before.blocked[label_slot(req.method@)] + 1,
        after.allowed == before.allowed,
{
}

/// A request that the border lets pass to `dest` is either forwarded to the
/// outbound URL of `dest`, or answered with a server error; it is never
/// answered with the rejection, and it is counted as allowed once.
pub proof fn allowed_request_goes_to_its_destination(
    dest: (Seq<char>, u16),
    req: RequestContext,
    before: Readings,
    passage: Passage,
    after: Readings,
)
    requires
        received(Ok(dest), req, before, passage, after),
    ensures
        match passage {
            Passage::Forward(flight) => outbound_url(dest, req.path@, text_view(req.query))
                == Some(flight.outbound.url@),
            Passage::Reply(response) => 500 <= response.status < 600,
        },
        after.allowed == counted(before.allowed, req.method@),
        after.blocked == before.blocked,
{
}

impl<B: BorderControl> Pipeline<B> {
    /// The border that the pipeline asks.
    pub closed spec fn border(&self) -> B {
        self.filter.border()
    }

    /// What the instruments show.
    pub closed spec fn readings(&self) -> Readings {
        Readings {
            allowed: self.filter.allowed(),
            blocked: self.filter.blocked(),
            total: self.latency.total(),
            egress: self.latency.egress(),
            overhead: self.latency.overhead(),
            body_size: self.metrics.body_size(),
        }
    }

    /// Puts the stages together.
    pub fn new(
        latency: MeasureLatencyMiddleware,
        filter: ProxyFilterMiddleware<B>,
        metrics: MetricsCollection,
    ) -> (r: Self)
        ensures
            r.border() == filter.border(),
            r.readings() == (Readings {
                allowed: filter.allowed(),
                blocked: filter.blocked(),
                total: latency.total(),
                egress: latency.egress(),
                overhead: latency.overhead(),
                body_size: metrics.body_size(),
            }),
    {
        Pipeline { latency, filter, metrics }
    }

    /// Takes a request in. The time of the whole pipeline runs from here;
    /// then the access filter decides; then the forwarder prepares what is
    /// sent. See `received` for what is owed.
    pub fn receive(&mut self, req: &RequestContext) -> (r: Passage)
        ensures
            final(self).border() == old(self).border(),
            received(
                old(self).border().visa(*req),
                *req,
                old(self).readings(),
                r,
                final(self).readings(),
            ),
    {
        let timer = self.latency.start(req);
        match self.filter.call(req) {
            Verdict::Denied(_, response) => {
                let mut response = response;
                self.latency.finish(timer, &mut response);
                Passage::Reply(response)
            },
            Verdict::Allowed(dest) => match forward(req, &dest, &mut self.metrics) {
                Ok(outbound) => Passage::Forward(InFlight { timer, outbound }),
                Err(e) => {
                    let mut response = failure(e);
                    self.latency.finish(timer, &mut response);
                    Passage::Reply(response)
                },
            },
        }
    }

    /// Takes the upstream's answer in, as soon as its status and header
    /// lines are there: the response for the caller has the upstream's
    /// status and its header lines without the hop-by-hop ones. The
    /// upstream's time, the whole time and the overhead are recorded for the
    /// request's method; the counters and the gauge stay.
    pub fn complete(&mut self, flight: InFlight, status: u16, headers: &Vec<Header>) -> (r:
        ResponseContext)
        ensures
            final(self).border() == old(self).border(),
            r.status == status,
            headers_view(r.headers@) == relayed_headers(headers_view(headers@)),
            forall|i: int|
                0 <= i < r.headers@.len() ==> !is_hop_by_hop(#[trigger] r.headers@[i].name@),
            r.metadata.egress() is None,
            final(self).readings() == (Readings {
                total: sampled(old(self).readings().total, flight.timer.method@),
                egress: sampled(old(self).readings().egress, flight.timer.method@),
                overhead: sampled(old(self).readings().overhead, flight.timer.method@),
                ..old(self).readings()
            }),
    {
        let mut response = relay(&flight.outbound, status, headers);
        self.latency.finish(flight.timer, &mut response);
        response
    }

    /// Takes the failure of a forward in: the response for the caller has
    /// the failure's status and no header lines. The whole time is recorded
    /// for the request's method, and nothing else.
    pub fn fail(&mut self, flight: InFlight, error: ForwardError) -> (r: ResponseContext)
        ensures
            final(self).border() == old(self).border(),
            r.status == failure_status(error),
            500 <= r.status < 600,
            r.headers@.len() == 0,
            r.metadata.egress() is None,
            final(self).readings() == (Readings {
                total: sampled(old(self).readings().total, flight.timer.method@),
                ..old(self).readings()
            }),
    {
        let mut response = failure(error);
        self.latency.finish(flight.timer, &mut response);
        response
    }

    /// How many requests with this method were allowed.
    pub fn allowed_count(&self, method: &str) -> (r: i64)
        ensures
            r == self.readings().allowed[label_slot(method@)],
    {
        self.filter.allowed_count(method)
    }

    /// How many requests with this method were blocked.
    pub fn blocked_count(&self, method: &str) -> (r: i64)
        ensures
            r == self.readings().blocked[label_slot(method@)],
    {
        self.filter.blocked_count(method)
    }

    /// How many requests with this method had their whole time recorded.
    pub fn total_samples(&self, method: &str) -> (r: u64)
        ensures
            r == self.readings().total[label_slot(method@)],
    {
        self.latency.total_samples(method)
    }

    /// How many requests with this method had their upstream time recorded.
    pub fn egress_samples(&self, method: &str) -> (r: u64)
        ensures
            r == self.readings().egress[label_slot(method@)],
    {
        self.latency.egress_samples(method)
    }

    /// How many requests with this method had their overhead recorded.
    pub fn overhead_samples(&self, method: &str) -> (r: u64)
        ensures
            r == self.readings().overhead[label_slot(method@)],
    {
        self.latency.overhead_samples(method)
    }

    /// The announced body size that the gauge shows.
    pub fn body_size(&self) -> (r: i64)
        ensures
            r == self.readings().body_size,
    {
        self.metrics.current_body_size()
    }
}

} // verus!

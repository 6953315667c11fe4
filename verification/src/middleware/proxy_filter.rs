//! The access filter: asks the border about each request, counts the
//! answer, and turns a denial into the one rejection that callers see.

use crate::border::host_control::policy_of;
use crate::border::host_control::resolve;
use crate::border::host_control::Border;
use crate::border::host_control::BorderPolicy;
use crate::border::host_control::Destination;
use crate::border::host_control::HostControlBuilder;
use crate::border::BorderControl;
use crate::border::BorderControlBuilder;
use crate::border::Denial;
use crate::context::RequestContext;
use crate::context::ResponseContext;
use crate::context::ResponseMetadata;
use crate::instruments::counted;
use crate::instruments::gateway_labels_are_names;
use crate::instruments::name_chars_checked;
use crate::instruments::name_chars_from;
use crate::instruments::valid_metric_name;
use crate::instruments::PIPELINE;
use crate::instruments::PIPELINE_LABEL;
use crate::instruments::REALM;
use crate::instruments::REALM_LABEL;
use crate::instruments::counter_get;
use crate::instruments::counter_id;
use crate::instruments::counter_inc;
use crate::instruments::counter_new;
use crate::instruments::counter_register;
use crate::instruments::counter_taken;
use crate::instruments::counter_values;
use crate::instruments::label_slot;
use crate::instruments::no_counts;
use crate::instruments::registered_ids;
use crate::instruments::registry_after_counter;
use crate::instruments::MethodCounter;
use crate::instruments::METHOD_LABEL;
use prometheus::Registry;
use vstd::prelude::*;

verus! {

pub const ALLOWED_NAME: &'static str = "egress_http_request_allowed_total";

pub const ALLOWED_HELP: &'static str = "Total number of egress HTTP requests allowed.";

pub const BLOCKED_NAME: &'static str = "egress_http_request_blocked_total";

pub const BLOCKED_HELP: &'static str = "Total number of egress HTTP requests blocked.";

/// The status of every rejection, whatever the reason: callers learn
/// nothing of the table from it.
pub const REJECTION_STATUS: u16 = 406;

struct Family<B: BorderControl> {
    border: B,
    allowed: MethodCounter,
    blocked: MethodCounter,
}

/// What the filter says of a request.
#[derive(Clone, Debug, PartialEq, Eq)]
pub enum Verdict {
    /// The request may go to this destination.
    Allowed(Destination),
    /// The request is rejected, for this reason and with this response.
    Denied(Denial, ResponseContext),
}

/// Whether a response is the rejection: its status, no header line, and
/// nothing measured.
pub open spec fn is_rejection(response: ResponseContext) -> bool {
    &&& response.status == REJECTION_STATUS
    &&& response.headers@.len() == 0
    &&& response.metadata.egress() is None
}

/// The rejection response.
pub fn rejection() -> (r: ResponseContext)
    ensures
        is_rejection(r),
{
    ResponseContext {
        status: REJECTION_STATUS,
        headers: Vec::new(),
        metadata: ResponseMetadata::new(),
    }
}

/// What the filter does with a request, given what the border says of it:
/// the verdict, and the counts of allowed and blocked requests before and
/// after. A request that may pass is counted as allowed for its method and
/// gets its destination. A request that may not is counted as blocked for its
/// method and gets the rejection. The other counter does not move.
pub open spec fn filter_outcome(
    visa: Result<(Seq<char>, u16), Denial>,
    method: Seq<char>,
    allowed_before: Map<u64, i64>,
    blocked_before: Map<u64, i64>,
    verdict: Verdict,
    allowed_after: Map<u64, i64>,
    blocked_after: Map<u64, i64>,
) -> bool {
    match visa {
        Ok(dest) => {
            &&& verdict matches Verdict::Allowed(d)
            &&& d@ == dest
            &&& allowed_after == counted(allowed_before, method)
            &&& blocked_after == blocked_before
        },
        Err(denial) => {
            &&& verdict matches Verdict::Denied(reason, response)
            &&& reason == denial
            &&& is_rejection(response)
            &&& blocked_after == counted(blocked_before, method)
            &&& allowed_after == allowed_before
        },
    }
}

/// Under the closed policy every request is rejected with the rejection
/// status; the blocked count of its method goes up by exactly one (short of
/// the wrap-around at the largest number), and no allowed count moves.
pub proof fn closed_border_blocks_every_request(
    table: Map<Seq<char>, (Seq<char>, u16)>,
    lines: Seq<(Seq<char>, Seq<char>)>,
    method: Seq<char>,
    allowed_before: Map<u64, i64>,
    blocked_before: Map<u64, i64>,
    verdict: Verdict,
    allowed_after: Map<u64, i64>,
    blocked_after: Map<u64, i64>,
)
    requires
        policy_of(table) == BorderPolicy::Closed,
        filter_outcome(
            resolve(table, lines),
            method,
            allowed_before,
            blocked_before,
            verdict,
            allowed_after,
            blocked_after,
        ),
    ensures
        verdict matches Verdict::Denied(_, response) && response.status == REJECTION_STATUS,
        blocked_before[label_slot(method)] < i64::MAX ==> blocked_after[label_slot(method)]
            == blocked_before[label_slot(method)] + 1,
        forall|slot: u64| slot != label_slot(method) ==> blocked_after[slot] == blocked_before[slot],
        allowed_after == allowed_before,
{
}

/// The parts of an access filter: a border and the two counters.
pub struct ProxyFilterCollection<B: BorderControl>(Family<B>);

/// The names of the two counters are names that the metrics crate takes,
/// and their help texts are not empty.
pub proof fn counter_names_are_taken()
    ensures
        valid_metric_name(ALLOWED_NAME@),
        valid_metric_name(BLOCKED_NAME@),
        ALLOWED_HELP@.len() > 0,
        BLOCKED_HELP@.len() > 0,
{
    reveal_strlit("egress_http_request_allowed_total");
    reveal_strlit("egress_http_request_blocked_total");
    reveal_strlit("Total number of egress HTTP requests allowed.");
    reveal_strlit("Total number of egress HTTP requests blocked.");
    assert(name_chars_from(ALLOWED_NAME@, 0, true)) by {
        reveal_with_fuel(name_chars_from, 35);
    }
    assert(name_chars_from(BLOCKED_NAME@, 0, true)) by {
        reveal_with_fuel(name_chars_from, 35);
    }
    name_chars_checked(ALLOWED_NAME@, 0, true);
    name_chars_checked(BLOCKED_NAME@, 0, true);
}

impl ProxyFilterCollection<Border> {
    /// A filter behind a closed border, with both counters at zero.
    pub fn new() -> (r: Self)
        ensures
            r.border().table() == Map::<Seq<char>, (Seq<char>, u16)>::empty(),
            r.allowed() == no_counts(),
            r.blocked() == no_counts(),
    {
        proof {
            counter_names_are_taken();
            gateway_labels_are_names();
        }
        let allowed = match counter_new(
            ALLOWED_NAME,
            ALLOWED_HELP,
            METHOD_LABEL,
            (REALM_LABEL, REALM),
            (PIPELINE_LABEL, PIPELINE),
        ) {
            Ok(c) => c,
            Err(_) => unreached(),
        };
        let blocked = match counter_new(
            BLOCKED_NAME,
            BLOCKED_HELP,
            METHOD_LABEL,
            (REALM_LABEL, REALM),
            (PIPELINE_LABEL, PIPELINE),
        ) {
            Ok(c) => c,
            Err(_) => unreached(),
        };
        let border = HostControlBuilder::new().build();
        ProxyFilterCollection(Family { border, allowed, blocked })
    }
}

impl Default for ProxyFilterCollection<Border> {
    /// The same as `new`.
    fn default() -> (r: Self)
        ensures
            r.border().table() == Map::<Seq<char>, (Seq<char>, u16)>::empty(),
            r.allowed() == no_counts(),
            r.blocked() == no_counts(),
    {
        ProxyFilterCollection::new()
    }
}

impl<B: BorderControl> ProxyFilterCollection<B> {
    /// The border that the filter asks.
    pub closed spec fn border(&self) -> B {
        self.0.border
    }

    /// The counts of allowed requests.
    pub closed spec fn allowed(&self) -> Map<u64, i64> {
        counter_values(self.0.allowed)
    }

    /// The counts of blocked requests.
    pub closed spec fn blocked(&self) -> Map<u64, i64> {
        counter_values(self.0.blocked)
    }

    /// Whether a registry takes both counters: the one of allowed requests,
    /// and after it was offered that one, the one of blocked requests.
    pub closed spec fn taken_by(&self, registry: Registry) -> bool {
        counter_taken(registry, self.0.allowed) && counter_taken(
            registry_after_counter(registry, self.0.allowed),
            self.0.blocked,
        )
    }

    /// The registry that is left when both counters were offered to a
    /// registry, in their order.
    pub closed spec fn offered_to(&self, registry: Registry) -> Registry {
        registry_after_counter(registry_after_counter(registry, self.0.allowed), self.0.blocked)
    }

    /// The id by which a registry knows the counter of allowed requests.
    pub closed spec fn allowed_descriptor(&self) -> u64 {
        counter_id(self.0.allowed)
    }

    /// The id by which a registry knows the counter of blocked requests.
    pub closed spec fn blocked_descriptor(&self) -> u64 {
        counter_id(self.0.blocked)
    }

    /// The same filter behind another border. The counters stay.
    pub fn with_border<C: BorderControl>(self, border: C) -> (r: ProxyFilterCollection<C>)
        ensures
            r.border() == border,
            r.allowed() == self.allowed(),
            r.blocked() == self.blocked(),
    {
        let Family { border: _, allowed, blocked } = self.0;
        ProxyFilterCollection(Family { border, allowed, blocked })
    }

    /// Hands both counters to a registry, so that its snapshots show them,
    /// and says whether the registry took both: that is `taken_by`. The
    /// counter of allowed requests is offered first, then the counter of
    /// blocked ones, whatever became of the first. A registry that holds one
    /// of them already refuses that one. Where it took both, both are new in
    /// it; in any case it holds what it held, and of the two counters those
    /// it took.
    pub fn register(&self, registry: &mut Registry) -> (r: bool)
        ensures
            r == self.taken_by(*old(registry)),
            *final(registry) == self.offered_to(*old(registry)),
            r ==> !registered_ids(*old(registry)).contains(self.allowed_descriptor())
                && !registered_ids(*old(registry)).contains(self.blocked_descriptor())
                && self.allowed_descriptor() != self.blocked_descriptor(),
            r ==> registered_ids(*final(registry)) == registered_ids(*old(registry)).insert(
                self.allowed_descriptor(),
            ).insert(self.blocked_descriptor()),
            registered_ids(*old(registry)).subset_of(registered_ids(*final(registry))),
            registered_ids(*final(registry)).subset_of(
                registered_ids(*old(registry)).insert(self.allowed_descriptor()).insert(
                    self.blocked_descriptor(),
                ),
            ),
    {
        let allowed = counter_register(&self.0.allowed, registry);
        let blocked = counter_register(&self.0.blocked, registry);
        allowed && blocked
    }

    /// The filter itself.
    pub fn new_transform(self) -> (r: ProxyFilterMiddleware<B>)
        ensures
            r.border() == self.border(),
            r.allowed() == self.allowed(),
            r.blocked() == self.blocked(),
    {
        ProxyFilterMiddleware { family: self.0 }
    }
}

/// The access filter.
pub struct ProxyFilterMiddleware<B: BorderControl> {
    family: Family<B>,
}

impl<B: BorderControl> ProxyFilterMiddleware<B> {
    /// The border that the filter asks.
    pub closed spec fn border(&self) -> B {
        self.family.border
    }

    /// The counts of allowed requests.
    pub closed spec fn allowed(&self) -> Map<u64, i64> {
        counter_values(self.family.allowed)
    }

    /// The counts of blocked requests.
    pub closed spec fn blocked(&self) -> Map<u64, i64> {
        counter_values(self.family.blocked)
    }

    /// Decides on a request. Where the border lets it pass, the allowed
    /// counter of its method goes up by one and the verdict names the
    /// destination. Where the border denies it, the blocked counter of its
    /// method goes up by one and the verdict holds the rejection. The other
    /// counter and the border stay as they are.
    pub fn call(&mut self, req: &RequestContext) -> (r: Verdict)
        ensures
            final(self).border() == old(self).border(),
            filter_outcome(
                old(self).border().visa(*req),
                req.method@,
                old(self).allowed(),
                old(self).blocked(),
                r,
                final(self).allowed(),
                final(self).blocked(),
            ),
    {
        let visa = match self.family.border.request_visa(req) {
            Ok(d) => Ok(d.duplicate()),
            Err(e) => Err(e),
        };
        match visa {
            Ok(dest) => {
                counter_inc(&mut self.family.allowed, req.method.as_str());
                Verdict::Allowed(dest)
            },
            Err(denial) => {
                counter_inc(&mut self.family.blocked, req.method.as_str());
                Verdict::Denied(denial, rejection())
            },
        }
    }

    /// How many requests with this method were allowed.
    pub fn allowed_count(&self, method: &str) -> (r: i64)
        ensures
            r == self.allowed()[label_slot(method@)],
    {
        counter_get(&self.family.allowed, method)
    }

    /// How many requests with this method were blocked.
    pub fn blocked_count(&self, method: &str) -> (r: i64)
        ensures
            r == self.blocked()[label_slot(method@)],
    {
        counter_get(&self.family.blocked, method)
    }
}

} // verus!

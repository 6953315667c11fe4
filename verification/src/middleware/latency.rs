//! The latency stage: times the whole pipeline, reads back how long the
//! upstream took, and records both and their difference.

use crate::clock::nanos_of;
use crate::context::RequestContext;
use crate::context::ResponseContext;
use crate::instruments::bucket_free;
use crate::instruments::gateway_labels_are_names;
use crate::instruments::name_chars_checked;
use crate::instruments::name_chars_from;
use crate::instruments::valid_metric_name;
use crate::instruments::PIPELINE;
use crate::instruments::PIPELINE_LABEL;
use crate::instruments::REALM;
use crate::instruments::REALM_LABEL;
use crate::instruments::histogram_count;
use crate::instruments::histogram_id;
use crate::instruments::histogram_labels;
use crate::instruments::histogram_new;
use crate::instruments::histogram_observe;
use crate::instruments::histogram_register;
use crate::instruments::histogram_taken;
use crate::instruments::label_slot;
use crate::instruments::no_samples;
use crate::instruments::registered_ids;
use crate::instruments::registry_after_histogram;
use crate::instruments::sample_counts;
use crate::instruments::sampled;
use crate::instruments::LatencyHistogram;
use crate::instruments::METHOD_LABEL;
use prometheus::Registry;
use std::time::Duration;
use stopwatch::Stopwatch;
use vstd::prelude::*;

verus! {

pub const TOTAL_NAME: &'static str = "egress_http_proxy_total_duration_seconds";

pub const TOTAL_HELP: &'static str = "The total time in the egress proxy and egress request";

pub const OVERHEAD_NAME: &'static str = "egress_http_proxy_overhead_duration_seconds";

pub const OVERHEAD_HELP: &'static str =
    "The overhead time in egress proxy outside of egress request";

pub const EGRESS_NAME: &'static str = "egress_http_request_duration_seconds";

pub const EGRESS_HELP: &'static str = "The external HTTP request latencies in seconds.";

/// The names of the three histograms are names that the metrics crate
/// takes, and their help texts are not empty.
pub proof fn histogram_names_are_taken()
    ensures
        valid_metric_name(TOTAL_NAME@),
        valid_metric_name(EGRESS_NAME@),
        valid_metric_name(OVERHEAD_NAME@),
        TOTAL_HELP@.len() > 0,
        EGRESS_HELP@.len() > 0,
        OVERHEAD_HELP@.len() > 0,
{
    reveal_strlit("egress_http_proxy_total_duration_seconds");
    reveal_strlit("egress_http_request_duration_seconds");
    reveal_strlit("egress_http_proxy_overhead_duration_seconds");
    reveal_strlit("The total time in the egress proxy and egress request");
    reveal_strlit("The external HTTP request latencies in seconds.");
    reveal_strlit("The overhead time in egress proxy outside of egress request");
    assert(name_chars_from(TOTAL_NAME@, 0, true)) by {
        reveal_with_fuel(name_chars_from, 45);
    }
    assert(name_chars_from(EGRESS_NAME@, 0, true)) by {
        reveal_with_fuel(name_chars_from, 45);
    }
    assert(name_chars_from(OVERHEAD_NAME@, 0, true)) by {
        reveal_with_fuel(name_chars_from, 45);
    }
    name_chars_checked(TOTAL_NAME@, 0, true);
    name_chars_checked(EGRESS_NAME@, 0, true);
    name_chars_checked(OVERHEAD_NAME@, 0, true);
}

struct Family {
    total: LatencyHistogram,
    egress: LatencyHistogram,
    overhead: LatencyHistogram,
}

impl Family {
    spec fn usable(self) -> bool {
        &&& bucket_free(histogram_labels(self.total))
        &&& bucket_free(histogram_labels(self.egress))
        &&& bucket_free(histogram_labels(self.overhead))
    }
}

/// The time that the gateway itself spent on a request, in nanoseconds: the
/// whole time less the upstream's, and zero where the upstream's was
/// measured as the longer one.
pub open spec fn overhead_nanos(total: nat, egress: nat) -> int {
    if egress <= total {
        total - egress
    } else {
        0
    }
}

/// The overhead is never negative, and where the upstream's time is within
/// the whole time, the two add up to it.
pub proof fn overhead_is_never_negative(total: nat, egress: nat)
    ensures
        overhead_nanos(total, egress) >= 0,
        egress <= total ==> overhead_nanos(total, egress) + egress == total,
        egress > total ==> overhead_nanos(total, egress) == 0,
{
}

/// What the latency stage recorded for one request.
#[derive(Clone, Copy, Debug, PartialEq, Eq)]
pub struct LatencySamples {
    /// The time of the whole pipeline.
    pub total: Duration,
    /// The time that the upstream took, where the request got that far.
    pub egress: Option<Duration>,
    /// The time that the gateway itself took, where `egress` is known.
    pub overhead: Option<Duration>,
}

impl LatencySamples {
    /// The overhead in nanoseconds, where there is one.
    pub fn overhead_in_nanos(&self) -> (r: Option<u128>)
        ensures
            match self.overhead {
                Some(o) => r == Some(nanos_of(o) as u128) && nanos_of(o) <= u128::MAX,
                None => r is None,
            },
    {
        match &self.overhead {
            Some(o) => Some(o.as_nanos()),
            None => None,
        }
    }
}

/// Whether the samples are those for a request that took `total` as a whole
/// and `egress` at the upstream.
pub open spec fn samples_for(samples: LatencySamples, total: Duration, egress: Option<Duration>) -> bool {
    &&& samples.total == total
    &&& samples.egress == egress
    &&& match egress {
        Some(e) => samples.overhead matches Some(o) && nanos_of(o) == overhead_nanos(
            nanos_of(total),
            nanos_of(e),
        ),
        None => samples.overhead is None,
    }
}

/// Works out the samples for a request: the overhead is the whole time less
/// the upstream's, never below zero, and there is none where the upstream's
/// time is unknown.
pub fn latency_samples(total: Duration, egress: Option<Duration>) -> (r: LatencySamples)
    ensures
        samples_for(r, total, egress),
{
    let overhead = match egress {
        Some(e) => Some(total.saturating_sub(e)),
        None => None,
    };
    LatencySamples { total, egress, overhead }
}

/// The parts of a latency stage: the three histograms.
pub struct MeasureLatencyCollection(Family);

impl MeasureLatencyCollection {
    #[verifier::type_invariant]
    spec fn well_formed(self) -> bool {
        self.0.usable()
    }

    /// The numbers of samples of whole-pipeline time.
    pub closed spec fn total(&self) -> Map<u64, u64> {
        sample_counts(self.0.total)
    }

    /// The numbers of samples of upstream time.
    pub closed spec fn egress(&self) -> Map<u64, u64> {
        sample_counts(self.0.egress)
    }

    /// The numbers of samples of overhead.
    pub closed spec fn overhead(&self) -> Map<u64, u64> {
        sample_counts(self.0.overhead)
    }

    /// Whether a registry takes all three histograms, each after those
    /// before it were offered.
    pub closed spec fn taken_by(&self, registry: Registry) -> bool {
        let first = registry_after_histogram(registry, self.0.total);
        let second = registry_after_histogram(first, self.0.egress);
        histogram_taken(registry, self.0.total) && histogram_taken(first, self.0.egress)
            && histogram_taken(second, self.0.overhead)
    }

    /// The registry that is left when the three histograms were offered to
    /// a registry, in their order.
    pub closed spec fn offered_to(&self, registry: Registry) -> Registry {
        registry_after_histogram(
            registry_after_histogram(
                registry_after_histogram(registry, self.0.total),
                self.0.egress,
            ),
            self.0.overhead,
        )
    }

    /// The id by which a registry knows the histogram of whole-pipeline
    /// time.
    pub closed spec fn total_descriptor(&self) -> u64 {
        histogram_id(self.0.total)
    }

    /// The id by which a registry knows the histogram of upstream time.
    pub closed spec fn egress_descriptor(&self) -> u64 {
        histogram_id(self.0.egress)
    }

    /// The id by which a registry knows the histogram of overhead.
    pub closed spec fn overhead_descriptor(&self) -> u64 {
        histogram_id(self.0.overhead)
    }

    /// The ids of a registry together with those of the three histograms.
    pub open spec fn with_descriptors(&self, ids: Set<u64>) -> Set<u64> {
        ids.insert(self.total_descriptor()).insert(self.egress_descriptor()).insert(
            self.overhead_descriptor(),
        )
    }

    /// Three empty histograms.
    pub fn new() -> (r: Self)
        ensures
            r.total() == no_samples(),
            r.egress() == no_samples(),
            r.overhead() == no_samples(),
    {
        proof {
            histogram_names_are_taken();
            gateway_labels_are_names();
        }
        let total = match histogram_new(
            TOTAL_NAME,
            TOTAL_HELP,
            METHOD_LABEL,
            (REALM_LABEL, REALM),
            (PIPELINE_LABEL, PIPELINE),
        ) {
            Ok(h) => h,
            Err(_) => unreached(),
        };
        let egress = match histogram_new(
            EGRESS_NAME,
            EGRESS_HELP,
            METHOD_LABEL,
            (REALM_LABEL, REALM),
            (PIPELINE_LABEL, PIPELINE),
        ) {
            Ok(h) => h,
            Err(_) => unreached(),
        };
        let overhead = match histogram_new(
            OVERHEAD_NAME,
            OVERHEAD_HELP,
            METHOD_LABEL,
            (REALM_LABEL, REALM),
            (PIPELINE_LABEL, PIPELINE),
        ) {
            Ok(h) => h,
            Err(_) => unreached(),
        };
        MeasureLatencyCollection(Family { total, egress, overhead })
    }

    /// Hands the histograms to a registry, so that its snapshots show them,
    /// and says whether the registry took all three: that is `taken_by`.
    /// The histograms are offered in the order of whole time, upstream time
    /// and overhead, each whatever became of the others. A registry that
    /// holds one of them already refuses that one. Where it took all three,
    /// all three are new in it; in any case it holds what it held, and of
    /// the three histograms those it took.
    pub fn register(&self, registry: &mut Registry) -> (r: bool)
        ensures
            r == self.taken_by(*old(registry)),
            *final(registry) == self.offered_to(*old(registry)),
            r ==> !registered_ids(*old(registry)).contains(self.total_descriptor())
                && !registered_ids(*old(registry)).contains(self.egress_descriptor())
                && !registered_ids(*old(registry)).contains(self.overhead_descriptor()),
            r ==> self.total_descriptor() != self.egress_descriptor() && self.total_descriptor()
                != self.overhead_descriptor() && self.egress_descriptor()
                != self.overhead_descriptor(),
            r ==> registered_ids(*final(registry)) == self.with_descriptors(
                registered_ids(*old(registry)),
            ),
            registered_ids(*old(registry)).subset_of(registered_ids(*final(registry))),
            registered_ids(*final(registry)).subset_of(
                self.with_descriptors(registered_ids(*old(registry))),
            ),
    {
        let total = histogram_register(&self.0.total, registry);
        let egress = histogram_register(&self.0.egress, registry);
        let overhead = histogram_register(&self.0.overhead, registry);
        total && egress && overhead
    }

    /// The stage itself.
    pub fn new_transform(self) -> (r: MeasureLatencyMiddleware)
        ensures
            r.total() == self.total(),
            r.egress() == self.egress(),
            r.overhead() == self.overhead(),
    {
        proof {
            use_type_invariant(&self);
        }
        MeasureLatencyMiddleware { family: self.0 }
    }
}

/// The time of one request through the pipeline, running.
pub struct LatencyTimer {
    /// The method of the request that is being timed.
    pub method: String,
    /// Runs from the moment the request entered the stage.
    pub watch: Stopwatch,
}

/// The latency stage.
pub struct MeasureLatencyMiddleware {
    family: Family,
}

impl MeasureLatencyMiddleware {
    #[verifier::type_invariant]
    spec fn well_formed(self) -> bool {
        self.family.usable()
    }

    /// The numbers of samples of whole-pipeline time.
    pub closed spec fn total(&self) -> Map<u64, u64> {
        sample_counts(self.family.total)
    }

    /// The numbers of samples of upstream time.
    pub closed spec fn egress(&self) -> Map<u64, u64> {
        sample_counts(self.family.egress)
    }

    /// The numbers of samples of overhead.
    pub closed spec fn overhead(&self) -> Map<u64, u64> {
        sample_counts(self.family.overhead)
    }

    /// Starts timing a request. Call this before anything else is done with
    /// the request.
    pub fn start(&self, req: &RequestContext) -> (r: LatencyTimer)
        ensures
            r.method@ == req.method@,
    {
        LatencyTimer { method: req.method.clone(), watch: Stopwatch::start_new() }
    }

    /// Records a request that took `total` as a whole and `egress` at the
    /// upstream. The whole time is always recorded. The upstream's time and
    /// the overhead are recorded where the upstream's time is known, and
    /// left alone where it is not. What is returned is what the histograms
    /// were handed.
    pub fn record(&mut self, method: &str, total: Duration, egress: Option<Duration>) -> (r:
        LatencySamples)
        ensures
            samples_for(r, total, egress),
            final(self).total() == sampled(old(self).total(), method@),
            final(self).egress() == if egress is Some {
                sampled(old(self).egress(), method@)
            } else {
                old(self).egress()
            },
            final(self).overhead() == if egress is Some {
                sampled(old(self).overhead(), method@)
            } else {
                old(self).overhead()
            },
    {
        proof {
            use_type_invariant(&*self);
        }
        let samples = latency_samples(total, egress);
        histogram_observe(&mut self.family.total, method, samples.total);
        match samples.egress {
            Some(e) => histogram_observe(&mut self.family.egress, method, e),
            None => {},
        }
        match samples.overhead {
            Some(o) => histogram_observe(&mut self.family.overhead, method, o),
            None => {},
        }
        samples
    }

    /// Ends the timing of a request whose response is at hand: reads the
    /// stopwatch, takes the upstream's time out of the response's metadata,
    /// and records as `record` does. Status and header lines stay. The timer
    /// is used up, so that no request is recorded twice.
    pub fn finish(&mut self, timer: LatencyTimer, response: &mut ResponseContext) -> (r:
        LatencySamples)
        ensures
            final(response).status == old(response).status,
            final(response).headers == old(response).headers,
            final(response).metadata.egress() is None,
            r.egress == old(response).metadata.egress(),
            samples_for(r, r.total, r.egress),
            final(self).total() == sampled(old(self).total(), timer.method@),
            final(self).egress() == if r.egress is Some {
                sampled(old(self).egress(), timer.method@)
            } else {
                old(self).egress()
            },
            final(self).overhead() == if r.egress is Some {
                sampled(old(self).overhead(), timer.method@)
            } else {
                old(self).overhead()
            },
    {
        let total = timer.watch.elapsed();
        let egress = response.metadata.take_egress();
        self.record(timer.method.as_str(), total, egress)
    }

    /// How many requests with this method had their whole time recorded.
    pub fn total_samples(&self, method: &str) -> (r: u64)
        ensures
            r == self.total()[label_slot(method@)],
    {
        proof {
            use_type_invariant(self);
        }
        histogram_count(&self.family.total, method)
    }

    /// How many requests with this method had their upstream time recorded.
    pub fn egress_samples(&self, method: &str) -> (r: u64)
        ensures
            r == self.egress()[label_slot(method@)],
    {
        proof {
            use_type_invariant(self);
        }
        histogram_count(&self.family.egress, method)
    }

    /// How many requests with this method had their overhead recorded.
    pub fn overhead_samples(&self, method: &str) -> (r: u64)
        ensures
            r == self.overhead()[label_slot(method@)],
    {
        proof {
            use_type_invariant(self);
        }
        histogram_count(&self.family.overhead, method)
    }
}

} // verus!

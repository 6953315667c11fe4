//! The metric instruments of the gateway, kept by the `prometheus` crate:
//! counters and histograms with one varying label, and a gauge, each with
//! two constant labels.
//!
//! The three structs hold a `prometheus` value that Verus cannot look into,
//! and the functions of this file that call the crate state what the library
//! believes of it; these are not proved. Each instrument is written through
//! `&mut` only, and the library never copies one: what is stated of a write
//! holds while the instrument is written through this one handle. A registry
//! that an instrument was handed to only reads it, and what is stated of a
//! registry holds while instruments are handed to it through one handle.

use prometheus::Histogram;
use prometheus::HistogramOpts;
use prometheus::HistogramVec;
use prometheus::IntCounterVec;
use prometheus::IntGauge;
use prometheus::Opts;
use prometheus::Registry;
use std::time::Duration;
use vstd::prelude::*;
use vstd::utf8::encode_utf8;

verus! {

/// `prometheus::Error`.
#[verifier::external_type_specification]
#[verifier::external_body]
pub struct ExMetricError(prometheus::Error);

/// `prometheus::Registry`, the set of instruments that a snapshot covers.
#[verifier::external_type_specification]
#[verifier::external_body]
pub struct ExRegistry(Registry);

/// A `prometheus::IntCounterVec` with one label: a counter for each value of
/// the label.
#[verifier::external_body]
pub struct MethodCounter {
    vec: IntCounterVec,
}

/// A `prometheus::IntGauge`: one integer that can be set.
#[verifier::external_body]
pub struct SizeGauge {
    gauge: IntGauge,
}

/// A `prometheus::HistogramVec` with one label: a histogram of seconds for
/// each value of the label.
#[verifier::external_body]
pub struct LatencyHistogram {
    vec: HistogramVec,
}

/// Why an instrument could not be made.
#[derive(Clone, Copy, Debug, PartialEq, Eq, Structural)]
pub enum MetricsError {
    /// The `prometheus` crate refused the name, the help text or the label.
    Rejected,
}

/// The value from which the hash of the metrics crate starts.
pub const HASH_BASIS: u64 = 0xcbf2_9ce4_8422_2325;

/// The factor of the hash of the metrics crate.
pub const HASH_PRIME: u64 = 0x0100_0000_01b3;

/// One step of the hash: the byte is mixed in, then the whole is multiplied,
/// and what goes beyond 64 bits is dropped.
pub open spec fn hash_step(hash: u64, byte: u8) -> u64 {
    (((hash ^ (byte as u64)) * HASH_PRIME) % 0x1_0000_0000_0000_0000) as u64
}

/// The hash of bytes: one step for each, from the first on.
pub open spec fn hash_of(bytes: Seq<u8>) -> u64
    decreases bytes.len(),
{
    if bytes.len() == 0 {
        HASH_BASIS
    } else {
        hash_step(hash_of(bytes.drop_last()), bytes.last())
    }
}

/// The slot under which a vector keeps the child for a label value: the
/// hash of the value's bytes, as the metrics crate computes it. Two values
/// share a child only where they share the slot.
pub open spec fn label_slot(value: Seq<char>) -> u64 {
    hash_of(encode_utf8(value))
}

/// What a counter vector holds: for each slot, the count that is read there.
/// A slot that was never counted in reads zero.
pub uninterp spec fn counter_values(c: MethodCounter) -> Map<u64, i64>;

/// What a gauge holds.
pub uninterp spec fn gauge_value(g: SizeGauge) -> i64;

/// What a histogram vector holds, as far as this library speaks of it: for
/// each slot, the number of samples observed there.
pub uninterp spec fn sample_counts(h: LatencyHistogram) -> Map<u64, u64>;

/// The names of the labels that a histogram vector was made with, the one
/// that varies and those that are constant.
pub uninterp spec fn histogram_labels(h: LatencyHistogram) -> Set<Seq<char>>;

/// What a registry holds, as far as this library speaks of it: the ids of
/// the descriptors of the instruments that it took.
pub uninterp spec fn registered_ids(registry: Registry) -> Set<u64>;

/// The id of a counter vector's one descriptor, by which a registry knows
/// the vector.
pub uninterp spec fn counter_id(c: MethodCounter) -> u64;

/// The id of a gauge's one descriptor.
pub uninterp spec fn gauge_id(g: SizeGauge) -> u64;

/// The id of a histogram vector's one descriptor.
pub uninterp spec fn histogram_id(h: LatencyHistogram) -> u64;

/// Whether `Registry::register` takes a counter vector into a registry.
pub uninterp spec fn counter_taken(registry: Registry, c: MethodCounter) -> bool;

/// The registry that `Registry::register` leaves when it is offered a
/// counter vector, whether it takes the vector or not.
pub uninterp spec fn registry_after_counter(registry: Registry, c: MethodCounter) -> Registry;

/// Whether `Registry::register` takes a gauge into a registry.
pub uninterp spec fn gauge_taken(registry: Registry, g: SizeGauge) -> bool;

/// The registry that `Registry::register` leaves when it is offered a gauge.
pub uninterp spec fn registry_after_gauge(registry: Registry, g: SizeGauge) -> Registry;

/// Whether `Registry::register` takes a histogram vector into a registry.
pub uninterp spec fn histogram_taken(registry: Registry, h: LatencyHistogram) -> bool;

/// The registry that `Registry::register` leaves when it is offered a
/// histogram vector.
pub uninterp spec fn registry_after_histogram(registry: Registry, h: LatencyHistogram) -> Registry;

/// The ids that a registry holds after it was offered an instrument: one
/// more where it took the instrument, the same where it refused.
pub open spec fn offered(ids: Set<u64>, id: u64, taken: bool) -> Set<u64> {
    if taken {
        ids.insert(id)
    } else {
        ids
    }
}

/// Whether a character may start a name: a letter, `_`, and for the name
/// of a metric also `:`.
pub open spec fn name_start(c: char, colon: bool) -> bool {
    ('a' <= c && c <= 'z') || ('A' <= c && c <= 'Z') || c == '_' || (colon && c == ':')
}

/// Whether a character may stand in a name: what may start it, or a digit.
pub open spec fn name_char(c: char, colon: bool) -> bool {
    name_start(c, colon) || ('0' <= c && c <= '9')
}

/// Whether a text is a name: not empty, started by a character that may
/// start a name and made of characters that may stand in one.
pub open spec fn valid_name(text: Seq<char>, colon: bool) -> bool {
    &&& text.len() > 0
    &&& name_start(text[0], colon)
    &&& forall|i: int| 0 <= i < text.len() ==> name_char(#[trigger] text[i], colon)
}

/// Whether the metrics crate takes a text for the name of a metric.
pub open spec fn valid_metric_name(text: Seq<char>) -> bool {
    valid_name(text, true)
}

/// Whether the metrics crate takes a text for the name of a label.
pub open spec fn valid_label_name(text: Seq<char>) -> bool {
    valid_name(text, false)
}

/// Whether the metrics crate makes an instrument without a varying label
/// under this name, with this help text and with constant labels of these
/// two names: the help text is not empty and each name is a name of its
/// kind.
pub open spec fn gauge_accepted(
    name: Seq<char>,
    help: Seq<char>,
    first: Seq<char>,
    second: Seq<char>,
) -> bool {
    &&& help.len() > 0
    &&& valid_metric_name(name)
    &&& valid_label_name(first)
    &&& valid_label_name(second)
}

/// Whether the metrics crate makes a vector of instruments: as for a single
/// instrument, and the varying label has a name as well.
pub open spec fn vector_accepted(
    name: Seq<char>,
    help: Seq<char>,
    label: Seq<char>,
    first: Seq<char>,
    second: Seq<char>,
) -> bool {
    gauge_accepted(name, help, first, second) && valid_label_name(label)
}

/// Whether the characters of a text from a place on may stand in a name.
pub open spec fn name_chars_from(text: Seq<char>, i: int, colon: bool) -> bool
    decreases text.len() - i,
{
    if i < 0 || i >= text.len() {
        true
    } else {
        name_char(text[i], colon) && name_chars_from(text, i + 1, colon)
    }
}

/// A text whose characters were checked one after the other, from a place
/// on, has only characters from there on that may stand in a name.
pub proof fn name_chars_checked(text: Seq<char>, i: int, colon: bool)
    requires
        0 <= i,
        name_chars_from(text, i, colon),
    ensures
        forall|j: int| i <= j < text.len() ==> name_char(#[trigger] text[j], colon),
    decreases text.len() - i,
{
    if i < text.len() {
        name_chars_checked(text, i + 1, colon);
    }
}

/// A counter vector in which nothing was counted yet.
pub open spec fn no_counts() -> Map<u64, i64> {
    Map::total(|slot: u64| 0i64)
}

/// A histogram vector in which nothing was observed yet.
pub open spec fn no_samples() -> Map<u64, u64> {
    Map::total(|slot: u64| 0u64)
}

/// The count after one more: the crate adds with wrap-around.
pub open spec fn next_count(v: i64) -> i64 {
    if v == i64::MAX {
        i64::MIN
    } else {
        (v + 1) as i64
    }
}

/// The number of samples after one more, with wrap-around.
pub open spec fn next_sample_count(v: u64) -> u64 {
    if v == u64::MAX {
        0
    } else {
        (v + 1) as u64
    }
}

/// The label by which the gateway tells its series apart: the HTTP method.
pub const METHOD_LABEL: &'static str = "method";

/// The name of the constant label that tells the realm.
pub const REALM_LABEL: &'static str = "realm";

/// The realm of this gateway.
pub const REALM: &'static str = "ex-realm";

/// The name of the constant label that tells the pipeline.
pub const PIPELINE_LABEL: &'static str = "pipeline_id";

/// The pipeline of this gateway.
pub const PIPELINE: &'static str = "ex-pipeline-id";

/// The three label names of the gateway are names that the metrics crate
/// takes, and none of them is the one that it keeps for buckets.
pub proof fn gateway_labels_are_names()
    ensures
        valid_label_name(METHOD_LABEL@),
        valid_label_name(REALM_LABEL@),
        valid_label_name(PIPELINE_LABEL@),
        !is_bucket_label(METHOD_LABEL@),
        !is_bucket_label(REALM_LABEL@),
        !is_bucket_label(PIPELINE_LABEL@),
{
    reveal_strlit("method");
    reveal_strlit("realm");
    reveal_strlit("pipeline_id");
    reveal_strlit("le");
    assert(name_chars_from(METHOD_LABEL@, 0, false) && name_chars_from(REALM_LABEL@, 0, false)
        && name_chars_from(PIPELINE_LABEL@, 0, false)) by {
        reveal_with_fuel(name_chars_from, 12);
    }
    name_chars_checked(METHOD_LABEL@, 0, false);
    name_chars_checked(REALM_LABEL@, 0, false);
    name_chars_checked(PIPELINE_LABEL@, 0, false);
    assert(METHOD_LABEL@.len() != "le"@.len());
    assert(REALM_LABEL@.len() != "le"@.len());
    assert(PIPELINE_LABEL@.len() != "le"@.len());
}

/// The counts after one more for a label value.
pub open spec fn counted(counts: Map<u64, i64>, value: Seq<char>) -> Map<u64, i64> {
    counts.insert(label_slot(value), next_count(counts[label_slot(value)]))
}

/// The numbers of samples after one more for a label value.
pub open spec fn sampled(counts: Map<u64, u64>, value: Seq<char>) -> Map<u64, u64> {
    counts.insert(label_slot(value), next_sample_count(counts[label_slot(value)]))
}

/// The one label that a histogram vector cannot work with: the crate keeps
/// `le` for the buckets.
pub open spec fn is_bucket_label(label: Seq<char>) -> bool {
    label == "le"@
}

/// Whether none of these label names is the one kept for the buckets.
pub open spec fn bucket_free(labels: Set<Seq<char>>) -> bool {
    forall|label: Seq<char>| #[trigger] labels.contains(label) ==> !is_bucket_label(label)
}

/// `IntCounterVec::new` on `Opts::new(name, help)` with two constant labels,
/// and the one label that varies. The crate makes the vector exactly where
/// the help text is not empty and the names are names; a new vector reads
/// zero everywhere.
#[verifier::external_body]
pub(crate) fn counter_new(
    name: &str,
    help: &str,
    label: &str,
    first: (&str, &str),
    second: (&str, &str),
) -> (r: Result<MethodCounter, prometheus::Error>)
    ensures
        r is Ok == vector_accepted(name@, help@, label@, first.0@, second.0@),
        r matches Ok(c) ==> counter_values(c) == no_counts(),
{
    let opts = Opts::new(name, help).const_label(first.0, first.1).const_label(second.0, second.1);
    Ok(MethodCounter { vec: IntCounterVec::new(opts, &[label])? })
}

/// `with_label_values` and `IntCounter::inc`: adds one, with wrap-around, to
/// the child in the slot of `value`, and touches no other slot. The vector
/// has one label, so one value is what `with_label_values` asks for.
#[verifier::external_body]
pub(crate) fn counter_inc(c: &mut MethodCounter, value: &str)
    ensures
        counter_values(*final(c)) == counted(counter_values(*old(c)), value@),
{
    c.vec.with_label_values(&[value]).inc()
}

/// `with_label_values` and `IntCounter::get`: the count in the slot of
/// `value`.
#[verifier::external_body]
pub(crate) fn counter_get(c: &MethodCounter, value: &str) -> (r: i64)
    ensures
        r == counter_values(*c)[label_slot(value@)],
{
    c.vec.with_label_values(&[value]).get()
}

/// `Registry::register` on a handle to the counter vector, and whether the
/// registry took it. The answer and the registry that is left depend on the
/// registry and the vector alone, and are named. The registry refuses an
/// instrument whose descriptor it holds already. It adds the descriptor's id
/// where it takes the instrument, and leaves its ids alone where it refuses.
#[verifier::external_body]
pub(crate) fn counter_register(c: &MethodCounter, registry: &mut Registry) -> (r: bool)
    ensures
        r == counter_taken(*old(registry), *c),
        *final(registry) == registry_after_counter(*old(registry), *c),
        r ==> !registered_ids(*old(registry)).contains(counter_id(*c)),
        registered_ids(*final(registry)) == offered(
            registered_ids(*old(registry)),
            counter_id(*c),
            r,
        ),
{
    registry.register(Box::new(c.vec.clone())).is_ok()
}

/// `IntGauge::with_opts` on `Opts::new(name, help)` with two constant
/// labels. The crate makes the gauge exactly where the help text is not
/// empty and the names are names; a new gauge reads zero.
#[verifier::external_body]
pub(crate) fn gauge_new(name: &str, help: &str, first: (&str, &str), second: (&str, &str)) -> (r:
    Result<SizeGauge, prometheus::Error>)
    ensures
        r is Ok == gauge_accepted(name@, help@, first.0@, second.0@),
        r matches Ok(g) ==> gauge_value(g) == 0,
{
    let opts = Opts::new(name, help).const_label(first.0, first.1).const_label(second.0, second.1);
    Ok(SizeGauge { gauge: IntGauge::with_opts(opts)? })
}

/// `IntGauge::set`: the gauge then reads `v`.
#[verifier::external_body]
pub(crate) fn gauge_set(g: &mut SizeGauge, v: i64)
    ensures
        gauge_value(*final(g)) == v,
{
    g.gauge.set(v)
}

/// `IntGauge::get`.
#[verifier::external_body]
pub(crate) fn gauge_get(g: &SizeGauge) -> (r: i64)
    ensures
        r == gauge_value(*g),
{
    g.gauge.get()
}

/// `Registry::register` on a handle to the gauge, and whether the registry
/// took it; stated as for a counter vector.
#[verifier::external_body]
pub(crate) fn gauge_register(g: &SizeGauge, registry: &mut Registry) -> (r: bool)
    ensures
        r == gauge_taken(*old(registry), *g),
        *final(registry) == registry_after_gauge(*old(registry), *g),
        r ==> !registered_ids(*old(registry)).contains(gauge_id(*g)),
        registered_ids(*final(registry)) == offered(registered_ids(*old(registry)), gauge_id(*g), r),
{
    registry.register(Box::new(g.gauge.clone())).is_ok()
}

/// `HistogramVec::new` on `HistogramOpts::new(name, help)` with two constant
/// labels, the crate's default buckets, and the one label that varies. The
/// crate makes the vector exactly where the help text is not empty and the
/// names are names; a new vector holds no sample and has the three names
/// for its labels, in no order.
#[verifier::external_body]
pub(crate) fn histogram_new(
    name: &str,
    help: &str,
    label: &str,
    first: (&str, &str),
    second: (&str, &str),
) -> (r: Result<LatencyHistogram, prometheus::Error>)
    ensures
        r is Ok == vector_accepted(name@, help@, label@, first.0@, second.0@),
        r matches Ok(h) ==> sample_counts(h) == no_samples() && histogram_labels(h) == set![
            label@,
            first.0@,
            second.0@,
        ],
{
    let opts = HistogramOpts::new(name, help).const_label(first.0, first.1).const_label(
        second.0,
        second.1,
    );
    Ok(LatencyHistogram { vec: HistogramVec::new(opts, &[label])? })
}

/// `with_label_values` and `Histogram::observe` on the span in seconds: one
/// more sample in the slot of `value`, none elsewhere. Of the span itself
/// the vector keeps a sum and buckets, of which nothing is stated. The crate
/// refuses to make a child where a label
/// is named `le`, and `with_label_values` then panics; the `requires` keeps
/// such a vector out, and on what remains the call returns.
#[verifier::external_body]
pub(crate) fn histogram_observe(h: &mut LatencyHistogram, value: &str, span: Duration)
    requires
        bucket_free(histogram_labels(*old(h))),
    ensures
        histogram_labels(*final(h)) == histogram_labels(*old(h)),
        sample_counts(*final(h)) == sampled(sample_counts(*old(h)), value@),
    no_unwind
{
    h.vec.with_label_values(&[value]).observe(span.as_secs_f64())
}

/// `with_label_values`, then the sample count of the child's `metric()`.
#[verifier::external_body]
pub(crate) fn histogram_count(h: &LatencyHistogram, value: &str) -> (r: u64)
    requires
        bucket_free(histogram_labels(*h)),
    ensures
        r == sample_counts(*h)[label_slot(value@)],
{
    let child: Histogram = h.vec.with_label_values(&[value]);
    prometheus::core::Metric::metric(&child).get_histogram().get_sample_count()
}

/// `Registry::register` on a handle to the histogram vector, and whether
/// the registry took it; stated as for a counter vector.
#[verifier::external_body]
pub(crate) fn histogram_register(h: &LatencyHistogram, registry: &mut Registry) -> (r: bool)
    ensures
        r == histogram_taken(*old(registry), *h),
        *final(registry) == registry_after_histogram(*old(registry), *h),
        r ==> !registered_ids(*old(registry)).contains(histogram_id(*h)),
        registered_ids(*final(registry)) == offered(
            registered_ids(*old(registry)),
            histogram_id(*h),
            r,
        ),
{
    registry.register(Box::new(h.vec.clone())).is_ok()
}

} // verus!

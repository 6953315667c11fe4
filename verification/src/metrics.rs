//! The volume telemetry of the forwarder: the size of the body that the last
//! request announced.

use crate::instruments::gateway_labels_are_names;
use crate::instruments::name_chars_checked;
use crate::instruments::name_chars_from;
use crate::instruments::valid_metric_name;
use crate::instruments::PIPELINE;
use crate::instruments::PIPELINE_LABEL;
use crate::instruments::REALM;
use crate::instruments::REALM_LABEL;
use crate::instruments::gauge_get;
use crate::instruments::gauge_id;
use crate::instruments::gauge_new;
use crate::instruments::gauge_register;
use crate::instruments::gauge_set;
use crate::instruments::gauge_taken;
use crate::instruments::gauge_value;
use crate::instruments::offered;
use crate::instruments::registered_ids;
use crate::instruments::registry_after_gauge;
use crate::instruments::MetricsError;
use crate::instruments::SizeGauge;
use prometheus::Registry;
use vstd::prelude::*;

verus! {

/// The name under which the body size is exposed.
pub const BODY_SIZE_NAME: &'static str = "egress_http_response_size_bytes";

/// The help text of the body size.
pub const BODY_SIZE_HELP: &'static str = "The HTTP response sizes in bytes.";

/// The usual name of the gauge is a name that the metrics crate takes, and
/// its help text is not empty.
pub proof fn usual_name_is_taken()
    ensures
        valid_metric_name(BODY_SIZE_NAME@),
        BODY_SIZE_HELP@.len() > 0,
{
    reveal_strlit("egress_http_response_size_bytes");
    reveal_strlit("The HTTP response sizes in bytes.");
    assert(name_chars_from(BODY_SIZE_NAME@, 0, true)) by {
        reveal_with_fuel(name_chars_from, 33);
    }
    name_chars_checked(BODY_SIZE_NAME@, 0, true);
}

/// The instruments of the forwarder.
pub struct Family {
    pub body_size: SizeGauge,
}

/// The forwarder's instruments, made once and handed to each call.
pub struct MetricsCollection(pub Family);

impl MetricsCollection {
    /// The body size that the gauge shows.
    pub open spec fn body_size(&self) -> i64 {
        gauge_value(self.0.body_size)
    }

    /// Whether a registry takes the gauge.
    pub open spec fn taken_by(&self, registry: Registry) -> bool {
        gauge_taken(registry, self.0.body_size)
    }

    /// The registry that is left when the gauge is offered to a registry.
    pub open spec fn offered_to(&self, registry: Registry) -> Registry {
        registry_after_gauge(registry, self.0.body_size)
    }

    /// The id by which a registry knows the gauge.
    pub open spec fn descriptor(&self) -> u64 {
        gauge_id(self.0.body_size)
    }

    /// Makes the gauge under its usual name, at zero.
    pub fn new() -> (r: MetricsCollection)
        ensures
            r.body_size() == 0,
    {
        proof {
            usual_name_is_taken();
        }
        match MetricsCollection::named(BODY_SIZE_NAME, BODY_SIZE_HELP) {
            Ok(m) => m,
            Err(_) => unreached(),
        }
    }

    /// Makes the gauge under a name of the caller's choice, at zero. It
    /// fails exactly where the help text is empty or the name is none that
    /// the metrics crate takes for a metric.
    pub fn named(name: &str, help: &str) -> (r: Result<MetricsCollection, MetricsError>)
        ensures
            r is Ok == (help@.len() > 0 && valid_metric_name(name@)),
            r matches Ok(m) ==> m.body_size() == 0,
            r matches Err(e) ==> e == MetricsError::Rejected,
    {
        proof {
            gateway_labels_are_names();
        }
        match gauge_new(name, help, (REALM_LABEL, REALM), (PIPELINE_LABEL, PIPELINE)) {
            Ok(g) => Ok(MetricsCollection(Family { body_size: g })),
            Err(_) => Err(MetricsError::Rejected),
        }
    }

    /// Shows `size` on the gauge.
    pub fn record_body_size(&mut self, size: i64)
        ensures
            final(self).body_size() == size,
    {
        gauge_set(&mut self.0.body_size, size);
    }

    /// Reads the gauge.
    pub fn current_body_size(&self) -> (r: i64)
        ensures
            r == self.body_size(),
    {
        gauge_get(&self.0.body_size)
    }

    /// Hands the gauge to a registry, so that its snapshots show it, and
    /// says whether the registry took it: that is `taken_by`, which the
    /// registry and the gauge decide between them. A registry that holds the
    /// gauge already refuses. Taken, the gauge is in the registry; refused,
    /// the registry holds the ids that it held.
    pub fn register(&self, registry: &mut Registry) -> (r: bool)
        ensures
            r == self.taken_by(*old(registry)),
            *final(registry) == self.offered_to(*old(registry)),
            r ==> !registered_ids(*old(registry)).contains(self.descriptor()),
            registered_ids(*final(registry)) == offered(
                registered_ids(*old(registry)),
                self.descriptor(),
                r,
            ),
    {
        gauge_register(&self.0.body_size, registry)
    }
}

} // verus!

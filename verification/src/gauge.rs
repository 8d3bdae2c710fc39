//! The gauge record builder: assembles one immutable, schema-correct
//! metrics export request from typed inputs.

use vstd::prelude::*;

use crate::clock::{now_epoch_nanos, to_unix_nano_spec, EpochNanos};
use crate::command::{DataPointOptions, MetricOptions};
use crate::resource::{consume_schema, taken_schema_url, ResourceOptions};
use crate::wire::{
    kvs_of_attrs, ExportMetricsServiceRequest, Gauge, Metric, MetricData, NumberDataPoint,
    NumberValue, Resource, ScopeMetrics,
};

verus! {

/// The wire timestamp of an optional user instant: the instant itself when
/// given, otherwise the build-time wall clock `now`.
pub open spec fn resolve_time(t: Option<EpochNanos>, now: EpochNanos) -> int {
    match t {
        Some(e) => to_unix_nano_spec(e),
        None => to_unix_nano_spec(now),
    }
}

/// Defaulted timestamps are non-decreasing across repeated invocations: if
/// the wall clock reads `n1` at one build and the no-earlier `n2` at a
/// later build, a data point whose own instant was omitted is stamped no
/// later in the first request than in the second. Readings outside the
/// representable nanosecond range are left out: such a reading stamps 0
/// wherever the clock stands.
pub proof fn lemma_default_time_monotone(n1: EpochNanos, n2: EpochNanos)
    requires
        n1.nanos is Some,
        n2.nanos is Some,
        n1.nanos->0 <= n2.nanos->0,
    ensures
        resolve_time(None, n1) <= resolve_time(None, n2),
{
}

/// `r` is the wire resource of `res`: its attributes one-for-one, dropped
/// count 0.
pub open spec fn resource_matches(r: Option<Resource>, res: ResourceOptions) -> bool {
    match r {
        Some(rr) => rr.dropped_attributes_count == 0 && kvs_of_attrs(
            rr.attributes@,
            res.resources@,
        ),
        None => false,
    }
}

/// `p` is the one gauge data point built from `dp` and `value` at wall
/// clock `now`: attributes mapped in order, both timestamps resolved
/// against `now`, flags 0, the value present as given.
pub open spec fn gauge_data_point_matches(
    p: NumberDataPoint,
    dp: DataPointOptions,
    value: NumberValue,
    now: EpochNanos,
) -> bool {
    &&& kvs_of_attrs(p.attributes@, dp.attributes@)
    &&& p.start_time_unix_nano == resolve_time(dp.start_time, now)
    &&& p.time_unix_nano == resolve_time(dp.time, now)
    &&& p.flags == 0
    &&& p.value == Some(value)
}

/// `m` is the one metric built from the gauge inputs: name as given,
/// description and unit defaulting to empty, and exactly one data point.
pub open spec fn gauge_metric_matches(
    m: Metric,
    metric: MetricOptions,
    dp: DataPointOptions,
    value: NumberValue,
    now: EpochNanos,
) -> bool {
    &&& m.name@ == metric.name@
    &&& m.description@ == match metric.description {
        Some(d) => d@,
        None => Seq::<char>::empty(),
    }
    &&& m.unit@ == match metric.unit {
        Some(u) => u@,
        None => Seq::<char>::empty(),
    }
    &&& match m.data {
        Some(MetricData::Gauge(g)) => g.data_points@.len() == 1 && gauge_data_point_matches(
            g.data_points@[0],
            dp,
            value,
            now,
        ),
        None => false,
    }
}

/// `r` is the single-resource gauge export request built from the inputs:
/// exactly one resource-metrics group holding exactly one scope-metrics
/// group (no scope) holding exactly one metric, with the schema URL taken
/// from `res` on both levels that carry one.
pub open spec fn gauge_request_matches(
    r: ExportMetricsServiceRequest,
    metric: MetricOptions,
    dp: DataPointOptions,
    value: NumberValue,
    res: ResourceOptions,
    now: EpochNanos,
) -> bool {
    &&& r.resource_metrics@.len() == 1
    &&& {
        let rm = r.resource_metrics@[0];
        &&& resource_matches(rm.resource, res)
        &&& rm.schema_url@ == taken_schema_url(res.schema_url)
        &&& rm.scope_metrics@.len() == 1
        &&& {
            let sm = rm.scope_metrics@[0];
            &&& sm.scope is None
            &&& sm.schema_url@ == taken_schema_url(res.schema_url)
            &&& sm.metrics@.len() == 1
            &&& gauge_metric_matches(sm.metrics@[0], metric, dp, value, now)
        }
    }
}

/// The resource schema URL is consumed at most once per context: of two
/// requests built one after the other from one shared context that holds
/// `url`, the first carries `url` and the second the empty string.
pub proof fn lemma_schema_url_consumed_once_across_builds(
    r1: ExportMetricsServiceRequest,
    r2: ExportMetricsServiceRequest,
    m1: MetricOptions,
    dp1: DataPointOptions,
    v1: NumberValue,
    n1: EpochNanos,
    m2: MetricOptions,
    dp2: DataPointOptions,
    v2: NumberValue,
    n2: EpochNanos,
    res: ResourceOptions,
    url: String,
)
    requires
        res.schema_url == Some(url),
        gauge_request_matches(r1, m1, dp1, v1, res, n1),
        gauge_request_matches(r2, m2, dp2, v2, consume_schema(res), n2),
    ensures
        r1.resource_metrics@[0].schema_url@ == url@,
        r2.resource_metrics@[0].schema_url@ == Seq::<char>::empty(),
{
}

/// Builds the gauge export request with `now` as the build-time wall clock,
/// consuming the context's schema URL.
pub fn build_gauge_request_at(
    metric: MetricOptions,
    data_point: DataPointOptions,
    value: NumberValue,
    resources: &mut ResourceOptions,
    now: EpochNanos,
) -> (r: ExportMetricsServiceRequest)
    ensures
        gauge_request_matches(r, metric, data_point, value, *old(resources), now),
        *final(resources) == consume_schema(*old(resources)),
{
    let schema_url = resources.take_schema_url();
    let resource = resources.resource();
    let start_time_unix_nano = match &data_point.start_time {
        Some(e) => e.to_unix_nano(),
        None => now.to_unix_nano(),
    };
    let time_unix_nano = match &data_point.time {
        Some(e) => e.to_unix_nano(),
        None => now.to_unix_nano(),
    };
    let attributes = crate::wire::attrs_to_key_values(&data_point.attributes);
    let description = match metric.description {
        Some(d) => d,
        None => String::new(),
    };
    let unit = match metric.unit {
        Some(u) => u,
        None => String::new(),
    };
    let point = NumberDataPoint {
        attributes,
        start_time_unix_nano,
        time_unix_nano,
        flags: 0,
        value: Some(value),
    };
    let mut data_points: Vec<NumberDataPoint> = Vec::new();
    data_points.push(point);
    let metric_msg = Metric {
        name: metric.name,
        description,
        unit,
        data: Some(MetricData::Gauge(Gauge { data_points })),
    };
    let mut metrics: Vec<Metric> = Vec::new();
    metrics.push(metric_msg);
    let scope_metrics = ScopeMetrics { scope: None, metrics, schema_url: schema_url.clone() };
    let mut scope_metrics_groups: Vec<ScopeMetrics> = Vec::new();
    scope_metrics_groups.push(scope_metrics);
    let resource_metrics = crate::wire::ResourceMetrics {
        resource: Some(resource),
        scope_metrics: scope_metrics_groups,
        schema_url,
    };
    let mut groups: Vec<crate::wire::ResourceMetrics> = Vec::new();
    groups.push(resource_metrics);
    ExportMetricsServiceRequest { resource_metrics: groups }
}

/// Builds the gauge export request at the current wall-clock time: an
/// omitted timestamp or start timestamp becomes the time of this call.
/// Whatever the clock read, the request matches the inputs for that
/// reading; when both instants are given the clock plays no part and the
/// request is pinned for every reading.
pub fn build_gauge_request(
    metric: MetricOptions,
    data_point: DataPointOptions,
    value: NumberValue,
    resources: &mut ResourceOptions,
) -> (r: ExportMetricsServiceRequest)
    ensures
        exists|now: EpochNanos|
            gauge_request_matches(r, metric, data_point, value, *old(resources), now),
        (data_point.start_time is Some && data_point.time is Some) ==> forall|now: EpochNanos|
            gauge_request_matches(r, metric, data_point, value, *old(resources), now),
        *final(resources) == consume_schema(*old(resources)),
{
    let ghost m = metric;
    let ghost dp = data_point;
    let ghost v = value;
    let now = now_epoch_nanos();
    let r = build_gauge_request_at(metric, data_point, value, resources, now);
    proof {
        assert(gauge_request_matches(r, m, dp, v, *old(resources), now));
        if dp.start_time is Some && dp.time is Some {
            assert forall|n: EpochNanos|
                gauge_request_matches(r, m, dp, v, *old(resources), n) by {
                assert(resolve_time(dp.start_time, n) == resolve_time(dp.start_time, now));
                assert(resolve_time(dp.time, n) == resolve_time(dp.time, now));
            }
        }
    }
    r
}

} // verus!

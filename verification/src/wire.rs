//! The crate's model of the wire messages: the resource, scope, metric and
//! log-record nesting that one export request carries, held as plain values.
//!
//! The transport shell converts these one-for-one into the generated
//! protocol-message types before sending.

use vstd::prelude::*;

use crate::attr::Attribute;

verus! {

/// A typed attribute value on the wire. This producer only ever emits the
/// string variant; no other value kinds are synthesized.
#[derive(Debug, Clone)]
pub enum AnyValueKind {
    StringValue(String),
}

/// The wire union wrapper around one typed value.
#[derive(Debug, Clone)]
pub struct AnyValue {
    pub value: Option<AnyValueKind>,
}

/// A key paired with a typed value, the wire form of an [`Attribute`].
#[derive(Debug, Clone)]
pub struct KeyValue {
    pub key: String,
    pub value: Option<AnyValue>,
}

/// The entity that produced the telemetry, described by attributes.
#[derive(Debug, Clone)]
pub struct Resource {
    pub attributes: Vec<KeyValue>,
    pub dropped_attributes_count: u32,
}

/// The instrumentation unit that recorded the signal.
#[derive(Debug, Clone)]
pub struct InstrumentationScope {
    pub name: String,
    pub version: String,
    pub attributes: Vec<KeyValue>,
    pub dropped_attributes_count: u32,
}

/// The gauge data-point value: exactly one of a 64-bit floating value or a
/// 64-bit integer value. The floating value is carried as its IEEE-754 bit
/// pattern; the crate never interprets the bits.
#[derive(Debug, Clone, Copy, PartialEq, Eq, Structural)]
pub enum NumberValue {
    AsDouble(u64),
    AsInt(i64),
}

/// One gauge data point. Exemplars are always empty and are added verbatim
/// by the transport shell.
#[derive(Debug, Clone)]
pub struct NumberDataPoint {
    pub attributes: Vec<KeyValue>,
    pub start_time_unix_nano: u64,
    pub time_unix_nano: u64,
    pub flags: u32,
    pub value: Option<NumberValue>,
}

/// A gauge: a point-in-time metric kind.
#[derive(Debug, Clone)]
pub struct Gauge {
    pub data_points: Vec<NumberDataPoint>,
}

/// The metric data union; this producer only emits gauges.
#[derive(Debug, Clone)]
pub enum MetricData {
    Gauge(Gauge),
}

/// One metric with its descriptive fields and data.
#[derive(Debug, Clone)]
pub struct Metric {
    pub name: String,
    pub description: String,
    pub unit: String,
    pub data: Option<MetricData>,
}

/// One group of metrics recorded by one instrumentation scope.
#[derive(Debug, Clone)]
pub struct ScopeMetrics {
    pub scope: Option<InstrumentationScope>,
    pub metrics: Vec<Metric>,
    pub schema_url: String,
}

/// All metrics produced by one resource.
#[derive(Debug, Clone)]
pub struct ResourceMetrics {
    pub resource: Option<Resource>,
    pub scope_metrics: Vec<ScopeMetrics>,
    pub schema_url: String,
}

/// The outbound metrics export request.
#[derive(Debug, Clone)]
pub struct ExportMetricsServiceRequest {
    pub resource_metrics: Vec<ResourceMetrics>,
}

/// One log record.
#[derive(Debug, Clone)]
pub struct LogRecord {
    pub time_unix_nano: u64,
    pub observed_time_unix_nano: u64,
    pub severity_number: i32,
    pub severity_text: String,
    pub body: Option<AnyValue>,
    pub attributes: Vec<KeyValue>,
    pub dropped_attributes_count: u32,
    pub flags: u32,
    pub trace_id: Vec<u8>,
    pub span_id: Vec<u8>,
}

/// One group of log records recorded by one instrumentation scope.
#[derive(Debug, Clone)]
pub struct ScopeLogs {
    pub scope: Option<InstrumentationScope>,
    pub log_records: Vec<LogRecord>,
    pub schema_url: String,
}

/// All log records produced by one resource.
#[derive(Debug, Clone)]
pub struct ResourceLogs {
    pub resource: Option<Resource>,
    pub scope_logs: Vec<ScopeLogs>,
    pub schema_url: String,
}

/// The outbound logs export request.
#[derive(Debug, Clone)]
pub struct ExportLogsServiceRequest {
    pub resource_logs: Vec<ResourceLogs>,
}

/// `v` wraps exactly the string `s`.
pub open spec fn is_string_value(v: Option<AnyValue>, s: Seq<char>) -> bool {
    match v {
        Some(av) => match av.value {
            Some(AnyValueKind::StringValue(x)) => x@ == s,
            None => false,
        },
        None => false,
    }
}

/// `kv` is the wire form of `attr`: the same key, the value encoded as the
/// string variant.
pub open spec fn is_attr_kv(kv: KeyValue, attr: Attribute) -> bool {
    kv.key@ == attr.key@ && is_string_value(kv.value, attr.value@)
}

/// `kvs` is the one-for-one wire form of `attrs`, insertion order preserved,
/// duplicates allowed.
pub open spec fn kvs_of_attrs(kvs: Seq<KeyValue>, attrs: Seq<Attribute>) -> bool {
    kvs.len() == attrs.len() && forall|i: int| 0 <= i < attrs.len() ==> is_attr_kv(kvs[i], attrs[i])
}

impl Attribute {
    /// The wire form of this attribute; the value is always encoded as the
    /// string variant.
    pub fn to_key_value(&self) -> (kv: KeyValue)
        ensures
            is_attr_kv(kv, *self),
    {
        KeyValue {
            key: self.key.clone(),
            value: Some(AnyValue { value: Some(AnyValueKind::StringValue(self.value.clone())) }),
        }
    }
}

/// Maps each attribute to its wire form, in order.
pub fn attrs_to_key_values(attrs: &Vec<Attribute>) -> (kvs: Vec<KeyValue>)
    ensures
        kvs_of_attrs(kvs@, attrs@),
{
    let mut kvs: Vec<KeyValue> = Vec::new();
    let mut i: usize = 0;
    while i < attrs.len()
        invariant
            i <= attrs.len(),
            kvs@.len() == i,
            forall|j: int| 0 <= j < i ==> is_attr_kv(kvs@[j], attrs@[j]),
        decreases attrs.len() - i,
    {
        kvs.push(attrs[i].to_key_value());
        i += 1;
    }
    kvs
}

impl NumberValue {
    /// Selects the gauge value from the two mutually exclusive value flags:
    /// exactly one of them must be present, supplying both or neither is
    /// rejected. The floating flag arrives as the IEEE-754 bit pattern of
    /// the 64-bit value.
    pub fn from_flags(value_as_double: Option<u64>, value_as_int: Option<i64>) -> (r: Option<
        NumberValue,
    >)
        ensures
            r is Some <==> ((value_as_double is Some) <==> (value_as_int is None)),
            match (value_as_double, value_as_int) {
                (Some(bits), None) => r == Some(NumberValue::AsDouble(bits)),
                (None, Some(v)) => r == Some(NumberValue::AsInt(v)),
                _ => r is None,
            },
    {
        match (value_as_double, value_as_int) {
            (Some(bits), None) => Some(NumberValue::AsDouble(bits)),
            (None, Some(v)) => Some(NumberValue::AsInt(v)),
            _ => None,
        }
    }
}

} // verus!

//! The log record builder: assembles one immutable, schema-correct logs
//! export request from typed inputs.

use vstd::prelude::*;

use crate::clock::{now_epoch_nanos, to_unix_nano_spec, EpochNanos};
use crate::command::LogRecordOptions;
use crate::gauge::resource_matches;
use crate::resource::{consume_schema, taken_schema_url, ResourceOptions};
use crate::wire::{
    is_string_value, kvs_of_attrs, AnyValue, AnyValueKind, ExportLogsServiceRequest,
    InstrumentationScope, LogRecord, ResourceLogs, ScopeLogs,
};

verus! {

/// The instrumentation scope describing this producer: a name and a
/// version, no attributes. Constructed once at startup and passed into the
/// log record builder.
pub fn instrumentation_scope(name: String, version: String) -> (s: InstrumentationScope)
    ensures
        s.name == name,
        s.version == version,
        s.attributes@.len() == 0,
        s.dropped_attributes_count == 0,
{
    InstrumentationScope { name, version, attributes: Vec::new(), dropped_attributes_count: 0 }
}

/// `lr` is the one log record built from `opts` at wall clock `now`: the
/// timestamp is always `now`, observed time stays 0, the body is wrapped as
/// a string value, attributes are mapped in order, the trace flags default
/// to 0, and the trace and span identifiers are emitted empty.
pub open spec fn log_record_matches(lr: LogRecord, opts: LogRecordOptions, now: EpochNanos) -> bool {
    &&& lr.time_unix_nano == to_unix_nano_spec(now)
    &&& lr.observed_time_unix_nano == 0
    &&& lr.severity_number == opts.severity_number
    &&& lr.severity_text@ == opts.severity_text@
    &&& is_string_value(lr.body, opts.body@)
    &&& kvs_of_attrs(lr.attributes@, opts.attributes@)
    &&& lr.dropped_attributes_count == 0
    &&& lr.flags == match opts.trace_flags {
        Some(f) => f,
        None => 0,
    }
    &&& lr.trace_id@.len() == 0
    &&& lr.span_id@.len() == 0
}

/// `r` is the single-resource logs export request built from the inputs:
/// exactly one resource-logs group holding exactly one scope-logs group
/// (carrying the given scope and an empty schema URL) holding exactly one
/// log record, with the context's schema URL taken at the resource level.
pub open spec fn logs_request_matches(
    r: ExportLogsServiceRequest,
    opts: LogRecordOptions,
    scope: InstrumentationScope,
    res: ResourceOptions,
    now: EpochNanos,
) -> bool {
    &&& r.resource_logs@.len() == 1
    &&& {
        let rl = r.resource_logs@[0];
        &&& resource_matches(rl.resource, res)
        &&& rl.schema_url@ == taken_schema_url(res.schema_url)
        &&& rl.scope_logs@.len() == 1
        &&& {
            let sl = rl.scope_logs@[0];
            &&& sl.scope == Some(scope)
            &&& sl.schema_url@ == Seq::<char>::empty()
            &&& sl.log_records@.len() == 1
            &&& log_record_matches(sl.log_records@[0], opts, now)
        }
    }
}

/// Builds the logs export request with `now` as the build-time wall clock,
/// consuming the context's schema URL.
pub fn build_logs_request_at(
    log_record: LogRecordOptions,
    scope: InstrumentationScope,
    resources: &mut ResourceOptions,
    now: EpochNanos,
) -> (r: ExportLogsServiceRequest)
    ensures
        logs_request_matches(r, log_record, scope, *old(resources), now),
        *final(resources) == consume_schema(*old(resources)),
{
    let schema_url = resources.take_schema_url();
    let resource = resources.resource();
    let attributes = crate::wire::attrs_to_key_values(&log_record.attributes);
    let flags = match log_record.trace_flags {
        Some(f) => f,
        None => 0,
    };
    let record = LogRecord {
        time_unix_nano: now.to_unix_nano(),
        observed_time_unix_nano: 0,
        severity_number: log_record.severity_number,
        severity_text: log_record.severity_text,
        body: Some(AnyValue { value: Some(AnyValueKind::StringValue(log_record.body)) }),
        attributes,
        dropped_attributes_count: 0,
        flags,
        trace_id: Vec::new(),
        span_id: Vec::new(),
    };
    let mut log_records: Vec<LogRecord> = Vec::new();
    log_records.push(record);
    let scope_logs = ScopeLogs { scope: Some(scope), log_records, schema_url: String::new() };
    let mut scope_logs_groups: Vec<ScopeLogs> = Vec::new();
    scope_logs_groups.push(scope_logs);
    let resource_logs = ResourceLogs {
        resource: Some(resource),
        scope_logs: scope_logs_groups,
        schema_url,
    };
    let mut groups: Vec<ResourceLogs> = Vec::new();
    groups.push(resource_logs);
    ExportLogsServiceRequest { resource_logs: groups }
}

/// Builds the logs export request at the current wall-clock time; the log
/// record's timestamp is always the time of this call, never user-set.
/// Whatever the clock read, the request matches the inputs for that
/// reading.
pub fn build_logs_request(
    log_record: LogRecordOptions,
    scope: InstrumentationScope,
    resources: &mut ResourceOptions,
) -> (r: ExportLogsServiceRequest)
    ensures
        exists|now: EpochNanos|
            logs_request_matches(r, log_record, scope, *old(resources), now),
        *final(resources) == consume_schema(*old(resources)),
{
    let ghost o = log_record;
    let ghost s = scope;
    let now = now_epoch_nanos();
    let r = build_logs_request_at(log_record, scope, resources, now);
    proof {
        assert(logs_request_matches(r, o, s, *old(resources), now));
    }
    r
}

} // verus!

//! The parsed command: what one invocation asks the exporter to do, as
//! plain typed values. The argument framework in the surrounding binary
//! fills these in and validates presence before the builders run.

use vstd::prelude::*;

use crate::attr::Attribute;
use crate::clock::EpochNanos;
use crate::resource::ResourceOptions;
use crate::wire::NumberValue;

verus! {

/// The root command of one invocation.
#[derive(Debug)]
pub struct App {
    pub command: Command,
}

/// The one subcommand of the root: export telemetry data.
#[derive(Debug)]
pub enum Command {
    Export(ExportCommand),
}

/// One export invocation: the collector endpoint, the shared resource
/// context, and the signal-kind subcommand.
#[derive(Debug)]
pub struct ExportCommand {
    pub endpoint: String,
    pub resources: ResourceOptions,
    pub command: ExportTelemetryCommand,
}

/// Which telemetry signal one invocation exports.
#[derive(Debug)]
pub enum ExportTelemetryCommand {
    Metrics(ExportMetricsCommand),
    Logs(ExportLogsCommand),
}

/// The metrics subcommand; gauges are the one metric kind produced.
#[derive(Debug)]
pub struct ExportMetricsCommand {
    pub command: ExportMetricsDataCommand,
}

/// Which metric kind a metrics invocation exports.
#[derive(Debug)]
pub enum ExportMetricsDataCommand {
    Gauge(ExportGaugeCommand),
}

/// Descriptive fields of the exported metric.
#[derive(Debug)]
pub struct MetricOptions {
    pub name: String,
    pub description: Option<String>,
    pub unit: Option<String>,
}

/// Fields of the one gauge data point: its attributes and its optional
/// start timestamp and timestamp. An absent timestamp means "now at build
/// time".
#[derive(Debug)]
pub struct DataPointOptions {
    pub attributes: Vec<Attribute>,
    pub start_time: Option<EpochNanos>,
    pub time: Option<EpochNanos>,
}

/// One gauge export: metric fields, data-point fields, and the already
/// validated value union (exactly one of double or int).
#[derive(Debug)]
pub struct ExportGaugeCommand {
    pub metric: MetricOptions,
    pub data_point: DataPointOptions,
    pub value: NumberValue,
}

/// One log-record export.
#[derive(Debug)]
pub struct ExportLogsCommand {
    pub log_record: LogRecordOptions,
}

/// Fields of the one exported log record.
#[derive(Debug)]
pub struct LogRecordOptions {
    pub trace_flags: Option<u32>,
    pub severity_text: String,
    pub severity_number: i32,
    pub attributes: Vec<Attribute>,
    pub body: String,
}

} // verus!

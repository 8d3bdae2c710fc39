//! Command-line producer of telemetry records.
//!
//! The crate turns loosely-typed command arguments into strongly-typed,
//! schema-correct export request messages for an observability collector:
//! attribute tokens are parsed into key/value pairs, a resource context
//! carries the cross-cutting fields of one invocation, record builders
//! assemble one gauge-metric or one log-record request, and transport
//! responses are classified into success, partial success or failure.

pub mod attr;
pub mod clock;
pub mod command;
pub mod gauge;
pub mod logrec;
pub mod outcome;
pub mod resource;
pub mod wire;

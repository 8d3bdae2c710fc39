//! Timestamps: nanoseconds since the Unix epoch, and the wall clock.

use vstd::prelude::*;

verus! {

/// A wall-clock instant as nanoseconds since the Unix epoch; `None` marks an
/// instant outside the representable nanosecond range.
#[derive(Debug, Clone, Copy)]
pub struct EpochNanos {
    pub nanos: Option<i64>,
}

/// The unsigned wire value of an instant: conversion failures — a pre-epoch
/// instant as well as one outside the representable nanosecond range —
/// default to 0.
pub open spec fn to_unix_nano_spec(t: EpochNanos) -> int {
    match t.nanos {
        Some(v) => if v >= 0 {
            v as int
        } else {
            0
        },
        None => 0,
    }
}

impl EpochNanos {
    /// The instant as the unsigned nanosecond field of a wire message.
    pub fn to_unix_nano(&self) -> (r: u64)
        ensures
            r == to_unix_nano_spec(*self),
    {
        match self.nanos {
            Some(v) => {
                if v >= 0 {
                    v as u64
                } else {
                    0
                }
            },
            None => 0,
        }
    }
}

/// Relies on chrono's `Utc::now`, converted by `DateTime::timestamp_nanos_opt`:
/// the current wall-clock time as nanoseconds since the Unix epoch, or `None`
/// for an instant outside the representable nanosecond range. The result
/// depends on the wall clock, so nothing is promised of it. `Utc::now`
/// itself panics on a machine whose clock reads before the Unix epoch; this
/// wrapper inherits that exposure.
#[verifier::external_body]
pub(crate) fn now_epoch_nanos() -> EpochNanos {
    EpochNanos { nanos: chrono::Utc::now().timestamp_nanos_opt() }
}

} // verus!

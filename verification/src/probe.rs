//! Three-way outcomes for driver reads: a metric is present, intentionally
//! absent ("not supported"), or failed hard — and the policy that turns those
//! outcomes into a sample's optional fields.

use vstd::prelude::*;

verus! {

/// The outcome of reading one metric from the driver for one device.
#[derive(Clone, Copy, Debug)]
pub enum Probe<T> {
    /// The driver returned a value.
    Present(T),
    /// The driver reports that this device does not support the metric.
    /// Not an error: the field is intentionally absent.
    Unsupported,
    /// The read failed for any other reason (a transient read error).
    Failed,
}

/// The optional field an optional-metric outcome degrades to: a present value
/// is kept; "not supported" and hard read errors both leave the field absent.
pub open spec fn optional_of<T>(p: Probe<T>) -> Option<T> {
    match p {
        Probe::Present(v) => Some(v),
        Probe::Unsupported => None,
        Probe::Failed => None,
    }
}

/// Degrades one optional-metric outcome to the field it puts in the sample.
/// A hard error on an optional metric never propagates: it only leaves that
/// single field absent.
pub fn to_optional<T>(p: Probe<T>) -> (r: Option<T>)
    ensures
        r == optional_of(p),
{
    match p {
        Probe::Present(v) => Some(v),
        Probe::Unsupported => None,
        Probe::Failed => None,
    }
}

/// The outcome of one attempt to list the processes bound to a device,
/// through one generation of the driver's entry points.
pub enum ProcessListAttempt {
    /// The entry point returned a list; these are the listed process ids.
    List(Vec<u32>),
    /// The entry point's symbol is not available in this driver generation.
    SymbolMissing,
    /// The attempt failed for any other reason.
    Failed,
}

/// What the two-generation fallback yields: the newer entry point's list when
/// it gave one; the older entry point's list when the newer one reported a
/// missing symbol and the older attempt gave a list; the empty list on any
/// hard error, which degrades the field and never aborts the sample.
pub open spec fn fallback_spec(newer: ProcessListAttempt, older: Option<ProcessListAttempt>) -> Seq<
    u32,
> {
    match newer {
        ProcessListAttempt::List(pids) => pids@,
        ProcessListAttempt::SymbolMissing => match older {
            Some(ProcessListAttempt::List(pids)) => pids@,
            _ => Seq::empty(),
        },
        ProcessListAttempt::Failed => Seq::empty(),
    }
}

/// Combines the newer attempt with the older attempt made on its behalf (the
/// older one is only attempted when the newer reports a missing symbol).
pub fn resolve_process_fallback(newer: ProcessListAttempt, older: Option<ProcessListAttempt>) -> (r:
    Vec<u32>)
    ensures
        r@ == fallback_spec(newer, older),
{
    match newer {
        ProcessListAttempt::List(pids) => pids,
        ProcessListAttempt::SymbolMissing => match older {
            Some(ProcessListAttempt::List(pids)) => pids,
            _ => Vec::new(),
        },
        ProcessListAttempt::Failed => Vec::new(),
    }
}

} // verus!

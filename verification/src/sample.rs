//! Per-device measurement samples and the per-tick batch assembly: one sample
//! per device whose mandatory energy read succeeded, in registry order, with
//! every optional metric degrading independently.

use vstd::prelude::*;

use crate::probe::{optional_of, to_optional, Probe};
use crate::tracker::{delta_spec, CounterDeltaTracker};

verus! {

/// Device utilization percentages over the last sample period.
#[derive(Clone, Copy, Debug, PartialEq, Eq, Structural)]
pub struct Utilization {
    /// Percent of time during which a kernel was executing on the device.
    pub gpu: u32,
    /// Percent of time during which device memory was being read or written.
    pub memory: u32,
}

/// Decoder or encoder load over the driver's sampling period.
#[derive(Clone, Copy, Debug, PartialEq, Eq, Structural)]
pub struct UtilizationInfo {
    /// Utilization percent.
    pub utilization: u32,
    /// Sampling period in microseconds.
    pub sampling_period: u32,
}

/// One device's raw snapshot for a tick, as plain values: the mandatory
/// energy counter's outcome, each optional metric's three-way outcome, and
/// the process lists already resolved through the two-generation fallback.
pub struct DeviceReading {
    /// Absolute energy counter in millijoules. Mandatory: a device whose
    /// energy read did not return a value is omitted from the tick's batch.
    pub energy: Probe<u64>,
    /// Instantaneous power draw in milliwatts.
    pub power: Probe<u32>,
    /// Overall device and memory utilization.
    pub utilization: Probe<Utilization>,
    /// Decoder load.
    pub util_decoder: Probe<UtilizationInfo>,
    /// Encoder load.
    pub util_encoder: Probe<UtilizationInfo>,
    /// Ids of processes with a compute context on the device.
    pub compute_processes: Vec<u32>,
    /// Ids of processes with a graphics context on the device.
    pub graphic_processes: Vec<u32>,
}

/// One device's measurement for one tick.
///
/// The energy delta is always present; every other field is independently
/// present or absent, depending on what the device supports.
#[derive(Debug)]
pub struct NvmlMeasurement {
    /// The device's registry index.
    pub device_index: u32,
    /// Energy consumed since the previous tick, in millijoules,
    /// wraparound-corrected.
    pub consumption_millij: u64,
    /// Instantaneous power draw in milliwatts at measurement time.
    pub instantaneous_power: Option<u32>,
    /// Utilization percentages over the last sample period.
    pub utilization: Option<Utilization>,
    /// Decoder load.
    pub util_decoder: Option<UtilizationInfo>,
    /// Encoder load.
    pub util_encoder: Option<UtilizationInfo>,
    /// Ids of processes with a compute context on the device.
    pub compute_processes: Vec<u32>,
    /// Ids of processes with a graphics context on the device.
    pub graphic_processes: Vec<u32>,
}

/// One tick's measurements: one sample per readable device, in registry
/// order, all sharing the tick's wall-clock timestamp.
#[derive(Debug)]
pub struct MeasurementBatch {
    /// Milliseconds since the epoch, snapshotted once before any device was
    /// sampled, so all samples of the batch share one logical timestamp.
    pub timestamp_ms: u64,
    /// The samples, at most one per device, ordered by device index.
    pub samples: Vec<NvmlMeasurement>,
}

fn copy_pids(v: &Vec<u32>) -> (r: Vec<u32>)
    ensures
        r@ == v@,
{
    let mut r: Vec<u32> = Vec::new();
    let mut i: usize = 0;
    while i < v.len()
        invariant
            i <= v@.len(),
            r@.len() == i,
            forall|j: int| 0 <= j < i ==> r@[j] == v@[j],
        decreases v@.len() - i,
    {
        r.push(v[i]);
        i = i + 1;
    }
    proof {
        assert(r@ =~= v@);
    }
    r
}

/// Builds one device's sample from its raw snapshot and its already-computed
/// energy delta. Each optional metric degrades independently — "not
/// supported" and hard errors both leave just that field absent — so the
/// sample as a whole is always produced.
pub fn build_sample(device_index: u32, energy_delta: u64, reading: &DeviceReading) -> (m:
    NvmlMeasurement)
    ensures
        m.device_index == device_index,
        m.consumption_millij == energy_delta,
        m.instantaneous_power == optional_of(reading.power),
        m.utilization == optional_of(reading.utilization),
        m.util_decoder == optional_of(reading.util_decoder),
        m.util_encoder == optional_of(reading.util_encoder),
        m.compute_processes@ == reading.compute_processes@,
        m.graphic_processes@ == reading.graphic_processes@,
{
    NvmlMeasurement {
        device_index,
        consumption_millij: energy_delta,
        instantaneous_power: to_optional(reading.power),
        utilization: to_optional(reading.utilization),
        util_decoder: to_optional(reading.util_decoder),
        util_encoder: to_optional(reading.util_encoder),
        compute_processes: copy_pids(&reading.compute_processes),
        graphic_processes: copy_pids(&reading.graphic_processes),
    }
}

/// What one sample of a batch must say, given the tracker state at the start
/// of the tick and the tick's raw readings: the sample belongs to a device
/// whose mandatory energy read returned a value, its delta is the
/// wraparound-corrected difference against that device's stored state, and
/// each optional field is exactly what the device's outcome degrades to.
pub open spec fn sample_ok(
    m: NvmlMeasurement,
    prev: Seq<u64>,
    readings: Seq<DeviceReading>,
) -> bool {
    let i = m.device_index as int;
    &&& 0 <= i < readings.len()
    &&& readings[i].energy matches Probe::Present(e) && m.consumption_millij == delta_spec(
        prev[i],
        e,
    )
    &&& m.instantaneous_power == optional_of(readings[i].power)
    &&& m.utilization == optional_of(readings[i].utilization)
    &&& m.util_decoder == optional_of(readings[i].util_decoder)
    &&& m.util_encoder == optional_of(readings[i].util_encoder)
    &&& m.compute_processes@ == readings[i].compute_processes@
    &&& m.graphic_processes@ == readings[i].graphic_processes@
}

/// One tick's assembly: walks the readings in registry order, feeds each
/// present energy counter through the tracker, and collects one sample per
/// readable device.
///
/// The contract pins the whole tick down:
/// - every sample satisfies `sample_ok` against the tick-start tracker state;
/// - samples are strictly ordered by device index, i.e. in registry order,
///   regardless of which optional metrics succeeded;
/// - every device whose mandatory energy read returned a value appears —
///   a device whose mandatory read failed never hides the others;
/// - the tracker advances to the new reading exactly for the devices that
///   appear, and keeps its old state for the omitted ones.
pub fn assemble_samples(tracker: &mut CounterDeltaTracker, readings: &Vec<DeviceReading>) -> (s:
    Vec<NvmlMeasurement>)
    requires
        old(tracker)@.len() == readings@.len(),
        readings@.len() <= u32::MAX,
    ensures
        s@.len() <= readings@.len(),
        final(tracker)@.len() == old(tracker)@.len(),
        forall|i: int|
            0 <= i < readings@.len() ==> final(tracker)@[i] == (match readings@[i].energy {
                Probe::Present(e) => e,
                _ => old(tracker)@[i],
            }),
        forall|k: int|
            0 <= k < s@.len() ==> #[trigger] sample_ok(s@[k], old(tracker)@, readings@),
        forall|k1: int, k2: int|
            0 <= k1 < k2 < s@.len() ==> #[trigger] s@[k1].device_index
                < #[trigger] s@[k2].device_index,
        forall|i: int|
            0 <= i < readings@.len() && readings@[i].energy is Present ==> exists|k: int|
                0 <= k < s@.len() && #[trigger] s@[k].device_index == i,
{
    let mut samples: Vec<NvmlMeasurement> = Vec::new();
    let n = readings.len();
    let mut i: usize = 0;
    while i < n
        invariant
            n == readings@.len(),
            readings@.len() <= u32::MAX,
            i <= n,
            tracker@.len() == readings@.len(),
            samples@.len() <= i,
            forall|j: int|
                0 <= j < i ==> tracker@[j] == (match readings@[j].energy {
                    Probe::Present(e) => e,
                    _ => old(tracker)@[j],
                }),
            forall|j: int| i <= j < n ==> tracker@[j] == old(tracker)@[j],
            forall|k: int|
                0 <= k < samples@.len() ==> #[trigger] sample_ok(
                    samples@[k],
                    old(tracker)@,
                    readings@,
                ),
            forall|k: int|
                0 <= k < samples@.len() ==> (#[trigger] samples@[k]).device_index < i,
            forall|k1: int, k2: int|
                0 <= k1 < k2 < samples@.len() ==> #[trigger] samples@[k1].device_index
                    < #[trigger] samples@[k2].device_index,
            forall|j: int|
                0 <= j < i && readings@[j].energy is Present ==> exists|k: int|
                    0 <= k < samples@.len() && #[trigger] samples@[k].device_index == j,
        decreases n - i,
    {
        let r = &readings[i];
        match r.energy {
            Probe::Present(e) => {
                let d = tracker.delta(i, e);
                let m = build_sample(i as u32, d, r);
                let ghost before = samples@;
                samples.push(m);
                proof {
                    assert(samples@ == before.push(m));
                    assert(m.device_index as int == i as int);
                    assert(sample_ok(m, old(tracker)@, readings@));
                    assert forall|k: int| 0 <= k < samples@.len() implies #[trigger] sample_ok(
                        samples@[k],
                        old(tracker)@,
                        readings@,
                    ) by {
                        if k < before.len() {
                            assert(samples@[k] == before[k]);
                            assert(sample_ok(before[k], old(tracker)@, readings@));
                        } else {
                            assert(samples@[k] == m);
                        }
                    }
                    assert forall|k: int|
                        0 <= k < samples@.len() implies (#[trigger] samples@[k]).device_index < i
                        + 1 by {
                        if k < before.len() {
                            assert(samples@[k] == before[k]);
                            assert(before[k].device_index < i);
                        } else {
                            assert(samples@[k] == m);
                        }
                    }
                    assert forall|k1: int, k2: int|
                        0 <= k1 < k2 < samples@.len() implies #[trigger] samples@[k1].device_index
                        < #[trigger] samples@[k2].device_index by {
                        assert(samples@[k1] == before[k1]);
                        assert(before[k1].device_index < i);
                        if k2 < before.len() {
                            assert(samples@[k2] == before[k2]);
                        } else {
                            assert(samples@[k2] == m);
                        }
                    }
                    assert forall|j: int|
                        0 <= j < i + 1 && readings@[j].energy is Present implies exists|k: int|
                        0 <= k < samples@.len() && #[trigger] samples@[k].device_index == j by {
                        if j < i {
                            let k0 = choose|k: int|
                                0 <= k < before.len() && #[trigger] before[k].device_index == j;
                            assert(samples@[k0].device_index == j);
                        } else {
                            assert(samples@[before.len() as int].device_index == j);
                        }
                    }
                }
            },
            _ => {},
        }
        i = i + 1;
    }
    samples
}

} // verus!

//! The driver-facing side of the sensor: device enumeration, the per-device
//! reads, and the per-tick driver that feeds raw readings through the delta
//! tracker into a measurement batch.
//!
//! Every call into the management library stands behind a small trusted
//! wrapper that classifies the raw outcome into the crate's own plain-value
//! types; all decisions about those outcomes are made in verified code.

use vstd::prelude::*;

use crate::probe::{resolve_process_fallback, Probe, ProcessListAttempt};
use crate::sample::{
    assemble_samples, sample_ok, DeviceReading, MeasurementBatch, NvmlMeasurement, Utilization,
    UtilizationInfo,
};
use crate::tracker::{delta_spec, CounterDeltaTracker};

use nvml_wrapper::error::NvmlError;
use nvml_wrapper::{Device, Nvml};

verus! {

/// Declares nvml_wrapper::Nvml, the initialized driver session, as an opaque
/// type, so it can stand in signatures; nothing is assumed of its contents.
#[verifier::external_type_specification]
#[verifier::external_body]
pub struct ExNvml(Nvml);

/// Declares nvml_wrapper::Device, the per-device handle borrowed from the
/// session, as an opaque type; nothing is assumed of its contents.
#[verifier::external_type_specification]
#[verifier::external_body]
pub struct ExDevice<'nvml>(Device<'nvml>);

/// Declares nvml_wrapper::error::NvmlError, the driver's error type, as an
/// opaque type, so enumeration failures can be returned as they are.
#[verifier::external_type_specification]
#[verifier::external_body]
pub struct ExNvmlError(NvmlError);

/// Relies on Nvml::device_count: how many devices the driver exposes.
#[verifier::external_body]
fn device_count(nvml: &Nvml) -> (r: Result<u32, NvmlError>) {
    nvml.device_count()
}

/// Relies on Nvml::device_by_index: the handle for the device at one
/// enumeration index.
#[verifier::external_body]
fn device_by_index<'nvml>(nvml: &'nvml Nvml, index: u32) -> (r: Result<Device<'nvml>, NvmlError>) {
    nvml.device_by_index(index)
}

/// Relies on Device::total_energy_consumption: the device's absolute energy
/// counter, in millijoules since the last driver reload. The wrapper only
/// classifies the outcome; nothing is promised of the value, which depends on
/// the hardware.
#[verifier::external_body]
fn read_energy(device: &Device<'_>) -> (r: Probe<u64>) {
    match device.total_energy_consumption() {
        Ok(v) => Probe::Present(v),
        Err(NvmlError::NotSupported) => Probe::Unsupported,
        Err(_) => Probe::Failed,
    }
}

/// Relies on Device::power_usage: the device's power draw in milliwatts.
#[verifier::external_body]
fn read_power(device: &Device<'_>) -> (r: Probe<u32>) {
    match device.power_usage() {
        Ok(v) => Probe::Present(v),
        Err(NvmlError::NotSupported) => Probe::Unsupported,
        Err(_) => Probe::Failed,
    }
}

/// Relies on Device::utilization_rates: device and memory utilization
/// percentages over the last sample period, carried over field by field.
#[verifier::external_body]
fn read_utilization(device: &Device<'_>) -> (r: Probe<Utilization>) {
    match device.utilization_rates() {
        Ok(u) => Probe::Present(Utilization { gpu: u.gpu, memory: u.memory }),
        Err(NvmlError::NotSupported) => Probe::Unsupported,
        Err(_) => Probe::Failed,
    }
}

/// Relies on Device::decoder_utilization: decoder load and its sampling
/// period, carried over field by field.
#[verifier::external_body]
fn read_decoder_utilization(device: &Device<'_>) -> (r: Probe<UtilizationInfo>) {
    match device.decoder_utilization() {
        Ok(u) => Probe::Present(
            UtilizationInfo { utilization: u.utilization, sampling_period: u.sampling_period },
        ),
        Err(NvmlError::NotSupported) => Probe::Unsupported,
        Err(_) => Probe::Failed,
    }
}

/// Relies on Device::encoder_utilization: encoder load and its sampling
/// period, carried over field by field.
#[verifier::external_body]
fn read_encoder_utilization(device: &Device<'_>) -> (r: Probe<UtilizationInfo>) {
    match device.encoder_utilization() {
        Ok(u) => Probe::Present(
            UtilizationInfo { utilization: u.utilization, sampling_period: u.sampling_period },
        ),
        Err(NvmlError::NotSupported) => Probe::Unsupported,
        Err(_) => Probe::Failed,
    }
}

/// Relies on Device::running_compute_processes (the newer entry point): the
/// processes with a compute context on the device, reduced to their ids. A
/// missing driver symbol is told apart from any other error.
#[verifier::external_body]
fn compute_processes_newer(device: &Device<'_>) -> (r: ProcessListAttempt) {
    match device.running_compute_processes() {
        Ok(ps) => ProcessListAttempt::List(ps.into_iter().map(|p| p.pid).collect()),
        Err(NvmlError::FailedToLoadSymbol(_)) => ProcessListAttempt::SymbolMissing,
        Err(_) => ProcessListAttempt::Failed,
    }
}

/// Relies on Device::running_compute_processes_v2 (the older entry point),
/// reduced to process ids as the newer one is.
#[verifier::external_body]
fn compute_processes_older(device: &Device<'_>) -> (r: ProcessListAttempt) {
    match device.running_compute_processes_v2() {
        Ok(ps) => ProcessListAttempt::List(ps.into_iter().map(|p| p.pid).collect()),
        Err(NvmlError::FailedToLoadSymbol(_)) => ProcessListAttempt::SymbolMissing,
        Err(_) => ProcessListAttempt::Failed,
    }
}

/// Relies on Device::running_graphics_processes (the newer entry point),
/// reduced to process ids.
#[verifier::external_body]
fn graphics_processes_newer(device: &Device<'_>) -> (r: ProcessListAttempt) {
    match device.running_graphics_processes() {
        Ok(ps) => ProcessListAttempt::List(ps.into_iter().map(|p| p.pid).collect()),
        Err(NvmlError::FailedToLoadSymbol(_)) => ProcessListAttempt::SymbolMissing,
        Err(_) => ProcessListAttempt::Failed,
    }
}

/// Relies on Device::running_graphics_processes_v2 (the older entry point),
/// reduced to process ids.
#[verifier::external_body]
fn graphics_processes_older(device: &Device<'_>) -> (r: ProcessListAttempt) {
    match device.running_graphics_processes_v2() {
        Ok(ps) => ProcessListAttempt::List(ps.into_iter().map(|p| p.pid).collect()),
        Err(NvmlError::FailedToLoadSymbol(_)) => ProcessListAttempt::SymbolMissing,
        Err(_) => ProcessListAttempt::Failed,
    }
}

/// The two-generation fallback for the compute-process list: the newer entry
/// point is attempted first; only when it reports a missing symbol is the
/// older one attempted on its behalf.
fn gather_compute_processes(device: &Device<'_>) -> Vec<u32> {
    match compute_processes_newer(device) {
        ProcessListAttempt::SymbolMissing => {
            let older = compute_processes_older(device);
            resolve_process_fallback(ProcessListAttempt::SymbolMissing, Some(older))
        },
        other => resolve_process_fallback(other, None),
    }
}

/// The two-generation fallback for the graphics-process list, with the same
/// policy as the compute one.
fn gather_graphic_processes(device: &Device<'_>) -> Vec<u32> {
    match graphics_processes_newer(device) {
        ProcessListAttempt::SymbolMissing => {
            let older = graphics_processes_older(device);
            resolve_process_fallback(ProcessListAttempt::SymbolMissing, Some(older))
        },
        other => resolve_process_fallback(other, None),
    }
}

/// One device's full raw snapshot: every read is attempted and classified on
/// its own, so no single metric's failure touches any other field.
fn gather_reading(device: &Device<'_>) -> DeviceReading {
    DeviceReading {
        energy: read_energy(device),
        power: read_power(device),
        utilization: read_utilization(device),
        util_decoder: read_decoder_utilization(device),
        util_encoder: read_encoder_utilization(device),
        compute_processes: gather_compute_processes(device),
        graphic_processes: gather_graphic_processes(device),
    }
}

/// Raw snapshots for every device, in registry order.
fn gather_readings(devices: &Vec<Device<'_>>) -> (rs: Vec<DeviceReading>)
    ensures
        rs@.len() == devices@.len(),
{
    let mut rs: Vec<DeviceReading> = Vec::new();
    let mut i: usize = 0;
    while i < devices.len()
        invariant
            i <= devices@.len(),
            rs@.len() == i,
        decreases devices@.len() - i,
    {
        let d = &devices[i];
        rs.push(gather_reading(d));
        i = i + 1;
    }
    rs
}

/// What any tick's output must satisfy, whatever the hardware returned:
/// `old_c` and `new_c` are the per-device counter states before and after the
/// tick.
///
/// - Each sample's device index is a valid registry index, and its energy
///   delta is the wraparound-corrected difference between the device's stored
///   state and the new absolute reading that the tick stored.
/// - Samples come in registry order: strictly increasing device index.
/// - A device that produced no sample this tick keeps its stored state.
pub open spec fn batch_consistent(
    samples: Seq<NvmlMeasurement>,
    old_c: Seq<u64>,
    new_c: Seq<u64>,
) -> bool {
    &&& new_c.len() == old_c.len()
    &&& samples.len() <= old_c.len()
    &&& forall|k: int|
        0 <= k < samples.len() ==> (#[trigger] samples[k]).device_index < old_c.len()
            && samples[k].consumption_millij == delta_spec(
            old_c[samples[k].device_index as int],
            new_c[samples[k].device_index as int],
        )
    &&& forall|k1: int, k2: int|
        0 <= k1 < k2 < samples.len() ==> (#[trigger] samples[k1]).device_index < (
        #[trigger] samples[k2]).device_index
    &&& forall|i: int|
        0 <= i < old_c.len() && (forall|k: int|
            0 <= k < samples.len() ==> (#[trigger] samples[k]).device_index != i)
            ==> #[trigger] new_c[i] == old_c[i]
}

/// The device registry and the per-device counter state: the devices the
/// driver enumerated at startup, immutable for the process lifetime, and one
/// delta-tracker slot per device.
pub struct NvmlTopology<'nvml> {
    devices: Vec<Device<'nvml>>,
    tracker: CounterDeltaTracker,
}

impl<'nvml> NvmlTopology<'nvml> {
    /// The stored per-device counter states.
    pub closed spec fn counters(&self) -> Seq<u64> {
        self.tracker@
    }

    /// How many devices the registry holds.
    pub closed spec fn device_count_spec(&self) -> nat {
        self.devices@.len()
    }

    /// Well-formed: one counter slot per device, and a device count that came
    /// from the driver's 32-bit enumeration.
    pub open spec fn wf(&self) -> bool {
        &&& self.counters().len() == self.device_count_spec()
        &&& self.device_count_spec() <= u32::MAX
    }

    /// Enumerates the devices once; every counter slot starts at zero, so
    /// each device's first delta equals its first absolute reading.
    pub fn new(nvml: &'nvml Nvml) -> (r: Result<NvmlTopology<'nvml>, NvmlError>)
        ensures
            r matches Ok(t) ==> t.wf() && t.counters() == Seq::new(
                t.device_count_spec(),
                |i: int| 0u64,
            ),
    {
        let count = match device_count(nvml) {
            Ok(c) => c,
            Err(e) => {
                return Err(e);
            },
        };
        let mut devices: Vec<Device<'nvml>> = Vec::new();
        let mut i: u32 = 0;
        while i < count
            invariant
                i <= count,
                devices@.len() == i,
            decreases count - i,
        {
            match device_by_index(nvml, i) {
                Ok(d) => devices.push(d),
                Err(e) => {
                    return Err(e);
                },
            }
            i = i + 1;
        }
        let tracker = CounterDeltaTracker::new(devices.len());
        let t = NvmlTopology { devices, tracker };
        proof {
            assert(t.counters() =~= Seq::new(t.device_count_spec(), |i: int| 0u64));
        }
        Ok(t)
    }

    /// The number of enumerated devices.
    pub fn device_count(&self) -> (n: usize)
        ensures
            n == self.device_count_spec(),
    {
        self.devices.len()
    }

    /// One sampling pass over every device in registry order: reads each
    /// device's snapshot, feeds present energy counters through the delta
    /// tracker, and returns one measurement per device whose mandatory energy
    /// read returned a value. A device whose mandatory read failed is omitted
    /// from this pass and keeps its stored counter state; it never prevents
    /// the other devices from being measured.
    pub fn fetch_latest_measurement(&mut self) -> (ms: Vec<NvmlMeasurement>)
        requires
            old(self).wf(),
        ensures
            final(self).wf(),
            final(self).device_count_spec() == old(self).device_count_spec(),
            batch_consistent(ms@, old(self).counters(), final(self).counters()),
    {
        let readings = gather_readings(&self.devices);
        let ghost old_c = self.tracker@;
        let samples = assemble_samples(&mut self.tracker, &readings);
        proof {
            assert forall|k: int|
                0 <= k < samples@.len() implies (#[trigger] samples@[k]).device_index
                < old_c.len() && samples@[k].consumption_millij == delta_spec(
                old_c[samples@[k].device_index as int],
                self.tracker@[samples@[k].device_index as int],
            ) by {
                assert(sample_ok(samples@[k], old_c, readings@));
                let i = samples@[k].device_index as int;
                assert(self.tracker@[i] == match readings@[i].energy {
                    Probe::Present(e) => e,
                    _ => old_c[i],
                });
            }
            assert forall|i: int|
                0 <= i < old_c.len() && (forall|k: int|
                    0 <= k < samples@.len() ==> (#[trigger] samples@[k]).device_index != i)
                implies #[trigger] self.tracker@[i] == old_c[i] by {
                if readings@[i].energy is Present {
                    let k0 = choose|k: int|
                        0 <= k < samples@.len() && (#[trigger] samples@[k]).device_index == i;
                    assert(samples@[k0].device_index == i);
                }
            }
        }
        samples
    }

    /// One polling tick: the caller supplies the tick's wall-clock timestamp,
    /// snapshotted once so every sample of the batch shares it; the tick then
    /// samples every device in registry order and assembles the batch that
    /// the sink consumes.
    pub fn tick(&mut self, timestamp_ms: u64) -> (b: MeasurementBatch)
        requires
            old(self).wf(),
        ensures
            final(self).wf(),
            final(self).device_count_spec() == old(self).device_count_spec(),
            b.timestamp_ms == timestamp_ms,
            batch_consistent(b.samples@, old(self).counters(), final(self).counters()),
    {
        let samples = self.fetch_latest_measurement();
        MeasurementBatch { timestamp_ms, samples }
    }
}

} // verus!

use nvml_sensor::probe::{resolve_process_fallback, to_optional, Probe, ProcessListAttempt};
use nvml_sensor::sample::{
    assemble_samples, build_sample, DeviceReading, MeasurementBatch, Utilization, UtilizationInfo,
};
use nvml_sensor::tracker::CounterDeltaTracker;

fn reading_with_energy(energy: Probe<u64>) -> DeviceReading {
    DeviceReading {
        energy,
        power: Probe::Present(8612),
        utilization: Probe::Present(Utilization { gpu: 12, memory: 34 }),
        util_decoder: Probe::Unsupported,
        util_encoder: Probe::Failed,
        compute_processes: vec![101, 102],
        graphic_processes: vec![],
    }
}

#[test]
fn to_optional_keeps_present_values_only() {
    assert_eq!(to_optional(Probe::Present(5u32)), Some(5));
    assert_eq!(to_optional::<u32>(Probe::Unsupported), None);
    assert_eq!(to_optional::<u32>(Probe::Failed), None);
}

#[test]
fn fallback_prefers_the_newer_list() {
    let r = resolve_process_fallback(ProcessListAttempt::List(vec![1, 2, 3]), None);
    assert_eq!(r, vec![1, 2, 3]);
}

#[test]
fn fallback_uses_the_older_list_on_missing_symbol() {
    let r = resolve_process_fallback(
        ProcessListAttempt::SymbolMissing,
        Some(ProcessListAttempt::List(vec![7])),
    );
    assert_eq!(r, vec![7]);
}

#[test]
fn fallback_degrades_to_empty_on_hard_errors() {
    let r = resolve_process_fallback(ProcessListAttempt::Failed, None);
    assert_eq!(r, Vec::<u32>::new());
    let r = resolve_process_fallback(
        ProcessListAttempt::SymbolMissing,
        Some(ProcessListAttempt::Failed),
    );
    assert_eq!(r, Vec::<u32>::new());
    let r = resolve_process_fallback(
        ProcessListAttempt::SymbolMissing,
        Some(ProcessListAttempt::SymbolMissing),
    );
    assert_eq!(r, Vec::<u32>::new());
}

#[test]
fn partial_support_keeps_the_sample() {
    // Power is unsupported, utilization has a value: the sample is still
    // produced, with power absent and utilization present.
    let reading = DeviceReading {
        energy: Probe::Present(5000),
        power: Probe::Unsupported,
        utilization: Probe::Present(Utilization { gpu: 55, memory: 33 }),
        util_decoder: Probe::Present(UtilizationInfo { utilization: 1, sampling_period: 167000 }),
        util_encoder: Probe::Unsupported,
        compute_processes: vec![42],
        graphic_processes: vec![9, 10],
    };
    let m = build_sample(3, 999, &reading);
    assert_eq!(m.device_index, 3);
    assert_eq!(m.consumption_millij, 999);
    assert_eq!(m.instantaneous_power, None);
    assert_eq!(m.utilization, Some(Utilization { gpu: 55, memory: 33 }));
    assert_eq!(m.util_decoder, Some(UtilizationInfo { utilization: 1, sampling_period: 167000 }));
    assert_eq!(m.util_encoder, None);
    assert_eq!(m.compute_processes, vec![42]);
    assert_eq!(m.graphic_processes, vec![9, 10]);
}

#[test]
fn hard_error_on_an_optional_metric_degrades_that_field_alone() {
    let reading = reading_with_energy(Probe::Present(100));
    let m = build_sample(0, 100, &reading);
    assert_eq!(m.instantaneous_power, Some(8612));
    assert_eq!(m.utilization, Some(Utilization { gpu: 12, memory: 34 }));
    assert_eq!(m.util_decoder, None);
    assert_eq!(m.util_encoder, None);
}

#[test]
fn failed_mandatory_read_skips_only_that_device() {
    // Device 2 of 4 fails its mandatory energy read: devices 0, 1 and 3 still
    // appear in the tick's output, in registry order.
    let mut tracker = CounterDeltaTracker::new(4);
    let readings = vec![
        reading_with_energy(Probe::Present(100)),
        reading_with_energy(Probe::Present(200)),
        reading_with_energy(Probe::Failed),
        reading_with_energy(Probe::Present(300)),
    ];
    let samples = assemble_samples(&mut tracker, &readings);
    assert_eq!(samples.len(), 3);
    assert_eq!(samples[0].device_index, 0);
    assert_eq!(samples[1].device_index, 1);
    assert_eq!(samples[2].device_index, 3);
    assert_eq!(samples[0].consumption_millij, 100);
    assert_eq!(samples[1].consumption_millij, 200);
    assert_eq!(samples[2].consumption_millij, 300);

    // The skipped device's slot kept its zero state: once it recovers, its
    // delta is counted from that state, not from a half-updated one.
    let recovered = vec![
        reading_with_energy(Probe::Present(150)),
        reading_with_energy(Probe::Present(200)),
        reading_with_energy(Probe::Present(50)),
        reading_with_energy(Probe::Present(360)),
    ];
    let samples = assemble_samples(&mut tracker, &recovered);
    assert_eq!(samples.len(), 4);
    assert_eq!(samples[2].device_index, 2);
    assert_eq!(samples[2].consumption_millij, 50);
    assert_eq!(samples[0].consumption_millij, 50);
    assert_eq!(samples[1].consumption_millij, 0);
    assert_eq!(samples[3].consumption_millij, 60);
}

#[test]
fn three_device_two_tick_scenario() {
    let mut tracker = CounterDeltaTracker::new(3);

    let tick1 = vec![
        reading_with_energy(Probe::Present(1000)),
        reading_with_energy(Probe::Present(2000)),
        reading_with_energy(Probe::Present(500)),
    ];
    let samples = assemble_samples(&mut tracker, &tick1);
    assert_eq!(samples.len(), 3);
    assert_eq!(samples[0].consumption_millij, 1000);
    assert_eq!(samples[1].consumption_millij, 2000);
    assert_eq!(samples[2].consumption_millij, 500);

    let tick2 = vec![
        reading_with_energy(Probe::Present(1500)),
        reading_with_energy(Probe::Present(1800)),
        reading_with_energy(Probe::Present(500)),
    ];
    let samples = assemble_samples(&mut tracker, &tick2);
    assert_eq!(samples.len(), 3);
    // Device 0 advanced normally.
    assert_eq!(samples[0].consumption_millij, 500);
    // Device 1's reading decreased: the wraparound branch spans the range.
    assert_eq!(samples[1].consumption_millij, (u64::MAX - 2000) + 1800);
    // Device 2 is unchanged: delta zero.
    assert_eq!(samples[2].consumption_millij, 0);
}

#[test]
fn batch_order_follows_the_registry_whatever_the_optional_metrics_did() {
    let mut tracker = CounterDeltaTracker::new(3);
    let readings = vec![
        DeviceReading {
            energy: Probe::Present(10),
            power: Probe::Failed,
            utilization: Probe::Unsupported,
            util_decoder: Probe::Failed,
            util_encoder: Probe::Failed,
            compute_processes: vec![],
            graphic_processes: vec![],
        },
        DeviceReading {
            energy: Probe::Present(20),
            power: Probe::Present(1),
            utilization: Probe::Present(Utilization { gpu: 1, memory: 1 }),
            util_decoder: Probe::Present(UtilizationInfo {
                utilization: 2,
                sampling_period: 100,
            }),
            util_encoder: Probe::Present(UtilizationInfo {
                utilization: 3,
                sampling_period: 100,
            }),
            compute_processes: vec![5],
            graphic_processes: vec![6],
        },
        DeviceReading {
            energy: Probe::Present(30),
            power: Probe::Unsupported,
            utilization: Probe::Failed,
            util_decoder: Probe::Unsupported,
            util_encoder: Probe::Unsupported,
            compute_processes: vec![],
            graphic_processes: vec![],
        },
    ];
    let samples = assemble_samples(&mut tracker, &readings);
    assert_eq!(samples.len(), 3);
    for (k, m) in samples.iter().enumerate() {
        assert_eq!(m.device_index as usize, k);
    }
}

#[test]
fn empty_registry_gives_an_empty_batch() {
    let mut tracker = CounterDeltaTracker::new(0);
    let readings: Vec<DeviceReading> = vec![];
    let samples = assemble_samples(&mut tracker, &readings);
    assert_eq!(samples.len(), 0);
}

#[test]
fn a_batch_carries_one_shared_timestamp() {
    let mut tracker = CounterDeltaTracker::new(1);
    let readings = vec![reading_with_energy(Probe::Present(5))];
    let samples = assemble_samples(&mut tracker, &readings);
    let batch = MeasurementBatch { timestamp_ms: 1700000000123, samples };
    assert_eq!(batch.timestamp_ms, 1700000000123);
    assert_eq!(batch.samples.len(), 1);
}

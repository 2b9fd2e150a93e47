//! Wraparound-aware conversion of absolute monotonic counters into
//! per-interval deltas, one counter slot per device.

use vstd::prelude::*;

verus! {

/// The delta between the previously stored absolute reading and the new one.
///
/// A reading that is not smaller than the stored one is an ordinary increase.
/// A smaller reading means the counter wrapped (or the driver reset it); the
/// delta then spans exactly one pass through the counter's full range:
/// `(u64::MAX - prev) + reading`.
pub open spec fn delta_spec(prev: u64, reading: u64) -> u64 {
    if reading >= prev {
        (reading - prev) as u64
    } else {
        ((u64::MAX - prev) + reading) as u64
    }
}

/// The sequence of deltas produced when `readings` are fed in order through
/// one counter slot whose stored state starts at `start`.
pub open spec fn deltas_from(start: u64, readings: Seq<u64>) -> Seq<u64>
    decreases readings.len(),
{
    if readings.len() == 0 {
        Seq::empty()
    } else {
        seq![delta_spec(start, readings[0])] + deltas_from(readings[0], readings.drop_first())
    }
}

/// The sum of a sequence of deltas, as a mathematical integer.
pub open spec fn sum_of(deltas: Seq<u64>) -> int
    decreases deltas.len(),
{
    if deltas.len() == 0 {
        0
    } else {
        deltas[0] + sum_of(deltas.drop_first())
    }
}

/// How many of the steps took the wraparound branch: the new reading was
/// strictly below the stored state.
pub open spec fn wrap_count(start: u64, readings: Seq<u64>) -> int
    decreases readings.len(),
{
    if readings.len() == 0 {
        0
    } else {
        (if readings[0] < start {
            1int
        } else {
            0int
        }) + wrap_count(readings[0], readings.drop_first())
    }
}

/// A run produces exactly one delta per reading.
pub proof fn lemma_deltas_from_len(start: u64, readings: Seq<u64>)
    ensures
        deltas_from(start, readings).len() == readings.len(),
    decreases readings.len(),
{
    if readings.len() > 0 {
        lemma_deltas_from_len(readings[0], readings.drop_first());
    }
}

/// Each delta in a run is determined by the reading before it: the state a
/// slot holds at step `i` is exactly the reading of step `i - 1` (or the
/// starting state for the first step).
pub proof fn lemma_deltas_from_index(start: u64, readings: Seq<u64>, i: int)
    requires
        0 <= i < readings.len(),
    ensures
        deltas_from(start, readings)[i] == delta_spec(
            if i == 0 {
                start
            } else {
                readings[i - 1]
            },
            readings[i],
        ),
    decreases readings.len(),
{
    lemma_deltas_from_len(readings[0], readings.drop_first());
    if i > 0 {
        lemma_deltas_from_index(readings[0], readings.drop_first(), i - 1);
    }
}

/// Readings fed without wraparound to a fresh slot yield as deltas the plain
/// differences of consecutive readings, and the first reading itself as the
/// first delta.
pub proof fn lemma_no_wrap_deltas(readings: Seq<u64>)
    requires
        forall|i: int| 0 <= i < readings.len() - 1 ==> #[trigger] readings[i] <= readings[i + 1],
    ensures
        deltas_from(0u64, readings).len() == readings.len(),
        readings.len() > 0 ==> deltas_from(0u64, readings)[0] == readings[0],
        forall|i: int|
            1 <= i < readings.len() ==> deltas_from(0u64, readings)[i] == readings[i] - readings[i
                - 1],
{
    lemma_deltas_from_len(0u64, readings);
    if readings.len() > 0 {
        lemma_deltas_from_index(0u64, readings, 0);
    }
    assert forall|i: int| 1 <= i < readings.len() implies deltas_from(0u64, readings)[i]
        == readings[i] - readings[i - 1] by {
        lemma_deltas_from_index(0u64, readings, i);
        assert(readings[i - 1] <= readings[i]);
    }
}

/// Conservation of energy across a run of ticks: the deltas, cumulatively
/// summed, account for exactly the counter's total movement — the final
/// reading minus the starting state, plus one full counter range for each
/// interval in which the counter wrapped. No energy is silently dropped or
/// double-counted.
pub proof fn lemma_delta_conservation(start: u64, readings: Seq<u64>)
    requires
        readings.len() > 0,
    ensures
        sum_of(deltas_from(start, readings)) == readings.last() - start + wrap_count(
            start,
            readings,
        ) * (u64::MAX as int),
    decreases readings.len(),
{
    let rest = readings.drop_first();
    let d0 = delta_spec(start, readings[0]);
    let ds = deltas_from(start, readings);
    assert(ds == seq![d0] + deltas_from(readings[0], rest));
    assert(ds[0] == d0);
    assert(ds.drop_first() =~= deltas_from(readings[0], rest));
    assert(sum_of(ds) == d0 + sum_of(deltas_from(readings[0], rest)));
    assert(wrap_count(start, readings) == (if readings[0] < start {
        1int
    } else {
        0int
    }) + wrap_count(readings[0], rest));
    if readings.len() == 1 {
        assert(rest.len() == 0);
        assert(sum_of(deltas_from(readings[0], rest)) == 0);
        assert(wrap_count(readings[0], rest) == 0);
    } else {
        lemma_delta_conservation(readings[0], rest);
        assert(rest.last() == readings.last());
    }
}

/// Feeding the same reading twice in a row for one device makes the second
/// delta zero: the first call stored the reading as that device's state, and
/// the delta of a reading against itself is nothing.
pub proof fn lemma_repeated_reading_delta_zero(state: Seq<u64>, device_index: int, reading: u64)
    requires
        0 <= device_index < state.len(),
    ensures
        delta_spec(state.update(device_index, reading)[device_index], reading) == 0,
{
}

/// Owns the last absolute counter reading observed for each device, and
/// converts each new absolute reading into the delta since the previous one.
///
/// Every slot starts at zero, so the first delta for a device equals its
/// first absolute reading.
pub struct CounterDeltaTracker {
    prev: Vec<u64>,
}

impl View for CounterDeltaTracker {
    type V = Seq<u64>;

    closed spec fn view(&self) -> Seq<u64> {
        self.prev@
    }
}

impl CounterDeltaTracker {
    /// A tracker with `device_count` slots, all holding zero.
    pub fn new(device_count: usize) -> (t: Self)
        ensures
            t@.len() == device_count,
            forall|i: int| 0 <= i < device_count ==> t@[i] == 0u64,
    {
        let mut prev: Vec<u64> = Vec::new();
        let mut i: usize = 0;
        while i < device_count
            invariant
                i <= device_count,
                prev@.len() == i,
                forall|j: int| 0 <= j < i ==> prev@[j] == 0u64,
            decreases device_count - i,
        {
            prev.push(0u64);
            i = i + 1;
        }
        CounterDeltaTracker { prev }
    }

    /// How many device slots the tracker owns.
    pub fn slot_count(&self) -> (n: usize)
        ensures
            n == self@.len(),
    {
        self.prev.len()
    }

    /// The wraparound-corrected delta for one device, with the new absolute
    /// reading stored as that device's state whatever branch was taken.
    pub fn delta(&mut self, device_index: usize, reading: u64) -> (d: u64)
        requires
            device_index < old(self)@.len(),
        ensures
            d == delta_spec(old(self)@[device_index as int], reading),
            final(self)@ == old(self)@.update(device_index as int, reading),
    {
        let prev = self.prev[device_index];
        let d = if reading >= prev {
            reading - prev
        } else {
            (u64::MAX - prev) + reading
        };
        self.prev[device_index] = reading;
        d
    }
}

} // verus!

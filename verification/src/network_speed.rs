//! Network counters and the byte deltas that speeds are derived from.
use vstd::prelude::*;

verus! {

/// Total bytes received and transmitted, as the interface counters report.
#[derive(Debug, Clone, Copy, PartialEq, Eq, Structural)]
pub struct NetworkCounters {
    pub received_bytes: u64,
    pub transmitted_bytes: u64,
}

impl Default for NetworkCounters {
    fn default() -> (r: Self)
        ensures
            r == (NetworkCounters { received_bytes: 0, transmitted_bytes: 0 }),
    {
        NetworkCounters { received_bytes: 0, transmitted_bytes: 0 }
    }
}

/// `a + b` saturating at `u64::MAX`.
pub open spec fn saturating_sum(a: u64, b: u64) -> u64 {
    if a + b > u64::MAX {
        u64::MAX
    } else {
        (a + b) as u64
    }
}

/// The counters of all interfaces added up, each total saturating at
/// `u64::MAX`, in the order the interfaces are listed.
pub open spec fn spec_total(interfaces: Seq<NetworkCounters>) -> NetworkCounters
    decreases interfaces.len(),
{
    if interfaces.len() == 0 {
        NetworkCounters { received_bytes: 0, transmitted_bytes: 0 }
    } else {
        let rest = spec_total(interfaces.drop_last());
        NetworkCounters {
            received_bytes: saturating_sum(rest.received_bytes, interfaces.last().received_bytes),
            transmitted_bytes: saturating_sum(
                rest.transmitted_bytes,
                interfaces.last().transmitted_bytes,
            ),
        }
    }
}

impl NetworkCounters {
    /// The counters of all interfaces added up (see `spec_total`).
    pub fn total(interfaces: &[NetworkCounters]) -> (r: NetworkCounters)
        ensures
            r == spec_total(interfaces@),
    {
        let mut counters = NetworkCounters { received_bytes: 0, transmitted_bytes: 0 };
        let mut i: usize = 0;
        while i < interfaces.len()
            invariant
                i <= interfaces.len(),
                counters == spec_total(interfaces@.take(i as int)),
            decreases interfaces.len() - i,
        {
            let data = interfaces[i];
            assert(interfaces@.take(i + 1).drop_last() =~= interfaces@.take(i as int));
            counters.received_bytes = counters.received_bytes.saturating_add(data.received_bytes);
            counters.transmitted_bytes = counters.transmitted_bytes.saturating_add(
                data.transmitted_bytes,
            );
            i = i + 1;
        }
        assert(interfaces@.take(interfaces.len() as int) =~= interfaces@);
        counters
    }
}

/// A span of time between two samples, in nanoseconds.
#[derive(Debug, Clone, Copy, PartialEq, Eq, Structural)]
pub struct ElapsedTime {
    pub nanos: u128,
}

/// Shortest span over which a speed is computed: 0.1 s.
pub const MIN_SAMPLE_NANOS: u128 = 100_000_000;

/// Longest span over which a speed is computed: one hour.
pub const MAX_SAMPLE_NANOS: u128 = 3_600_000_000_000;

/// Bytes moved in each direction over a span of time. The speed in bytes
/// per second is `bytes / (elapsed.nanos / 10^9)`.
#[derive(Debug, Clone, Copy, PartialEq, Eq, Structural)]
pub struct CounterDelta {
    pub received_bytes: u64,
    pub transmitted_bytes: u64,
    pub elapsed: ElapsedTime,
}

/// The bytes moved between two counter readings taken `elapsed` apart, or
/// `None` (a speed of zero) when the span is shorter than 0.1 s or longer
/// than an hour, or when either counter went backwards (an interface was
/// reset).
pub open spec fn spec_delta(previous: NetworkCounters, current: NetworkCounters, elapsed: ElapsedTime) -> Option<CounterDelta> {
    if elapsed.nanos < MIN_SAMPLE_NANOS || elapsed.nanos > MAX_SAMPLE_NANOS {
        None
    } else if current.received_bytes < previous.received_bytes || current.transmitted_bytes
        < previous.transmitted_bytes {
        None
    } else {
        Some(
            CounterDelta {
                received_bytes: (current.received_bytes - previous.received_bytes) as u64,
                transmitted_bytes: (current.transmitted_bytes - previous.transmitted_bytes) as u64,
                elapsed,
            },
        )
    }
}

/// Turns successive counter readings into byte deltas.
#[derive(Debug, Clone, Copy)]
pub struct NetworkSpeedCalculator {
    previous: Option<NetworkCounters>,
}

impl NetworkSpeedCalculator {
    /// The reading of the previous sample, if any.
    pub closed spec fn spec_previous(self) -> Option<NetworkCounters> {
        self.previous
    }

    /// A calculator that has seen no sample yet.
    pub fn new() -> (r: Self)
        ensures
            r.spec_previous() is None,
    {
        NetworkSpeedCalculator { previous: None }
    }

    /// Records the reading `current`, taken `elapsed` after the previous
    /// one, and returns the bytes moved since then (`None`, a speed of zero,
    /// for the first reading; see `spec_delta`).
    pub fn update(&mut self, current: NetworkCounters, elapsed: ElapsedTime) -> (r: Option<
        CounterDelta,
    >)
        ensures
            final(self).spec_previous() == Some(current),
            r == match old(self).spec_previous() {
                Some(previous) => spec_delta(previous, current, elapsed),
                None => None,
            },
    {
        let delta = match self.previous {
            Some(previous) => Self::calculate(previous, current, elapsed),
            None => None,
        };
        self.previous = Some(current);
        delta
    }

    /// The bytes moved between two readings (see `spec_delta`).
    pub fn calculate(previous: NetworkCounters, current: NetworkCounters, elapsed: ElapsedTime) -> (r: Option<CounterDelta>)
        ensures
            r == spec_delta(previous, current, elapsed),
    {
        if elapsed.nanos < MIN_SAMPLE_NANOS || elapsed.nanos > MAX_SAMPLE_NANOS {
            return None;
        }
        let down = current.received_bytes.checked_sub(previous.received_bytes);
        let up = current.transmitted_bytes.checked_sub(previous.transmitted_bytes);
        match (down, up) {
            (Some(down), Some(up)) => Some(
                CounterDelta { received_bytes: down, transmitted_bytes: up, elapsed },
            ),
            _ => None,
        }
    }
}

impl Default for NetworkSpeedCalculator {
    fn default() -> (r: Self)
        ensures
            r.spec_previous() is None,
    {
        NetworkSpeedCalculator::new()
    }
}

/// A delta never reports negative traffic: it only exists when both
/// counters grew or stayed, and adding it to the previous reading gives the
/// current one back.
pub proof fn lemma_delta_restores_current(
    previous: NetworkCounters,
    current: NetworkCounters,
    elapsed: ElapsedTime,
)
    ensures
        spec_delta(previous, current, elapsed) matches Some(d) ==> {
            &&& previous.received_bytes + d.received_bytes == current.received_bytes
            &&& previous.transmitted_bytes + d.transmitted_bytes == current.transmitted_bytes
            &&& d.elapsed == elapsed
        },
        (current.received_bytes < previous.received_bytes || current.transmitted_bytes
            < previous.transmitted_bytes) ==> spec_delta(previous, current, elapsed) is None,
        (MIN_SAMPLE_NANOS <= elapsed.nanos <= MAX_SAMPLE_NANOS && previous.received_bytes
            <= current.received_bytes && previous.transmitted_bytes <= current.transmitted_bytes)
            ==> spec_delta(previous, current, elapsed) is Some,
{
}

} // verus!

//! When the dashboard takes a sample.
//!
//! The display is refreshed often, but a sample is taken once at least a
//! second has passed since the previous one, and time is measured from the
//! moment a download address is known. Times are nanoseconds on a clock that
//! the caller reads.
use vstd::prelude::*;

verus! {

/// The least time between two samples.
pub const SAMPLE_INTERVAL_NANOS: u64 = 1_000_000_000;

/// The times a sample is taken with.
#[derive(Debug, Clone, Copy, PartialEq, Eq, Structural)]
pub struct SampleTimes {
    /// Time since measuring began.
    pub elapsed_nanos: u64,
    /// Time since the previous sample.
    pub interval_nanos: u64,
}

/// `a - b`, or zero when `b` is later.
pub open spec fn since(a: u64, b: u64) -> u64 {
    if a >= b {
        (a - b) as u64
    } else {
        0
    }
}

/// When measuring began, if it has, and when the last sample was taken.
pub struct SampleClock {
    started: Option<u64>,
    sampled: u64,
}

pub struct SampleClockView {
    pub started: Option<u64>,
    pub sampled: u64,
}

impl View for SampleClock {
    type V = SampleClockView;

    closed spec fn view(&self) -> SampleClockView {
        SampleClockView { started: self.started, sampled: self.sampled }
    }
}

impl SampleClockView {
    /// No sample is older than the start.
    pub open spec fn wf(self) -> bool {
        self.started matches Some(s) ==> s <= self.sampled
    }

    /// The clock after a tick at `now`.
    pub open spec fn after_tick(self, now: u64, address_known: bool) -> (SampleClockView, Option<SampleTimes>) {
        let c = if address_known && self.started is None {
            SampleClockView { started: Some(now), sampled: now }
        } else {
            self
        };
        let interval = since(now, c.sampled);
        match c.started {
            Some(start) => if interval >= SAMPLE_INTERVAL_NANOS {
                (
                    SampleClockView { started: c.started, sampled: now },
                    Some(SampleTimes { elapsed_nanos: since(now, start), interval_nanos: interval }),
                )
            } else {
                (c, None)
            },
            None => (c, None),
        }
    }
}

impl SampleClock {
    #[verifier::type_invariant]
    spec fn inv(self) -> bool {
        self@.wf()
    }

    /// A clock created at `now`, before any address is known.
    pub fn new(now: u64) -> (c: SampleClock)
        ensures
            c@.wf(),
            c@.started is None,
            c@.sampled == now,
    {
        SampleClock { started: None, sampled: now }
    }

    /// A tick at `now`. Measuring begins at the first tick that knows the
    /// address; from then on a sample is due when a second has passed since
    /// the last one, and its times are returned.
    pub fn on_tick(&mut self, now: u64, address_known: bool) -> (due: Option<SampleTimes>)
        ensures
            final(self)@.wf(),
            (final(self)@, due) == old(self)@.after_tick(now, address_known),
            due matches Some(t) ==> SAMPLE_INTERVAL_NANOS <= t.interval_nanos <= t.elapsed_nanos,
    {
        proof {
            use_type_invariant(&*self);
        }
        if address_known && self.started.is_none() {
            self.sampled = now;
            self.started = Some(now);
        }
        let interval = if now >= self.sampled {
            now - self.sampled
        } else {
            0
        };
        match self.started {
            Some(start) => {
                if interval >= SAMPLE_INTERVAL_NANOS {
                    let elapsed = now - start;
                    self.sampled = now;
                    Some(SampleTimes { elapsed_nanos: elapsed, interval_nanos: interval })
                } else {
                    None
                }
            },
            None => None,
        }
    }
}

} // verus!

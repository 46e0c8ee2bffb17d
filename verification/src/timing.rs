use vstd::prelude::*;

verus! {

/// Nanoseconds in one second.
pub const NANOS_PER_SEC: u32 = 1_000_000_000;

/// A span of time: whole seconds plus a sub-second part in nanoseconds.
#[derive(Clone, Copy, Debug, PartialEq, Eq, Structural)]
pub struct TimeSpan {
    pub secs: u64,
    pub nanos: u32,
}

impl TimeSpan {
    /// The sub-second part is below one second.
    pub open spec fn wf(self) -> bool {
        self.nanos < NANOS_PER_SEC
    }

    /// The whole span in nanoseconds.
    pub open spec fn total_nanos(self) -> int {
        self.secs * 1_000_000_000 + self.nanos
    }

    /// The empty span.
    pub fn zero() -> (r: TimeSpan)
        ensures
            r.secs == 0,
            r.nanos == 0,
    {
        TimeSpan { secs: 0, nanos: 0 }
    }

    /// A span of `secs` seconds and `nanos` nanoseconds.
    pub fn new(secs: u64, nanos: u32) -> (r: TimeSpan)
        requires
            nanos < NANOS_PER_SEC,
        ensures
            r.secs == secs,
            r.nanos == nanos,
            r.wf(),
    {
        TimeSpan { secs, nanos }
    }

    /// The number of whole seconds.
    pub fn as_secs(&self) -> (r: u64)
        ensures
            r == self.secs,
    {
        self.secs
    }

    /// The sum of two spans, carrying whole seconds out of the nanoseconds.
    pub open spec fn plus(self, other: TimeSpan) -> TimeSpan {
        if self.nanos + other.nanos >= NANOS_PER_SEC {
            TimeSpan {
                secs: (self.secs + other.secs + 1) as u64,
                nanos: (self.nanos + other.nanos - NANOS_PER_SEC) as u32,
            }
        } else {
            TimeSpan { secs: (self.secs + other.secs) as u64, nanos: (self.nanos + other.nanos) as u32 }
        }
    }

    /// Whether two spans can be added without the seconds overflowing.
    pub open spec fn can_add(self, other: TimeSpan) -> bool {
        self.total_nanos() + other.total_nanos() < (u64::MAX as int + 1) * 1_000_000_000
    }

    /// Whether two valid spans can be added (the condition of `add`).
    pub fn sum_fits(self, other: TimeSpan) -> (r: bool)
        requires
            self.wf(),
            other.wf(),
        ensures
            r == self.can_add(other),
    {
        let carry: u128 = if self.nanos as u64 + other.nanos as u64 >= NANOS_PER_SEC as u64 {
            1
        } else {
            0
        };
        self.secs as u128 + other.secs as u128 + carry <= u64::MAX as u128
    }

    /// The sum of two spans.
    pub fn add(self, other: TimeSpan) -> (r: TimeSpan)
        requires
            self.wf(),
            other.wf(),
            self.can_add(other),
        ensures
            r == self.plus(other),
            r.wf(),
            r.total_nanos() == self.total_nanos() + other.total_nanos(),
    {
        if self.nanos >= NANOS_PER_SEC - other.nanos {
            let nanos: u32 = self.nanos - (NANOS_PER_SEC - other.nanos);
            TimeSpan { secs: self.secs + other.secs + 1, nanos }
        } else {
            TimeSpan { secs: self.secs + other.secs, nanos: self.nanos + other.nanos }
        }
    }
}

/// The playback position: the position at the last pause, plus the time
/// since playback resumed when the clock is running.
pub fn elapsed_position(running: Option<TimeSpan>, paused_position: TimeSpan) -> (r: TimeSpan)
    requires
        paused_position.wf(),
        running matches Some(e) ==> e.wf() && paused_position.can_add(e),
    ensures
        r == match running {
            Some(e) => paused_position.plus(e),
            None => paused_position,
        },
        r.wf(),
        r.total_nanos() == paused_position.total_nanos() + match running {
            Some(e) => e.total_nanos(),
            None => 0,
        },
{
    match running {
        Some(elapsed) => paused_position.add(elapsed),
        None => paused_position,
    }
}

} // verus!

verus! {

/// `std::time::SystemTime`, a reading of the wall clock, carried through
/// opaquely.
#[verifier::external_type_specification]
#[verifier::external_body]
pub struct ExSystemTime(std::time::SystemTime);

/// Reads the wall clock (`SystemTime::now`). Nothing is claimed of the
/// reading.
#[verifier::external_body]
pub fn system_time_now() -> std::time::SystemTime {
    std::time::SystemTime::now()
}

/// The time elapsed from the Unix epoch to `t`
/// (`SystemTime::duration_since(UNIX_EPOCH)`), `None` when `t` is earlier.
/// The claim is only that a `Duration`'s sub-second part is below one
/// second; the reading itself is the clock's.
#[verifier::external_body]
pub fn since_unix_epoch(t: &std::time::SystemTime) -> (r: Option<TimeSpan>)
    ensures
        r matches Some(d) ==> d.wf(),
{
    match t.duration_since(std::time::UNIX_EPOCH) {
        Ok(d) => Some(TimeSpan { secs: d.as_secs(), nanos: d.subsec_nanos() }),
        Err(_) => None,
    }
}

/// The sub-second nanoseconds of the wall clock, 0 when the clock reads
/// before the Unix epoch.
pub fn clock_subsec_nanos() -> (r: u32)
    ensures
        r < NANOS_PER_SEC,
{
    let now = system_time_now();
    match since_unix_epoch(&now) {
        Some(d) => d.nanos,
        None => 0,
    }
}

} // verus!

use vstd::prelude::*;

verus! {

/// Nanosecond counts stay below this bound: a leap second is carried as a
/// count of one billion or more within the second that precedes it.
pub const NANOS_BOUND: u32 = 2_000_000_000;

/// A point in time in UTC: whole seconds since the Unix epoch, and the
/// nanoseconds elapsed within that second.
#[derive(Clone, Copy, Debug, PartialEq, Eq, Structural)]
pub struct Timestamp {
    pub secs: i64,
    pub nanos: u32,
}

impl Timestamp {
    pub open spec fn wf(&self) -> bool {
        self.nanos < NANOS_BOUND
    }

    /// `self` does not come after `other`.
    pub open spec fn no_later_than(&self, other: Timestamp) -> bool {
        self.secs < other.secs || (self.secs == other.secs && self.nanos <= other.nanos)
    }

    /// Builds a timestamp; `None` when the nanoseconds are out of range.
    pub fn new(secs: i64, nanos: u32) -> (r: Option<Timestamp>)
        ensures
            r == (if nanos < NANOS_BOUND {
                Some(Timestamp { secs, nanos })
            } else {
                None::<Timestamp>
            }),
    {
        if nanos < NANOS_BOUND {
            Some(Timestamp { secs, nanos })
        } else {
            None
        }
    }

    pub fn is_no_later_than(&self, other: &Timestamp) -> (r: bool)
        ensures
            r == self.no_later_than(*other),
    {
        self.secs < other.secs || (self.secs == other.secs && self.nanos <= other.nanos)
    }
}

/// Relies on chrono's `From<SystemTime> for DateTime<Utc>`, applied to
/// `SystemTime::now()`, for the current wall-clock time (it also handles a
/// clock set before 1970), read back through `DateTime::timestamp` and
/// `DateTime::timestamp_subsec_nanos`; the latter is documented to exceed
/// 999,999,999 only within a leap second.
#[verifier::external_body]
pub(crate) fn clock_now() -> (r: Timestamp)
    ensures
        r.wf(),
{
    let now = chrono::DateTime::<chrono::Utc>::from(std::time::SystemTime::now());
    Timestamp { secs: now.timestamp(), nanos: now.timestamp_subsec_nanos() }
}

} // verus!

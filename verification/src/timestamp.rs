use vstd::prelude::*;

verus! {

/// A point in time, as nanoseconds since the Unix epoch.
///
/// The reconciler never computes with timestamps; it only copies them and
/// stamps update requests with the construction time, so a single integer
/// offset is the whole model.
#[derive(Clone, Copy, Debug, PartialEq, Eq, Structural)]
pub struct Timestamp {
    pub unix_nanos: i128,
}

impl Timestamp {
    pub open spec fn spec_is_before(self, other: Timestamp) -> bool {
        self.unix_nanos < other.unix_nanos
    }

    /// True when `self` is strictly earlier than `other`.
    pub fn is_before(self, other: Timestamp) -> (r: bool)
        ensures
            r == self.spec_is_before(other),
    {
        self.unix_nanos < other.unix_nanos
    }
}

/// Relies on time::OffsetDateTime::now_utc and unix_timestamp_nanos: the
/// current wall-clock time as a nanosecond offset from the Unix epoch.
/// Nothing is assumed of the value returned.
#[verifier::external_body]
pub(crate) fn now() -> Timestamp {
    Timestamp { unix_nanos: time::OffsetDateTime::now_utc().unix_timestamp_nanos() }
}

} // verus!

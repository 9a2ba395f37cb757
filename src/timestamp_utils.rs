use vstd::prelude::*;

verus! {

/// A protobuf timestamp: seconds since the Unix epoch and nanoseconds.
#[derive(PartialEq, Eq, Structural, Clone, Copy, Debug)]
pub struct Timestamp {
    pub seconds: i64,
    pub nanos: i32,
}

/// An instant: non-leap seconds since the Unix epoch and nanoseconds past
/// that second, which exceed a second only on a leap second.
#[derive(PartialEq, Eq, Structural, Clone, Copy, Debug)]
pub struct UtcDateTime {
    pub secs: i64,
    pub nanos: u32,
}

/// A timestamp that names no representable instant.
#[derive(PartialEq, Eq, Structural, Clone, Copy, Debug)]
pub enum TimestampError {
    InvalidOrOutOfRange(Timestamp),
}

impl UtcDateTime {
    pub open spec fn wf(&self) -> bool {
        self.nanos < 2_000_000_000
    }
}

/// Whether chrono represents the instant `secs` seconds and `nsecs`
/// nanoseconds after the Unix epoch.
pub uninterp spec fn chrono_representable(secs: i64, nsecs: u32) -> bool;

/// Relies on `chrono::DateTime::<Utc>::from_timestamp`: `None` on an
/// out-of-range second count or a nanosecond count of two billion or more,
/// else an instant that round-trips through `timestamp` and
/// `timestamp_subsec_nanos`.
#[verifier::external_body]
fn utc_from_timestamp(secs: i64, nsecs: u32) -> (r: Option<UtcDateTime>)
    ensures
        r is Some <==> chrono_representable(secs, nsecs),
        r is Some ==> r == Some(UtcDateTime { secs, nanos: nsecs }),
        nsecs >= 2_000_000_000 ==> r is None,
{
    match chrono::DateTime::<chrono::Utc>::from_timestamp(secs, nsecs) {
        Some(dt) => Some(UtcDateTime { secs: dt.timestamp(), nanos: dt.timestamp_subsec_nanos() }),
        None => None,
    }
}

/// What converting `ts` yields.
pub open spec fn timestamp_instant(ts: Timestamp) -> Result<UtcDateTime, TimestampError> {
    if chrono_representable(ts.seconds, ts.nanos as u32) {
        Ok(UtcDateTime { secs: ts.seconds, nanos: ts.nanos as u32 })
    } else {
        Err(TimestampError::InvalidOrOutOfRange(ts))
    }
}

/// The instant that a protobuf timestamp names; a negative nanosecond count
/// is read as the unsigned value of its bits, and so is never valid.
pub fn from_timestamp(ts: Timestamp) -> (r: Result<UtcDateTime, TimestampError>)
    ensures
        r == timestamp_instant(ts),
        r matches Ok(dt) ==> dt.wf(),
{
    let nsecs = ts.nanos as u32;
    match utc_from_timestamp(ts.seconds, nsecs) {
        Some(dt) => Ok(dt),
        None => Err(TimestampError::InvalidOrOutOfRange(ts)),
    }
}

/// The protobuf timestamp of an instant.
pub fn to_timestamp(dt: UtcDateTime) -> (r: Timestamp)
    requires
        dt.wf(),
    ensures
        r.seconds == dt.secs,
        r.nanos == dt.nanos,
{
    Timestamp { seconds: dt.secs, nanos: dt.nanos as i32 }
}

/// Converting an instant that was read from a timestamp back and forth
/// gives that instant again.
pub proof fn lemma_timestamp_round_trip(ts: Timestamp, dt: UtcDateTime)
    requires
        timestamp_instant(ts) == Ok::<UtcDateTime, TimestampError>(dt),
        dt.wf(),
    ensures
        timestamp_instant(Timestamp { seconds: dt.secs, nanos: dt.nanos as i32 }) == Ok::<
            UtcDateTime,
            TimestampError,
        >(dt),
{
    let x = dt.nanos;
    assert(x < 2_000_000_000u32 ==> (x as i32) as u32 == x) by (bit_vector);
}

} // verus!

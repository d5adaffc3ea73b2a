//! Event times: milliseconds since the Unix epoch, split into the seconds and
//! nanoseconds from which chrono builds a date-time.

use vstd::prelude::*;

verus! {

#[verifier::external_type_specification]
#[verifier::external_body]
pub struct ExNaiveDateTime(chrono::NaiveDateTime);

/// The last second, counted from the Unix epoch, that chrono can represent
/// (the end of the year 262142).
pub const MAX_TIMESTAMP_SECS: i64 = 8_210_266_876_799;

/// The date-time that chrono builds from `secs` seconds after the Unix epoch
/// and `nsecs` nanoseconds.
pub uninterp spec fn chrono_naive_datetime(secs: i64, nsecs: u32) -> chrono::NaiveDateTime;

/// Calls `chrono::NaiveDateTime::from_timestamp_opt`. The contract claims what
/// chrono's source shows for the seconds and nanoseconds used here: a
/// non-negative second count up to `MAX_TIMESTAMP_SECS` with fewer than
/// 10^9 nanoseconds is accepted, a larger second count or 2·10^9 nanoseconds
/// or more is refused. Negative second counts and leap-second nanoseconds
/// are left unsaid. The date-time built depends on the two numbers alone and
/// is named `chrono_naive_datetime`.
#[verifier::external_body]
#[allow(deprecated)]
fn naive_from_timestamp(secs: i64, nsecs: u32) -> (r: Option<chrono::NaiveDateTime>)
    ensures
        0 <= secs <= MAX_TIMESTAMP_SECS && nsecs < 1_000_000_000 ==> r is Some,
        secs > MAX_TIMESTAMP_SECS ==> r is None,
        nsecs >= 2_000_000_000 ==> r is None,
        r matches Some(d) ==> d == chrono_naive_datetime(secs, nsecs),
{
    chrono::NaiveDateTime::from_timestamp_opt(secs, nsecs)
}

/// A UTC instant as whole seconds since the Unix epoch and the nanoseconds
/// after that second.
#[derive(Clone, Copy, Debug, PartialEq, Eq, Structural)]
pub struct UtcTimestamp {
    pub secs: i64,
    pub nanos: u32,
}

/// A time in milliseconds that chrono can represent.
pub open spec fn ms_in_range(time: u64) -> bool {
    time / 1000 <= MAX_TIMESTAMP_SECS
}

/// The instant `time` milliseconds after the Unix epoch.
pub open spec fn ms_to_dt_spec(time: u64) -> UtcTimestamp {
    UtcTimestamp { secs: (time / 1000) as i64, nanos: ((time % 1000) * 1_000_000) as u32 }
}

impl UtcTimestamp {
    /// The instant lies in chrono's range and the nanoseconds stay below a second.
    pub open spec fn wf(&self) -> bool {
        &&& 0 <= self.secs <= MAX_TIMESTAMP_SECS
        &&& self.nanos < 1_000_000_000
    }

    /// The chrono date-time of this instant.
    pub fn to_naive(&self) -> (d: chrono::NaiveDateTime)
        requires
            self.wf(),
        ensures
            d == chrono_naive_datetime(self.secs, self.nanos),
    {
        naive_from_timestamp(self.secs, self.nanos).unwrap()
    }
}

/// The instant `time` milliseconds after the Unix epoch.
pub fn ms_to_dt(time: u64) -> (t: UtcTimestamp)
    requires
        ms_in_range(time),
    ensures
        t == ms_to_dt_spec(time),
        t.wf(),
        t.secs * 1000 + t.nanos / 1_000_000 == time,
        t.nanos % 1_000_000 == 0,
{
    proof {
        lemma_ms_to_dt_keeps_millis(time);
    }
    let secs = (time / 1000) as i64;
    let nanos = 1_000_000 * ((time % 1000) as u32);
    UtcTimestamp { secs, nanos }
}

/// Splitting a time into seconds and nanoseconds loses nothing of its
/// milliseconds.
pub proof fn lemma_ms_to_dt_keeps_millis(time: u64)
    requires
        ms_in_range(time),
    ensures
        ms_to_dt_spec(time).secs * 1000 + ms_to_dt_spec(time).nanos / 1_000_000 == time,
        ms_to_dt_spec(time).nanos % 1_000_000 == 0,
{
    let t = ms_to_dt_spec(time);
    assert(t.nanos as int == (time % 1000) * 1_000_000);
    assert(((time % 1000) * 1_000_000) / 1_000_000 == time % 1000) by (nonlinear_arith);
    assert(((time % 1000) * 1_000_000) % 1_000_000 == 0) by (nonlinear_arith);
}


/// The milliseconds determine the instant: an instant whose nanoseconds are
/// whole milliseconds below a second and that counts `time` milliseconds is
/// the one `ms_to_dt` gives for `time`.
pub proof fn lemma_millis_determine_instant(t: UtcTimestamp, time: u64)
    requires
        ms_in_range(time),
        t.nanos < 1_000_000_000,
        t.nanos % 1_000_000 == 0,
        t.secs * 1000 + t.nanos / 1_000_000 == time,
    ensures
        t == ms_to_dt_spec(time),
{
    let q = t.nanos / 1_000_000;
    assert(t.nanos == q * 1_000_000) by (nonlinear_arith)
        requires
            t.nanos % 1_000_000 == 0,
            q == t.nanos / 1_000_000,
    ;
    assert(0 <= q < 1000) by (nonlinear_arith)
        requires
            q == t.nanos / 1_000_000,
            t.nanos < 1_000_000_000,
    ;
    assert(time / 1000 == t.secs && time % 1000 == q) by (nonlinear_arith)
        requires
            t.secs * 1000 + q == time,
            0 <= q < 1000,
    ;
}

} // verus!

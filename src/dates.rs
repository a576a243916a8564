//! Time-to-live values and absolute expiry timestamps, in milliseconds since
//! the UNIX epoch.
use vstd::prelude::*;

verus! {

/// Earliest instant, in milliseconds since the epoch, that chrono can represent
/// (January 1 of year -262143, midnight UTC).
pub const MIN_UTC_MILLIS: i64 = -8334601228800000;

/// Latest instant, in milliseconds since the epoch, that chrono can represent
/// (the last millisecond of December 31 of year 262142, UTC).
pub const MAX_UTC_MILLIS: i64 = 8210266876799999;

#[verifier::external_type_specification]
#[verifier::external_body]
pub struct ExNaiveDateTime(chrono::NaiveDateTime);

/// A signed duration, as whole seconds and a nanosecond part of the same sign.
#[derive(Clone, Copy, Debug, PartialEq, Eq, Structural)]
pub struct Ttl {
    pub seconds: i64,
    pub nanoseconds: i32,
}

impl Ttl {
    /// The nanosecond part is below one second and agrees in sign with the seconds.
    pub open spec fn wf(&self) -> bool {
        -1_000_000_000 < self.nanoseconds < 1_000_000_000
            && (self.seconds > 0 ==> self.nanoseconds >= 0)
            && (self.seconds < 0 ==> self.nanoseconds <= 0)
    }

    /// Whole milliseconds, the sub-millisecond remainder dropped towards zero.
    pub open spec fn millis(&self) -> int {
        self.seconds * 1000 + if self.nanoseconds >= 0 {
            self.nanoseconds / 1_000_000
        } else {
            -((-self.nanoseconds) / 1_000_000)
        }
    }

    /// The duration is zero or negative.
    pub open spec fn spec_is_nonpositive(&self) -> bool {
        (self.seconds == 0 && self.nanoseconds == 0) || self.seconds < 0 || self.nanoseconds < 0
    }

    pub fn new(seconds: i64, nanoseconds: i32) -> (r: Option<Ttl>)
        ensures
            r matches Some(t) ==> t.wf() && t.seconds == seconds && t.nanoseconds == nanoseconds,
            r is Some <==> (Ttl { seconds, nanoseconds }).wf(),
    {
        let t = Ttl { seconds, nanoseconds };
        if -1_000_000_000 < nanoseconds && nanoseconds < 1_000_000_000 && (seconds <= 0
            || nanoseconds >= 0) && (seconds >= 0 || nanoseconds <= 0) {
            Some(t)
        } else {
            None
        }
    }

    pub fn whole_milliseconds(&self) -> (r: i128)
        ensures
            r == self.millis(),
    {
        let part: i128 = if self.nanoseconds >= 0 {
            (self.nanoseconds / 1_000_000) as i128
        } else {
            let pos: i64 = 0 - self.nanoseconds as i64;
            0 - (pos / 1_000_000) as i128
        };
        self.seconds as i128 * 1000 + part
    }

    pub fn is_nonpositive(&self) -> (r: bool)
        ensures
            r == self.spec_is_nonpositive(),
    {
        (self.seconds == 0 && self.nanoseconds == 0) || self.seconds < 0 || self.nanoseconds < 0
    }
}

/// `n` as an `i64`, when it lies in the range of `i64`.
pub open spec fn spec_i128_into_i64(n: int) -> Option<i64> {
    if i64::MIN <= n <= i64::MAX {
        Some(n as i64)
    } else {
        None
    }
}

pub fn i128_into_i64(n: i128) -> (r: Option<i64>)
    ensures
        r == spec_i128_into_i64(n as int),
{
    if n > i64::MAX as i128 || n < i64::MIN as i128 {
        None
    } else {
        Some(n as i64)
    }
}

/// The instant `ms` milliseconds after `now`, when both the offset and the
/// sum fit in an `i64` and the sum is an instant that chrono can represent.
pub open spec fn expiry_of(now: int, ms: int) -> Option<i64> {
    if !(i64::MIN <= ms <= i64::MAX) {
        None
    } else if !(MIN_UTC_MILLIS <= now + ms <= MAX_UTC_MILLIS) {
        None
    } else {
        Some((now + ms) as i64)
    }
}

/// Relies on chrono's `NaiveDateTime::from_timestamp_millis`: `Some` exactly
/// for the instants between chrono's earliest and latest representable dates.
#[verifier::external_body]
#[allow(deprecated)]
fn utc_from_millis(ms: i64) -> (r: Option<chrono::NaiveDateTime>)
    ensures
        r is Some <==> MIN_UTC_MILLIS <= ms <= MAX_UTC_MILLIS,
{
    chrono::NaiveDateTime::from_timestamp_millis(ms)
}

/// Relies on chrono's `From<SystemTime> for DateTime<Utc>` and
/// `DateTime::timestamp_millis`: the current wall-clock time in milliseconds
/// since the epoch, before or after it. The conversion returns only instants in
/// chrono's range; a system clock set outside that range (more than about
/// 262,000 years from now) stops the process there.
#[verifier::external_body]
pub(crate) fn now_millis() -> (r: i64)
    ensures
        MIN_UTC_MILLIS <= r <= MAX_UTC_MILLIS,
{
    chrono::DateTime::<chrono::Utc>::from(std::time::SystemTime::now()).timestamp_millis()
}

/// The absolute expiry of a record written at `now_ms` with time-to-live `ttl`,
/// or `None` when that instant cannot be represented.
pub fn compute_expiry(now_ms: i64, ttl: &Ttl) -> (r: Option<i64>)
    ensures
        r == expiry_of(now_ms as int, ttl.millis()),
        now_ms + ttl.millis() > MAX_UTC_MILLIS ==> r is None,
{
    let offset = match i128_into_i64(ttl.whole_milliseconds()) {
        Some(o) => o,
        None => {
            return None;
        },
    };
    let sum = match i128_into_i64(now_ms as i128 + offset as i128) {
        Some(s) => s,
        None => {
            return None;
        },
    };
    match utc_from_millis(sum) {
        Some(_) => Some(sum),
        None => None,
    }
}

/// The expiry of a record written now with time-to-live `ttl`.
pub fn add_duration_to_current(ttl: &Ttl) -> (r: Option<i64>)
    ensures
        exists|now: int| MIN_UTC_MILLIS <= now <= MAX_UTC_MILLIS && #[trigger] expiry_of(now, ttl.millis()) == r,
        ttl.millis() == 0 ==> r is Some,
{
    let now = now_millis();
    compute_expiry(now, ttl)
}

} // verus!

//! Timestamp rendering for the signing protocols.  Huobi signs an ISO-8601
//! UTC timestamp with second precision and no suffix; OKEX signs one with
//! millisecond precision and a `Z` suffix.  The calendar arithmetic is done
//! by `chrono` behind trusted wrappers; each rendered form is a pure
//! function of the epoch instant and is given a name that the
//! canonical-string contracts compose.

use vstd::prelude::*;

verus! {

/// Upper bound (exclusive) on epoch seconds accepted by the formatters:
/// the first instant of year 10000.  Keeps `%Y` at four digits and is far
/// inside chrono's documented representable range.
pub open spec fn max_epoch_secs() -> int {
    253402300800
}

/// The `%Y-%m-%dT%H:%M:%S` UTC rendering of an epoch instant, e.g.
/// `2021-06-01T03:15:00`.
pub uninterp spec fn huobi_time_of(secs: int) -> Seq<char>;

/// The `%Y-%m-%dT%H:%M:%S%.3fZ` UTC rendering of an epoch instant, e.g.
/// `2021-06-01T03:15:00.123Z`.
pub uninterp spec fn okex_time_of(secs: int, nsecs: int) -> Seq<char>;

/// Relies on `chrono::DateTime::from_timestamp` and `format`: the
/// `%Y-%m-%dT%H:%M:%S` UTC rendering of the instant.  The required range is
/// far inside chrono's documented representable span, so `from_timestamp`
/// returns `Some` for every accepted input.
#[verifier::external_body]
pub fn format_huobi_time(secs: i64) -> (r: String)
    requires
        0 <= secs < max_epoch_secs(),
    ensures
        r@ == huobi_time_of(secs as int),
{
    let dt = chrono::DateTime::from_timestamp(secs, 0).expect("in range by precondition");
    dt.format("%Y-%m-%dT%H:%M:%S").to_string()
}

/// Relies on `chrono::DateTime::from_timestamp` and `format`: the
/// `%Y-%m-%dT%H:%M:%S%.3fZ` UTC rendering of the instant.  The required
/// ranges are inside chrono's documented bounds for seconds and
/// nanoseconds, so `from_timestamp` returns `Some` for every accepted
/// input.
#[verifier::external_body]
pub fn format_okex_time(secs: i64, nsecs: u32) -> (r: String)
    requires
        0 <= secs < max_epoch_secs(),
        nsecs < 1_000_000_000,
    ensures
        r@ == okex_time_of(secs as int, nsecs as int),
{
    let dt = chrono::DateTime::from_timestamp(secs, nsecs).expect("in range by precondition");
    dt.format("%Y-%m-%dT%H:%M:%S%.3fZ").to_string()
}

} // verus!

//! Construction of the chart query URL: a one-year lookback window at weekly
//! granularity, with formatted values, adjusted close, dividend and split
//! events, and US locale.

use vstd::prelude::*;
use vstd::string::StringExecFns;

use crate::text::{dec_chars_signed, i64_text};

verus! {

/// Seconds in the 365-day lookback window.
pub const YEAR_SECONDS: i64 = 31536000;

/// The chart query URL for `symbol` over the window from `period1` to
/// `period2` (both in whole seconds since the Unix epoch).
pub open spec fn spec_chart_url(symbol: Seq<char>, period1: int, period2: int) -> Seq<char> {
    "https://query1.finance.yahoo.com/v8/finance/chart/"@ + symbol
        + "?formatted=true&lang=en-US&region=US&includeAdjustedClose=true&interval=1wk&period1="@
        + dec_chars_signed(period1) + "&period2="@ + dec_chars_signed(period2)
        + "&events=div%7Csplit&useYfid=true"@
}

/// Builds the chart query URL for `symbol` and an explicit window.
pub fn chart_url(symbol: &str, period1: i64, period2: i64) -> (r: String)
    ensures
        r@ == spec_chart_url(symbol@, period1 as int, period2 as int),
{
    let mut url = "https://query1.finance.yahoo.com/v8/finance/chart/".to_owned();
    url.append(symbol);
    url.append(
        "?formatted=true&lang=en-US&region=US&includeAdjustedClose=true&interval=1wk&period1=",
    );
    let p1 = i64_text(period1);
    url.append(p1.as_str());
    url.append("&period2=");
    let p2 = i64_text(period2);
    url.append(p2.as_str());
    url.append("&events=div%7Csplit&useYfid=true");
    url
}

/// Relies on `chrono::offset::Utc::now` and `DateTime::timestamp`: the
/// current time as whole seconds since the Unix epoch.  chrono represents
/// only years from -262143 to 262142, so the magnitude of any timestamp it
/// returns stays below nine trillion seconds.
#[verifier::external_body]
fn now_timestamp() -> (r: i64)
    ensures
        -9_000_000_000_000 <= r <= 9_000_000_000_000,
{
    chrono::offset::Utc::now().timestamp()
}

/// The chart query URL for `symbol`: a one-year lookback window ending at
/// the present moment, at weekly granularity.
pub fn calc_url(symbol: &str) -> (r: String)
    ensures
        exists|now: i64|
            -9_000_000_000_000 <= now <= 9_000_000_000_000 && r@ == #[trigger] spec_chart_url(
                symbol@,
                now - YEAR_SECONDS,
                now as int,
            ),
{
    let now = now_timestamp();
    let year_ago = now - YEAR_SECONDS;
    let url = chart_url(symbol, year_ago, now);
    proof {
        assert(url@ == spec_chart_url(symbol@, now - YEAR_SECONDS, now as int));
    }
    url
}

} // verus!

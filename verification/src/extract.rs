//! Derivation of a ticker record from a decoded response.
//!
//! Extraction walks the optional layers of the payload, short-circuiting on
//! absence, takes the first result entry and the first quote block (the API
//! returns at most one of each for this query; later entries are ignored by
//! design), checks that the sample sequences reach the widest horizon, and
//! derives the four percentage changes.  The sampling is weekly over a
//! one-year window, so the last sample stands for today, the second-to-last
//! close for one week ago, the fifth-from-last close for roughly one month
//! ago, and the oldest close for one year ago.  The granularity is not
//! re-checked against the response's own metadata; a response sampled
//! otherwise would be misread, exactly as the surrounding tooling expects.

use vstd::prelude::*;

use crate::fp::{calc_change, change_bits};
use crate::model::{ExtractError, Quote, Res, Response, Ticker};

verus! {

/// The first result entry of a usable response: present exactly when the
/// response has no error object and a non-empty result list.
pub open spec fn spec_first_entry(r: Response) -> Option<Res> {
    if r.chart.error is Some {
        None
    } else {
        match r.chart.result {
            None => None,
            Some(l) => if l@.len() == 0 {
                None
            } else {
                Some(l@[0])
            },
        }
    }
}

/// The first quote block of a usable response: present exactly when the
/// response has a first result entry with a non-empty quote list.
pub open spec fn spec_first_quote(r: Response) -> Option<Quote> {
    match spec_first_entry(r) {
        None => None,
        Some(e) => if e.indicators.quote@.len() == 0 {
            None
        } else {
            Some(e.indicators.quote@[0])
        },
    }
}

/// A quote block too short for the widest horizon: the daily change needs
/// one open sample, and the yearly, monthly and weekly changes together need
/// at least five close samples.
pub open spec fn spec_short_history(q: Quote) -> bool {
    q.open@.len() < 1 || q.close@.len() < 5
}

/// The ticker record derived from a result entry and its quote block.
pub open spec fn spec_ticker(e: Res, q: Quote) -> Ticker {
    let p = e.meta.regular_market_price;
    Ticker {
        symbol: e.meta.symbol,
        value: p,
        daily_change: change_bits(p, q.open@[q.open@.len() - 1]),
        wk_change: change_bits(p, q.close@[q.close@.len() - 2]),
        mo_change: change_bits(p, q.close@[q.close@.len() - 5]),
        yr_change: change_bits(p, q.close@[0]),
    }
}

/// What extraction returns for any response: the derived record, or
/// `MissingResult` when no quote block can be reached, or
/// `InsufficientHistory` when the reached quote block is too short.
pub open spec fn spec_extract(r: Response) -> Result<Ticker, ExtractError> {
    match spec_first_entry(r) {
        None => Err(ExtractError::MissingResult),
        Some(e) => match spec_first_quote(r) {
            None => Err(ExtractError::MissingResult),
            Some(q) => if spec_short_history(q) {
                Err(ExtractError::InsufficientHistory)
            } else {
                Ok(spec_ticker(e, q))
            },
        },
    }
}

impl Ticker {
    /// Derives the ticker record of a decoded response, or says why none can
    /// be derived.
    pub fn try_from(response: Response) -> (r: Result<Ticker, ExtractError>)
        ensures
            r == spec_extract(response),
    {
        if response.chart.error.is_some() {
            return Err(ExtractError::MissingResult);
        }
        let mut list = match response.chart.result {
            Some(l) => l,
            None => {
                return Err(ExtractError::MissingResult);
            },
        };
        if list.len() == 0 {
            return Err(ExtractError::MissingResult);
        }
        let entry = list.remove(0);
        let mut quotes = entry.indicators.quote;
        if quotes.len() == 0 {
            return Err(ExtractError::MissingResult);
        }
        let quote = quotes.remove(0);
        let open = quote.open;
        let close = quote.close;
        if open.len() < 1 || close.len() < 5 {
            return Err(ExtractError::InsufficientHistory);
        }
        let value = entry.meta.regular_market_price;
        let daily_change = calc_change(value, open[open.len() - 1]);
        let wk_change = calc_change(value, close[close.len() - 2]);
        let mo_change = calc_change(value, close[close.len() - 5]);
        let yr_change = calc_change(value, close[0]);
        Ok(Ticker { symbol: entry.meta.symbol, value, daily_change, wk_change, mo_change, yr_change })
    }
}

/// Every response of the batch yields a record.
pub open spec fn spec_all_ok(rs: Seq<Response>) -> bool {
    forall|i: int| 0 <= i < rs.len() ==> #[trigger] spec_extract(rs[i]) is Ok
}

/// `e` is the error of the first response of the batch that yields none.
pub open spec fn spec_first_failure(rs: Seq<Response>, e: ExtractError) -> bool {
    exists|i: int|
        0 <= i < rs.len() && (#[trigger] spec_extract(rs[i])) == Err::<Ticker, ExtractError>(e)
            && (forall|j: int| 0 <= j < i ==> spec_extract(rs[j]) is Ok)
}

/// Derives one ticker record per response, in the given order, or stops at
/// the first response that yields none: all records or a single error,
/// nothing partial.
#[verifier::loop_isolation(false)]
pub fn collect_tickers(responses: Vec<Response>) -> (r: Result<Vec<Ticker>, ExtractError>)
    ensures
        r is Ok <==> spec_all_ok(responses@),
        r matches Ok(out) ==> out@.len() == responses@.len() && (forall|i: int|
            0 <= i < responses@.len() ==> #[trigger] out@[i] == spec_extract(responses@[i])->Ok_0),
        r matches Err(e) ==> spec_first_failure(responses@, e),
{
    let ghost orig = responses@;
    let mut rest = responses;
    let mut out: Vec<Ticker> = Vec::new();
    while rest.len() > 0
        invariant
            out@.len() + rest@.len() == orig.len(),
            rest@ == orig.skip(out@.len() as int),
            forall|j: int| 0 <= j < out@.len() ==> #[trigger] spec_extract(orig[j]) is Ok,
            forall|j: int| 0 <= j < out@.len() ==> #[trigger] out@[j] == spec_extract(orig[j])->Ok_0,
        decreases rest@.len(),
    {
        let ghost done = out@.len() as int;
        let next = rest.remove(0);
        proof {
            assert(next == orig[done]);
            assert(rest@ == orig.skip(done + 1));
        }
        match Ticker::try_from(next) {
            Ok(t) => out.push(t),
            Err(e) => {
                proof {
                    assert(spec_extract(orig[done]) == Err::<Ticker, ExtractError>(e));
                    assert(spec_first_failure(orig, e));
                    assert(!spec_all_ok(orig));
                }
                return Err(e);
            },
        }
    }
    Ok(out)
}

} // verus!

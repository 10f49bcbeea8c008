//! The decoded wire payload of a chart query, and the derived ticker record.
//!
//! Every price field holds the bit pattern of an IEEE 754 binary64 value in
//! a `u64` (see the crate documentation); all other fields are plain values.
//! The structs mirror the JSON body of the quotes API: a top-level `chart`
//! object carrying either an error object or a list of result entries, each
//! entry holding scalar metadata and index-aligned sample sequences.

use vstd::prelude::*;

verus! {

/// Decoded response body of one chart query.
#[derive(Debug, Clone)]
pub struct Response {
    pub chart: Chart,
}

/// Payload of a response: an optional list of result entries and an optional
/// error object.  A well-formed response has exactly one of the two, but the
/// wire format does not enforce that, so both fields stay optional here.
#[derive(Debug, Clone)]
pub struct Chart {
    pub result: Option<Vec<Res>>,
    pub error: Option<ApiError>,
}

/// One ticker's time series: metadata, sample times, and the parallel
/// indicator sequences.
#[derive(Debug, Clone)]
pub struct Res {
    pub meta: Meta,
    pub timestamp: Vec<u64>,
    pub events: Option<Events>,
    pub indicators: Indicators,
}

/// Scalar metadata of a result entry.  `regular_market_price` is the current
/// price as a binary64 bit pattern.
#[derive(Debug, Clone)]
pub struct Meta {
    pub currency: String,
    pub symbol: String,
    pub exchange_name: String,
    pub instrument_type: String,
    pub first_trade_date: i64,
    pub exchange_timezone_name: String,
    pub regular_market_time: u64,
    pub regular_market_price: u64,
    pub data_granularity: String,
    pub valid_ranges: Vec<String>,
}

/// Dividend and split events, each keyed by a timestamp string on the wire.
/// They play no part in the metric computation.
#[derive(Debug, Clone)]
pub struct Events {
    pub dividends: Vec<(String, Dividend)>,
    pub splits: Vec<(String, Split)>,
}

/// One dividend event; `amount` is a binary64 bit pattern.
#[derive(Debug, Clone)]
pub struct Dividend {
    pub date: u64,
    pub amount: u64,
}

/// One split event.
#[derive(Debug, Clone)]
pub struct Split {
    pub date: u64,
    pub numerator: u64,
    pub denominator: u64,
    pub split_ratio: String,
}

/// The indicator blocks of a result entry.
#[derive(Debug, Clone)]
pub struct Indicators {
    pub quote: Vec<Quote>,
    pub adjclose: Vec<Adjclose>,
}

/// Parallel sample sequences, index-aligned with the entry's timestamps.
/// The price sequences hold binary64 bit patterns.
#[derive(Debug, Clone)]
pub struct Quote {
    pub open: Vec<u64>,
    pub volume: Vec<u64>,
    pub close: Vec<u64>,
    pub high: Vec<u64>,
    pub low: Vec<u64>,
}

/// Adjusted-close sample sequence, as binary64 bit patterns.
#[derive(Debug, Clone)]
pub struct Adjclose {
    pub adjclose: Vec<u64>,
}

/// The error object the API places in a response instead of a result list.
#[derive(Debug, Clone)]
pub struct ApiError {
    pub code: String,
    pub description: String,
}

/// The derived record of one ticker: current price and the four percentage
/// changes, all as binary64 bit patterns.
#[derive(Debug, Clone, PartialEq)]
pub struct Ticker {
    pub symbol: String,
    pub value: u64,
    pub daily_change: u64,
    pub wk_change: u64,
    pub mo_change: u64,
    pub yr_change: u64,
}

/// Why a response yields no ticker record.
#[derive(Debug, Clone, Copy, PartialEq, Eq, Structural)]
pub enum ExtractError {
    /// The response carries an error object, or lacks a result entry or a
    /// quote block.
    MissingResult,
    /// The sample sequences are shorter than the widest horizon needs.
    InsufficientHistory,
}

impl ExtractError {
    /// The user-visible message for this error.
    pub fn message(&self) -> (r: String)
        ensures
            *self == ExtractError::MissingResult ==> r@ == "Failed to read response from server"@,
            *self == ExtractError::InsufficientHistory ==> r@ == "Not enough price history in response"@,
    {
        match self {
            ExtractError::MissingResult => "Failed to read response from server".to_owned(),
            ExtractError::InsufficientHistory => "Not enough price history in response".to_owned(),
        }
    }
}

} // verus!

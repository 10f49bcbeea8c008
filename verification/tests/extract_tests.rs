use quotemetrics::model::{
    Adjclose, ApiError, Chart, ExtractError, Indicators, Meta, Quote, Res, Response, Ticker,
};

fn meta(symbol: &str, price: f64) -> Meta {
    Meta {
        currency: "USD".to_string(),
        symbol: symbol.to_string(),
        exchange_name: "NMS".to_string(),
        instrument_type: "EQUITY".to_string(),
        first_trade_date: 345479400,
        exchange_timezone_name: "America/New_York".to_string(),
        regular_market_time: 1614974400,
        regular_market_price: price.to_bits(),
        data_granularity: "1wk".to_string(),
        valid_ranges: vec!["1d".to_string(), "1y".to_string()],
    }
}

fn response(symbol: &str, price: f64, open: &[f64], close: &[f64]) -> Response {
    let quote = Quote {
        open: open.iter().map(|x| x.to_bits()).collect(),
        volume: vec![0; open.len()],
        close: close.iter().map(|x| x.to_bits()).collect(),
        high: close.iter().map(|x| x.to_bits()).collect(),
        low: close.iter().map(|x| x.to_bits()).collect(),
    };
    let adj = Adjclose { adjclose: close.iter().map(|x| x.to_bits()).collect() };
    Response {
        chart: Chart {
            result: Some(vec![Res {
                meta: meta(symbol, price),
                timestamp: (0..open.len() as u64).collect(),
                events: None,
                indicators: Indicators { quote: vec![quote], adjclose: vec![adj] },
            }]),
            error: None,
        },
    }
}

fn pct(now: f64, old: f64) -> u64 {
    ((now - old) / old * 100.0).to_bits()
}

#[test]
fn extract_well_formed() {
    let open = [10.0, 11.0, 12.0, 13.0, 14.0, 15.0, 16.0];
    let close = [20.0, 21.0, 22.0, 23.0, 24.0, 25.0, 26.0];
    let p = 30.0;
    let t = Ticker::try_from(response("AAPL", p, &open, &close)).unwrap();
    assert_eq!("AAPL", &t.symbol);
    assert_eq!(p.to_bits(), t.value);
    assert_eq!(pct(p, 16.0), t.daily_change);
    assert_eq!(pct(p, 25.0), t.wk_change);
    assert_eq!(pct(p, 22.0), t.mo_change);
    assert_eq!(pct(p, 20.0), t.yr_change);
}

#[test]
fn missing_result_error() {
    let series = [1.0, 2.0, 3.0, 4.0, 5.0];

    let mut r = response("AAPL", 6.0, &series, &series);
    r.chart.result = None;
    assert_eq!(Err(ExtractError::MissingResult), Ticker::try_from(r));

    let mut r = response("AAPL", 6.0, &series, &series);
    r.chart.result = Some(vec![]);
    assert_eq!(Err(ExtractError::MissingResult), Ticker::try_from(r));

    let mut r = response("AAPL", 6.0, &series, &series);
    r.chart.error = Some(ApiError {
        code: "Not Found".to_string(),
        description: "No data found, symbol may be delisted".to_string(),
    });
    assert_eq!(Err(ExtractError::MissingResult), Ticker::try_from(r));

    let mut r = response("AAPL", 6.0, &series, &series);
    if let Some(list) = r.chart.result.as_mut() {
        list[0].indicators.quote.clear();
    }
    assert_eq!(Err(ExtractError::MissingResult), Ticker::try_from(r));

    assert_eq!(
        "Failed to read response from server",
        &ExtractError::MissingResult.message()
    );
}

#[test]
fn insufficient_history_error() {
    let four = [1.0, 2.0, 3.0, 4.0];
    let r = response("AAPL", 6.0, &four, &four);
    assert_eq!(Err(ExtractError::InsufficientHistory), Ticker::try_from(r));

    let five = [1.0, 2.0, 3.0, 4.0, 5.0];
    let r = response("AAPL", 6.0, &[], &five);
    assert_eq!(Err(ExtractError::InsufficientHistory), Ticker::try_from(r));

    let r = response("AAPL", 6.0, &five, &five);
    assert!(Ticker::try_from(r).is_ok());
}

#[test]
fn collect_preserves_input_order() {
    let series_a = [1.0, 2.0, 3.0, 4.0, 5.0];
    let series_b = [2.0, 3.0, 4.0, 5.0, 6.0];
    let series_c = [3.0, 4.0, 5.0, 6.0, 7.0];
    let batch = vec![
        response("AAPL", 10.0, &series_a, &series_a),
        response("^GSPC", 20.0, &series_b, &series_b),
        response("MSFT", 30.0, &series_c, &series_c),
    ];
    let out = quotemetrics::extract::collect_tickers(batch).unwrap();
    let symbols: Vec<&str> = out.iter().map(|t| t.symbol.as_str()).collect();
    assert_eq!(vec!["AAPL", "^GSPC", "MSFT"], symbols);
    assert_eq!(10.0f64.to_bits(), out[0].value);
    assert_eq!(20.0f64.to_bits(), out[1].value);
    assert_eq!(30.0f64.to_bits(), out[2].value);
}

#[test]
fn collect_is_all_or_nothing() {
    let series = [1.0, 2.0, 3.0, 4.0, 5.0];
    let mut bad = response("MSFT", 20.0, &series, &series);
    bad.chart.result = None;
    let batch = vec![response("AAPL", 10.0, &series, &series), bad];
    assert_eq!(
        Err(ExtractError::MissingResult),
        quotemetrics::extract::collect_tickers(batch)
    );
}

#[test]
fn monthly_change_example() {
    let open = [90.0, 91.0, 92.0, 93.0, 94.0, 95.0, 96.0];
    let close = [95.0, 96.0, 100.0, 97.0, 98.0, 99.0, 101.0];
    let t = Ticker::try_from(response("AAPL", 122.87, &open, &close)).unwrap();
    assert_eq!(pct(122.87, 100.0), t.mo_change);
    assert_eq!("22.870%", format!("{:.3}%", f64::from_bits(t.mo_change)));
}

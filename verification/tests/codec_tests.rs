use quotemetrics::model::Ticker;

fn sample() -> Ticker {
    Ticker {
        symbol: "AAPL".to_string(),
        value: 122.87f64.to_bits(),
        daily_change: 1.5f64.to_bits(),
        wk_change: (-2.25f64).to_bits(),
        mo_change: 22.87f64.to_bits(),
        yr_change: 80.125f64.to_bits(),
    }
}

#[test]
fn encode_decode_round_trip() {
    let t = sample();
    let line = t.encode();
    let back = Ticker::decode(&line).unwrap();
    assert_eq!(t, back);
}

#[test]
fn encode_decode_round_trip_edge_patterns() {
    let t = Ticker {
        symbol: "^GSPC".to_string(),
        value: f64::NAN.to_bits(),
        daily_change: f64::INFINITY.to_bits(),
        wk_change: f64::NEG_INFINITY.to_bits(),
        mo_change: 0u64,
        yr_change: u64::MAX,
    };
    let back = Ticker::decode(&t.encode()).unwrap();
    assert_eq!(t, back);
}

#[test]
fn encode_matches_fixed_width_hex() {
    let t = sample();
    let expected = format!(
        "{:016x}{:016x}{:016x}{:016x}{:016x}{}",
        t.value, t.daily_change, t.wk_change, t.mo_change, t.yr_change, t.symbol
    );
    assert_eq!(expected, t.encode());
}

#[test]
fn decode_rejects_malformed_lines() {
    assert!(Ticker::decode("").is_none());
    assert!(Ticker::decode("AAPL 122.87").is_none());
    let mut line = sample().encode();
    line.replace_range(0..1, "g");
    assert!(Ticker::decode(&line).is_none());
}

#[test]
fn decode_symbol_with_spaces() {
    let t = Ticker { symbol: "BRK B extra".to_string(), ..sample() };
    let back = Ticker::decode(&t.encode()).unwrap();
    assert_eq!(t, back);
}

#[test]
fn decode_empty_symbol() {
    let t = Ticker { symbol: String::new(), ..sample() };
    let back = Ticker::decode(&t.encode()).unwrap();
    assert_eq!(t, back);
}

use quotemetrics::model::Ticker;
use quotemetrics::render::render_line;

fn sample() -> Ticker {
    Ticker {
        symbol: "AAPL".to_string(),
        value: 122.87f64.to_bits(),
        daily_change: 1.5f64.to_bits(),
        wk_change: (-2.25f64).to_bits(),
        mo_change: 22.87f64.to_bits(),
        yr_change: 80.125f64.to_bits(),
    }
}

#[test]
fn selected_changes_order() {
    let t = sample();
    assert_eq!(
        vec![t.daily_change, t.wk_change, t.mo_change, t.yr_change],
        t.selected_changes(true, true, true, true)
    );
    assert_eq!(
        vec![t.wk_change, t.yr_change],
        t.selected_changes(false, true, false, true)
    );
    assert!(t.selected_changes(false, false, false, false).is_empty());
}

#[test]
fn render_line_exact() {
    let parts = vec!["1.500".to_string(), "22.870".to_string()];
    assert_eq!("AAPL 122.87 1.500% 22.870%", &render_line("AAPL", "122.87", &parts));
    assert_eq!("AAPL 122.87", &render_line("AAPL", "122.87", &vec![]));
}

#[test]
fn render_line_matches_printed_form() {
    let t = sample();
    let value = format!("{}", f64::from_bits(t.value));
    let parts: Vec<String> = t
        .selected_changes(true, false, true, false)
        .iter()
        .map(|b| format!("{:.3}", f64::from_bits(*b)))
        .collect();
    assert_eq!("AAPL 122.87 1.500% 22.870%", &render_line("AAPL", &value, &parts));
}

//! End-to-end tests of the report engine: delta arithmetic, threshold
//! classification, ranking, skip policy, and the all-or-nothing failure
//! policy.

use stocks_alert::engine::error_message;
use stocks_alert::model::{Config, FetchError, FetchErrorKind, Quote, Report, TickerHistory};
use stocks_alert::process::{clean_name, process_ticker};

fn q(open_cents: u32, close_cents: u32) -> Quote {
    Quote { open_cents, close_cents }
}

fn flat(price: u32) -> Quote {
    q(price, price)
}

fn hist(ticker: &str, name: &str, quotes: Vec<Quote>) -> TickerHistory {
    TickerHistory {
        ticker: ticker.to_string(),
        short_name: Some(name.to_string()),
        long_name: None,
        quotes,
    }
}

fn conf(week_thr: u32, day_thr: u32) -> Config {
    Config {
        chat_id: 42,
        week_delta_threshold: week_thr,
        day_delta_threshold: day_thr,
        watched_stocks: vec!["AAPL".to_string()],
    }
}

/// Seven quotes: last_week.open = 100.00$, yesterday.open = 95.00$,
/// now.close = 90.00$ — the documented example: week delta -10.00%, day
/// delta -5.26%.
fn example_history() -> TickerHistory {
    hist(
        "AAPL",
        "Apple",
        vec![
            q(10000, 10000),
            flat(9900),
            flat(9900),
            flat(9900),
            flat(9900),
            q(9500, 9400),
            q(9300, 9000),
        ],
    )
}

#[test]
fn example_deltas_fire_both_alerts() {
    let h = example_history();
    let (week, day) = process_ticker(&h, 500, 500);
    let week = week.expect("week delta -10.00% breaches 5.00%");
    let day = day.expect("day delta -5.26% breaches 5.00%");
    assert_eq!(week.ticker_before, q(10000, 10000));
    assert_eq!(week.ticker_now, q(9300, 9000));
    assert_eq!(day.ticker_before, q(9500, 9400));
    assert_eq!(day.ticker_now, q(9300, 9000));
    assert_eq!(week.ticker_name, "AAPL");
    assert_eq!(week.ticker_full_name, "Apple");
}

#[test]
fn threshold_is_strict() {
    // A decline of exactly 5.00% does not breach a 5.00% threshold.
    let exact = hist(
        "X",
        "X Corp",
        vec![
            q(10000, 10000),
            flat(9900),
            flat(9900),
            flat(9900),
            flat(9900),
            flat(9600),
            q(9400, 9500),
        ],
    );
    let (week, _) = process_ticker(&exact, 500, 500);
    assert!(week.is_none(), "equal to threshold must not alert");
    // One cent more of decline breaches it.
    let breach = hist(
        "X",
        "X Corp",
        vec![
            q(10000, 10000),
            flat(9900),
            flat(9900),
            flat(9900),
            flat(9900),
            flat(9600),
            q(9400, 9499),
        ],
    );
    let (week, _) = process_ticker(&breach, 500, 500);
    assert!(week.is_some(), "strictly beyond threshold must alert");
}

#[test]
fn week_and_day_membership_is_independent() {
    // Week-only: old price high, but yesterday already low.
    let week_only = hist(
        "W",
        "W",
        vec![
            q(10000, 10000),
            flat(9000),
            flat(9000),
            flat(9000),
            flat(9000),
            q(9000, 9000),
            q(9000, 9000),
        ],
    );
    let (w, d) = process_ticker(&week_only, 500, 500);
    assert!(w.is_some() && d.is_none());
    // Day-only: flat week, sharp fall since yesterday.
    let day_only = hist(
        "D",
        "D",
        vec![
            q(9000, 9000),
            flat(9000),
            flat(9000),
            flat(9000),
            flat(9000),
            q(10000, 10000),
            q(9100, 9000),
        ],
    );
    let (w, d) = process_ticker(&day_only, 500, 500);
    assert!(w.is_none() && d.is_some());
    // Both.
    let (w, d) = process_ticker(&example_history(), 500, 500);
    assert!(w.is_some() && d.is_some());
    // Neither.
    let quiet = hist("Q", "Q", vec![flat(9000); 7]);
    let (w, d) = process_ticker(&quiet, 500, 500);
    assert!(w.is_none() && d.is_none());
}

#[test]
fn short_history_produces_no_alert_and_does_not_fail() {
    // Six quotes with a steep decline: skipped entirely, run still succeeds.
    let short = hist(
        "S",
        "Short",
        vec![q(10000, 10000), flat(9000), flat(8000), flat(7000), flat(6000), q(6000, 5000)],
    );
    let (w, d) = process_ticker(&short, 100, 100);
    assert!(w.is_none() && d.is_none());
    let report = Report::generate(&conf(100, 100), vec![Ok(short)]).expect("short history is not an error");
    assert!(report.week_losers.is_empty() && report.day_losers.is_empty());
    assert!(!report.has_alerts());
}

#[test]
fn quiet_run_yields_empty_report() {
    let tickers = vec![
        Ok(hist("A", "A", vec![flat(5000); 7])),
        Ok(hist("B", "B", vec![flat(7000); 9])),
    ];
    let report = Report::generate(&conf(500, 500), tickers).expect("no failures");
    assert!(report.week_losers.is_empty());
    assert!(report.day_losers.is_empty());
    assert!(!report.has_alerts());
}

fn declining(ticker: &str, week_open: u32, now_close: u32) -> TickerHistory {
    hist(
        ticker,
        ticker,
        vec![
            q(week_open, week_open),
            flat(week_open),
            flat(week_open),
            flat(week_open),
            flat(week_open),
            flat(week_open),
            q(week_open, now_close),
        ],
    )
}

#[test]
fn losers_are_sorted_ascending_by_delta() {
    // Deltas: MID -10%, BIG -20%, SMALL -5.5%.
    let tickers = vec![
        Ok(declining("MID", 10000, 9000)),
        Ok(declining("BIG", 10000, 8000)),
        Ok(declining("SMALL", 10000, 9450)),
    ];
    let report = Report::generate(&conf(500, 500), tickers).expect("no failures");
    let week: Vec<&str> = report.week_losers.iter().map(|a| a.ticker_name.as_str()).collect();
    assert_eq!(week, vec!["BIG", "MID", "SMALL"]);
    for pair in report.week_losers.windows(2) {
        let d0 = (pair[0].ticker_now.close_cents as i64 - pair[0].ticker_before.open_cents as i64)
            * pair[1].ticker_before.open_cents as i64;
        let d1 = (pair[1].ticker_now.close_cents as i64 - pair[1].ticker_before.open_cents as i64)
            * pair[0].ticker_before.open_cents as i64;
        assert!(d0 <= d1, "adjacent pair out of order");
    }
}

#[test]
fn single_failure_fails_the_whole_run() {
    let tickers = vec![
        Ok(declining("OK1", 10000, 9000)),
        Err(FetchError { ticker: "MSFT".to_string(), kind: FetchErrorKind::Retrieve }),
        Ok(declining("OK2", 10000, 8000)),
    ];
    let err = Report::generate(&conf(500, 500), tickers).expect_err("one failure fails the run");
    assert_eq!(err.ticker, "MSFT");
    assert_eq!(err.kind, FetchErrorKind::Retrieve);
    let msg = error_message(&err);
    assert!(msg.contains("MSFT"), "the error must name the ticker");
    assert_eq!(msg, "Could not retrieve last 7 days for ticker MSFT");
}

#[test]
fn first_failure_wins() {
    let tickers = vec![
        Err(FetchError { ticker: "ONE".to_string(), kind: FetchErrorKind::Metadata }),
        Err(FetchError { ticker: "TWO".to_string(), kind: FetchErrorKind::Quotes }),
    ];
    let err = Report::generate(&conf(500, 500), tickers).expect_err("failures fail the run");
    assert_eq!(err.ticker, "ONE");
    assert_eq!(error_message(&err), "Failed to get full name for ONE");
}

#[test]
fn error_messages_per_kind() {
    let e = |kind| FetchError { ticker: "T".to_string(), kind };
    assert_eq!(error_message(&e(FetchErrorKind::Connect)), "Error connecting to yahoo");
    assert_eq!(
        error_message(&e(FetchErrorKind::Retrieve)),
        "Could not retrieve last 7 days for ticker T"
    );
    assert_eq!(error_message(&e(FetchErrorKind::Metadata)), "Failed to get full name for T");
    assert_eq!(error_message(&e(FetchErrorKind::Quotes)), "Failed to get quotes for T");
}

#[test]
fn name_cleanup_strips_suffixes() {
    assert_eq!(clean_name(&Some("Apple Inc.".to_string()), &None), "Apple");
    assert_eq!(clean_name(&None, &Some("The Coca-Cola Company".to_string())), "The Coca-Cola");
    assert_eq!(clean_name(&None, &None), "FULLNAME_MISSING");
    assert_eq!(clean_name(&Some("Tyler Technologies, Inc.".to_string()), &None), "Tyler Technologies");
    // Short name wins over long name.
    assert_eq!(
        clean_name(&Some("Alphabet".to_string()), &Some("Alphabet Inc.".to_string())),
        "Alphabet"
    );
    // Substring removal is not word-aware, by design.
    assert_eq!(clean_name(&Some("CompanyX".to_string()), &None), "X");
    // Whitespace left by the removals is trimmed at the ends only.
    assert_eq!(clean_name(&Some("Bank of America Corporation".to_string()), &None), "Bank of America");
}

//! Tests of the message formatter: exact output, escaping, padding, and
//! determinism.

use stocks_alert::escape::escape_markdown;
use stocks_alert::format::formatted_message_section;
use stocks_alert::model::{AlertItem, Quote, Report};

fn item(ticker: &str, full: &str, before: Quote, now: Quote) -> AlertItem {
    AlertItem {
        ticker_name: ticker.to_string(),
        ticker_full_name: full.to_string(),
        ticker_before: before,
        ticker_now: now,
    }
}

fn q(open_cents: u32, close_cents: u32) -> Quote {
    Quote { open_cents, close_cents }
}

#[test]
fn escape_markdown_escapes_every_reserved_character() {
    assert_eq!(
        escape_markdown("_*[]()~`>#+-=|{}.!"),
        "\\_\\*\\[\\]\\(\\)\\~\\`\\>\\#\\+\\-\\=\\|\\{\\}\\.\\!"
    );
    assert_eq!(escape_markdown("plain text 123"), "plain text 123");
    assert_eq!(escape_markdown(""), "");
    assert_eq!(escape_markdown("a.b-c(d)"), "a\\.b\\-c\\(d\\)");
}

#[test]
fn exact_message_for_one_week_loser() {
    // 100.00$ -> 90.00$ is a -10.00% week decline.
    let report = Report {
        week_losers: vec![item("AAPL", "Apple", q(10000, 9800), q(9300, 9000))],
        day_losers: vec![],
    };
    let bar = "\\=".repeat(16);
    let expected = format!(
        "\n\u{1F6A8} __Stocks alert__ \u{1F6A8}\n\n{bar} Week losers {bar}\n`AAPL \\(Apple\\)` *\\-10\\.00%* _\\(100\\.00$ \\-\\> 90\\.00$\\)_\n\n"
    );
    assert_eq!(report.to_formatted_message(), expected);
}

#[test]
fn empty_sections_contribute_nothing() {
    let report = Report { week_losers: vec![], day_losers: vec![] };
    let msg = report.to_formatted_message();
    assert_eq!(msg, "\n\u{1F6A8} __Stocks alert__ \u{1F6A8}\n\n\n");
    assert!(!msg.contains("losers"));
    assert!(!report.has_alerts());
}

#[test]
fn day_section_appears_alone() {
    let report = Report {
        week_losers: vec![],
        day_losers: vec![item("T", "Tee", q(10000, 10000), q(10000, 9000))],
    };
    let msg = report.to_formatted_message();
    assert!(!msg.contains("Week losers"));
    assert!(msg.contains("Day losers"));
}

#[test]
fn formatter_is_deterministic() {
    let report = Report {
        week_losers: vec![
            item("AAPL", "Apple", q(10000, 9800), q(9300, 9000)),
            item("MSFT", "Microsoft", q(20000, 19000), q(19500, 19000)),
        ],
        day_losers: vec![item("BRK.B", "Berkshire Hathaway", q(30000, 29000), q(29000, 28000))],
    };
    let first = report.to_formatted_message();
    let second = report.to_formatted_message();
    assert_eq!(first, second, "byte-identical output on the identical report");
}

#[test]
fn reserved_characters_in_names_never_appear_raw() {
    let report = Report {
        week_losers: vec![item("BRK.B", "Berk-shire (The)x", q(10000, 10000), q(10000, 9000))],
        day_losers: vec![],
    };
    let msg = report.to_formatted_message();
    assert!(msg.contains("BRK\\.B"), "dot in ticker escaped: {msg}");
    assert!(msg.contains("Berk\\-shire \\(The\\)x"), "name escaped: {msg}");
    // Every reserved character inside the name block is preceded by a backslash.
    let chars: Vec<char> = msg.chars().collect();
    for (i, c) in chars.iter().enumerate() {
        if ".-()>=[]{}#+|!~".contains(*c) {
            assert_eq!(chars[i - 1], '\\', "raw {c} at {i} in {msg}");
        }
    }
}

#[test]
fn padding_uses_section_maximum_minus_own_display_name() {
    // Budget = max(2 + 5, 4 + 2) = 7.
    // "AA" pads to width 7 - 5 = 2: no spaces added.
    // "BBBB" pads to width 7 - 2 = 5: one space added.
    let report = Report {
        week_losers: vec![
            item("AA", "Alpha", q(10000, 10000), q(10000, 8000)),
            item("BBBB", "Bo", q(10000, 10000), q(10000, 9000)),
        ],
        day_losers: vec![],
    };
    let msg = report.to_formatted_message();
    assert!(msg.contains("`AA \\(Alpha\\)`"), "{msg}");
    assert!(msg.contains("`BBBB  \\(Bo\\)`"), "{msg}");
}

#[test]
fn section_lines_are_newline_joined_and_ranked_as_given() {
    let companies = vec![
        item("A", "A", q(10000, 10000), q(10000, 8000)),
        item("B", "B", q(10000, 10000), q(10000, 9000)),
    ];
    let section = formatted_message_section(&companies);
    let lines: Vec<&str> = section.split('\n').collect();
    assert_eq!(lines.len(), 2);
    assert!(lines[0].contains("`A \\(A\\)`"), "{section}");
    assert!(lines[1].contains("`B \\(B\\)`"), "{section}");
}

#[test]
fn day_delta_rounds_to_two_decimals() {
    // 95.00$ -> 90.00$ is -5.263...%, displayed as -5.26%.
    let companies = vec![item("AAPL", "Apple", q(9500, 9400), q(9300, 9000))];
    let section = formatted_message_section(&companies);
    assert!(section.contains("*\\-5\\.26%*"), "{section}");
}

#[test]
fn small_prices_and_rounding() {
    // 0.05$ -> 0.01$: a -80.00% decline; 200.00$ -> 199.99$ rounds to -0.01%.
    let report = Report {
        week_losers: vec![item("PENNY", "Penny", q(5, 5), q(5, 1))],
        day_losers: vec![item("TINY", "Tiny", q(20000, 20000), q(20000, 19999))],
    };
    let msg = report.to_formatted_message();
    assert!(msg.contains("*\\-80\\.00%*"), "{msg}");
    assert!(msg.contains("_\\(0\\.05$ \\-\\> 0\\.01$\\)_"), "{msg}");
    assert!(msg.contains("*\\-0\\.01%*"), "{msg}");
}

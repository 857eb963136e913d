//! Per-ticker processing: display-name cleanup and decline detection.
//!
//! Given one ticker's ordered quote history, the processor computes the
//! week delta (most recent close against the open seven bars back) and the
//! day delta (most recent close against the previous bar's open) and emits
//! up to two alert records — independently for the two thresholds. A history
//! of fewer than seven quotes yields no alert at all.

use vstd::prelude::*;
use crate::model::{
    AlertItem, AlertItemV, Quote, TickerHistory, TickerHistoryV, spec_breaches, breaches, wf_item,
    wf_history, wf_quote,
};
use crate::text::{
    remove_all, remove_all_occurrences, trim_ws, trim_chars, str_chars, chars_to_string,
    lemma_remove_all_len, lemma_trim_ws_len,
};

verus! {

/// The provider name chosen for display: the short name, else the long
/// name, else a placeholder.
pub open spec fn spec_raw_name(short: Option<Seq<char>>, long: Option<Seq<char>>) -> Seq<char> {
    match short {
        Some(s) => s,
        None => match long {
            Some(l) => l,
            None => "FULLNAME_MISSING"@,
        },
    }
}

/// The cleaned display name: common corporate suffix substrings removed, in
/// this exact order, then whitespace trimmed. The removal is plain substring
/// removal, not word-aware: a name containing one of these substrings inside
/// another word is altered too, by design.
pub open spec fn spec_clean_name(n: Seq<char>) -> Seq<char> {
    trim_ws(
        remove_all(
            remove_all(
                remove_all(
                    remove_all(
                        remove_all(remove_all(remove_all(n, "Inc."@), ","@), " & Co."@),
                        " (The)"@,
                    ),
                    "Corporation"@,
                ),
                "Incorporated"@,
            ),
            "Company"@,
        ),
    )
}

/// Cleaning never lengthens the name.
pub proof fn lemma_clean_name_len(n: Seq<char>)
    ensures
        spec_clean_name(n).len() <= n.len(),
{
    let n1 = remove_all(n, "Inc."@);
    let n2 = remove_all(n1, ","@);
    let n3 = remove_all(n2, " & Co."@);
    let n4 = remove_all(n3, " (The)"@);
    let n5 = remove_all(n4, "Corporation"@);
    let n6 = remove_all(n5, "Incorporated"@);
    let n7 = remove_all(n6, "Company"@);
    lemma_remove_all_len(n, "Inc."@);
    lemma_remove_all_len(n1, ","@);
    lemma_remove_all_len(n2, " & Co."@);
    lemma_remove_all_len(n3, " (The)"@);
    lemma_remove_all_len(n4, "Corporation"@);
    lemma_remove_all_len(n5, "Incorporated"@);
    lemma_remove_all_len(n6, "Company"@);
    lemma_trim_ws_len(n7);
}

/// The cleaned display name of a fetched history.
pub open spec fn spec_full_name(h: TickerHistoryV) -> Seq<char> {
    spec_clean_name(spec_raw_name(h.short_name, h.long_name))
}

/// The display name for a ticker: the short name, else the long name, else
/// the placeholder, with corporate suffix substrings removed and whitespace
/// trimmed.
pub fn clean_name(short: &Option<String>, long: &Option<String>) -> (r: String)
    ensures
        r@ == spec_clean_name(spec_raw_name(short.deep_view(), long.deep_view())),
{
    let base: &str = match short {
        Some(s) => s.as_str(),
        None => match long {
            Some(l) => l.as_str(),
            None => "FULLNAME_MISSING",
        },
    };
    proof {
        reveal_strlit("Inc.");
        reveal_strlit(",");
        reveal_strlit(" & Co.");
        reveal_strlit(" (The)");
        reveal_strlit("Corporation");
        reveal_strlit("Incorporated");
        reveal_strlit("Company");
    }
    let v0 = str_chars(base);
    let v1 = remove_all_occurrences(&v0, "Inc.");
    let v2 = remove_all_occurrences(&v1, ",");
    let v3 = remove_all_occurrences(&v2, " & Co.");
    let v4 = remove_all_occurrences(&v3, " (The)");
    let v5 = remove_all_occurrences(&v4, "Corporation");
    let v6 = remove_all_occurrences(&v5, "Incorporated");
    let v7 = remove_all_occurrences(&v6, "Company");
    let v8 = trim_chars(&v7);
    chars_to_string(&v8)
}

/// The history is long enough for a week delta and the move from the open
/// seven bars back to the latest close breaches the threshold.
pub open spec fn has_week_alert(h: TickerHistoryV, thr: int) -> bool {
    h.quotes.len() >= 7 && spec_breaches(
        h.quotes[h.quotes.len() - 7].open_cents as int,
        h.quotes[h.quotes.len() - 1].close_cents as int,
        thr,
    )
}

/// The history is long enough (seven quotes, as for the week delta) and the
/// move from the previous bar's open to the latest close breaches the
/// threshold.
pub open spec fn has_day_alert(h: TickerHistoryV, thr: int) -> bool {
    h.quotes.len() >= 7 && spec_breaches(
        h.quotes[h.quotes.len() - 2].open_cents as int,
        h.quotes[h.quotes.len() - 1].close_cents as int,
        thr,
    )
}

/// The week alert record for `h`: reference quote seven bars back, current
/// quote last.
pub open spec fn week_item(h: TickerHistoryV) -> AlertItemV {
    AlertItemV {
        ticker_name: h.ticker,
        ticker_full_name: spec_full_name(h),
        ticker_before: h.quotes[h.quotes.len() - 7],
        ticker_now: h.quotes[h.quotes.len() - 1],
    }
}

/// The day alert record for `h`: reference quote one bar back, current
/// quote last.
pub open spec fn day_item(h: TickerHistoryV) -> AlertItemV {
    AlertItemV {
        ticker_name: h.ticker,
        ticker_full_name: spec_full_name(h),
        ticker_before: h.quotes[h.quotes.len() - 2],
        ticker_now: h.quotes[h.quotes.len() - 1],
    }
}

/// A produced alert record is well-formed.
pub proof fn lemma_items_wf(h: TickerHistoryV)
    requires
        wf_history(h),
        h.quotes.len() >= 7,
    ensures
        wf_item(week_item(h)),
        wf_item(day_item(h)),
{
    lemma_clean_name_len(spec_raw_name(h.short_name, h.long_name));
    reveal_strlit("FULLNAME_MISSING");
}

/// Detect this ticker's declines: the week alert and the day alert, each
/// present exactly when its own threshold is breached — the two checks are
/// independent. A history of fewer than seven quotes produces neither.
pub fn process_ticker(h: &TickerHistory, week_thr: u32, day_thr: u32) -> (r: (
    Option<AlertItem>,
    Option<AlertItem>,
))
    requires
        wf_history(h@),
    ensures
        r.0 is Some <==> has_week_alert(h@, week_thr as int),
        r.0 is Some ==> r.0->0@ == week_item(h@) && wf_item(r.0->0@),
        r.1 is Some <==> has_day_alert(h@, day_thr as int),
        r.1 is Some ==> r.1->0@ == day_item(h@) && wf_item(r.1->0@),
{
    let n: usize = h.quotes.len();
    if n < 7 {
        return (None, None);
    }
    proof {
        lemma_items_wf(h@);
    }
    let full_name = clean_name(&h.short_name, &h.long_name);
    let last_week: Quote = h.quotes[n - 7];
    let yesterday: Quote = h.quotes[n - 2];
    let now: Quote = h.quotes[n - 1];
    let week: Option<AlertItem> = if breaches(last_week.open_cents, now.close_cents, week_thr) {
        Some(
            AlertItem {
                ticker_name: h.ticker.clone(),
                ticker_full_name: full_name.clone(),
                ticker_before: last_week,
                ticker_now: now,
            },
        )
    } else {
        None
    };
    let day: Option<AlertItem> = if breaches(yesterday.open_cents, now.close_cents, day_thr) {
        Some(
            AlertItem {
                ticker_name: h.ticker.clone(),
                ticker_full_name: full_name,
                ticker_before: yesterday,
                ticker_now: now,
            },
        )
    } else {
        None
    };
    (week, day)
}

} // verus!

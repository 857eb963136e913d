//! Core data types of the alerter and the exact delta arithmetic.
//!
//! A price is a positive number of cents (`u32`). A threshold is a number of
//! hundredths of a percent (`u32`, e.g. `500` for 5.00%). The relative delta
//! of a price move from an opening price to a later closing price is the
//! rational `(close - open) / open * 100` percent; it is never materialised
//! as an approximate number: threshold checks and ordering are decided by
//! exact cross-multiplied integer comparisons, and only the displayed value
//! is rounded, to hundredths of a percent.

use vstd::prelude::*;

verus! {

/// One daily price bar: opening and closing price in cents.
#[derive(Clone, Copy, PartialEq, Eq, Structural, Debug)]
pub struct Quote {
    pub open_cents: u32,
    pub close_cents: u32,
}

/// Prices are positive.
pub open spec fn wf_quote(q: Quote) -> bool {
    q.open_cents > 0 && q.close_cents > 0
}

/// The move from `open` to `close` breaches a decline threshold of `thr`
/// hundredths of a percent: `(close - open) / open * 100 < -(thr / 100)`,
/// cross-multiplied by the positive `100 * open`.
pub open spec fn spec_breaches(open: int, close: int, thr: int) -> bool {
    (close - open) * 10000 < -(thr * open)
}

/// Exact threshold check on the rational delta: true iff the move from
/// `open` to `close` is a decline of strictly more than `thr` hundredths
/// of a percent.
pub fn breaches(open: u32, close: u32, thr: u32) -> (r: bool)
    requires
        open > 0,
    ensures
        r == spec_breaches(open as int, close as int, thr as int),
{
    proof {
        assert((thr as int) * (open as int) < 0x10000000000000000) by (nonlinear_arith)
            requires
                thr < 0x100000000 && open < 0x100000000,
        ;
        assert((thr as int) * (open as int) >= 0) by (nonlinear_arith)
            requires
                thr >= 0 && open >= 0,
        ;
    }
    let lhs: i128 = (close as i128 - open as i128) * 10000;
    let rhs: i128 = -((thr as i128) * (open as i128));
    lhs < rhs
}

/// `n / d` rounded to the nearest integer, halves away from zero, for
/// `n >= 0 < d`.
pub open spec fn round_div(n: int, d: int) -> int {
    (2 * n + d) / (2 * d)
}

/// The delta percentage of the move from `open` to `close`, in hundredths of
/// a percent, rounded to the nearest (halves away from zero): the displayed
/// counterpart of the exact rational `(close - open) / open * 100`.
pub open spec fn delta_centi(open: int, close: int) -> int {
    if close >= open {
        round_div((close - open) * 10000, open)
    } else {
        -round_div((open - close) * 10000, open)
    }
}

/// Computes [`delta_centi`] exactly, in integer arithmetic.
pub fn compute_delta_centi(open: u32, close: u32) -> (r: i64)
    requires
        open > 0,
    ensures
        r as int == delta_centi(open as int, close as int),
        -0x1000000000000 < r < 0x1000000000000,
{
    if close >= open {
        let n: u64 = ((close - open) as u64) * 10000;
        let q: u64 = (2 * n + open as u64) / (2 * open as u64);
        proof {
            assert(q <= 2 * n + open) by (nonlinear_arith)
                requires
                    open >= 1 && n >= 0 && q == (2 * (n as int) + open) / (2 * (open as int)),
            ;
        }
        q as i64
    } else {
        let n: u64 = ((open - close) as u64) * 10000;
        let q: u64 = (2 * n + open as u64) / (2 * open as u64);
        proof {
            assert(q <= 2 * n + open) by (nonlinear_arith)
                requires
                    open >= 1 && n >= 0 && q == (2 * (n as int) + open) / (2 * (open as int)),
            ;
        }
        -(q as i64)
    }
}

/// One detected decline: the ticker, its cleaned display name, and the two
/// quotes the delta was computed from. The delta itself is the exact
/// rational determined by `ticker_before.open_cents` and
/// `ticker_now.close_cents`.
#[derive(Debug)]
pub struct AlertItem {
    pub ticker_name: String,
    pub ticker_full_name: String,
    pub ticker_before: Quote,
    pub ticker_now: Quote,
}

/// The mathematical content of an [`AlertItem`]: its strings as character
/// sequences.
pub struct AlertItemV {
    pub ticker_name: Seq<char>,
    pub ticker_full_name: Seq<char>,
    pub ticker_before: Quote,
    pub ticker_now: Quote,
}

impl View for AlertItem {
    type V = AlertItemV;

    open spec fn view(&self) -> AlertItemV {
        AlertItemV {
            ticker_name: self.ticker_name@,
            ticker_full_name: self.ticker_full_name@,
            ticker_before: self.ticker_before,
            ticker_now: self.ticker_now,
        }
    }
}

/// The numerator of an item's exact delta (the sign lives here).
pub open spec fn item_num(a: AlertItemV) -> int {
    a.ticker_now.close_cents - a.ticker_before.open_cents
}

/// The (positive) denominator of an item's exact delta.
pub open spec fn item_den(a: AlertItemV) -> int {
    a.ticker_before.open_cents as int
}

/// `a`'s exact delta is at most `b`'s: `num_a/den_a <= num_b/den_b`,
/// cross-multiplied by the positive denominators.
pub open spec fn delta_le(a: AlertItemV, b: AlertItemV) -> bool {
    item_num(a) * item_den(b) <= item_num(b) * item_den(a)
}

/// Quotes are well-formed and the name lengths leave room for the
/// formatter's padding arithmetic in `usize`.
pub open spec fn wf_item(a: AlertItemV) -> bool {
    &&& wf_quote(a.ticker_before)
    &&& wf_quote(a.ticker_now)
    &&& a.ticker_name.len() + a.ticker_full_name.len() <= 0x2000000
}

/// Exact comparison of two items' rational deltas.
pub fn delta_le_exec(a: &AlertItem, b: &AlertItem) -> (r: bool)
    ensures
        r == delta_le(a@, b@),
{
    let na: i128 = a.ticker_now.close_cents as i128 - a.ticker_before.open_cents as i128;
    let nb: i128 = b.ticker_now.close_cents as i128 - b.ticker_before.open_cents as i128;
    let da: i128 = a.ticker_before.open_cents as i128;
    let db: i128 = b.ticker_before.open_cents as i128;
    proof {
        assert(-0x10000000000000000 < na * db < 0x10000000000000000) by (nonlinear_arith)
            requires
                -0x100000000 < na < 0x100000000 && 0 <= db < 0x100000000,
        ;
        assert(-0x10000000000000000 < nb * da < 0x10000000000000000) by (nonlinear_arith)
            requires
                -0x100000000 < nb < 0x100000000 && 0 <= da < 0x100000000,
        ;
    }
    na * db <= nb * da
}

/// The exact-delta order is total.
pub proof fn lemma_delta_le_total(a: AlertItemV, b: AlertItemV)
    ensures
        delta_le(a, b) || delta_le(b, a),
{
}

/// The exact-delta order is transitive.
pub proof fn lemma_delta_le_trans(a: AlertItemV, b: AlertItemV, c: AlertItemV)
    requires
        item_den(a) > 0,
        item_den(b) > 0,
        item_den(c) > 0,
        delta_le(a, b),
        delta_le(b, c),
    ensures
        delta_le(a, c),
{
    assert(item_num(a) * item_den(c) <= item_num(c) * item_den(a)) by (nonlinear_arith)
        requires
            item_den(a) > 0,
            item_den(b) > 0,
            item_den(c) > 0,
            item_num(a) * item_den(b) <= item_num(b) * item_den(a),
            item_num(b) * item_den(c) <= item_num(c) * item_den(b),
    ;
}

/// Ascending by exact delta, pairwise.
pub open spec fn sorted_by_delta(s: Seq<AlertItemV>) -> bool {
    forall|i: int, j: int| 0 <= i <= j < s.len() ==> delta_le(s[i], s[j])
}

/// The views of a sequence of items.
pub open spec fn views_of(s: Seq<AlertItem>) -> Seq<AlertItemV> {
    s.map_values(|a: AlertItem| a@)
}

/// One watched ticker's fetched history: the symbol, the provider's
/// descriptive names, and its daily quotes ordered oldest to newest.
#[derive(Debug)]
pub struct TickerHistory {
    pub ticker: String,
    pub short_name: Option<String>,
    pub long_name: Option<String>,
    pub quotes: Vec<Quote>,
}

/// The mathematical content of a [`TickerHistory`].
pub struct TickerHistoryV {
    pub ticker: Seq<char>,
    pub short_name: Option<Seq<char>>,
    pub long_name: Option<Seq<char>>,
    pub quotes: Seq<Quote>,
}

impl View for TickerHistory {
    type V = TickerHistoryV;

    open spec fn view(&self) -> TickerHistoryV {
        TickerHistoryV {
            ticker: self.ticker@,
            short_name: self.short_name.deep_view(),
            long_name: self.long_name.deep_view(),
            quotes: self.quotes@,
        }
    }
}

/// Quotes carry positive prices; the symbol and names are short enough for
/// the formatter's `usize` padding arithmetic.
pub open spec fn wf_history(h: TickerHistoryV) -> bool {
    &&& forall|i: int| 0 <= i < h.quotes.len() ==> wf_quote(#[trigger] h.quotes[i])
    &&& h.ticker.len() <= 0x1000000
    &&& (h.short_name is Some ==> h.short_name->0.len() <= 0x1000000)
    &&& (h.long_name is Some ==> h.long_name->0.len() <= 0x1000000)
}

/// The stage at which fetching one ticker's history failed.
#[derive(Clone, Copy, PartialEq, Eq, Structural, Debug)]
pub enum FetchErrorKind {
    /// Connecting to the quote provider failed.
    Connect,
    /// Retrieving the ticker's price range failed.
    Retrieve,
    /// The response carried no readable metadata.
    Metadata,
    /// The response carried no readable quotes.
    Quotes,
}

/// A fetch failure, carrying the offending ticker's symbol.
#[derive(Debug)]
pub struct FetchError {
    pub ticker: String,
    pub kind: FetchErrorKind,
}

/// The mathematical content of a [`FetchError`].
pub struct FetchErrorV {
    pub ticker: Seq<char>,
    pub kind: FetchErrorKind,
}

impl View for FetchError {
    type V = FetchErrorV;

    open spec fn view(&self) -> FetchErrorV {
        FetchErrorV { ticker: self.ticker@, kind: self.kind }
    }
}

/// The run's configuration: the chat channel, the two decline thresholds in
/// hundredths of a percent, and the watched ticker symbols.
pub struct Config {
    pub chat_id: i64,
    pub week_delta_threshold: u32,
    pub day_delta_threshold: u32,
    pub watched_stocks: Vec<String>,
}

/// The aggregated, ranked result of one run: week losers and day losers,
/// each ascending by delta (worst decline first).
#[derive(Debug)]
pub struct Report {
    pub week_losers: Vec<AlertItem>,
    pub day_losers: Vec<AlertItem>,
}

} // verus!

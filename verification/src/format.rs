//! Deterministic rendering of a report into one escaped, markup-decorated
//! alert message.
//!
//! The message opens with a siren-framed header line; each non-empty loser
//! list contributes a bar-framed section of one line per alert, worst decline
//! first. Every dynamic fragment — the padded name block, the delta, and the
//! before/after price parenthetical — is escaped for the renderer, as are the
//! literal section bars. The output is a pure function of the report.

use vstd::prelude::*;
use crate::escape::{escape_chars, escape_seq, push_escaped};
use crate::model::{AlertItem, AlertItemV, Report, delta_centi, views_of, wf_item};
use crate::numfmt::{delta_pct_str, money_str, push_delta_pct, push_money};
use crate::text::{chars_to_string, push_all, push_spaces, push_str_chars, spaces, str_chars};

verus! {

/// The padded name block of one alert line: the ticker symbol, left-padded
/// to the section's width budget, then the cleaned display name in
/// parentheses. The padding target for an item is the section-wide maximum
/// of (symbol length + display-name length) minus this item's display-name
/// length — the faithful per-item formula, even though it can align lines of
/// a section inconsistently.
pub open spec fn name_block(a: AlertItemV, ml: int) -> Seq<char> {
    a.ticker_name + spaces(ml - a.ticker_full_name.len() - a.ticker_name.len()) + seq![' ', '(']
        + a.ticker_full_name + seq![')']
}

/// The before/after price parenthetical of one alert line.
pub open spec fn details_str(a: AlertItemV) -> Seq<char> {
    seq!['('] + money_str(a.ticker_before.open_cents as int) + " -> "@ + money_str(
        a.ticker_now.close_cents as int,
    ) + seq![')']
}

/// The rounded display delta of an item, in hundredths of a percent.
pub open spec fn item_delta_centi(a: AlertItemV) -> int {
    delta_centi(a.ticker_before.open_cents as int, a.ticker_now.close_cents as int)
}

/// One alert line: escaped name block in code markup, escaped delta in bold,
/// escaped price parenthetical in italics.
pub open spec fn line_str(a: AlertItemV, ml: int) -> Seq<char> {
    seq!['`'] + escape_seq(name_block(a, ml)) + seq!['`', ' ', '*'] + escape_seq(
        delta_pct_str(item_delta_centi(a)),
    ) + seq!['*', ' ', '_'] + escape_seq(details_str(a)) + seq!['_']
}

/// The section-wide padding budget: the maximum over the items of symbol
/// length plus display-name length, `0` for an empty section.
pub open spec fn max_len(items: Seq<AlertItemV>) -> int
    decreases items.len(),
{
    if items.len() == 0 {
        0
    } else {
        let rest = max_len(items.drop_last());
        let cur = items.last().ticker_name.len() + items.last().ticker_full_name.len() as int;
        if cur > rest {
            cur
        } else {
            rest
        }
    }
}

/// The budget dominates every item.
pub proof fn lemma_max_len_ge(items: Seq<AlertItemV>, i: int)
    requires
        0 <= i < items.len(),
    ensures
        max_len(items) >= items[i].ticker_name.len() + items[i].ticker_full_name.len(),
        max_len(items) >= 0,
    decreases items.len(),
{
    if i == items.len() - 1 {
        if items.len() > 1 {
            lemma_max_len_ge(items.drop_last(), 0);
        }
    } else {
        lemma_max_len_ge(items.drop_last(), i);
    }
}

/// The lines of a section, newline-separated, under padding budget `ml`.
pub open spec fn section_lines(items: Seq<AlertItemV>, ml: int) -> Seq<char>
    decreases items.len(),
{
    if items.len() == 0 {
        Seq::empty()
    } else if items.len() == 1 {
        line_str(items[0], ml)
    } else {
        section_lines(items.drop_last(), ml) + seq!['\n'] + line_str(items.last(), ml)
    }
}

/// A rendered section body: the items' lines under the section-wide budget.
pub open spec fn spec_section(items: Seq<AlertItemV>) -> Seq<char> {
    section_lines(items, max_len(items))
}

/// The escaped section bar.
pub open spec fn bar() -> Seq<char> {
    escape_seq("================"@)
}

/// A titled section block, or nothing at all for an empty item list (not
/// even the header).
pub open spec fn spec_section_block(title: Seq<char>, items: Seq<AlertItemV>) -> Seq<char> {
    if items.len() == 0 {
        Seq::empty()
    } else {
        seq!['\n'] + bar() + title + bar() + seq!['\n'] + spec_section(items)
    }
}

/// The whole alert message for the given week-loser and day-loser lists.
pub open spec fn spec_message(week: Seq<AlertItemV>, day: Seq<AlertItemV>) -> Seq<char> {
    seq!['\n', '\u{1F6A8}'] + " __Stocks alert__ "@ + seq!['\u{1F6A8}', '\n']
        + spec_section_block(" Week losers "@, week) + seq!['\n'] + spec_section_block(
        " Day losers "@,
        day,
    ) + seq!['\n']
}

/// Append one alert line.
fn push_item_line(out: &mut Vec<char>, a: &AlertItem, ml: usize)
    requires
        wf_item(a@),
        a@.ticker_name.len() + a@.ticker_full_name.len() <= ml <= 0x4000000,
    ensures
        final(out)@ == old(out)@ + line_str(a@, ml as int),
{
    let tn = str_chars(a.ticker_name.as_str());
    let fnm = str_chars(a.ticker_full_name.as_str());
    let pad: usize = ml - fnm.len() - tn.len();
    let mut nb: Vec<char> = Vec::new();
    push_all(&mut nb, &tn);
    push_spaces(&mut nb, pad);
    nb.push(' ');
    nb.push('(');
    push_all(&mut nb, &fnm);
    nb.push(')');
    proof {
        assert(nb@ =~= name_block(a@, ml as int));
    }
    let dc: i64 = crate::model::compute_delta_centi(
        a.ticker_before.open_cents,
        a.ticker_now.close_cents,
    );
    let mut dv: Vec<char> = Vec::new();
    push_delta_pct(&mut dv, dc);
    let mut det: Vec<char> = Vec::new();
    det.push('(');
    push_money(&mut det, a.ticker_before.open_cents);
    push_str_chars(&mut det, " -> ");
    push_money(&mut det, a.ticker_now.close_cents);
    det.push(')');
    proof {
        assert(det@ =~= details_str(a@));
    }
    out.push('`');
    push_escaped(out, &nb);
    out.push('`');
    out.push(' ');
    out.push('*');
    push_escaped(out, &dv);
    out.push('*');
    out.push(' ');
    out.push('_');
    push_escaped(out, &det);
    out.push('_');
    proof {
        assert(out@ =~= old(out)@ + line_str(a@, ml as int));
    }
}

/// Append a section's lines, newline-separated, ranked as given.
fn push_section_lines(out: &mut Vec<char>, companies: &Vec<AlertItem>)
    requires
        forall|i: int|
            0 <= i < companies@.len() ==> wf_item(#[trigger] views_of(companies@)[i]),
    ensures
        final(out)@ == old(out)@ + spec_section(views_of(companies@)),
{
    let ghost vs = views_of(companies@);
    let mut ml: usize = 0;
    let mut i: usize = 0;
    while i < companies.len()
        invariant
            vs == views_of(companies@),
            forall|j: int| 0 <= j < companies@.len() ==> wf_item(#[trigger] vs[j]),
            i <= companies@.len(),
            ml == max_len(vs.take(i as int)),
            ml <= 0x2000000,
        decreases companies@.len() - i,
    {
        let c = &companies[i];
        proof {
            assert(vs[i as int] == companies@[i as int]@);
        }
        let sum: usize = c.ticker_name.unicode_len() + c.ticker_full_name.unicode_len();
        if sum > ml {
            ml = sum;
        }
        i = i + 1;
        proof {
            assert(vs.take(i as int).drop_last() =~= vs.take(i - 1));
            assert(vs.take(i as int).last() == vs[i - 1]);
        }
    }
    proof {
        assert(vs.take(i as int) =~= vs);
        assert forall|j: int| 0 <= j < vs.len() implies vs[j].ticker_name.len()
            + vs[j].ticker_full_name.len() <= ml as int by {
            lemma_max_len_ge(vs, j);
        }
    }
    let mut k: usize = 0;
    while k < companies.len()
        invariant
            vs == views_of(companies@),
            forall|j: int| 0 <= j < companies@.len() ==> wf_item(#[trigger] vs[j]),
            forall|j: int|
                0 <= j < vs.len() ==> vs[j].ticker_name.len() + vs[j].ticker_full_name.len()
                    <= ml as int,
            k <= companies@.len(),
            ml == max_len(vs),
            ml <= 0x2000000,
            out@ == old(out)@ + section_lines(vs.take(k as int), ml as int),
        decreases companies@.len() - k,
    {
        if k > 0 {
            out.push('\n');
        }
        proof {
            assert(vs[k as int] == companies@[k as int]@);
        }
        push_item_line(out, &companies[k], ml);
        k = k + 1;
        proof {
            assert(vs.take(k as int).drop_last() =~= vs.take(k - 1));
            assert(vs.take(k as int).last() == vs[k - 1]);
            assert(vs.take(k as int)[0] == vs[0]);
            assert(out@ =~= old(out)@ + section_lines(vs.take(k as int), ml as int));
        }
    }
    proof {
        assert(vs.take(k as int) =~= vs);
    }
}

/// One section's rendered lines, ranked as given: one line per alert.
pub fn formatted_message_section(companies: &Vec<AlertItem>) -> (m: String)
    requires
        forall|i: int|
            0 <= i < companies@.len() ==> wf_item(#[trigger] views_of(companies@)[i]),
    ensures
        m@ == spec_section(views_of(companies@)),
{
    let mut out: Vec<char> = Vec::new();
    push_section_lines(&mut out, companies);
    proof {
        assert(out@ =~= spec_section(views_of(companies@)));
    }
    chars_to_string(&out)
}

/// Append a titled section block for a non-empty list, nothing for an empty
/// one.
fn push_section_block(out: &mut Vec<char>, title: &str, companies: &Vec<AlertItem>)
    requires
        forall|i: int|
            0 <= i < companies@.len() ==> wf_item(#[trigger] views_of(companies@)[i]),
    ensures
        final(out)@ == old(out)@ + spec_section_block(title@, views_of(companies@)),
{
    if companies.len() == 0 {
        proof {
            assert(views_of(companies@).len() == 0);
            assert(out@ =~= old(out)@ + spec_section_block(title@, views_of(companies@)));
        }
        return ;
    }
    let bar_src = str_chars("================");
    let bar_esc = escape_chars(&bar_src);
    out.push('\n');
    push_all(out, &bar_esc);
    push_str_chars(out, title);
    push_all(out, &bar_esc);
    out.push('\n');
    push_section_lines(out, companies);
    proof {
        assert(views_of(companies@).len() > 0);
        assert(out@ =~= old(out)@ + spec_section_block(title@, views_of(companies@)));
    }
}

impl Report {
    /// Render the whole alert message: a pure function of the report — equal
    /// reports render to the identical text.
    pub fn to_formatted_message(&self) -> (m: String)
        requires
            forall|i: int|
                0 <= i < self.week_losers@.len() ==> wf_item(
                    #[trigger] views_of(self.week_losers@)[i],
                ),
            forall|i: int|
                0 <= i < self.day_losers@.len() ==> wf_item(
                    #[trigger] views_of(self.day_losers@)[i],
                ),
        ensures
            m@ == spec_message(views_of(self.week_losers@), views_of(self.day_losers@)),
    {
        let mut out: Vec<char> = Vec::new();
        out.push('\n');
        out.push('\u{1F6A8}');
        push_str_chars(&mut out, " __Stocks alert__ ");
        out.push('\u{1F6A8}');
        out.push('\n');
        push_section_block(&mut out, " Week losers ", &self.week_losers);
        out.push('\n');
        push_section_block(&mut out, " Day losers ", &self.day_losers);
        out.push('\n');
        proof {
            assert(out@ =~= spec_message(views_of(self.week_losers@), views_of(self.day_losers@)));
        }
        chars_to_string(&out)
    }
}

/// Rendering is deterministic: two reports with the same content render to
/// the same text.
pub proof fn lemma_format_deterministic(
    week_a: Seq<AlertItemV>,
    day_a: Seq<AlertItemV>,
    week_b: Seq<AlertItemV>,
    day_b: Seq<AlertItemV>,
)
    requires
        week_a == week_b,
        day_a == day_b,
    ensures
        spec_message(week_a, day_a) == spec_message(week_b, day_b),
{
}

} // verus!

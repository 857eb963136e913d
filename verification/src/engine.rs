//! The report engine: aggregate per-ticker fetch outcomes into a ranked
//! report, all-or-nothing.
//!
//! The caller fetches every watched ticker (concurrently, in any order) and
//! hands the outcomes over in one sequence. If any single fetch failed, the
//! whole run fails with the first failure in that sequence — no partial
//! report. Otherwise every history long enough is classified against the two
//! thresholds and the detected declines are ranked ascending by exact delta,
//! worst first.

use vstd::prelude::*;
use vstd::multiset::Multiset;
use vstd::seq_lib::lemma_multiset_commutative;
use crate::model::{
    AlertItem, AlertItemV, Config, FetchError, FetchErrorKind, FetchErrorV, Report, TickerHistory,
    TickerHistoryV, delta_le, delta_le_exec, lemma_delta_le_total, lemma_delta_le_trans,
    sorted_by_delta, views_of, wf_history, wf_item,
};
use crate::process::{day_item, has_day_alert, has_week_alert, process_ticker, week_item};
use crate::text::{chars_to_string, push_str_chars};

verus! {

broadcast use vstd::seq_lib::group_to_multiset_ensures;

/// The views of a sequence of histories.
pub open spec fn hviews(s: Seq<TickerHistory>) -> Seq<TickerHistoryV> {
    s.map_values(|h: TickerHistory| h@)
}

/// The histories behind an all-`Ok` sequence of fetch outcomes.
pub open spec fn ok_views(s: Seq<Result<TickerHistory, FetchError>>) -> Seq<TickerHistoryV> {
    s.map_values(|r: Result<TickerHistory, FetchError>| r->Ok_0@)
}

/// The week alert records of `hs`, in history order.
pub open spec fn spec_week_alerts(hs: Seq<TickerHistoryV>, thr: int) -> Seq<AlertItemV>
    decreases hs.len(),
{
    if hs.len() == 0 {
        Seq::empty()
    } else {
        spec_week_alerts(hs.drop_last(), thr) + (if has_week_alert(hs.last(), thr) {
            seq![week_item(hs.last())]
        } else {
            Seq::<AlertItemV>::empty()
        })
    }
}

/// The day alert records of `hs`, in history order.
pub open spec fn spec_day_alerts(hs: Seq<TickerHistoryV>, thr: int) -> Seq<AlertItemV>
    decreases hs.len(),
{
    if hs.len() == 0 {
        Seq::empty()
    } else {
        spec_day_alerts(hs.drop_last(), thr) + (if has_day_alert(hs.last(), thr) {
            seq![day_item(hs.last())]
        } else {
            Seq::<AlertItemV>::empty()
        })
    }
}

/// Where no history breaches, no alert record arises: the quiet run yields
/// an empty report.
pub proof fn lemma_no_breach_no_alerts(hs: Seq<TickerHistoryV>, wthr: int, dthr: int)
    requires
        forall|i: int| 0 <= i < hs.len() ==> !has_week_alert(#[trigger] hs[i], wthr),
        forall|i: int| 0 <= i < hs.len() ==> !has_day_alert(#[trigger] hs[i], dthr),
    ensures
        spec_week_alerts(hs, wthr) == Seq::<AlertItemV>::empty(),
        spec_day_alerts(hs, dthr) == Seq::<AlertItemV>::empty(),
    decreases hs.len(),
{
    if hs.len() > 0 {
        assert(hs.last() == hs[hs.len() - 1]);
        lemma_no_breach_no_alerts(hs.drop_last(), wthr, dthr);
        assert(spec_week_alerts(hs, wthr) =~= Seq::<AlertItemV>::empty());
        assert(spec_day_alerts(hs, dthr) =~= Seq::<AlertItemV>::empty());
    }
}

/// A quiet run: where no fetched history breaches either threshold, any
/// report that carries exactly the runs' alert records — as
/// [`Report::generate`] ensures — has both loser lists empty, so no message
/// is owed.
pub proof fn lemma_quiet_run_empty(
    hs: Seq<TickerHistoryV>,
    wthr: int,
    dthr: int,
    week: Seq<AlertItemV>,
    day: Seq<AlertItemV>,
)
    requires
        forall|i: int| 0 <= i < hs.len() ==> !has_week_alert(#[trigger] hs[i], wthr),
        forall|i: int| 0 <= i < hs.len() ==> !has_day_alert(#[trigger] hs[i], dthr),
        week.to_multiset() == spec_week_alerts(hs, wthr).to_multiset(),
        day.to_multiset() == spec_day_alerts(hs, dthr).to_multiset(),
    ensures
        week == Seq::<AlertItemV>::empty(),
        day == Seq::<AlertItemV>::empty(),
{
    lemma_no_breach_no_alerts(hs, wthr, dthr);
    week.to_multiset_ensures();
    day.to_multiset_ensures();
    spec_week_alerts(hs, wthr).to_multiset_ensures();
    spec_day_alerts(hs, dthr).to_multiset_ensures();
    assert(week =~= Seq::<AlertItemV>::empty());
    assert(day =~= Seq::<AlertItemV>::empty());
}

/// The index of the first failed outcome, or `-1` if none failed.
pub open spec fn first_err_idx(s: Seq<Result<TickerHistory, FetchError>>) -> int
    decreases s.len(),
{
    if s.len() == 0 {
        -1
    } else if s[0] is Err {
        0
    } else {
        let r = first_err_idx(s.skip(1));
        if r < 0 {
            -1
        } else {
            1 + r
        }
    }
}

/// A failure preceded only by successes is the first failure.
pub proof fn lemma_first_err_at(s: Seq<Result<TickerHistory, FetchError>>, k: int)
    requires
        0 <= k < s.len(),
        forall|i: int| 0 <= i < k ==> s[i] is Ok,
        s[k] is Err,
    ensures
        first_err_idx(s) == k,
    decreases k,
{
    if k == 0 {
    } else {
        assert(s[0] is Ok);
        let t = s.skip(1);
        assert(forall|i: int| 0 <= i < k - 1 ==> t[i] == s[i + 1] && s[i + 1] is Ok);
        assert(t[k - 1] == s[k]);
        lemma_first_err_at(t, k - 1);
    }
}

/// Insert `item` into the delta-sorted `v`, keeping it sorted: the new
/// contents are the old contents plus `item`.
fn insert_sorted(v: &mut Vec<AlertItem>, item: AlertItem)
    requires
        sorted_by_delta(views_of(old(v)@)),
        forall|i: int| 0 <= i < old(v)@.len() ==> wf_item(#[trigger] views_of(old(v)@)[i]),
        wf_item(item@),
    ensures
        final(v)@.len() == old(v)@.len() + 1,
        views_of(final(v)@).to_multiset() == views_of(old(v)@).to_multiset().insert(item@),
        sorted_by_delta(views_of(final(v)@)),
        forall|i: int| 0 <= i < final(v)@.len() ==> wf_item(#[trigger] views_of(final(v)@)[i]),
{
    let ghost vs0 = views_of(old(v)@);
    let mut k: usize = 0;
    while k < v.len() && delta_le_exec(&v[k], &item)
        invariant
            v@ == old(v)@,
            k <= v@.len(),
            forall|i: int| 0 <= i < k ==> delta_le(#[trigger] views_of(v@)[i], item@),
        decreases v@.len() - k,
    {
        k = k + 1;
    }
    proof {
        assert forall|j: int| k <= j < vs0.len() implies delta_le(item@, #[trigger] vs0[j]) by {
            lemma_delta_le_total(vs0[k as int], item@);
            lemma_delta_le_trans(item@, vs0[k as int], vs0[j]);
        }
    }
    v.insert(k, item);
    proof {
        let vs1 = views_of(v@);
        vs0.insert_ensures(k as int, item@);
        assert(vs1 =~= vs0.insert(k as int, item@));
        assert(vs1 =~= vs0.take(k as int).push(item@) + vs0.skip(k as int));
        lemma_multiset_commutative(vs0.take(k as int).push(item@), vs0.skip(k as int));
        lemma_multiset_commutative(vs0.take(k as int), vs0.skip(k as int));
        assert(vs0 =~= vs0.take(k as int) + vs0.skip(k as int));
        assert(vs1.to_multiset() =~= vs0.to_multiset().insert(item@));
        assert forall|i: int, j: int| 0 <= i <= j < vs1.len() implies delta_le(vs1[i], vs1[j]) by {
            if i == k && j > k {
                assert(vs1[j] == vs0[j - 1]);
            } else if j == k && i < k {
                assert(vs1[i] == vs0[i]);
            }
        }
    }
}

/// The human-readable description of a fetch failure, naming the offending
/// ticker where one is known.
pub open spec fn spec_error_message(e: FetchErrorV) -> Seq<char> {
    match e.kind {
        FetchErrorKind::Connect => "Error connecting to yahoo"@,
        FetchErrorKind::Retrieve => "Could not retrieve last 7 days for ticker "@ + e.ticker,
        FetchErrorKind::Metadata => "Failed to get full name for "@ + e.ticker,
        FetchErrorKind::Quotes => "Failed to get quotes for "@ + e.ticker,
    }
}

/// Every failure description but the connection failure's ends with the
/// offending ticker's symbol.
pub proof fn lemma_error_message_names_ticker(e: FetchErrorV)
    requires
        e.kind != FetchErrorKind::Connect,
    ensures
        spec_error_message(e).len() >= e.ticker.len(),
        spec_error_message(e).skip(spec_error_message(e).len() - e.ticker.len()) == e.ticker,
{
    let m = spec_error_message(e);
    assert(m.skip(m.len() - e.ticker.len()) =~= e.ticker);
}

/// Render the failure description of `e`.
pub fn error_message(e: &FetchError) -> (m: String)
    ensures
        m@ == spec_error_message(e@),
{
    let mut out: Vec<char> = Vec::new();
    match e.kind {
        FetchErrorKind::Connect => {
            push_str_chars(&mut out, "Error connecting to yahoo");
            proof {
                assert(out@ =~= spec_error_message(e@));
            }
        },
        FetchErrorKind::Retrieve => {
            push_str_chars(&mut out, "Could not retrieve last 7 days for ticker ");
            push_str_chars(&mut out, e.ticker.as_str());
            proof {
                assert(out@ =~= spec_error_message(e@));
            }
        },
        FetchErrorKind::Metadata => {
            push_str_chars(&mut out, "Failed to get full name for ");
            push_str_chars(&mut out, e.ticker.as_str());
            proof {
                assert(out@ =~= spec_error_message(e@));
            }
        },
        FetchErrorKind::Quotes => {
            push_str_chars(&mut out, "Failed to get quotes for ");
            push_str_chars(&mut out, e.ticker.as_str());
            proof {
                assert(out@ =~= spec_error_message(e@));
            }
        },
    }
    chars_to_string(&out)
}

impl Report {
    /// Are there any detected declines to announce?
    pub fn has_alerts(&self) -> (b: bool)
        ensures
            b == (self.week_losers@.len() > 0 || self.day_losers@.len() > 0),
    {
        !self.week_losers.is_empty() || !self.day_losers.is_empty()
    }

    /// Aggregate the fetch outcomes of one run into a report,
    /// all-or-nothing.
    ///
    /// Fails with the first failed outcome if any fetch failed. Otherwise
    /// the report holds exactly the alert records of the fetched histories —
    /// the week list and the day list detected independently — each list
    /// ranked ascending by exact delta.
    #[verifier::loop_isolation(false)]
    pub fn generate(conf: &Config, fetched: Vec<Result<TickerHistory, FetchError>>) -> (r: Result<
        Report,
        FetchError,
    >)
        requires
            forall|i: int|
                0 <= i < fetched@.len() && fetched@[i] is Ok ==> wf_history(
                    (#[trigger] fetched@[i])->Ok_0@,
                ),
        ensures
            (r is Err) <==> (exists|i: int| 0 <= i < fetched@.len() && fetched@[i] is Err),
            r is Err ==> {
                let k = first_err_idx(fetched@);
                &&& 0 <= k < fetched@.len()
                &&& fetched@[k] is Err
                &&& r->Err_0@ == fetched@[k]->Err_0@
            },
            r is Ok ==> {
                let hs = ok_views(fetched@);
                let wthr = conf.week_delta_threshold as int;
                let dthr = conf.day_delta_threshold as int;
                let rep = r->Ok_0;
                &&& sorted_by_delta(views_of(rep.week_losers@))
                &&& sorted_by_delta(views_of(rep.day_losers@))
                &&& views_of(rep.week_losers@).to_multiset() == spec_week_alerts(
                    hs,
                    wthr,
                ).to_multiset()
                &&& views_of(rep.day_losers@).to_multiset() == spec_day_alerts(
                    hs,
                    dthr,
                ).to_multiset()
                &&& rep.week_losers@.len() == spec_week_alerts(hs, wthr).len()
                &&& rep.day_losers@.len() == spec_day_alerts(hs, dthr).len()
                &&& forall|i: int|
                    0 <= i < rep.week_losers@.len() ==> wf_item(
                        #[trigger] views_of(rep.week_losers@)[i],
                    )
                &&& forall|i: int|
                    0 <= i < rep.day_losers@.len() ==> wf_item(
                        #[trigger] views_of(rep.day_losers@)[i],
                    )
            },
    {
        let ghost orig = fetched@;
        let mut rest = fetched;
        proof {
            assert(rest@ == orig);
        }
        let mut histories: Vec<TickerHistory> = Vec::new();
        while rest.len() > 0
            invariant
                forall|i: int|
                    0 <= i < orig.len() && orig[i] is Ok ==> wf_history(
                        (#[trigger] orig[i])->Ok_0@,
                    ),
                rest@.len() <= orig.len(),
                histories@.len() == orig.len() - rest@.len(),
                rest@ == orig.skip(histories@.len() as int),
                forall|i: int|
                    0 <= i < histories@.len() ==> (#[trigger] orig[i]) is Ok && histories@[i]
                        == orig[i]->Ok_0,
            decreases rest@.len(),
        {
            let ghost done = histories@.len() as int;
            proof {
                assert(rest@[0] == orig[done]);
                assert(rest@.remove(0) =~= orig.skip(done + 1));
            }
            let x = rest.remove(0);
            match x {
                Ok(h) => {
                    histories.push(h);
                },
                Err(e) => {
                    proof {
                        lemma_first_err_at(orig, done);
                        assert(orig[done] is Err);
                        assert(e == orig[done]->Err_0);
                    }
                    return Err(e);
                },
            }
        }
        proof {
            assert(forall|i: int| 0 <= i < orig.len() ==> (#[trigger] orig[i]) is Ok);
            assert(hviews(histories@) =~= ok_views(orig));
            assert forall|j: int| 0 <= j < histories@.len() implies wf_history(
                #[trigger] histories@[j]@,
            ) by {
                assert(orig[j] is Ok && histories@[j] == orig[j]->Ok_0);
            }
        }
        let ghost hs = ok_views(orig);
        let ghost wthr = conf.week_delta_threshold as int;
        let ghost dthr = conf.day_delta_threshold as int;
        let mut week_losers: Vec<AlertItem> = Vec::new();
        let mut day_losers: Vec<AlertItem> = Vec::new();
        let mut i: usize = 0;
        proof {
            assert(hs.take(0) =~= Seq::<TickerHistoryV>::empty());
        }
        while i < histories.len()
            invariant
                forall|j: int| 0 <= j < histories@.len() ==> wf_history(#[trigger] histories@[j]@),
                hviews(histories@) == hs,
                wthr == conf.week_delta_threshold as int,
                dthr == conf.day_delta_threshold as int,
                i <= histories@.len(),
                sorted_by_delta(views_of(week_losers@)),
                sorted_by_delta(views_of(day_losers@)),
                views_of(week_losers@).to_multiset() == spec_week_alerts(
                    hs.take(i as int),
                    wthr,
                ).to_multiset(),
                views_of(day_losers@).to_multiset() == spec_day_alerts(
                    hs.take(i as int),
                    dthr,
                ).to_multiset(),
                forall|j: int|
                    0 <= j < week_losers@.len() ==> wf_item(#[trigger] views_of(week_losers@)[j]),
                forall|j: int|
                    0 <= j < day_losers@.len() ==> wf_item(#[trigger] views_of(day_losers@)[j]),
            decreases histories@.len() - i,
        {
            proof {
                assert(histories@[i as int]@ == hs[i as int]);
            }
            let (w, d) = process_ticker(
                &histories[i],
                conf.week_delta_threshold,
                conf.day_delta_threshold,
            );
            let ghost pre = hs.take(i as int);
            let ghost cur = hs[i as int];
            proof {
                assert(hs.take(i + 1).drop_last() =~= pre);
                assert(hs.take(i + 1).last() == cur);
            }
            match w {
                Some(item) => {
                    insert_sorted(&mut week_losers, item);
                    proof {
                        lemma_multiset_commutative(
                            spec_week_alerts(pre, wthr),
                            seq![week_item(cur)],
                        );
                        assert(Seq::<AlertItemV>::empty().push(week_item(cur)) =~= seq![
                            week_item(cur),
                        ]);
                        assert(seq![week_item(cur)].to_multiset() =~= Multiset::<
                            AlertItemV,
                        >::empty().insert(week_item(cur)));
                        assert(views_of(week_losers@).to_multiset() =~= spec_week_alerts(
                            hs.take(i + 1),
                            wthr,
                        ).to_multiset());
                    }
                },
                None => {
                    proof {
                        lemma_multiset_commutative(
                            spec_week_alerts(pre, wthr),
                            Seq::<AlertItemV>::empty(),
                        );
                        assert(Seq::<AlertItemV>::empty().to_multiset() =~= Multiset::<
                            AlertItemV,
                        >::empty());
                        assert(views_of(week_losers@).to_multiset() =~= spec_week_alerts(
                            hs.take(i + 1),
                            wthr,
                        ).to_multiset());
                    }
                },
            }
            match d {
                Some(item) => {
                    insert_sorted(&mut day_losers, item);
                    proof {
                        lemma_multiset_commutative(spec_day_alerts(pre, dthr), seq![day_item(cur)]);
                        assert(Seq::<AlertItemV>::empty().push(day_item(cur)) =~= seq![
                            day_item(cur),
                        ]);
                        assert(seq![day_item(cur)].to_multiset() =~= Multiset::<
                            AlertItemV,
                        >::empty().insert(day_item(cur)));
                        assert(views_of(day_losers@).to_multiset() =~= spec_day_alerts(
                            hs.take(i + 1),
                            dthr,
                        ).to_multiset());
                    }
                },
                None => {
                    proof {
                        lemma_multiset_commutative(
                            spec_day_alerts(pre, dthr),
                            Seq::<AlertItemV>::empty(),
                        );
                        assert(Seq::<AlertItemV>::empty().to_multiset() =~= Multiset::<
                            AlertItemV,
                        >::empty());
                        assert(views_of(day_losers@).to_multiset() =~= spec_day_alerts(
                            hs.take(i + 1),
                            dthr,
                        ).to_multiset());
                    }
                },
            }
            i = i + 1;
        }
        proof {
            assert(hs.take(i as int) =~= hs);
            views_of(week_losers@).to_multiset_ensures();
            views_of(day_losers@).to_multiset_ensures();
            spec_week_alerts(hs, wthr).to_multiset_ensures();
            spec_day_alerts(hs, dthr).to_multiset_ensures();
            assert(views_of(week_losers@).len() == week_losers@.len());
            assert(views_of(day_losers@).len() == day_losers@.len());
        }
        Ok(Report { week_losers, day_losers })
    }
}

} // verus!

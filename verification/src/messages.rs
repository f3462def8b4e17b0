//! Tagged results: what a background task hands the event loop.
//!
//! A spawned fetch terminates by producing exactly one [`LpMessage`];
//! the functions here build that message from the fetch's outcome, sorting
//! a record list newest-first on success and wrapping any failure.

use vstd::multiset::Multiset;
use vstd::prelude::*;

use crate::model::{BugTaskEntry, LaunchpadBug, LaunchpadError, Timestamp};

verus! {

/// A scheduler-level failure of a background task.
#[derive(Debug, Clone, PartialEq, Eq)]
pub enum TaskError {
    /// The task panicked.
    Panicked,
    /// The task was cancelled before it finished.
    Cancelled,
}

/// The one tagged result a background task posts on the channel.
#[derive(Debug)]
pub enum LpMessage {
    /// A record-list fetch finished: the entries, sorted newest first.
    Bugs(Vec<BugTaskEntry>),
    /// A single-record fetch finished.
    Bug(LaunchpadBug),
    /// A fetch failed.
    Error(LaunchpadError),
}

/// Newest-first order on creation dates: a record without one sorts after
/// every record with one.
pub open spec fn date_ge(a: Option<Timestamp>, b: Option<Timestamp>) -> bool {
    match (a, b) {
        (_, Option::None) => true,
        (Option::None, Option::Some(_)) => false,
        (Option::Some(x), Option::Some(y)) => x.micros >= y.micros,
    }
}

/// Whether the entries run newest first by creation date.
pub open spec fn sorted_desc(s: Seq<BugTaskEntry>) -> bool {
    forall|i: int, j: int|
        0 <= i < j < s.len() ==> date_ge(#[trigger] s[i].date_created, #[trigger] s[j].date_created)
}

/// The entries created at one moment — or, for no moment, without one.
pub open spec fn date_pred(d: Option<Timestamp>) -> spec_fn(BugTaskEntry) -> bool {
    |e: BugTaskEntry| e.date_created == d
}

/// Whether `s` lists, for each creation date, the same entries in the
/// same relative order as `t` does: a reordering from `t` to `s` kept
/// entries with equal dates in their arrival order.
pub open spec fn same_date_groups(s: Seq<BugTaskEntry>, t: Seq<BugTaskEntry>) -> bool {
    forall|d: Option<Timestamp>| #[trigger] s.filter(date_pred(d)) == t.filter(date_pred(d))
}

/// A sequence with nothing in it filters to itself, whatever the
/// predicate.
proof fn lemma_empty_filter(s: Seq<BugTaskEntry>)
    requires
        s.len() == 0,
    ensures
        forall|p: spec_fn(BugTaskEntry) -> bool| #[trigger] s.filter(p) == s,
{
    reveal(Seq::filter);
}

/// Starting a selection: with nothing taken out yet, every date group
/// still sits wholly in the remainder.
proof fn lemma_groups_init(es: Seq<BugTaskEntry>, o: Seq<BugTaskEntry>)
    requires
        o.len() == 0,
    ensures
        forall|d: Option<Timestamp>| #[trigger] es.filter(date_pred(d)) == o.filter(date_pred(d))
            + es.filter(date_pred(d)),
{
    lemma_empty_filter(o);
    assert forall|d: Option<Timestamp>| #[trigger] es.filter(date_pred(d)) == o.filter(
        date_pred(d),
    ) + es.filter(date_pred(d)) by {
        assert(o + es.filter(date_pred(d)) =~= es.filter(date_pred(d)));
    }
}

/// Finishing a selection: with nothing left in the remainder, the taken
/// side carries every date group whole.
proof fn lemma_groups_final(orig: Seq<BugTaskEntry>, taken: Seq<BugTaskEntry>, rest: Seq<
    BugTaskEntry,
>)
    requires
        rest.len() == 0,
        forall|d: Option<Timestamp>| #[trigger] orig.filter(date_pred(d)) == taken.filter(
            date_pred(d),
        ) + rest.filter(date_pred(d)),
    ensures
        same_date_groups(taken, orig),
{
    lemma_empty_filter(rest);
    assert forall|d: Option<Timestamp>| #[trigger] taken.filter(date_pred(d)) == orig.filter(
        date_pred(d),
    ) by {
        assert(taken.filter(date_pred(d)) + rest =~= taken.filter(date_pred(d)));
    }
}

/// One selection step keeps every date group's order: the element moved
/// out is the first of its own date group in the remainder, so the group
/// orders on both sides survive.
proof fn lemma_groups_step(
    orig: Seq<BugTaskEntry>,
    pre_out: Seq<BugTaskEntry>,
    pre_rest: Seq<BugTaskEntry>,
    out2: Seq<BugTaskEntry>,
    rest2: Seq<BugTaskEntry>,
    m: int,
)
    requires
        0 <= m < pre_rest.len(),
        out2 == pre_out.push(pre_rest[m]),
        rest2 == pre_rest.remove(m),
        forall|t: int|
            0 <= t < m ==> !date_ge(
                (#[trigger] pre_rest[t]).date_created,
                pre_rest[m].date_created,
            ),
        forall|d: Option<Timestamp>| #[trigger] orig.filter(date_pred(d)) == pre_out.filter(
            date_pred(d),
        ) + pre_rest.filter(date_pred(d)),
    ensures
        forall|d: Option<Timestamp>| #[trigger] orig.filter(date_pred(d)) == out2.filter(
            date_pred(d),
        ) + rest2.filter(date_pred(d)),
{
    let e = pre_rest[m];
    let a = pre_rest.subrange(0, m);
    let b = pre_rest.subrange(m + 1, pre_rest.len() as int);
    assert forall|d: Option<Timestamp>| #[trigger] orig.filter(date_pred(d)) == out2.filter(
        date_pred(d),
    ) + rest2.filter(date_pred(d)) by {
        let p = date_pred(d);
        assert(pre_rest =~= a + seq![e] + b);
        assert(rest2 =~= a + b);
        assert(out2 =~= pre_out + seq![e]);
        Seq::filter_distributes_over_add(a + seq![e], b, p);
        Seq::filter_distributes_over_add(a, seq![e], p);
        Seq::filter_distributes_over_add(a, b, p);
        Seq::filter_distributes_over_add(pre_out, seq![e], p);
        assert(seq![e].filter(p) == if p(e) {
            seq![e]
        } else {
            Seq::<BugTaskEntry>::empty()
        }) by {
            reveal(Seq::filter);
            assert(seq![e].drop_last() =~= Seq::<BugTaskEntry>::empty());
            assert(Seq::<BugTaskEntry>::empty().filter(p) == Seq::<BugTaskEntry>::empty());
            assert(Seq::<BugTaskEntry>::empty().push(e) =~= seq![e]);
        }
        if p(e) {
            // Everything before the chosen element is strictly older, so
            // none of it lies in this date group.
            assert forall|t: int| 0 <= t < a.len() implies !(date_pred(d)(#[trigger] a[t])) by {
                assert(a[t] == pre_rest[t]);
                assert(!date_ge(pre_rest[t].date_created, e.date_created));
            }
            a.lemma_all_neg_filter_empty(p);
            assert(a.filter(p) =~= Seq::<BugTaskEntry>::empty());
            assert((a + seq![e]).filter(p) =~= seq![e].filter(p));
            assert(pre_out.filter(p) + seq![e] + b.filter(p) =~= (pre_out.filter(p) + seq![
                e,
            ].filter(p)) + (a.filter(p) + b.filter(p)));
        } else {
            assert((a + seq![e]).filter(p) =~= a.filter(p));
            assert(pre_out.filter(p) + (a.filter(p) + b.filter(p)) =~= (pre_out.filter(p) + seq![
                e,
            ].filter(p)) + (a.filter(p) + b.filter(p)));
        }
    }
}

/// Compares two creation dates in newest-first order.
fn date_ge_exec(a: &Option<Timestamp>, b: &Option<Timestamp>) -> (r: bool)
    ensures
        r == date_ge(*a, *b),
{
    match (a, b) {
        (_, None) => true,
        (None, Some(_)) => false,
        (Some(x), Some(y)) => x.micros >= y.micros,
    }
}

/// Sorts the entries newest first by creation date; entries without one
/// come last.  The result holds exactly the entries given, and entries
/// with equal dates keep their arrival order: the sort is stable.
#[verifier::rlimit(100)]
pub fn sort_entries_by_date_desc(entries: Vec<BugTaskEntry>) -> (r: Vec<BugTaskEntry>)
    ensures
        r@.to_multiset() == entries@.to_multiset(),
        r@.len() == entries@.len(),
        sorted_desc(r@),
        same_date_groups(r@, entries@),
{
    broadcast use vstd::seq_lib::group_to_multiset_ensures;
    broadcast use vstd::multiset::group_multiset_axioms;

    let mut rest = entries;
    let mut out: Vec<BugTaskEntry> = Vec::new();
    proof {
        assert(out@.to_multiset().add(rest@.to_multiset()) =~= rest@.to_multiset());
    }
    let ghost orig = rest@;
    proof {
        lemma_groups_init(orig, out@);
    }
    while rest.len() > 0
        invariant
            out@.to_multiset().add(rest@.to_multiset()) == orig.to_multiset(),
            out@.len() + rest@.len() == orig.len(),
            sorted_desc(out@),
            forall|i: int, j: int|
                0 <= i < out@.len() && 0 <= j < rest@.len() ==> date_ge(
                    (#[trigger] out@[i]).date_created,
                    (#[trigger] rest@[j]).date_created,
                ),
            forall|d: Option<Timestamp>| #[trigger] orig.filter(date_pred(d)) == out@.filter(
                date_pred(d),
            ) + rest@.filter(date_pred(d)),
        decreases rest@.len(),
    {
        // The first maximal element keeps entries with equal dates in
        // their arrival order: everything before it is strictly older.
        let mut m: usize = 0;
        let mut k: usize = 1;
        while k < rest.len()
            invariant
                0 < rest@.len(),
                m < k <= rest@.len(),
                forall|t: int|
                    0 <= t < k ==> date_ge(
                        rest@[m as int].date_created,
                        (#[trigger] rest@[t]).date_created,
                    ),
                forall|t: int|
                    0 <= t < m ==> !date_ge(
                        (#[trigger] rest@[t]).date_created,
                        rest@[m as int].date_created,
                    ),
            decreases rest@.len() - k,
        {
            if !date_ge_exec(&rest[m].date_created, &rest[k].date_created) {
                proof {
                    assert forall|t: int| 0 <= t < k implies !date_ge(
                        (#[trigger] rest@[t]).date_created,
                        rest@[k as int].date_created,
                    ) by {
                        assert(date_ge(rest@[m as int].date_created, rest@[t].date_created));
                    }
                }
                m = k;
            }
            k = k + 1;
        }
        let ghost pre_rest = rest@;
        let ghost pre_out = out@;
        let e = rest.remove(m);
        out.push(e);
        proof {
            assert(pre_rest.contains(e)) by {
                assert(pre_rest[m as int] == e);
            }
            vstd::seq_lib::to_multiset_build(pre_out, e);
            vstd::seq_lib::to_multiset_remove(pre_rest, m as int);
            assert(out@.to_multiset() == pre_out.to_multiset().insert(e));
            assert(rest@.to_multiset() == pre_rest.to_multiset().remove(e));
            pre_rest.to_multiset_ensures();
            assert(pre_rest.to_multiset().count(e) > 0);
            assert(out@.to_multiset().add(rest@.to_multiset()) =~= pre_out.to_multiset().add(
                pre_rest.to_multiset(),
            ));
            assert forall|j: int| 0 <= j < rest@.len() implies date_ge(
                e.date_created,
                (#[trigger] rest@[j]).date_created,
            ) by {
                if j < m {
                    assert(rest@[j] == pre_rest[j]);
                } else {
                    assert(rest@[j] == pre_rest[j + 1]);
                }
            }
            lemma_groups_step(orig, pre_out, pre_rest, out@, rest@, m as int);
        }
    }
    proof {
        assert(rest@.to_multiset() =~= Multiset::<BugTaskEntry>::empty());
        assert(out@.to_multiset() =~= out@.to_multiset().add(rest@.to_multiset()));
        lemma_groups_final(orig, out@, rest@);
    }
    out
}

/// The message a record-list task emits: on success the entries sorted
/// newest first, on failure the error.
pub fn bugs_message(result: Result<Vec<BugTaskEntry>, LaunchpadError>) -> (r: LpMessage)
    ensures
        match result {
            Ok(entries) => r matches LpMessage::Bugs(v) && v@.to_multiset() == entries@.to_multiset()
                && v@.len() == entries@.len() && sorted_desc(v@) && same_date_groups(v@, entries@),
            Err(e) => r == LpMessage::Error(e),
        },
{
    match result {
        Ok(entries) => LpMessage::Bugs(sort_entries_by_date_desc(entries)),
        Err(e) => LpMessage::Error(e),
    }
}

/// The message a single-record task emits.
pub fn bug_message(result: Result<LaunchpadBug, LaunchpadError>) -> (r: LpMessage)
    ensures
        match result {
            Ok(b) => r == LpMessage::Bug(b),
            Err(e) => r == LpMessage::Error(e),
        },
{
    match result {
        Ok(b) => LpMessage::Bug(b),
        Err(e) => LpMessage::Error(e),
    }
}

/// The completion monitor's decision: a poll of the long-lived task came
/// back, and the loop stops exactly when the task has finished, whatever
/// its outcome was.
pub fn check_monitor(status: Option<Result<(), TaskError>>) -> (r: bool)
    ensures
        r == (status is Some),
{
    match status {
        Some(_) => true,
        None => false,
    }
}

} // verus!

//! The correlation table and the completion watcher.
//!
//! Every asynchronous engine call returns a request identifier; the eventual
//! result arrives later through the callback as an `AsyncCallInfo` event.
//! The dispatch loop stores each such result in the correlation table keyed
//! by its identifier, and a completion watcher polls the table, removing and
//! returning the entry for its identifier the first time it appears.
//! Remove-on-read under one lock is what guarantees that no two watchers are
//! ever resolved with the same entry.

use vstd::prelude::*;
use std::collections::HashMap;

verus! {

broadcast use vstd::std_specs::hash::group_hash_axioms;

/// The result value carried by an `AsyncCallInfo` event. The engine reports
/// booleans for the operations the bridge awaits (connect); any other JSON
/// value is kept as its raw text.
#[derive(Debug, PartialEq, Eq)]
pub enum RetValue {
    Bool(bool),
    Raw(String),
}

/// Shared map from request identifier to the decoded result of the
/// asynchronous call that produced it.
///
/// Entries are inserted only by the `AsyncCallInfo` handler (`wake`) and
/// removed only by a watcher that matches (`take`): at most one live entry
/// per identifier exists at any time, and an entry, once taken, is gone.
pub struct CorrelationTable {
    entries: HashMap<i32, RetValue>,
}

/// The result and successor table of polling `t` for `id`: a present entry
/// is removed and returned, an absent one leaves the table unchanged.
pub open spec fn spec_poll(t: Map<i32, RetValue>, id: i32) -> (Option<RetValue>, Map<
    i32,
    RetValue,
>) {
    if t.contains_key(id) {
        (Some(t[id]), t.remove(id))
    } else {
        (None, t)
    }
}

impl View for CorrelationTable {
    type V = Map<i32, RetValue>;

    closed spec fn view(&self) -> Map<i32, RetValue> {
        self.entries@
    }
}

impl CorrelationTable {
    /// An empty table: no request has completed yet.
    pub fn new() -> (r: CorrelationTable)
        ensures
            r@ == Map::<i32, RetValue>::empty(),
    {
        CorrelationTable { entries: HashMap::new() }
    }

    /// Records the result of the asynchronous call `id`. Called only by the
    /// `AsyncCallInfo` handler; a result that arrives before any watcher
    /// exists is held until one consumes it.
    pub fn wake(&mut self, id: i32, ret: RetValue)
        ensures
            final(self)@ == old(self)@.insert(id, ret),
    {
        self.entries.insert(id, ret);
    }

    /// Removes and returns the entry for `id`, if present. This is the only
    /// way an entry leaves the table, so a taken result can never be
    /// delivered a second time.
    pub fn take(&mut self, id: i32) -> (r: Option<RetValue>)
        ensures
            (r, final(self)@) == spec_poll(old(self)@, id),
    {
        self.entries.remove(&id)
    }

    /// Whether a result for `id` is waiting to be consumed.
    pub fn contains(&self, id: i32) -> (r: bool)
        ensures
            r == self@.contains_key(id),
    {
        self.entries.contains_key(&id)
    }
}

/// An awaitable handle on the result of the asynchronous call `id`.
///
/// Each poll acquires the table and either consumes the matching entry
/// (ready) or leaves the table untouched (pending). The executor plumbing
/// that re-schedules a pending watcher lives outside the library; the
/// contract here is the whole external promise: a watcher resolves exactly
/// to the value correlated with its identifier, exactly once.
pub struct CallbackWatcher {
    pub id: i32,
}

impl CallbackWatcher {
    /// A watcher for the asynchronous call `id`.
    pub fn new(id: i32) -> (r: CallbackWatcher)
        ensures
            r.id == id,
    {
        CallbackWatcher { id }
    }

    /// One poll step: ready with the correlated value if it has arrived,
    /// pending otherwise.
    pub fn poll(&self, wakes: &mut CorrelationTable) -> (r: Option<RetValue>)
        ensures
            (r, final(wakes)@) == spec_poll(old(wakes)@, self.id),
    {
        wakes.take(self.id)
    }
}

/// At most one watcher ever resolves with the value stored for a request
/// identifier: a poll that finds the entry removes it, so a second poll for
/// the same identifier finds nothing until a new result is recorded.
pub proof fn lemma_no_double_delivery(t: Map<i32, RetValue>, id: i32)
    ensures
        spec_poll(spec_poll(t, id).1, id).0 is None,
{
}

/// The tables reached by recording every result in `evs`, in order.
pub open spec fn spec_wake_all(t: Map<i32, RetValue>, evs: Seq<(i32, RetValue)>) -> Map<
    i32,
    RetValue,
>
    decreases evs.len(),
{
    if evs.len() == 0 {
        t
    } else {
        spec_wake_all(t, evs.drop_last()).insert(evs.last().0, evs.last().1)
    }
}

/// The results of successive polls for `ids`, each poll consuming its entry.
pub open spec fn spec_poll_seq(t: Map<i32, RetValue>, ids: Seq<i32>) -> Seq<Option<RetValue>>
    decreases ids.len(),
{
    if ids.len() == 0 {
        Seq::empty()
    } else {
        seq![spec_poll(t, ids.first()).0] + spec_poll_seq(spec_poll(t, ids.first()).1, ids.skip(1))
    }
}

/// Successive polls produce one result per identifier.
pub proof fn lemma_poll_seq_len(t: Map<i32, RetValue>, ids: Seq<i32>)
    ensures
        spec_poll_seq(t, ids).len() == ids.len(),
    decreases ids.len(),
{
    if ids.len() > 0 {
        lemma_poll_seq_len(spec_poll(t, ids.first()).1, ids.skip(1));
    }
}

/// The table left after the first `k` of the polls for `ids`.
pub open spec fn spec_table_after(t: Map<i32, RetValue>, ids: Seq<i32>, k: int) -> Map<
    i32,
    RetValue,
>
    decreases ids.len(),
{
    if k <= 0 || ids.len() == 0 {
        t
    } else {
        spec_table_after(spec_poll(t, ids.first()).1, ids.skip(1), k - 1)
    }
}

/// Each poll in a sequence acts on the table its predecessors left.
proof fn lemma_poll_seq_index(t: Map<i32, RetValue>, ids: Seq<i32>, k: int)
    requires
        0 <= k < ids.len(),
    ensures
        spec_poll_seq(t, ids)[k] == spec_poll(spec_table_after(t, ids, k), ids[k]).0,
    decreases k,
{
    lemma_poll_seq_len(spec_poll(t, ids.first()).1, ids.skip(1));
    if k > 0 {
        lemma_poll_seq_index(spec_poll(t, ids.first()).1, ids.skip(1), k - 1);
    }
}

/// Polling never adds an entry: an identifier absent from the table stays
/// absent through any sequence of polls.
proof fn lemma_table_after_monotone(t: Map<i32, RetValue>, ids: Seq<i32>, k: int, r: i32)
    requires
        !t.contains_key(r),
    ensures
        !spec_table_after(t, ids, k).contains_key(r),
    decreases ids.len(),
{
    if k > 0 && ids.len() > 0 {
        lemma_table_after_monotone(spec_poll(t, ids.first()).1, ids.skip(1), k - 1, r);
    }
}

/// Later polls act on the table the polls up to `j` left.
proof fn lemma_table_after_compose(t: Map<i32, RetValue>, ids: Seq<i32>, j: int, k: int)
    requires
        0 <= j <= k,
        j <= ids.len(),
    ensures
        spec_table_after(t, ids, k) == spec_table_after(
            spec_table_after(t, ids, j),
            ids.skip(j),
            k - j,
        ),
    decreases j,
{
    if j == 0 {
        assert(ids.skip(0) == ids);
    } else {
        lemma_table_after_compose(spec_poll(t, ids.first()).1, ids.skip(1), j - 1, k - 1);
        assert(ids.skip(1).skip(j - 1) == ids.skip(j));
    }
}

/// No request identifier's result is ever delivered twice: in any sequence
/// of polls, once a poll for an identifier resolves, every later poll for
/// the same identifier stays pending — whatever else was polled in between.
pub proof fn lemma_at_most_one_delivery(t: Map<i32, RetValue>, ids: Seq<i32>, j: int, k: int)
    requires
        0 <= j < k < ids.len(),
        ids[j] == ids[k],
        spec_poll_seq(t, ids)[j] is Some,
    ensures
        spec_poll_seq(t, ids)[k] is None,
{
    let r = ids[j];
    lemma_poll_seq_len(t, ids);
    lemma_poll_seq_index(t, ids, j);
    lemma_poll_seq_index(t, ids, k);
    let tj = spec_table_after(t, ids, j);
    assert(tj.contains_key(r));
    lemma_table_after_compose(t, ids, j, j + 1);
    let rest = ids.skip(j);
    assert(rest.first() == ids[j]);
    assert(spec_table_after(tj, rest, 1) == spec_table_after(
        spec_poll(tj, rest.first()).1,
        rest.skip(1),
        0,
    ));
    assert(spec_table_after(spec_poll(tj, rest.first()).1, rest.skip(1), 0) == spec_poll(
        tj,
        rest.first(),
    ).1);
    assert(spec_table_after(t, ids, j + 1) == spec_poll(tj, r).1);
    assert(!spec_table_after(t, ids, j + 1).contains_key(r));
    lemma_table_after_compose(t, ids, j + 1, k);
    lemma_table_after_monotone(spec_table_after(t, ids, j + 1), ids.skip(j + 1), k - j - 1, r);
    assert(!spec_table_after(t, ids, k).contains_key(r));
}

/// After recording results for distinct identifiers, the table holds each
/// identifier's own value.
proof fn lemma_wake_all_complete(t: Map<i32, RetValue>, evs: Seq<(i32, RetValue)>, i: int)
    requires
        0 <= i < evs.len(),
        forall|j: int, k: int|
            0 <= j < k < evs.len() ==> (#[trigger] evs[j]).0 != (#[trigger] evs[k]).0,
    ensures
        spec_wake_all(t, evs).contains_key(evs[i].0),
        spec_wake_all(t, evs)[evs[i].0] == evs[i].1,
    decreases evs.len(),
{
    if i == evs.len() - 1 {
    } else {
        lemma_wake_all_complete(t, evs.drop_last(), i);
    }
}

/// Polling distinct identifiers in any order resolves every watcher to the
/// value correlated with its own identifier, provided the table holds an
/// entry for each of them.
proof fn lemma_poll_seq_resolves(t: Map<i32, RetValue>, ids: Seq<i32>, vals: Seq<RetValue>, k: int)
    requires
        ids.len() == vals.len(),
        ids.no_duplicates(),
        forall|j: int|
            0 <= j < ids.len() ==> t.contains_key(#[trigger] ids[j]) && t[ids[j]] == vals[j],
        0 <= k < ids.len(),
    ensures
        spec_poll_seq(t, ids)[k] == Some(vals[k]),
    decreases ids.len(),
{
    if k == 0 {
    } else {
        let t1 = spec_poll(t, ids.first()).1;
        let ids1 = ids.skip(1);
        let vals1 = vals.skip(1);
        assert(forall|j: int|
            0 <= j < ids1.len() ==> ids1[j] == ids[j + 1] && vals1[j] == vals[j + 1]);
        assert(ids1.no_duplicates()) by {
            assert forall|j: int, l: int| 0 <= j < l < ids1.len() implies ids1[j] != ids1[l] by {
                assert(ids[j + 1] != ids[l + 1]);
            }
        }
        assert forall|j: int|
            0 <= j < ids1.len() implies t1.contains_key(#[trigger] ids1[j]) && t1[ids1[j]] == vals1[
            j
        ] by {
            assert(ids[j + 1] != ids[0]);
        }
        lemma_poll_seq_resolves(t1, ids1, vals1, k - 1);
        lemma_poll_seq_len(t1, ids1);
        assert(spec_poll_seq(t, ids)[k] == spec_poll_seq(t1, ids1)[k - 1]);
    }
}

/// Correlation is complete and correct: record any sequence of results for
/// distinct request identifiers on an empty table, then let watchers for
/// those identifiers poll in any order — every watcher resolves, and each
/// resolves to the value that arrived for its own identifier.
pub proof fn lemma_watchers_resolve_correctly(
    evs: Seq<(i32, RetValue)>,
    order: Seq<int>,
    k: int,
)
    requires
        forall|j: int, l: int|
            0 <= j < l < evs.len() ==> (#[trigger] evs[j]).0 != (#[trigger] evs[l]).0,
        order.no_duplicates(),
        forall|j: int| 0 <= j < order.len() ==> 0 <= #[trigger] order[j] < evs.len(),
        0 <= k < order.len(),
    ensures
        spec_poll_seq(
            spec_wake_all(Map::empty(), evs),
            order.map_values(|i: int| evs[i].0),
        )[k] == Some(evs[order[k]].1),
{
    let t = spec_wake_all(Map::<i32, RetValue>::empty(), evs);
    let ids = order.map_values(|i: int| evs[i].0);
    let vals = order.map_values(|i: int| evs[i].1);
    assert forall|j: int| 0 <= j < ids.len() implies t.contains_key(#[trigger] ids[j]) && t[ids[j]]
        == vals[j] by {
        lemma_wake_all_complete(Map::<i32, RetValue>::empty(), evs, order[j]);
    }
    assert(ids.no_duplicates()) by {
        assert forall|j: int, l: int| 0 <= j < l < ids.len() implies ids[j] != ids[l] by {
            assert(order[j] != order[l]);
        }
    }
    lemma_poll_seq_resolves(t, ids, vals, k);
}

} // verus!

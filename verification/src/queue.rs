//! The durable queue model: an append-only, at-least-once stream.
//! Producers append records, consumers read ranges without consuming
//! them, and entries leave the queue only through an explicit
//! acknowledgement by id.

use vstd::prelude::*;

verus! {

use crate::record::{NotificationRow, RowView};

/// A queued unit of work: the queue-assigned ordered token and the
/// record itself.
#[derive(Debug)]
pub struct QueueEntry {
    pub entry_id: u64,
    pub row: NotificationRow,
}

/// The mathematical shape of a queue entry.
#[verifier::ext_equal]
pub struct EntryView {
    pub entry_id: u64,
    pub row: RowView,
}

impl View for QueueEntry {
    type V = EntryView;

    open spec fn view(&self) -> EntryView {
        EntryView { entry_id: self.entry_id, row: self.row@ }
    }
}

/// The views of a list of entries, in order.
pub open spec fn views_of(entries: Seq<QueueEntry>) -> Seq<EntryView> {
    entries.map_values(|e: QueueEntry| e@)
}

impl Clone for QueueEntry {
    fn clone(&self) -> (r: Self)
        ensures
            r@ == self@,
    {
        QueueEntry { entry_id: self.entry_id, row: self.row.clone() }
    }
}

/// The entries that remain after acknowledging the given ids: exactly
/// those whose id is not named, in their original order. Ids that name
/// nothing are ignored, so acknowledging twice cannot fail.
pub open spec fn ack_spec(entries: Seq<EntryView>, ids: Seq<u64>) -> Seq<EntryView> {
    entries.filter(|e: EntryView| !ids.contains(e.entry_id))
}

/// The entries a bounded fetch returns: the oldest `max_count`, fewer
/// when fewer are present, and nothing is consumed by reading.
pub open spec fn fetch_spec(entries: Seq<EntryView>, max_count: int) -> Seq<EntryView> {
    if entries.len() <= max_count {
        entries
    } else {
        entries.take(max_count)
    }
}

/// The durable queue: entries in insertion order, each under a token
/// that is strictly larger than every token handed out before it.
#[derive(Debug)]
pub struct DurableQueue {
    entries: Vec<QueueEntry>,
    next_id: u64,
}

impl View for DurableQueue {
    type V = Seq<EntryView>;

    closed spec fn view(&self) -> Seq<EntryView> {
        views_of(self.entries@)
    }
}

impl DurableQueue {
    /// Entry tokens grow strictly in insertion order and stay below the
    /// next token to be handed out.
    pub closed spec fn wf(&self) -> bool {
        &&& forall|i: int, j: int|
            #![trigger self@[i].entry_id, self@[j].entry_id]
            0 <= i < j < self@.len() ==> self@[i].entry_id < self@[j].entry_id
        &&& forall|i: int| 0 <= i < self@.len() ==> #[trigger] self@[i].entry_id < self.next_id
    }

    /// How many entries have ever been appended.
    pub closed spec fn total_enqueued(&self) -> u64 {
        self.next_id
    }

    /// An empty queue.
    pub fn new() -> (r: Self)
        ensures
            r@ == Seq::<EntryView>::empty(),
            r.wf(),
            r.total_enqueued() == 0,
    {
        let r = DurableQueue { entries: Vec::new(), next_id: 0 };
        proof {
            assert(r@ =~~= Seq::<EntryView>::empty());
        }
        r
    }

    /// Appends a record atomically and returns its token: the only
    /// handle later needed to acknowledge it. The token is fresh, so
    /// nothing already queued is disturbed.
    pub fn enqueue(&mut self, record: NotificationRow) -> (id: u64)
        requires
            old(self).wf(),
            old(self).total_enqueued() < u64::MAX,
        ensures
            final(self).wf(),
            id == old(self).total_enqueued(),
            final(self).total_enqueued() == old(self).total_enqueued() + 1,
            final(self)@ == old(self)@.push(EntryView { entry_id: id, row: record@ }),
            forall|i: int| 0 <= i < old(self)@.len() ==> (#[trigger] old(self)@[i]).entry_id != id,
    {
        let id = self.next_id;
        let ghost pre = self@;
        self.entries.push(QueueEntry { entry_id: id, row: record });
        self.next_id = self.next_id + 1;
        proof {
            assert(self@ =~~= pre.push(EntryView { entry_id: id, row: record@ }));
        }
        id
    }

    /// Reads up to `max_count` of the oldest entries without consuming
    /// them: fetching leaves the queue exactly as it was, which is what
    /// makes a crash before acknowledgement lose nothing.
    pub fn fetch_batch(&self, max_count: usize) -> (r: Vec<QueueEntry>)
        ensures
            views_of(r@) == fetch_spec(self@, max_count as int),
    {
        let n = if self.entries.len() <= max_count {
            self.entries.len()
        } else {
            max_count
        };
        let mut out: Vec<QueueEntry> = Vec::new();
        let mut i: usize = 0;
        proof {
            assert(views_of(out@) =~~= self@.take(0));
        }
        while i < n
            invariant
                n <= self.entries@.len(),
                i <= n,
                self@.len() == self.entries@.len(),
                forall|k: int| 0 <= k < self@.len() ==> #[trigger] self@[k] == self.entries@[k]@,
                views_of(out@) == self@.take(i as int),
            decreases n - i,
        {
            let entry = self.entries[i].clone();
            let ghost out_before = out@;
            out.push(entry);
            i = i + 1;
            proof {
                assert(out@.last()@ == self.entries@[i - 1]@);
                assert(out@.last()@ == self@[i - 1]);
                assert(out@.len() == out_before.len() + 1);
                assert(views_of(out_before) == self@.take(i - 1));
                assert(views_of(out_before).len() == out_before.len());
                assert(self@.take(i - 1).len() == i - 1);
                assert(views_of(out@).len() == out@.len());
                assert(views_of(out@).len() == i as int);
                assert forall|k: int| 0 <= k < i implies views_of(out@)[k] == self@.take(
                    i as int,
                )[k] by {
                    if k < i - 1 {
                        assert(out@[k] == out_before[k]);
                        assert(views_of(out_before)[k] == self@.take(i - 1)[k]);
                    } else {
                        assert(out@[k] == out@.last());
                    }
                }
                assert(views_of(out@) =~~= self@.take(i as int));
            }
        }
        proof {
            assert(views_of(out@) =~~= fetch_spec(self@, max_count as int));
        }
        out
    }

    /// Removes exactly the entries whose ids are named. An empty list
    /// is a no-op, an id that names nothing is ignored, and the rest of
    /// the queue keeps its order.
    pub fn acknowledge(&mut self, ids: &Vec<u64>)
        requires
            old(self).wf(),
        ensures
            final(self).wf(),
            final(self)@ == ack_spec(old(self)@, ids@),
            final(self).total_enqueued() == old(self).total_enqueued(),
    {
        let ghost pred = |e: EntryView| !ids@.contains(e.entry_id);
        let mut retained: Vec<QueueEntry> = Vec::new();
        let mut i: usize = 0;
        proof {
            reveal(Seq::filter);
            assert(views_of(retained@) =~~= old(self)@.take(0).filter(pred));
        }
        while i < self.entries.len()
            invariant
                i <= self.entries@.len(),
                self == old(self),
                old(self).wf(),
                forall|e: EntryView| #[trigger] pred(e) <==> !ids@.contains(e.entry_id),
                self@.len() == self.entries@.len(),
                forall|k: int| 0 <= k < self@.len() ==> #[trigger] self@[k] == self.entries@[k]@,
                views_of(retained@) == old(self)@.take(i as int).filter(pred),
                forall|a: int, b: int|
                    #![trigger retained@[a].entry_id, retained@[b].entry_id]
                    0 <= a < b < retained@.len() ==> retained@[a].entry_id < retained@[b].entry_id,
                forall|a: int| 0 <= a < retained@.len()
                    ==> #[trigger] retained@[a].entry_id < self.next_id_spec(),
                retained@.len() > 0 && i > 0 ==> retained@.last().entry_id <= self@[i
                    - 1].entry_id,
            decreases self.entries@.len() - i,
        {
            let ghost prefix = old(self)@.take(i as int);
            let ghost cur = self@[i as int];
            let ghost retained_before = retained@;
            proof {
                reveal(Seq::filter);
                assert(old(self)@.take(i + 1).drop_last() =~= prefix);
                assert(old(self)@.take(i + 1).last() == cur);
                assert(views_of(retained_before).len() == retained_before.len());
            }
            if !contains_id(ids, self.entries[i].entry_id) {
                let entry = self.entries[i].clone();
                proof {
                    assert(entry@ == cur);
                    assert(entry.entry_id == cur.entry_id);
                    assert(pred(cur));
                    assert(cur.entry_id < self.next_id_spec());
                }
                retained.push(entry);
                proof {
                    reveal(Seq::filter);
                    assert(old(self)@.take(i + 1).filter(pred) == prefix.filter(pred).push(cur));
                    assert(retained@.len() == retained_before.len() + 1);
                    assert(retained@.last()@ == cur);
                    assert forall|k: int|
                        0 <= k < retained@.len() implies views_of(retained@)[k] == old(
                        self,
                    )@.take(i + 1).filter(pred)[k] by {
                        if k < retained_before.len() {
                            assert(retained@[k] == retained_before[k]);
                            assert(views_of(retained_before)[k] == prefix.filter(pred)[k]);
                        } else {
                            assert(retained@[k] == retained@.last());
                        }
                    }
                    assert(views_of(retained@) =~~= old(self)@.take(i + 1).filter(pred));
                }
            } else {
                proof {
                    reveal(Seq::filter);
                    assert(!pred(cur));
                    assert(old(self)@.take(i + 1).filter(pred) == prefix.filter(pred));
                }
            }
            i = i + 1;
        }
        proof {
            assert(old(self)@.take(i as int) =~= old(self)@);
        }
        self.entries = retained;
        proof {
            assert(self@ == views_of(self.entries@));
        }
    }

    /// The next token, seen abstractly.
    closed spec fn next_id_spec(&self) -> u64 {
        self.next_id
    }
}

/// Whether an id list names the given id.
fn contains_id(ids: &Vec<u64>, id: u64) -> (r: bool)
    ensures
        r == ids@.contains(id),
{
    let mut i: usize = 0;
    while i < ids.len()
        invariant
            i <= ids@.len(),
            forall|k: int| 0 <= k < i ==> ids@[k] != id,
        decreases ids@.len() - i,
    {
        if ids[i] == id {
            return true;
        }
        i = i + 1;
    }
    false
}

/// What at-least-once rests on: a bounded fetch hands back a prefix of
/// the queue and consumes nothing, so a consumer that crashes after
/// fetching and before acknowledging finds every one of those entries
/// still queued on its next run.
pub proof fn lemma_fetch_loses_nothing(entries: Seq<EntryView>, max_count: int)
    requires
        max_count >= 0,
    ensures
        forall|i: int|
            0 <= i < fetch_spec(entries, max_count).len() ==> #[trigger] fetch_spec(
                entries,
                max_count,
            )[i] == entries[i],
        forall|i: int|
            0 <= i < fetch_spec(entries, max_count).len() ==> entries.contains(
                #[trigger] fetch_spec(entries, max_count)[i],
            ),
{
    assert forall|i: int| 0 <= i < fetch_spec(entries, max_count).len() implies entries.contains(
        #[trigger] fetch_spec(entries, max_count)[i],
    ) by {
        assert(fetch_spec(entries, max_count)[i] == entries[i]);
    }
}

/// A fetched entry that is not among the acknowledged ids is still in
/// the queue after the acknowledgement: only what was named leaves.
pub proof fn lemma_unacknowledged_entry_survives(
    entries: Seq<EntryView>,
    max_count: int,
    ids: Seq<u64>,
    i: int,
)
    requires
        max_count >= 0,
        0 <= i < fetch_spec(entries, max_count).len(),
        !ids.contains(fetch_spec(entries, max_count)[i].entry_id),
    ensures
        ack_spec(entries, ids).contains(fetch_spec(entries, max_count)[i]),
{
    let e = fetch_spec(entries, max_count)[i];
    assert(e == entries[i]);
    let pred = |x: EntryView| !ids.contains(x.entry_id);
    entries.lemma_filter_contains(pred, i);
}

/// Acknowledging an empty id list removes nothing.
pub proof fn lemma_acknowledge_empty(entries: Seq<EntryView>)
    ensures
        ack_spec(entries, Seq::<u64>::empty()) == entries,
    decreases entries.len(),
{
    reveal(Seq::filter);
    if entries.len() > 0 {
        lemma_acknowledge_empty(entries.drop_last());
        assert(ack_spec(entries, Seq::<u64>::empty()) =~= entries);
    } else {
        assert(ack_spec(entries, Seq::<u64>::empty()) =~= entries);
    }
}

/// Acknowledging the same ids a second time is a no-op: what they named
/// is already gone, and an id that names nothing is ignored.
pub proof fn lemma_acknowledge_twice(entries: Seq<EntryView>, ids: Seq<u64>)
    ensures
        ack_spec(ack_spec(entries, ids), ids) == ack_spec(entries, ids),
    decreases entries.len(),
{
    reveal(Seq::filter);
    if entries.len() > 0 {
        lemma_acknowledge_twice(entries.drop_last(), ids);
        let pred = |e: EntryView| !ids.contains(e.entry_id);
        if pred(entries.last()) {
            assert(ack_spec(entries, ids) == ack_spec(entries.drop_last(), ids).push(
                entries.last(),
            ));
            assert(ack_spec(entries, ids).drop_last() =~= ack_spec(entries.drop_last(), ids));
            assert(ack_spec(ack_spec(entries, ids), ids) =~= ack_spec(entries, ids));
        } else {
            assert(ack_spec(entries, ids) == ack_spec(entries.drop_last(), ids));
        }
    } else {
        assert(ack_spec(ack_spec(entries, ids), ids) =~= ack_spec(entries, ids));
    }
}

} // verus!

//! The watermark: which items of a batch are new, and how far a pass
//! advances the mark.

use vstd::prelude::*;

use crate::error::SyncError;
use crate::model::Item;
use crate::model::ItemToCreate;
use crate::model::ItemToCreateView;
use crate::model::ItemView;
use crate::time::lemma_position_orders;
use crate::time::Timestamp;

verus! {

/// Whether `item` counts as new against `watermark`: published strictly
/// after it, or anything at all while there is no watermark yet.
pub open spec fn is_new(watermark: Option<Timestamp>, item: ItemView) -> bool {
    match watermark {
        Some(mark) => item.published_at.later_than(mark),
        None => true,
    }
}

/// The creation records of the items of `batch` that are new against
/// `watermark`, in the order of the batch.
pub open spec fn new_items(watermark: Option<Timestamp>, batch: Seq<ItemView>) -> Seq<
    ItemToCreateView,
> {
    batch.filter(|item: ItemView| is_new(watermark, item)).map_values(
        |item: ItemView| item.to_create(),
    )
}

/// The latest publication time in `batch`; among items published at the
/// same latest instant, that of the last one. An empty batch has none.
pub open spec fn latest(batch: Seq<ItemView>) -> Option<Timestamp>
    decreases batch.len(),
{
    if batch.len() == 0 {
        None
    } else {
        let last = batch.last().published_at;
        match latest(batch.drop_last()) {
            Some(best) => if best.later_than(last) {
                Some(best)
            } else {
                Some(last)
            },
            None => Some(last),
        }
    }
}

/// `latest` is what its name says: no item of the batch is later, some item
/// carries exactly that timestamp, and every item after it is strictly
/// earlier.
pub proof fn lemma_latest_is_maximum(batch: Seq<ItemView>)
    ensures
        latest(batch) is None <==> batch.len() == 0,
        latest(batch) matches Some(best) ==> {
            &&& forall|i: int|
                0 <= i < batch.len() ==> !(#[trigger] batch[i]).published_at.later_than(best)
            &&& exists|i: int|
                {
                    &&& 0 <= i < batch.len()
                    &&& (#[trigger] batch[i]).published_at == best
                    &&& forall|j: int|
                        i < j < batch.len() ==> best.later_than((#[trigger] batch[j]).published_at)
                }
        },
    decreases batch.len(),
{
    if batch.len() > 0 {
        let front = batch.drop_last();
        let last = batch.last().published_at;
        lemma_latest_is_maximum(front);
        let best = latest(batch)->0;
        assert forall|i: int| 0 <= i < batch.len() implies !(#[trigger] batch[i])
            .published_at.later_than(best) by {
            if i < front.len() {
                assert(front[i] == batch[i]);
            }
        }
        match latest(front) {
            Some(before) => {
                if before.later_than(last) {
                    let i = choose|i: int|
                        {
                            &&& 0 <= i < front.len()
                            &&& (#[trigger] front[i]).published_at == before
                            &&& forall|j: int|
                                i < j < front.len() ==> before.later_than(
                                    (#[trigger] front[j]).published_at,
                                )
                        };
                    assert(batch[i] == front[i]);
                    assert forall|j: int| i < j < batch.len() implies best.later_than(
                        (#[trigger] batch[j]).published_at,
                    ) by {
                        if j < front.len() {
                            assert(front[j] == batch[j]);
                        }
                    }
                } else {
                    assert(batch[batch.len() - 1].published_at == best);
                }
            },
            None => {
                assert(batch[batch.len() - 1].published_at == best);
            },
        }
    }
}

/// Picks the new items of `batch` and makes their creation records.
pub fn select_new(watermark: Option<Timestamp>, batch: &Vec<Item>) -> (records: Vec<ItemToCreate>)
    ensures
        records.deep_view() == new_items(watermark, batch.deep_view()),
{
    let mut records: Vec<ItemToCreate> = Vec::new();
    let ghost keep = |item: ItemView| is_new(watermark, item);
    let ghost convert = |item: ItemView| item.to_create();
    let ghost all = batch.deep_view();
    let mut i: usize = 0;
    assert(all.take(0) =~= Seq::<ItemView>::empty());
    assert(records.deep_view() =~= Seq::<ItemToCreateView>::empty());
    while i < batch.len()
        invariant
            i <= batch.len(),
            all == batch.deep_view(),
            all.len() == batch.len(),
            keep == (|item: ItemView| is_new(watermark, item)),
            convert == (|item: ItemView| item.to_create()),
            records.deep_view() == all.take(i as int).filter(keep).map_values(convert),
        decreases batch.len() - i,
    {
        let item = &batch[i];
        let fresh = match watermark {
            Some(mark) => item.published_at.is_after(&mark),
            None => true,
        };
        proof {
            let seen = all.take(i as int);
            let next = all.take(i + 1);
            assert(next.drop_last() =~= seen);
            assert(next.last() == item@);
            reveal(Seq::filter);
            assert(next.filter(keep) == if keep(item@) {
                seen.filter(keep).push(item@)
            } else {
                seen.filter(keep)
            });
            assert(fresh == keep(item@));
        }
        if fresh {
            let ghost before = records.deep_view();
            records.push(item.to_create());
            assert(records.deep_view() =~= before.push(item@.to_create()));
            assert(all.take(i + 1).filter(keep).map_values(convert) =~= all.take(
                i as int,
            ).filter(keep).map_values(convert).push(item@.to_create()));
        }
        i += 1;
    }
    assert(all.take(batch.len() as int) =~= all);
    records
}

/// Finds the latest publication time in `batch`.
pub fn latest_publication(batch: &Vec<Item>) -> (time: Option<Timestamp>)
    ensures
        time == latest(batch.deep_view()),
{
    let mut best: Option<Timestamp> = None;
    let ghost all = batch.deep_view();
    let mut i: usize = 0;
    assert(all.take(0) =~= Seq::<ItemView>::empty());
    while i < batch.len()
        invariant
            i <= batch.len(),
            all == batch.deep_view(),
            all.len() == batch.len(),
            best == latest(all.take(i as int)),
        decreases batch.len() - i,
    {
        let published = batch[i].published_at;
        proof {
            assert(all.take(i + 1).drop_last() =~= all.take(i as int));
            assert(all.take(i + 1).last().published_at == published);
        }
        best = match best {
            Some(seen) => if seen.is_after(&published) {
                Some(seen)
            } else {
                Some(published)
            },
            None => Some(published),
        };
        i += 1;
    }
    assert(all.take(batch.len() as int) =~= all);
    best
}

/// What one synchronisation pass found.
#[derive(Debug, Clone, PartialEq, Eq)]
pub struct TickOutcome {
    /// The creation records of the newly discovered items.
    pub new_items: Vec<ItemToCreate>,
    /// The timestamp to which the watermark advances, or `None` where it
    /// stays as it is.
    pub advance: Option<Timestamp>,
}

/// The items that a pass reports: the new ones of the batch it read, or
/// none where the read failed.
pub open spec fn tick_items(watermark: Option<Timestamp>, fetched: Option<Seq<ItemView>>) -> Seq<
    ItemToCreateView,
> {
    match fetched {
        Some(batch) => new_items(watermark, batch),
        None => Seq::empty(),
    }
}

/// The timestamp to which a pass advances the watermark: the latest of the
/// whole batch it read, provided that some item of it is new. A failed read,
/// and a batch without new items, advance nothing.
pub open spec fn tick_advance(
    watermark: Option<Timestamp>,
    fetched: Option<Seq<ItemView>>,
) -> Option<Timestamp> {
    match fetched {
        Some(batch) => if new_items(watermark, batch).len() > 0 {
            latest(batch)
        } else {
            None
        },
        None => None,
    }
}

/// The watermark as it stands after a pass.
pub open spec fn watermark_after(
    watermark: Option<Timestamp>,
    fetched: Option<Seq<ItemView>>,
) -> Option<Timestamp> {
    match tick_advance(watermark, fetched) {
        Some(mark) => Some(mark),
        None => watermark,
    }
}

/// The batch that a read returned, or `None` where it failed.
pub open spec fn returned(fetched: Result<Vec<Item>, SyncError>) -> Option<Seq<ItemView>> {
    match fetched {
        Ok(batch) => Some(batch.deep_view()),
        Err(_) => None,
    }
}

/// One synchronisation pass over what a read of the unread items returned.
///
/// Reports the items published strictly after `watermark` (all of them
/// while there is none) and, if there are any, advances the watermark to the
/// latest publication time of the whole batch. A failed read reports nothing
/// and leaves the watermark alone.
pub fn sync_tick(watermark: Option<Timestamp>, fetched: &Result<Vec<Item>, SyncError>) -> (outcome:
    TickOutcome)
    ensures
        outcome.new_items.deep_view() == tick_items(watermark, returned(*fetched)),
        outcome.advance == tick_advance(watermark, returned(*fetched)),
{
    match fetched {
        Ok(batch) => {
            let new_items = select_new(watermark, batch);
            let advance = if new_items.len() > 0 {
                latest_publication(batch)
            } else {
                None
            };
            TickOutcome { new_items, advance }
        },
        Err(_) => {
            let new_items: Vec<ItemToCreate> = Vec::new();
            assert(new_items.deep_view() =~= Seq::<ItemToCreateView>::empty());
            TickOutcome { new_items, advance: None }
        },
    }
}

/// Where a watermark lies on the time line. No watermark lies below every
/// timestamp.
pub open spec fn mark_position(mark: Option<Timestamp>) -> int {
    match mark {
        Some(time) => time.position(),
        None => -0x1_0000_0000_0000_0000_0000_0000,
    }
}

/// The batch that a pass read, empty where the read failed.
pub open spec fn batch_of(fetched: Option<Seq<ItemView>>) -> Seq<ItemView> {
    match fetched {
        Some(batch) => batch,
        None => Seq::empty(),
    }
}

/// The watermark after a run of passes, each of which read a batch or
/// failed, starting from `start`.
pub open spec fn watermark_after_all(
    start: Option<Timestamp>,
    passes: Seq<Option<Seq<ItemView>>>,
) -> Option<Timestamp>
    decreases passes.len(),
{
    if passes.len() == 0 {
        start
    } else {
        watermark_after(watermark_after_all(start, passes.drop_last()), passes.last())
    }
}

/// Every item that a run of passes returned, in the order of arrival.
pub open spec fn all_returned(passes: Seq<Option<Seq<ItemView>>>) -> Seq<ItemView>
    decreases passes.len(),
{
    if passes.len() == 0 {
        Seq::empty()
    } else {
        all_returned(passes.drop_last()) + batch_of(passes.last())
    }
}

/// The position of `latest` is the greatest position in the batch.
pub proof fn lemma_latest_position(batch: Seq<ItemView>)
    ensures
        forall|i: int|
            0 <= i < batch.len() ==> (#[trigger] batch[i]).published_at.position() <= mark_position(
                latest(batch),
            ),
        batch.len() > 0 ==> exists|i: int|
            0 <= i < batch.len() && (#[trigger] batch[i]).published_at.position() == mark_position(
                latest(batch),
            ),
{
    lemma_latest_is_maximum(batch);
    if batch.len() > 0 {
        let best = latest(batch)->0;
        assert forall|i: int| 0 <= i < batch.len() implies (#[trigger] batch[i])
            .published_at.position() <= best.position() by {
            lemma_position_orders(batch[i].published_at, best);
        }
    }
}

/// The latest of two batches put together lies where the later of their two
/// latest lies.
pub proof fn lemma_latest_of_both(first: Seq<ItemView>, second: Seq<ItemView>)
    ensures
        mark_position(latest(first + second)) == vstd::math::max(
            mark_position(latest(first)),
            mark_position(latest(second)),
        ),
    decreases second.len(),
{
    if second.len() == 0 {
        assert(first + second =~= first);
        if first.len() > 0 {
            lemma_latest_is_maximum(first);
        }
    } else {
        let both = first + second;
        assert(both.drop_last() =~= first + second.drop_last());
        assert(both.last() == second.last());
        lemma_latest_of_both(first, second.drop_last());
        let last = second.last().published_at;
        match latest(both.drop_last()) {
            Some(best) => {
                lemma_position_orders(best, last);
            },
            None => {},
        }
        match latest(second.drop_last()) {
            Some(best) => {
                lemma_position_orders(best, last);
            },
            None => {},
        }
    }
}

/// A batch holds a new item exactly if its latest lies above the watermark.
pub proof fn lemma_new_items_exist(watermark: Option<Timestamp>, batch: Seq<ItemView>)
    ensures
        new_items(watermark, batch).len() > 0 <==> mark_position(latest(batch)) > mark_position(
            watermark,
        ),
{
    let keep = |item: ItemView| is_new(watermark, item);
    let kept = batch.filter(keep);
    lemma_latest_position(batch);
    lemma_latest_is_maximum(batch);
    if kept.len() > 0 {
        batch.lemma_filter_pred(keep, 0);
        batch.lemma_filter_contains_rev(keep, kept[0]);
        let i = choose|i: int| 0 <= i < batch.len() && batch[i] == kept[0];
        assert(is_new(watermark, batch[i]));
        if let Some(mark) = watermark {
            lemma_position_orders(batch[i].published_at, mark);
        }
        assert(batch[i].published_at.position() <= mark_position(latest(batch)));
    }
    if mark_position(latest(batch)) > mark_position(watermark) {
        let i = choose|i: int|
            0 <= i < batch.len() && (#[trigger] batch[i]).published_at.position() == mark_position(
                latest(batch),
            );
        if let Some(mark) = watermark {
            lemma_position_orders(batch[i].published_at, mark);
        }
        assert(keep(batch[i]));
        batch.lemma_filter_contains(keep, i);
        assert(kept.len() > 0);
    }
}

/// One pass moves the watermark to the later of where it stood and the
/// latest item that the pass returned: it never moves back, and a failed
/// pass does not move it.
pub proof fn lemma_pass_raises_watermark(
    watermark: Option<Timestamp>,
    fetched: Option<Seq<ItemView>>,
)
    ensures
        mark_position(watermark_after(watermark, fetched)) == vstd::math::max(
            mark_position(watermark),
            mark_position(latest(batch_of(fetched))),
        ),
        mark_position(watermark_after(watermark, fetched)) >= mark_position(watermark),
        fetched is None ==> watermark_after(watermark, fetched) == watermark,
{
    match fetched {
        Some(batch) => {
            lemma_new_items_exist(watermark, batch);
            lemma_latest_is_maximum(batch);
        },
        None => {
            lemma_latest_is_maximum(Seq::<ItemView>::empty());
        },
    }
}

/// After any run of passes the watermark lies at the latest publication
/// time among all the items that the passes returned, or where it started
/// if that is later.
pub proof fn lemma_watermark_is_maximum(
    start: Option<Timestamp>,
    passes: Seq<Option<Seq<ItemView>>>,
)
    ensures
        mark_position(watermark_after_all(start, passes)) == vstd::math::max(
            mark_position(start),
            mark_position(latest(all_returned(passes))),
        ),
    decreases passes.len(),
{
    if passes.len() == 0 {
        lemma_latest_is_maximum(Seq::<ItemView>::empty());
    } else {
        let before = passes.drop_last();
        lemma_watermark_is_maximum(start, before);
        lemma_pass_raises_watermark(watermark_after_all(start, before), passes.last());
        lemma_latest_of_both(all_returned(before), batch_of(passes.last()));
    }
}

/// The watermark never decreases: after the first `k` passes of a run it
/// lies no later than after the whole run.
pub proof fn lemma_watermark_never_decreases(
    start: Option<Timestamp>,
    passes: Seq<Option<Seq<ItemView>>>,
    k: int,
)
    requires
        0 <= k <= passes.len(),
    ensures
        mark_position(watermark_after_all(start, passes.take(k))) <= mark_position(
            watermark_after_all(start, passes),
        ),
    decreases passes.len(),
{
    if k == passes.len() {
        assert(passes.take(k) =~= passes);
    } else {
        let before = passes.drop_last();
        assert(before.take(k) =~= passes.take(k));
        lemma_watermark_never_decreases(start, before, k);
        lemma_pass_raises_watermark(watermark_after_all(start, before), passes.last());
    }
}

/// While there is no watermark every returned item is new, and the first
/// batch that holds any sets the watermark to its latest publication time.
pub proof fn lemma_bootstrap(batch: Seq<ItemView>)
    ensures
        new_items(None, batch) == batch.map_values(|item: ItemView| item.to_create()),
        watermark_after(None, Some(batch)) == latest(batch),
    decreases batch.len(),
{
    let keep = |item: ItemView| is_new(None, item);
    lemma_keeps_all(batch);
    lemma_latest_is_maximum(batch);
    assert(batch.filter(keep) == batch);
}

/// A filter that no item fails keeps the batch as it is.
proof fn lemma_keeps_all(batch: Seq<ItemView>)
    ensures
        batch.filter(|item: ItemView| is_new(None, item)) == batch,
    decreases batch.len(),
{
    let keep = |item: ItemView| is_new(None, item);
    reveal(Seq::filter);
    if batch.len() > 0 {
        lemma_keeps_all(batch.drop_last());
        assert(keep(batch.last()));
        assert(batch.drop_last().push(batch.last()) =~= batch);
    }
}

/// A failed pass reports no item and leaves the watermark where it was.
pub proof fn lemma_failed_pass_changes_nothing(watermark: Option<Timestamp>)
    ensures
        tick_items(watermark, None).len() == 0,
        tick_advance(watermark, None) is None,
        watermark_after(watermark, None) == watermark,
{
}

} // verus!

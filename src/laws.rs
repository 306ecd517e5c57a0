use vstd::prelude::*;
use crate::model::{initial_record, PriceUpdateV3};
use crate::model::OracleError;
use crate::program::{close_outcome, initialize_outcome, settles, update_outcome};
use crate::registry::{Feed, FeedKey};

verus! {

/// One update request: the payload value and the clock reading (slot, time).
pub type UpdateStep = (int, u64, i64);

/// The registry after the updates of `steps` are submitted in order to key `k`; a
/// rejected update leaves the registry as it was.
pub open spec fn apply_updates(m: Map<FeedKey, Feed>, k: FeedKey, steps: Seq<UpdateStep>) -> Map<
    FeedKey,
    Feed,
>
    decreases steps.len(),
{
    if steps.len() == 0 {
        m
    } else {
        let next = match update_outcome(m, k, steps[0].0, steps[0].1, steps[0].2) {
            Ok(m2) => m2,
            Err(_) => m,
        };
        apply_updates(next, k, steps.drop_first())
    }
}

/// Updates never change a feed's exponent or feed id, whatever their sequence.
pub proof fn lemma_updates_keep_scale(m: Map<FeedKey, Feed>, k: FeedKey, steps: Seq<UpdateStep>)
    requires
        m.contains_key(k),
    ensures
        apply_updates(m, k, steps).contains_key(k),
        apply_updates(m, k, steps)[k].record.price_message.exponent
            == m[k].record.price_message.exponent,
        apply_updates(m, k, steps)[k].record.price_message.feed_id
            == m[k].record.price_message.feed_id,
    decreases steps.len(),
{
    if steps.len() > 0 {
        let next = match update_outcome(m, k, steps[0].0, steps[0].1, steps[0].2) {
            Ok(m2) => m2,
            Err(_) => m,
        };
        lemma_updates_keep_scale(next, k, steps.drop_first());
    }
}

/// One call of `update_price_feed`, on any feed and whether it succeeds or fails,
/// leaves every existing feed's exponent and feed id as they were; by induction the
/// exponent set at initialization survives any sequence of such calls.
pub proof fn lemma_update_call_keeps_scale(
    before: Map<FeedKey, Feed>,
    after: Map<FeedKey, Feed>,
    r: Result<(), OracleError>,
    k: FeedKey,
    target: FeedKey,
    value: int,
    slot: u64,
    now: i64,
)
    requires
        settles(update_outcome(before, target, value, slot, now), r, before, after),
        before.contains_key(k),
    ensures
        after.contains_key(k),
        after[k].record.price_message.exponent == before[k].record.price_message.exponent,
        after[k].record.price_message.feed_id == before[k].record.price_message.feed_id,
{
}

/// Every record reached by updates after an initialization with exponent `exponent`
/// still has that exponent.
pub proof fn lemma_exponent_immutable(
    m: Map<FeedKey, Feed>,
    k: FeedKey,
    address: Option<Seq<u8>>,
    authority: [u8; 32],
    feed_id: [u8; 32],
    exponent: i32,
    now: i64,
    steps: Seq<UpdateStep>,
)
    requires
        initialize_outcome(m, k, address, initial_record(authority, feed_id, exponent, now)) is Ok,
    ensures
        apply_updates(initialize_outcome(m, k, address, initial_record(authority, feed_id, exponent, now))->Ok_0, k, steps)[k].record.price_message.exponent
            == exponent,
{
    let m1 = initialize_outcome(m, k, address, initial_record(authority, feed_id, exponent, now))->Ok_0;
    lemma_updates_keep_scale(m1, k, steps);
}

/// Of two consecutive successful updates, the second records the first one's
/// publish time as its previous publish time.
pub proof fn lemma_timestamp_chain(
    m: Map<FeedKey, Feed>,
    k: FeedKey,
    first: UpdateStep,
    second: UpdateStep,
)
    requires
        update_outcome(m, k, first.0, first.1, first.2) is Ok,
        update_outcome(update_outcome(m, k, first.0, first.1, first.2)->Ok_0, k, second.0, second.1, second.2) is Ok,
    ensures
        ({
            let m1 = update_outcome(m, k, first.0, first.1, first.2)->Ok_0;
            let m2 = update_outcome(m1, k, second.0, second.1, second.2)->Ok_0;
            m2[k].record.price_message.prev_publish_time == m1[k].record.price_message.publish_time
        }),
{
}

/// Slots that never run backwards and start no earlier than the feed's last write.
pub open spec fn monotone_slots(start: u64, steps: Seq<UpdateStep>) -> bool {
    (forall|i: int| 0 <= i < steps.len() ==> start <= #[trigger] steps[i].1) && (forall|i: int, j: int|
        0 <= i <= j < steps.len() ==> #[trigger] steps[i].1 <= #[trigger] steps[j].1)
}

/// Under a clock whose slot never runs backwards, a feed's last-write slot never
/// decreases across a sequence of updates.
pub proof fn lemma_slot_monotone(m: Map<FeedKey, Feed>, k: FeedKey, steps: Seq<UpdateStep>)
    requires
        m.contains_key(k),
        monotone_slots(m[k].record.posted_slot, steps),
    ensures
        apply_updates(m, k, steps).contains_key(k),
        m[k].record.posted_slot <= apply_updates(m, k, steps)[k].record.posted_slot,
    decreases steps.len(),
{
    if steps.len() > 0 {
        let next = match update_outcome(m, k, steps[0].0, steps[0].1, steps[0].2) {
            Ok(m2) => m2,
            Err(_) => m,
        };
        let rest = steps.drop_first();
        assert forall|i: int| 0 <= i < rest.len() implies next[k].record.posted_slot <= #[trigger] rest[i].1 by {
            assert(rest[i] == steps[i + 1]);
            assert(steps[0].1 <= steps[i + 1].1);
        }
        assert forall|i: int, j: int| 0 <= i <= j < rest.len() implies #[trigger] rest[i].1 <= #[trigger] rest[j].1 by {
            assert(rest[i] == steps[i + 1]);
            assert(rest[j] == steps[j + 1]);
        }
        lemma_slot_monotone(next, k, rest);
    }
}

/// Closing a feed frees its key: a fresh initialization there (whose address is
/// derivable, as it was for the closed feed) succeeds and starts at slot zero.
pub proof fn lemma_close_then_initialize(
    m: Map<FeedKey, Feed>,
    k: FeedKey,
    address: Option<Seq<u8>>,
    authority: [u8; 32],
    feed_id: [u8; 32],
    exponent: i32,
    now: i64,
)
    requires
        close_outcome(m, k) is Ok,
        address is Some,
    ensures
        initialize_outcome(close_outcome(m, k)->Ok_0, k, address, initial_record(authority, feed_id, exponent, now)) is Ok,
        initialize_outcome(close_outcome(m, k)->Ok_0, k, address, initial_record(authority, feed_id, exponent, now))->Ok_0[k].record.posted_slot
            == 0,
{
}

} // verus!

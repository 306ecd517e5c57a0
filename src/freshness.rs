use vstd::prelude::*;
use crate::codec::{decodable, decode_price_update, decodes_to};
use crate::model::{same_id, OracleError, Price, PriceFeedMessage, PriceUpdateV3};

verus! {

/// The account that holds a signed price update, read at the current time.
pub struct Sample {
    pub payer: [u8; 32],
    pub price_update_key: [u8; 32],
    pub unix_timestamp: i64,
}

/// The largest age, in seconds, of a price that a sample accepts by default.
pub const MAXIMUM_AGE: u64 = 60;

/// What a successful sample surfaces: the price, and for diagnostics the slot the
/// update was posted at and its whole message.
#[derive(Clone, Copy, Debug, PartialEq, Eq)]
pub struct PriceSample {
    pub price: Price,
    pub posted_slot: u64,
    pub price_message: PriceFeedMessage,
}

/// The price carried by an update.
pub open spec fn price_of(u: PriceUpdateV3) -> Price {
    Price {
        price: u.price_message.price,
        conf: u.price_message.conf,
        exponent: u.price_message.exponent,
        publish_time: u.price_message.publish_time,
    }
}

/// An update published at `publish_time` is at most `max_age` seconds old at `now`.
pub open spec fn fresh(publish_time: i64, now: i64, max_age: u64) -> bool {
    now - publish_time <= max_age
}

/// What reading `u` for feed `feed_id` at `now` yields: the price of an update for
/// that feed that is at most `max_age` old; otherwise the update is stale.
pub open spec fn sample_outcome(u: PriceUpdateV3, feed_id: Seq<u8>, now: i64, max_age: u64) -> Result<
    PriceSample,
    OracleError,
> {
    if u.price_message.feed_id@ != feed_id {
        Err(OracleError::StalePrice)
    } else if !fresh(u.price_message.publish_time, now, max_age) {
        Err(OracleError::StalePrice)
    } else {
        Ok(PriceSample { price: price_of(u), posted_slot: u.posted_slot, price_message: u.price_message })
    }
}

/// Reads the price out of `price_update`, the content of the account at
/// `ctx.price_update_key`; the feed id is taken from that address.
pub fn sample(ctx: &Sample, price_update: &PriceUpdateV3, maximum_age: u64) -> (r: Result<
    PriceSample,
    OracleError,
>)
    ensures
        r == sample_outcome(*price_update, ctx.price_update_key@, ctx.unix_timestamp, maximum_age),
{
    let feed_id: [u8; 32] = ctx.price_update_key;
    if !same_id(&price_update.price_message.feed_id, &feed_id) {
        return Err(OracleError::StalePrice);
    }
    let age: i128 = ctx.unix_timestamp as i128 - price_update.price_message.publish_time as i128;
    if age > maximum_age as i128 {
        return Err(OracleError::StalePrice);
    }
    let price = Price {
        price: price_update.price_message.price,
        conf: price_update.price_message.conf,
        exponent: price_update.price_message.exponent,
        publish_time: price_update.price_message.publish_time,
    };
    Ok(PriceSample { price, posted_slot: price_update.posted_slot, price_message: price_update.price_message })
}

/// Reads the price out of the raw bytes of the account at `ctx.price_update_key`.
/// The bytes are decoded as they are: their signatures are not checked here.
pub fn sample_account(ctx: &Sample, data: &[u8], maximum_age: u64) -> (r: Result<PriceSample, OracleError>)
    ensures
        !decodable(data@) ==> r == Err::<PriceSample, OracleError>(OracleError::DeserializationError),
        forall|u: PriceUpdateV3|
            decodes_to(data@, u) && decodable(data@) ==> r == sample_outcome(
                u,
                ctx.price_update_key@,
                ctx.unix_timestamp,
                maximum_age,
            ),
{
    let u = decode_price_update(data)?;
    proof {
        assert forall|v: PriceUpdateV3| decodes_to(data@, v) && decodable(data@) implies v == u by {
            assert(v.write_authority =~= u.write_authority);
            assert(v.price_message.feed_id =~= u.price_message.feed_id);
        }
    }
    sample(ctx, &u, maximum_age)
}

/// The freshness bound is inclusive: an update exactly `max_age` old is accepted,
/// one a second older is rejected as stale.
pub proof fn lemma_freshness_boundary(u: PriceUpdateV3, feed_id: Seq<u8>, max_age: u64)
    requires
        u.price_message.feed_id@ == feed_id,
        u.price_message.publish_time + max_age + 1 <= i64::MAX,
    ensures
        sample_outcome(
            u,
            feed_id,
            (u.price_message.publish_time + max_age) as i64,
            max_age,
        ) == Ok::<PriceSample, OracleError>(
            PriceSample { price: price_of(u), posted_slot: u.posted_slot, price_message: u.price_message },
        ),
        sample_outcome(u, feed_id, (u.price_message.publish_time + max_age + 1) as i64, max_age)
            == Err::<PriceSample, OracleError>(OracleError::StalePrice),
{
}

} // verus!

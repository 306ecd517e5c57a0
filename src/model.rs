use vstd::prelude::*;

verus! {

/// How much of a price update's signature set has been checked.
#[derive(Clone, Copy, Debug, PartialEq, Eq)]
pub enum VerificationLevel {
    Partial { num_signatures: u8 },
    Full,
}

/// A quantized price observation: `price` and `conf` are scaled by `10^exponent`.
#[derive(Clone, Copy, Debug, PartialEq, Eq)]
pub struct PriceFeedMessage {
    pub feed_id: [u8; 32],
    pub price: i64,
    pub conf: u64,
    pub exponent: i32,
    pub publish_time: i64,
    pub prev_publish_time: i64,
    pub ema_price: i64,
    pub ema_conf: u64,
}

/// The stored price-feed record.
#[derive(Clone, Copy, Debug, PartialEq, Eq)]
pub struct PriceUpdateV3 {
    pub write_authority: [u8; 32],
    pub verification_level: VerificationLevel,
    pub price_message: PriceFeedMessage,
    pub posted_slot: u64,
}

/// A price read out of a price update.
#[derive(Clone, Copy, Debug, PartialEq, Eq)]
pub struct Price {
    pub price: i64,
    pub conf: u64,
    pub exponent: i32,
    pub publish_time: i64,
}

/// Why an operation was rejected. A rejected operation leaves every record as it was.
#[derive(Clone, Copy, Debug, PartialEq, Eq)]
pub enum OracleError {
    AlreadyExists,
    NotFound,
    DeserializationError,
    StalePrice,
    NoAddress,
    DelegationError,
    UndelegationError,
    InvalidNumericProjection,
}

/// The record that `initialize` creates.
pub open spec fn initial_record(
    authority: [u8; 32],
    feed_id: [u8; 32],
    exponent: i32,
    now: i64,
) -> PriceUpdateV3 {
    PriceUpdateV3 {
        write_authority: authority,
        verification_level: VerificationLevel::Full,
        price_message: PriceFeedMessage {
            feed_id,
            price: 0,
            conf: 0,
            exponent,
            publish_time: now,
            prev_publish_time: now,
            ema_price: 0,
            ema_conf: 0,
        },
        posted_slot: 0,
    }
}

/// The record after an update to `price` at clock reading (`slot`, `now`): the old
/// publish time moves into the previous slot, everything else but the price is kept.
pub open spec fn updated_record(old: PriceUpdateV3, price: i64, slot: u64, now: i64) -> PriceUpdateV3 {
    PriceUpdateV3 {
        write_authority: old.write_authority,
        verification_level: VerificationLevel::Full,
        price_message: PriceFeedMessage {
            feed_id: old.price_message.feed_id,
            price,
            conf: old.price_message.conf,
            exponent: old.price_message.exponent,
            publish_time: now,
            prev_publish_time: old.price_message.publish_time,
            ema_price: old.price_message.ema_price,
            ema_conf: old.price_message.ema_conf,
        },
        posted_slot: slot,
    }
}

/// Builds the record of a newly created feed.
pub fn new_record(authority: [u8; 32], feed_id: [u8; 32], exponent: i32, now: i64) -> (r: PriceUpdateV3)
    ensures
        r == initial_record(authority, feed_id, exponent, now),
{
    PriceUpdateV3 {
        write_authority: authority,
        verification_level: VerificationLevel::Full,
        price_message: PriceFeedMessage {
            feed_id,
            price: 0,
            conf: 0,
            exponent,
            publish_time: now,
            prev_publish_time: now,
            ema_price: 0,
            ema_conf: 0,
        },
        posted_slot: 0,
    }
}

/// Builds the record that replaces `old` after an update.
pub fn next_record(old: &PriceUpdateV3, price: i64, slot: u64, now: i64) -> (r: PriceUpdateV3)
    ensures
        r == updated_record(*old, price, slot, now),
{
    PriceUpdateV3 {
        write_authority: old.write_authority,
        verification_level: VerificationLevel::Full,
        price_message: PriceFeedMessage {
            feed_id: old.price_message.feed_id,
            price,
            conf: old.price_message.conf,
            exponent: old.price_message.exponent,
            publish_time: now,
            prev_publish_time: old.price_message.publish_time,
            ema_price: old.price_message.ema_price,
            ema_conf: old.price_message.ema_conf,
        },
        posted_slot: slot,
    }
}

/// Compares two 32-byte identifiers.
pub fn same_id(a: &[u8; 32], b: &[u8; 32]) -> (r: bool)
    ensures
        r == (a@ == b@),
{
    let mut i: usize = 0;
    while i < 32
        invariant
            a@.len() == 32,
            b@.len() == 32,
            0 <= i <= 32,
            forall|j: int| 0 <= j < i ==> a@[j] == b@[j],
        decreases 32 - i,
    {
        if a[i] != b[i] {
            return false;
        }
        i = i + 1;
    }
    assert(a@ =~= b@);
    true
}

} // verus!

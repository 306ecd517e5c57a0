use vstd::prelude::*;
use vstd::utf8::encode_utf8;
use crate::address::{feed_address, feed_seed_bytes, program_address_of, FEED_SEED};
use crate::model::{initial_record, new_record, next_record, same_id, updated_record, OracleError, PriceUpdateV3};
use crate::registry::{Custody, Feed, FeedKey, FeedRegistry};

verus! {

/// The clock reading, signer and program under which a feed is created.
pub struct InitializePriceFeed {
    pub payer: [u8; 32],
    pub program_id: [u8; 32],
    pub unix_timestamp: i64,
}

/// The clock reading and signer under which a feed is updated.
pub struct UpdatePriceFeed {
    pub payer: [u8; 32],
    pub slot: u64,
    pub unix_timestamp: i64,
}

/// The signer and program under which a feed is handed to the execution venue.
pub struct DelegatePriceFeed {
    pub payer: [u8; 32],
    pub program_id: [u8; 32],
}

/// The signer and program under which a feed's release is requested.
pub struct UndelegatePriceFeed {
    pub payer: [u8; 32],
    pub program_id: [u8; 32],
}

/// The signer that closes a feed and receives what it held.
pub struct ClosePriceFeed {
    pub payer: [u8; 32],
}

/// A quantized value with the time it was observed.
pub struct TemporalNumericValue {
    pub timestamp_ns: u64,
    pub quantized_value: i128,
}

/// An upstream price payload: the symbol it is for and its value.
pub struct UpdateData {
    pub symbol: String,
    pub temporal_numeric_value: TemporalNumericValue,
}

impl InitializePriceFeed {
    /// The namespace tag of feed addresses, `"price_feed"`.
    pub fn seed() -> (r: [u8; 10])
        ensures
            r@ == feed_seed_bytes(),
    {
        let r = FEED_SEED;
        assert(r@ =~= feed_seed_bytes());
        r
    }
}

/// The registry key of (`provider`, `symbol`): their UTF-8 bytes.
pub open spec fn key_for(provider: Seq<char>, symbol: Seq<char>) -> FeedKey {
    (encode_utf8(provider), encode_utf8(symbol))
}

/// What a successful operation leaves, or the error that rejects it.
pub open spec fn settles<T>(
    expected: Result<Map<FeedKey, Feed>, OracleError>,
    r: Result<T, OracleError>,
    before: Map<FeedKey, Feed>,
    after: Map<FeedKey, Feed>,
) -> bool {
    match expected {
        Ok(m) => r is Ok && after == m,
        Err(e) => r == Err::<T, OracleError>(e) && after == before,
    }
}

/// Creating a feed: refused where the key has no address or is taken.
pub open spec fn initialize_outcome(
    m: Map<FeedKey, Feed>,
    k: FeedKey,
    address: Option<Seq<u8>>,
    rec: PriceUpdateV3,
) -> Result<Map<FeedKey, Feed>, OracleError> {
    if address is None {
        Err(OracleError::NoAddress)
    } else if m.contains_key(k) {
        Err(OracleError::AlreadyExists)
    } else {
        Ok(m.insert(k, Feed { record: rec, custody: Custody::Local }))
    }
}

/// `v` is representable as a record price.
pub open spec fn fits_i64(v: int) -> bool {
    i64::MIN <= v <= i64::MAX
}

/// Updating a feed: it must exist, be held locally, and the value must fit a price.
pub open spec fn update_outcome(
    m: Map<FeedKey, Feed>,
    k: FeedKey,
    value: int,
    slot: u64,
    now: i64,
) -> Result<Map<FeedKey, Feed>, OracleError> {
    if !m.contains_key(k) {
        Err(OracleError::NotFound)
    } else if m[k].custody != Custody::Local {
        Err(OracleError::DelegationError)
    } else if !fits_i64(value) {
        Err(OracleError::InvalidNumericProjection)
    } else {
        Ok(
            m.insert(
                k,
                Feed { record: updated_record(m[k].record, value as i64, slot, now), custody: Custody::Local },
            ),
        )
    }
}

/// Delegating a feed: it must exist, be held locally, and have an address.
pub open spec fn delegate_outcome(m: Map<FeedKey, Feed>, k: FeedKey, address: Option<Seq<u8>>) -> Result<
    Map<FeedKey, Feed>,
    OracleError,
> {
    if !m.contains_key(k) {
        Err(OracleError::NotFound)
    } else if m[k].custody != Custody::Local || address is None {
        Err(OracleError::DelegationError)
    } else {
        Ok(m.insert(k, Feed { record: m[k].record, custody: Custody::Delegated }))
    }
}

/// Requesting a feed's release: it must exist, be delegated, and have an address.
pub open spec fn undelegate_outcome(m: Map<FeedKey, Feed>, k: FeedKey, address: Option<Seq<u8>>) -> Result<
    Map<FeedKey, Feed>,
    OracleError,
> {
    if !m.contains_key(k) {
        Err(OracleError::NotFound)
    } else if m[k].custody != Custody::Delegated || address is None {
        Err(OracleError::UndelegationError)
    } else {
        Ok(m.insert(k, Feed { record: m[k].record, custody: Custody::Undelegating }))
    }
}

/// A committed record may change the price, the timestamps and the slot, but not the
/// feed's identity, authority or scale, and not move the slot back.
pub open spec fn admissible_commit(old: PriceUpdateV3, committed: PriceUpdateV3) -> bool {
    committed.write_authority@ == old.write_authority@ && committed.price_message.feed_id@
        == old.price_message.feed_id@ && committed.price_message.exponent
        == old.price_message.exponent && committed.posted_slot >= old.posted_slot
}

/// Taking back a feed after its commit: the release must be pending and the
/// committed record admissible.
pub open spec fn commit_outcome(m: Map<FeedKey, Feed>, k: FeedKey, committed: PriceUpdateV3) -> Result<
    Map<FeedKey, Feed>,
    OracleError,
> {
    if !m.contains_key(k) {
        Err(OracleError::NotFound)
    } else if m[k].custody != Custody::Undelegating || !admissible_commit(m[k].record, committed) {
        Err(OracleError::UndelegationError)
    } else {
        Ok(m.insert(k, Feed { record: committed, custody: Custody::Local }))
    }
}

/// Closing a feed: it must exist and be held locally.
pub open spec fn close_outcome(m: Map<FeedKey, Feed>, k: FeedKey) -> Result<
    Map<FeedKey, Feed>,
    OracleError,
> {
    if !m.contains_key(k) {
        Err(OracleError::NotFound)
    } else if m[k].custody != Custody::Local {
        Err(OracleError::DelegationError)
    } else {
        Ok(m.remove(k))
    }
}

/// Creates the feed for (`provider`, `symbol`) at its derived address, with a zero
/// price, the given feed id and exponent, both publish times at the current time and
/// slot zero.
pub fn initialize_price_feed(
    registry: &mut FeedRegistry,
    ctx: &InitializePriceFeed,
    provider: &str,
    symbol: &str,
    feed_id: [u8; 32],
    exponent: i32,
) -> (r: Result<(), OracleError>)
    requires
        old(registry).wf(),
    ensures
        final(registry).wf(),
        settles(
            initialize_outcome(
                old(registry)@,
                key_for(provider@, symbol@),
                program_address_of(feed_seed_bytes(), encode_utf8(provider@), encode_utf8(symbol@), ctx.program_id@),
                initial_record(ctx.payer, feed_id, exponent, ctx.unix_timestamp),
            ),
            r,
            old(registry)@,
            final(registry)@,
        ),
{
    let p = provider.as_bytes();
    let s = symbol.as_bytes();
    if feed_address(ctx.program_id, p, s).is_none() {
        return Err(OracleError::NoAddress);
    }
    if registry.lookup(p, s).is_some() {
        return Err(OracleError::AlreadyExists);
    }
    let record = new_record(ctx.payer, feed_id, exponent, ctx.unix_timestamp);
    registry.store(p, s, Feed { record, custody: Custody::Local });
    Ok(())
}

/// Replaces the price of the feed for (`provider`, `update_data.symbol`) with the
/// payload's value, stamps it with the current slot and time, and shifts the old
/// publish time into the previous one.
pub fn update_price_feed(
    registry: &mut FeedRegistry,
    ctx: &UpdatePriceFeed,
    provider: &str,
    update_data: &UpdateData,
) -> (r: Result<(), OracleError>)
    requires
        old(registry).wf(),
    ensures
        final(registry).wf(),
        settles(
            update_outcome(
                old(registry)@,
                key_for(provider@, update_data.symbol@),
                update_data.temporal_numeric_value.quantized_value as int,
                ctx.slot,
                ctx.unix_timestamp,
            ),
            r,
            old(registry)@,
            final(registry)@,
        ),
{
    let p = provider.as_bytes();
    let s = update_data.symbol.as_str().as_bytes();
    let feed = match registry.lookup(p, s) {
        Some(f) => f,
        None => return Err(OracleError::NotFound),
    };
    match feed.custody {
        Custody::Local => {},
        _ => return Err(OracleError::DelegationError),
    }
    let value = update_data.temporal_numeric_value.quantized_value;
    if value < i64::MIN as i128 || value > i64::MAX as i128 {
        return Err(OracleError::InvalidNumericProjection);
    }
    let record = next_record(&feed.record, value as i64, ctx.slot, ctx.unix_timestamp);
    registry.store(p, s, Feed { record, custody: Custody::Local });
    Ok(())
}

/// Hands custody of the feed for (`provider`, `symbol`) to the execution venue and
/// returns the feed's address, which the hand-off is scoped to.
pub fn delegate_price_feed(
    registry: &mut FeedRegistry,
    ctx: &DelegatePriceFeed,
    provider: &str,
    symbol: &str,
) -> (r: Result<[u8; 32], OracleError>)
    requires
        old(registry).wf(),
    ensures
        final(registry).wf(),
        settles(
            delegate_outcome(
                old(registry)@,
                key_for(provider@, symbol@),
                program_address_of(feed_seed_bytes(), encode_utf8(provider@), encode_utf8(symbol@), ctx.program_id@),
            ),
            r,
            old(registry)@,
            final(registry)@,
        ),
        r matches Ok(a) ==> program_address_of(
            feed_seed_bytes(),
            encode_utf8(provider@),
            encode_utf8(symbol@),
            ctx.program_id@,
        ) == Some(a@),
{
    let p = provider.as_bytes();
    let s = symbol.as_bytes();
    let feed = match registry.lookup(p, s) {
        Some(f) => f,
        None => return Err(OracleError::NotFound),
    };
    match feed.custody {
        Custody::Local => {},
        _ => return Err(OracleError::DelegationError),
    }
    let address = match feed_address(ctx.program_id, p, s) {
        Some(a) => a,
        None => return Err(OracleError::DelegationError),
    };
    registry.store(p, s, Feed { record: feed.record, custody: Custody::Delegated });
    Ok(address)
}

/// Requests that the execution venue commit the feed for (`provider`, `symbol`) and
/// release it; returns the feed's address, which the request is scoped to. The feed
/// stays out of local reach until the commit is observed.
pub fn undelegate_price_feed(
    registry: &mut FeedRegistry,
    ctx: &UndelegatePriceFeed,
    provider: &str,
    symbol: &str,
) -> (r: Result<[u8; 32], OracleError>)
    requires
        old(registry).wf(),
    ensures
        final(registry).wf(),
        settles(
            undelegate_outcome(
                old(registry)@,
                key_for(provider@, symbol@),
                program_address_of(feed_seed_bytes(), encode_utf8(provider@), encode_utf8(symbol@), ctx.program_id@),
            ),
            r,
            old(registry)@,
            final(registry)@,
        ),
        r matches Ok(a) ==> program_address_of(
            feed_seed_bytes(),
            encode_utf8(provider@),
            encode_utf8(symbol@),
            ctx.program_id@,
        ) == Some(a@),
{
    let p = provider.as_bytes();
    let s = symbol.as_bytes();
    let feed = match registry.lookup(p, s) {
        Some(f) => f,
        None => return Err(OracleError::NotFound),
    };
    match feed.custody {
        Custody::Delegated => {},
        _ => return Err(OracleError::UndelegationError),
    }
    let address = match feed_address(ctx.program_id, p, s) {
        Some(a) => a,
        None => return Err(OracleError::UndelegationError),
    };
    registry.store(p, s, Feed { record: feed.record, custody: Custody::Undelegating });
    Ok(address)
}

/// Takes back the feed for (`provider`, `symbol`) with the state that the execution
/// venue committed, once that commit has been observed.
pub fn commit_price_feed(
    registry: &mut FeedRegistry,
    provider: &str,
    symbol: &str,
    committed: PriceUpdateV3,
) -> (r: Result<(), OracleError>)
    requires
        old(registry).wf(),
    ensures
        final(registry).wf(),
        settles(
            commit_outcome(old(registry)@, key_for(provider@, symbol@), committed),
            r,
            old(registry)@,
            final(registry)@,
        ),
{
    let p = provider.as_bytes();
    let s = symbol.as_bytes();
    let feed = match registry.lookup(p, s) {
        Some(f) => f,
        None => return Err(OracleError::NotFound),
    };
    match feed.custody {
        Custody::Undelegating => {},
        _ => return Err(OracleError::UndelegationError),
    }
    let old = feed.record;
    if !same_id(&committed.write_authority, &old.write_authority)
        || !same_id(&committed.price_message.feed_id, &old.price_message.feed_id)
        || committed.price_message.exponent != old.price_message.exponent
        || committed.posted_slot < old.posted_slot {
        return Err(OracleError::UndelegationError);
    }
    registry.store(p, s, Feed { record: committed, custody: Custody::Local });
    Ok(())
}

/// Removes the feed for (`provider`, `symbol`); the key may be initialized again.
pub fn close_price_feed(
    registry: &mut FeedRegistry,
    ctx: &ClosePriceFeed,
    provider: &str,
    symbol: &str,
) -> (r: Result<(), OracleError>)
    requires
        old(registry).wf(),
    ensures
        final(registry).wf(),
        settles(close_outcome(old(registry)@, key_for(provider@, symbol@)), r, old(registry)@, final(registry)@),
{
    let p = provider.as_bytes();
    let s = symbol.as_bytes();
    let feed = match registry.lookup(p, s) {
        Some(f) => f,
        None => return Err(OracleError::NotFound),
    };
    match feed.custody {
        Custody::Local => {},
        _ => return Err(OracleError::DelegationError),
    }
    registry.discard(p, s);
    Ok(())
}

} // verus!

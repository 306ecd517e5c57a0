use vstd::prelude::*;
use crate::model::{OracleError, PriceFeedMessage, PriceUpdateV3, VerificationLevel};

verus! {

/// The unsigned little-endian integer held in the `n` bytes of `s` from `at`.
pub open spec fn le_int(s: Seq<u8>, at: int, n: nat) -> int
    decreases n,
{
    if n == 0 {
        0
    } else {
        s[at] + 256 * le_int(s, at + 1, (n - 1) as nat)
    }
}

/// The two's-complement reading of a 64-bit pattern.
pub open spec fn signed64(v: int) -> int {
    if v <= i64::MAX {
        v
    } else {
        v - 0x1_0000_0000_0000_0000
    }
}

/// The two's-complement reading of a 32-bit pattern.
pub open spec fn signed32(v: int) -> int {
    if v <= i32::MAX {
        v
    } else {
        v - 0x1_0000_0000
    }
}

/// Where the body of a stored price update starts. The layout is an 8-byte account
/// tag, the 32-byte authority, the verification level (a tag byte, then for `Partial`
/// the signature count), then a 92-byte body: the message fields in order and the slot.
pub open spec fn body_start(d: Seq<u8>) -> int {
    if d[40] == 0 {
        42
    } else {
        41
    }
}

/// The bytes hold a well-formed stored price update (trailing bytes are ignored).
pub open spec fn decodable(d: Seq<u8>) -> bool {
    d.len() >= 41 && (d[40] == 0 || d[40] == 1) && d.len() >= body_start(d) + 92
}

/// `u` is the price update that the bytes `d` store.
pub open spec fn decodes_to(d: Seq<u8>, u: PriceUpdateV3) -> bool {
    let o = body_start(d);
    &&& u.write_authority@ == d.subrange(8, 40)
    &&& u.verification_level == (if d[40] == 0 {
        VerificationLevel::Partial { num_signatures: d[41] }
    } else {
        VerificationLevel::Full
    })
    &&& u.price_message.feed_id@ == d.subrange(o, o + 32)
    &&& u.price_message.price == signed64(le_int(d, o + 32, 8))
    &&& u.price_message.conf == le_int(d, o + 40, 8)
    &&& u.price_message.exponent == signed32(le_int(d, o + 48, 4))
    &&& u.price_message.publish_time == signed64(le_int(d, o + 52, 8))
    &&& u.price_message.prev_publish_time == signed64(le_int(d, o + 60, 8))
    &&& u.price_message.ema_price == signed64(le_int(d, o + 68, 8))
    &&& u.price_message.ema_conf == le_int(d, o + 76, 8)
    &&& u.posted_slot == le_int(d, o + 84, 8)
}

fn read_u64(d: &[u8], at: usize) -> (r: u64)
    requires
        at + 8 <= d@.len(),
    ensures
        r == le_int(d@, at as int, 8),
{
    proof {
        reveal_with_fuel(le_int, 9);
    }
    d[at] as u64 + 256 * (d[at + 1] as u64 + 256 * (d[at + 2] as u64 + 256 * (d[at + 3] as u64
        + 256 * (d[at + 4] as u64 + 256 * (d[at + 5] as u64 + 256 * (d[at + 6] as u64 + 256 * (
    d[at + 7] as u64)))))))
}

fn read_u32(d: &[u8], at: usize) -> (r: u32)
    requires
        at + 4 <= d@.len(),
    ensures
        r == le_int(d@, at as int, 4),
{
    proof {
        reveal_with_fuel(le_int, 5);
    }
    d[at] as u32 + 256 * (d[at + 1] as u32 + 256 * (d[at + 2] as u32 + 256 * (d[at + 3] as u32)))
}

fn read_i64(d: &[u8], at: usize) -> (r: i64)
    requires
        at + 8 <= d@.len(),
    ensures
        r == signed64(le_int(d@, at as int, 8)),
{
    let v = read_u64(d, at);
    if v <= i64::MAX as u64 {
        v as i64
    } else {
        (v - 0x8000_0000_0000_0000u64) as i64 + i64::MIN
    }
}

fn read_i32(d: &[u8], at: usize) -> (r: i32)
    requires
        at + 4 <= d@.len(),
    ensures
        r == signed32(le_int(d@, at as int, 4)),
{
    let v = read_u32(d, at);
    if v <= i32::MAX as u32 {
        v as i32
    } else {
        (v - 0x8000_0000u32) as i32 + i32::MIN
    }
}

fn read_id(d: &[u8], at: usize) -> (r: [u8; 32])
    requires
        at + 32 <= d@.len(),
    ensures
        r@ == d@.subrange(at as int, at + 32),
{
    let n = d.len();
    let mut r = [0u8; 32];
    let mut i: usize = 0;
    while i < 32
        invariant
            at + 32 <= d@.len(),
            n == d@.len(),
            0 <= i <= 32,
            r@.len() == 32,
            forall|j: int| 0 <= j < i ==> r@[j] == d@[at + j],
        decreases 32 - i,
    {
        r[i] = d[at + i];
        i = i + 1;
    }
    assert(r@ =~= d@.subrange(at as int, at + 32));
    r
}

/// Reads a stored price update out of account bytes. The account tag is not checked.
pub fn decode_price_update(data: &[u8]) -> (r: Result<PriceUpdateV3, OracleError>)
    ensures
        match r {
            Ok(u) => decodable(data@) && decodes_to(data@, u),
            Err(e) => !decodable(data@) && e == OracleError::DeserializationError,
        },
{
    if data.len() < 41 {
        return Err(OracleError::DeserializationError);
    }
    let (level, o) = if data[40] == 0 {
        if data.len() < 42 {
            return Err(OracleError::DeserializationError);
        }
        (VerificationLevel::Partial { num_signatures: data[41] }, 42usize)
    } else if data[40] == 1 {
        (VerificationLevel::Full, 41usize)
    } else {
        return Err(OracleError::DeserializationError);
    };
    if data.len() - o < 92 {
        return Err(OracleError::DeserializationError);
    }
    Ok(
        PriceUpdateV3 {
            write_authority: read_id(data, 8),
            verification_level: level,
            price_message: PriceFeedMessage {
                feed_id: read_id(data, o),
                price: read_i64(data, o + 32),
                conf: read_u64(data, o + 40),
                exponent: read_i32(data, o + 48),
                publish_time: read_i64(data, o + 52),
                prev_publish_time: read_i64(data, o + 60),
                ema_price: read_i64(data, o + 68),
                ema_conf: read_u64(data, o + 76),
            },
            posted_slot: read_u64(data, o + 84),
        },
    )
}

} // verus!

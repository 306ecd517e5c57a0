use ephemeral_oracle::freshness::{sample, PriceSample, Sample, MAXIMUM_AGE};
use ephemeral_oracle::model::{OracleError, Price, PriceFeedMessage, PriceUpdateV3, VerificationLevel};

const FEED: [u8; 32] = [0x42; 32];
const T: i64 = 1_700_000_000;

fn update(level: VerificationLevel, feed_id: [u8; 32]) -> PriceUpdateV3 {
    PriceUpdateV3 {
        write_authority: [3; 32],
        verification_level: level,
        price_message: PriceFeedMessage {
            feed_id,
            price: 7160106530699,
            conf: 5129162301,
            exponent: -8,
            publish_time: T,
            prev_publish_time: T - 1,
            ema_price: 7160000000000,
            ema_conf: 5000000000,
        },
        posted_slot: 99,
    }
}

fn ctx(now: i64) -> Sample {
    Sample { payer: [1; 32], price_update_key: FEED, unix_timestamp: now }
}

const PRICE: Price = Price { price: 7160106530699, conf: 5129162301, exponent: -8, publish_time: T };

fn expected(u: &PriceUpdateV3) -> PriceSample {
    PriceSample { price: PRICE, posted_slot: 99, price_message: u.price_message }
}

#[test]
fn scenario_sample_freshness_bound() {
    let u = update(VerificationLevel::Full, FEED);
    assert_eq!(sample(&ctx(T + 61), &u, 60), Err(OracleError::StalePrice));
    assert_eq!(sample(&ctx(T + 60), &u, 60), Ok(expected(&u)));
}

#[test]
fn sample_accepts_fresh_and_future_prices() {
    let u = update(VerificationLevel::Full, FEED);
    assert_eq!(sample(&ctx(T), &u, 60), Ok(expected(&u)));
    assert_eq!(sample(&ctx(T - 5), &u, 0), Ok(expected(&u)));
    assert_eq!(sample(&ctx(T + 1), &u, 0), Err(OracleError::StalePrice));
}

#[test]
fn sample_rejects_mismatched_feed() {
    let u = update(VerificationLevel::Full, [0x43; 32]);
    assert_eq!(sample(&ctx(T), &u, 60), Err(OracleError::StalePrice));
}

#[test]
fn sample_accepts_partial_verification() {
    let u = update(VerificationLevel::Partial { num_signatures: 13 }, FEED);
    assert_eq!(sample(&ctx(T + 60), &u, 60), Ok(expected(&u)));
    assert_eq!(sample(&ctx(T + 61), &u, 60), Err(OracleError::StalePrice));
    let other = update(VerificationLevel::Partial { num_signatures: 13 }, [0x43; 32]);
    assert_eq!(sample(&ctx(T), &other, 60), Err(OracleError::StalePrice));
}

#[test]
fn sample_surfaces_slot_and_message() {
    let u = update(VerificationLevel::Full, FEED);
    let got = sample(&ctx(T + 1), &u, MAXIMUM_AGE).unwrap();
    assert_eq!(got.posted_slot, 99);
    assert_eq!(got.price_message.prev_publish_time, T - 1);
    assert_eq!(got.price_message.ema_price, 7160000000000);
    assert_eq!(MAXIMUM_AGE, 60);
}

#[test]
fn sample_handles_extreme_times() {
    let mut u = update(VerificationLevel::Full, FEED);
    u.price_message.publish_time = i64::MIN;
    assert_eq!(sample(&ctx(i64::MAX), &u, u64::MAX - 1), Err(OracleError::StalePrice));
    assert!(sample(&ctx(i64::MAX), &u, u64::MAX).is_ok());
    u.price_message.publish_time = i64::MAX;
    assert!(sample(&ctx(i64::MIN), &u, 0).is_ok());
}

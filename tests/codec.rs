use ephemeral_oracle::codec::decode_price_update;
use ephemeral_oracle::freshness::{sample_account, PriceSample, Sample};
use ephemeral_oracle::model::{OracleError, Price, PriceFeedMessage, PriceUpdateV3, VerificationLevel};

fn encode(u: &PriceUpdateV3) -> Vec<u8> {
    let mut d = vec![0x22u8, 0xf1, 0x23, 0x63, 0x9d, 0x7e, 0xf4, 0xcd];
    d.extend_from_slice(&u.write_authority);
    match u.verification_level {
        VerificationLevel::Partial { num_signatures } => {
            d.push(0);
            d.push(num_signatures);
        }
        VerificationLevel::Full => d.push(1),
    }
    let m = &u.price_message;
    d.extend_from_slice(&m.feed_id);
    d.extend_from_slice(&m.price.to_le_bytes());
    d.extend_from_slice(&m.conf.to_le_bytes());
    d.extend_from_slice(&m.exponent.to_le_bytes());
    d.extend_from_slice(&m.publish_time.to_le_bytes());
    d.extend_from_slice(&m.prev_publish_time.to_le_bytes());
    d.extend_from_slice(&m.ema_price.to_le_bytes());
    d.extend_from_slice(&m.ema_conf.to_le_bytes());
    d.extend_from_slice(&u.posted_slot.to_le_bytes());
    d
}

fn sample_update(level: VerificationLevel) -> PriceUpdateV3 {
    PriceUpdateV3 {
        write_authority: [9; 32],
        verification_level: level,
        price_message: PriceFeedMessage {
            feed_id: [0x42; 32],
            price: -7160106530699,
            conf: 5129162301,
            exponent: -8,
            publish_time: 1_700_000_000,
            prev_publish_time: 1_699_999_999,
            ema_price: 7160000000000,
            ema_conf: u64::MAX,
        },
        posted_slot: 123456789,
    }
}

#[test]
fn decode_full_update() {
    let u = sample_update(VerificationLevel::Full);
    let bytes = encode(&u);
    assert_eq!(bytes.len(), 133);
    assert_eq!(decode_price_update(&bytes), Ok(u));
}

#[test]
fn decode_partial_update_with_trailing_bytes() {
    let u = sample_update(VerificationLevel::Partial { num_signatures: 5 });
    let mut bytes = encode(&u);
    assert_eq!(bytes.len(), 134);
    bytes.extend_from_slice(&[0xFF; 6]);
    assert_eq!(decode_price_update(&bytes), Ok(u));
}

#[test]
fn decode_rejects_short_or_malformed_bytes() {
    let u = sample_update(VerificationLevel::Full);
    let bytes = encode(&u);
    assert_eq!(decode_price_update(&bytes[..132]), Err(OracleError::DeserializationError));
    assert_eq!(decode_price_update(&bytes[..5]), Err(OracleError::DeserializationError));
    assert_eq!(decode_price_update(&[]), Err(OracleError::DeserializationError));
    let mut bad = bytes.clone();
    bad[40] = 2;
    assert_eq!(decode_price_update(&bad), Err(OracleError::DeserializationError));
}

#[test]
fn sample_account_reads_and_checks_age() {
    let u = sample_update(VerificationLevel::Full);
    let bytes = encode(&u);
    let ctx = Sample { payer: [1; 32], price_update_key: [0x42; 32], unix_timestamp: 1_700_000_060 };
    let expected = Price { price: -7160106530699, conf: 5129162301, exponent: -8, publish_time: 1_700_000_000 };
    let full = PriceSample { price: expected, posted_slot: 123456789, price_message: u.price_message };
    assert_eq!(sample_account(&ctx, &bytes, 60), Ok(full));
    let late = Sample { unix_timestamp: 1_700_000_061, ..ctx };
    assert_eq!(sample_account(&late, &bytes, 60), Err(OracleError::StalePrice));
    assert_eq!(sample_account(&ctx, &bytes[..40], 60), Err(OracleError::DeserializationError));
}

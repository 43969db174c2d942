use beacon_ingest::frame::{decode_advertising, decode_frame, DecodeError};
use beacon_ingest::hexcode::{decode_hex, encode_hex, HexError};
use beacon_ingest::ingest::{build_observation, ingest, BeaconRecord, InboundReport, Rejection};
use beacon_ingest::signature::verify_signature;
use beacon_ingest::timestamp::{from_epoch_millis, EpochTime};

use p256::ecdsa::signature::Signer;
use p256::ecdsa::{Signature, SigningKey, VerifyingKey};

fn signing_key() -> SigningKey {
    let mut secret = [0u8; 32];
    secret[31] = 7;
    secret[0] = 0x11;
    SigningKey::from_bytes(&secret.into()).unwrap()
}

fn public_key(compressed: bool) -> Vec<u8> {
    let vk = VerifyingKey::from(&signing_key());
    vk.to_encoded_point(compressed).as_bytes().to_vec()
}

fn sign(data: &[u8]) -> Vec<u8> {
    let sig: Signature = signing_key().sign(data);
    sig.to_bytes().to_vec()
}

const ID: [u8; 6] = [0xAA, 0xBB, 0xCC, 0xDD, 0xEE, 0xFF];

fn signed_frame_hex() -> String {
    let mut data = ID.to_vec();
    data.extend_from_slice(&[0x02, 0x00, 0x11]);
    let sig = sign(&data);
    data.extend_from_slice(&sig);
    hex::encode_upper(data)
}

fn report(advertising_hex: String, millis: u64) -> InboundReport {
    InboundReport {
        observed_at_epoch_millis: millis,
        signal_strength_dbm: -71,
        advertising_hex,
        latitude_bits: 48.8566f64.to_bits(),
        longitude_bits: 2.3522f64.to_bits(),
        horizontal_dilution_bits: 1.5f64.to_bits(),
    }
}

fn registered() -> BeaconRecord {
    BeaconRecord { identifier: ID.to_vec(), public_key: public_key(false) }
}

const NOW: EpochTime = EpochTime { secs: 1_700_000_000, nanos: 5 };

#[test]
fn hex_decodes_either_case() {
    assert_eq!(decode_hex("0aFf10"), Ok(vec![0x0a, 0xff, 0x10]));
    assert_eq!(decode_hex(""), Ok(vec![]));
}

#[test]
fn hex_refuses_odd_length_and_bad_digits() {
    assert_eq!(decode_hex("abc"), Err(HexError::Malformed));
    assert_eq!(decode_hex("zz"), Err(HexError::Malformed));
    assert_eq!(decode_hex("é0"), Err(HexError::Malformed));
}

#[test]
fn hex_encodes_lowercase() {
    assert_eq!(encode_hex(&[0xAB, 0x01, 0xF0]), "ab01f0");
    assert_eq!(encode_hex(&[]), "");
}

#[test]
fn identifier_hex_round_trip() {
    for id in [[0u8; 6], [0xff; 6], ID, [1, 2, 3, 4, 5, 0x9c]] {
        let text = encode_hex(&id);
        assert_eq!(text.len(), 12);
        assert_eq!(decode_hex(&text), Ok(id.to_vec()));
    }
}

#[test]
fn scenario_frame_splits_into_parts() {
    let hex = format!("AABBCCDDEEFF02001100{}", "0".repeat(126));
    let d = decode_advertising(&hex).unwrap();
    assert_eq!(d.identifier, ID.to_vec());
    assert_eq!(d.identifier_hex(), "aabbccddeeff");
    assert_eq!(d.payload, vec![0x00, 0x11]);
    assert_eq!(d.signed_data, vec![0xAA, 0xBB, 0xCC, 0xDD, 0xEE, 0xFF, 0x02, 0x00, 0x11]);
    assert_eq!(d.signature, vec![0u8; 64]);
}

#[test]
fn trailing_byte_is_length_mismatch() {
    let hex = format!("AABBCCDDEEFF02001100{}", "0".repeat(128));
    assert_eq!(decode_advertising(&hex).unwrap_err(), DecodeError::LengthMismatch);
}

#[test]
fn short_frames_are_refused() {
    assert_eq!(decode_frame(&[0u8; 8]).unwrap_err(), DecodeError::TooShort);
    assert_eq!(decode_frame(&[]).unwrap_err(), DecodeError::TooShort);
    assert_eq!(decode_frame(&[0u8; 9]).unwrap_err(), DecodeError::LengthMismatch);
    assert_eq!(decode_frame(&[0u8; 70]).unwrap_err(), DecodeError::LengthMismatch);
}

#[test]
fn empty_and_largest_payloads() {
    let d = decode_frame(&[0u8; 71]).unwrap();
    assert!(d.payload.is_empty());
    assert_eq!(d.signed_data.len(), 7);
    let mut frame = vec![0u8; 6 + 1 + 255 + 64];
    frame[6] = 255;
    let d = decode_frame(&frame).unwrap();
    assert_eq!(d.payload.len(), 255);
    assert_eq!(d.signature.len(), 64);
}

#[test]
fn payload_len_matches_length_byte() {
    for len in [0usize, 1, 2, 17, 200] {
        let mut frame = vec![0x5au8; 6 + 1 + len + 64];
        frame[6] = len as u8;
        let d = decode_frame(&frame).unwrap();
        assert_eq!(d.payload.len(), len);
        assert_eq!(6 + 1 + d.payload.len() + 64, frame.len());
        frame.push(0);
        assert_eq!(decode_frame(&frame).unwrap_err(), DecodeError::LengthMismatch);
    }
}

#[test]
fn odd_hex_is_malformed() {
    assert_eq!(decode_advertising("AAB").unwrap_err(), DecodeError::MalformedEncoding);
    let r = ingest(&report("AABBCCDDEEFF0".to_string(), 1000), Some(&registered()), NOW);
    assert_eq!(r.unwrap_err(), Rejection::MalformedAdvertising);
    assert_eq!(Rejection::MalformedAdvertising.status_code(), 400);
}

#[test]
fn signature_accepts_and_is_deterministic() {
    let data = b"signed advertising bytes".to_vec();
    let sig = sign(&data);
    for compressed in [false, true] {
        let key = public_key(compressed);
        assert!(verify_signature(&data, &sig, &key));
        assert!(verify_signature(&data, &sig, &key));
    }
}

#[test]
fn signature_refuses_malformed_inputs() {
    let data = b"abc".to_vec();
    let sig = sign(&data);
    let key = public_key(false);
    assert!(!verify_signature(&data, &sig[..63], &key));
    assert!(!verify_signature(&data, &[0u8; 64], &key));
    assert!(!verify_signature(&data, &sig, &[]));
    assert!(!verify_signature(&data, &sig, &key[..40]));
}

#[test]
fn flipped_bit_fails_verification() {
    let data = vec![0xAA, 0xBB, 0xCC, 0xDD, 0xEE, 0xFF, 0x02, 0x00, 0x11];
    let sig = sign(&data);
    let key = public_key(false);
    for byte in 0..data.len() {
        for bit in 0..8 {
            let mut tampered = data.clone();
            tampered[byte] ^= 1 << bit;
            assert!(!verify_signature(&tampered, &sig, &key));
        }
    }
}

#[test]
fn scenario_signed_frame_is_recorded() {
    let obs = ingest(&report(signed_frame_hex(), 1_699_999_999_123), Some(&registered()), NOW).unwrap();
    assert_eq!(obs.identifier, ID.to_vec());
    assert_eq!(obs.payload, vec![0x00, 0x11]);
    assert_eq!(obs.captured_at, EpochTime { secs: 1_699_999_999, nanos: 123_000_000 });
    assert_eq!(obs.received_at, NOW);
    assert_eq!(obs.signal_strength_dbm, -71);
    assert_eq!(f64::from_bits(obs.latitude_bits), 48.8566);
    assert_eq!(f64::from_bits(obs.longitude_bits), 2.3522);
    assert_eq!(f64::from_bits(obs.horizontal_dilution_bits), 1.5);
}

#[test]
fn unknown_beacon_is_not_found() {
    let r = ingest(&report(signed_frame_hex(), 1000), None, NOW);
    assert_eq!(r.unwrap_err(), Rejection::UnknownBeacon);
    assert_eq!(Rejection::UnknownBeacon.status_code(), 404);
    let other = BeaconRecord { identifier: vec![0xAA, 0xBB, 0xCC, 0xDD, 0xEE, 0xFE], public_key: public_key(false) };
    let r = ingest(&report(signed_frame_hex(), 1000), Some(&other), NOW);
    assert_eq!(r.unwrap_err(), Rejection::UnknownBeacon);
}

#[test]
fn unknown_beacon_wins_over_bad_signature() {
    let hex = format!("AABBCCDDEEFF020011{}", "ee".repeat(64));
    let r = ingest(&report(hex.clone(), 1000), None, NOW);
    assert_eq!(r.unwrap_err(), Rejection::UnknownBeacon);
    let r = ingest(&report(hex, 1000), Some(&registered()), NOW);
    assert_eq!(r.unwrap_err(), Rejection::Unauthenticated);
    assert_eq!(Rejection::Unauthenticated.status_code(), 401);
}

#[test]
fn far_future_timestamp_is_bad_request() {
    let r = ingest(&report(signed_frame_hex(), u64::MAX), Some(&registered()), NOW);
    assert_eq!(r.unwrap_err(), Rejection::InvalidTimestamp);
    assert_eq!(Rejection::InvalidTimestamp.status_code(), 400);
}

#[test]
fn epoch_millis_split_into_seconds_and_nanos() {
    assert_eq!(from_epoch_millis(0), Some(EpochTime { secs: 0, nanos: 0 }));
    assert_eq!(from_epoch_millis(1500), Some(EpochTime { secs: 1, nanos: 500_000_000 }));
    assert_eq!(from_epoch_millis(u64::MAX), None);
}

#[test]
fn observation_copies_frame_and_readings() {
    let hex = format!("AABBCCDDEEFF02001100{}", "0".repeat(126));
    let adv = decode_advertising(&hex).unwrap();
    let captured = EpochTime { secs: 42, nanos: 7_000_000 };
    let obs = build_observation(&report(hex, 42_007), adv, captured, NOW);
    assert_eq!(obs.identifier, ID.to_vec());
    assert_eq!(obs.payload, vec![0x00, 0x11]);
    assert_eq!(obs.captured_at, captured);
    assert_eq!(obs.received_at, NOW);
    assert_eq!(obs.signal_strength_dbm, -71);
    assert_eq!(f64::from_bits(obs.horizontal_dilution_bits), 1.5);
}

use survey_x::codec::INPUT_VALUES_LEN;
use survey_x::codec::decode_input_values;
use survey_x::codec::encode_input_values;
use survey_x::codec::encode_loan_eligibility;
use survey_x::codec::encode_processed_response;
use survey_x::response::InputValues;
use survey_x::response::LoanEligibility;
use survey_x::response::ProcessedResponse;
use survey_x::sealing::Envelope;
use survey_x::sealing::RecipientKey;
use survey_x::sealing::SealError;
use survey_x::sealing::open;
use survey_x::sealing::seal;
use survey_x::sealing::seal_outputs;

/// A little deterministic generator standing in for independent random keys.
fn pseudo_random_key(seed: u64) -> RecipientKey {
    let mut state = seed.wrapping_mul(6364136223846793005).wrapping_add(1442695040888963407);
    let mut bytes = [0u8; 32];
    for b in bytes.iter_mut() {
        state = state.wrapping_mul(6364136223846793005).wrapping_add(1442695040888963407);
        *b = (state >> 56) as u8;
    }
    RecipientKey { bytes }
}

#[test]
fn seal_round_trips_under_own_key() {
    let key = pseudo_random_key(1);
    let plaintext = vec![1u8, 2, 3, 4, 5, 99, 0, 255];
    let env = seal(&plaintext, &key, 7777);
    assert_eq!(env.nonce, 7777);
    assert_eq!(env.ciphertext.len(), plaintext.len());
    assert_eq!(open(&env, &key), Some(plaintext));
}

#[test]
fn seal_hides_the_plaintext() {
    let key = pseudo_random_key(2);
    let plaintext = vec![42u8; 16];
    let env = seal(&plaintext, &key, 1);
    assert_ne!(env.ciphertext, plaintext);
}

#[test]
fn wrong_key_never_opens() {
    let key_a = pseudo_random_key(3);
    let key_b = pseudo_random_key(4);
    assert_ne!(key_a.bytes, key_b.bytes);
    let plaintext = vec![10u8, 20, 30, 40];
    let env = seal(&plaintext, &key_a, 5);
    assert_eq!(open(&env, &key_b), None);
    assert_eq!(open(&env, &key_a), Some(plaintext));
}

#[test]
fn known_plaintext_pairs_stay_isolated() {
    // Two recipients, two plaintexts, independent keys: each envelope opens
    // only under its own key, and opening with the other key yields nothing
    // rather than the other plaintext.
    let key_a = pseudo_random_key(10);
    let key_b = pseudo_random_key(11);
    let plain_a = vec![1u8, 1, 2, 3, 5, 8, 13, 21];
    let plain_b = vec![9u8, 9, 9, 9, 9, 9, 9, 9];
    let env_a = seal(&plain_a, &key_a, 100);
    let env_b = seal(&plain_b, &key_b, 100);
    assert_eq!(open(&env_a, &key_a), Some(plain_a));
    assert_eq!(open(&env_b, &key_b), Some(plain_b));
    assert_eq!(open(&env_a, &key_b), None);
    assert_eq!(open(&env_b, &key_a), None);
}

#[test]
fn tampered_ciphertext_never_opens() {
    let key = pseudo_random_key(5);
    let plaintext = vec![7u8; 12];
    let mut env = seal(&plaintext, &key, 9);
    env.ciphertext[3] ^= 0x40;
    assert_eq!(open(&env, &key), None);
}

#[test]
fn empty_plaintext_round_trips() {
    let key = pseudo_random_key(6);
    let plaintext: Vec<u8> = Vec::new();
    let env = seal(&plaintext, &key, 11);
    assert_eq!(env.ciphertext.len(), 0);
    assert_eq!(open(&env, &key), Some(plaintext));
}

#[test]
fn same_record_under_two_keys_differs() {
    let key_a = pseudo_random_key(7);
    let key_b = pseudo_random_key(8);
    let plaintext = vec![5u8; 10];
    let env_a = seal(&plaintext, &key_a, 3);
    let env_b = seal(&plaintext, &key_b, 3);
    assert_ne!(env_a.ciphertext, env_b.ciphertext);
}

#[test]
fn router_seals_one_envelope_per_target() {
    let key_a = pseudo_random_key(20);
    let key_b = pseudo_random_key(21);
    let records = vec![vec![1u8, 2, 3], vec![4u8, 5, 6, 7]];
    let targets = vec![
        RecipientKey { bytes: key_a.bytes },
        RecipientKey { bytes: key_b.bytes },
    ];
    let envelopes = seal_outputs(&records, &targets, 55).unwrap();
    assert_eq!(envelopes.len(), 2);
    assert_eq!(open(&envelopes[0], &key_a), Some(records[0].clone()));
    assert_eq!(open(&envelopes[1], &key_b), Some(records[1].clone()));
    assert_eq!(open(&envelopes[0], &key_b), None);
    assert_eq!(open(&envelopes[1], &key_a), None);
}

#[test]
fn router_count_mismatch_is_a_hard_failure() {
    let records = vec![vec![1u8, 2, 3]];
    let targets = vec![pseudo_random_key(30), pseudo_random_key(31)];
    assert_eq!(seal_outputs(&records, &targets, 1), Err(SealError::CountMismatch));
    let no_records: Vec<Vec<u8>> = Vec::new();
    let one_target = vec![pseudo_random_key(32)];
    assert_eq!(seal_outputs(&no_records, &one_target, 1), Err(SealError::CountMismatch));
}

#[test]
fn input_values_encode_decode_round_trip() {
    let v = InputValues {
        response: 123456789,
        rating: 9,
        feedback_length: 513,
        category: 4,
        timestamp: 1704067200,
    };
    let bytes = encode_input_values(&v);
    assert_eq!(bytes.len(), INPUT_VALUES_LEN);
    let decoded = decode_input_values(&bytes).unwrap();
    assert_eq!(decoded.response, v.response);
    assert_eq!(decoded.rating, v.rating);
    assert_eq!(decoded.feedback_length, v.feedback_length);
    assert_eq!(decoded.category, v.category);
    assert_eq!(decoded.timestamp, v.timestamp);
}

#[test]
fn input_values_layout_is_little_endian() {
    let v = InputValues {
        response: 0x0102030405060708,
        rating: 0xaa,
        feedback_length: 0x1234,
        category: 7,
        timestamp: 0x1122334455667788,
    };
    let bytes = encode_input_values(&v);
    assert_eq!(&bytes[0..8], &0x0102030405060708u64.to_le_bytes());
    assert_eq!(bytes[8], 0xaa);
    assert_eq!(&bytes[9..11], &0x1234u16.to_le_bytes());
    assert_eq!(bytes[11], 7);
    assert_eq!(&bytes[12..20], &0x1122334455667788u64.to_le_bytes());
}

#[test]
fn decode_rejects_wrong_length() {
    assert!(decode_input_values(&vec![0u8; 19]).is_none());
    assert!(decode_input_values(&vec![0u8; 21]).is_none());
    assert!(decode_input_values(&Vec::new()).is_none());
    assert!(decode_input_values(&vec![0u8; 20]).is_some());
}

#[test]
fn record_encodings_have_fixed_layout() {
    let processed = ProcessedResponse { score: 1, category_score: 2, time_bonus: 3, total: 4 };
    let bytes = encode_processed_response(&processed);
    assert_eq!(bytes.len(), 32);
    assert_eq!(&bytes[0..8], &1u64.to_le_bytes());
    assert_eq!(&bytes[24..32], &4u64.to_le_bytes());
    let eligibility = LoanEligibility { is_eligible: true, risk_score: 5, recommended_limit: 500 };
    let ebytes = encode_loan_eligibility(&eligibility);
    assert_eq!(ebytes.len(), 10);
    assert_eq!(ebytes[0], 1);
    assert_eq!(ebytes[1], 5);
    assert_eq!(&ebytes[2..10], &500u64.to_le_bytes());
}

#[test]
fn sealed_envelope_carries_its_metadata() {
    let key = pseudo_random_key(40);
    let env: Envelope = seal(&vec![1u8, 2], &key, 12345);
    assert_eq!(env.nonce, 12345);
    assert_eq!(env.public_key, key.bytes);
}

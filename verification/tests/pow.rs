use sha3::{Digest, Sha3_256};
use std::sync::Arc;
use sybil::mining::mine_attempt;
use sybil::pow::{hash_meets_difficulty, Compute, SybilPow, SybilSeal};

const LIMB3: u64 = 0x1122_3344_5566_7788;

fn sample_seal() -> SybilSeal {
    SybilSeal { nonce: [7u8; 32], difficulty: [0x0102_0304_0506_0708, 0, 9, LIMB3] }
}

#[test]
fn seal_encoding_layout() {
    let bytes = sample_seal().encode();
    assert_eq!(bytes.len(), 64);
    assert!(bytes[..32].iter().all(|b| *b == 7));
    assert_eq!(bytes[32], 0x08);
    assert_eq!(bytes[39], 0x01);
    assert_eq!(bytes[40], 0);
    assert_eq!(bytes[48], 9);
    assert_eq!(bytes[56], 0x88);
    assert_eq!(bytes[63], 0x11);
}

#[test]
fn seal_roundtrip() {
    let seal = sample_seal();
    assert_eq!(SybilSeal::decode(&seal.encode()), Some(seal));
}

#[test]
fn seal_decode_ignores_trailing_bytes() {
    let seal = sample_seal();
    let mut bytes = seal.encode();
    bytes.extend_from_slice(&[1, 2, 3]);
    assert_eq!(SybilSeal::decode(&bytes), Some(seal));
}

#[test]
fn seal_decode_short_input() {
    let bytes = sample_seal().encode();
    assert_eq!(SybilSeal::decode(&bytes[..63]), None);
    assert_eq!(SybilSeal::decode(&bytes[..31]), None);
    assert_eq!(SybilSeal::decode(&[]), None);
}

#[test]
fn compute_encoding_layout() {
    let compute = Compute { pre_hash: vec![1u8; 32], nonce: [2u8; 32], difficulty: [5, 0, 0, 0] };
    let bytes = compute.encode();
    assert_eq!(bytes.len(), 96);
    assert!(bytes[..32].iter().all(|b| *b == 1));
    assert!(bytes[32..64].iter().all(|b| *b == 2));
    assert_eq!(bytes[64], 5);
    assert!(bytes[65..].iter().all(|b| *b == 0));
}

#[test]
fn work_hash_is_sha3_of_encoding() {
    let compute = Compute { pre_hash: vec![3u8; 32], nonce: [4u8; 32], difficulty: [6, 7, 8, 9] };
    let expected: [u8; 32] = Sha3_256::digest(&compute.encode()[..]).into();
    assert_eq!(compute.work_hash(), expected);
    assert_ne!(compute.work_hash(), [0u8; 32]);
}

#[test]
fn hash_meets_difficulty_examples() {
    assert!(hash_meets_difficulty(&[0xff; 32], [1, 0, 0, 0]));
    assert!(!hash_meets_difficulty(&[0xff; 32], [2, 0, 0, 0]));
    assert!(hash_meets_difficulty(&[0xff; 32], [0, 0, 0, 0]));
    assert!(hash_meets_difficulty(&[0; 32], [u64::MAX; 4]));
    let mut two = [0u8; 32];
    two[31] = 2;
    assert!(!hash_meets_difficulty(&two, [0, 0, 0, 1 << 63]));
    let mut one = [0u8; 32];
    one[31] = 1;
    assert!(hash_meets_difficulty(&one, [0, 0, 0, 1 << 63]));
    assert!(hash_meets_difficulty(&one, [u64::MAX; 4]));
}

#[test]
fn hash_is_read_big_endian() {
    let mut high = [0u8; 32];
    high[0] = 1;
    assert!(!hash_meets_difficulty(&high, [256, 0, 0, 0]));
    assert!(hash_meets_difficulty(&high, [255, 0, 0, 0]));
    let mut top = [0u8; 32];
    top[0] = 0x80;
    assert!(!hash_meets_difficulty(&top, [2, 0, 0, 0]));
    assert!(hash_meets_difficulty(&top, [1, 0, 0, 0]));
}

#[test]
fn mined_seals_verify_and_failed_nonces_do_not() {
    let pow = SybilPow::new(Arc::new(()));
    let pre_hash = [9u8; 32];
    let difficulty = [3, 0, 0, 0];
    let (mut passed, mut failed) = (0, 0);
    for i in 0u8..64 {
        let nonce = [i; 32];
        match mine_attempt(&pre_hash, difficulty, nonce) {
            Some(seal) => {
                assert_eq!(seal, SybilSeal { nonce, difficulty }.encode());
                assert!(pow.verify(&pre_hash, &seal, difficulty));
                passed += 1;
            }
            None => {
                let seal = SybilSeal { nonce, difficulty }.encode();
                assert!(!pow.verify(&pre_hash, &seal, difficulty));
                failed += 1;
            }
        }
    }
    assert!(passed > 0 && failed > 0);
}

#[test]
fn verify_checks_the_given_difficulty_not_the_sealed_one() {
    let pow = SybilPow::new(Arc::new(()));
    let pre_hash = [1u8; 32];
    let nonce = [5u8; 32];
    let seal = SybilSeal { nonce, difficulty: [u64::MAX; 4] }.encode();
    assert!(pow.verify(&pre_hash, &seal, [1, 0, 0, 0]));
    assert!(pow.verify(&pre_hash, &seal, [0, 0, 0, 0]));
}

#[test]
fn verify_rejects_short_seal() {
    let pow = SybilPow::new(Arc::new(()));
    let seal = SybilSeal { nonce: [0; 32], difficulty: [1, 0, 0, 0] }.encode();
    assert!(!pow.verify(&[0; 32], &seal[..63], [0, 0, 0, 0]));
    assert!(!pow.verify(&[0; 32], &[], [0, 0, 0, 0]));
}

#[test]
fn verify_depends_on_pre_hash() {
    let pow = SybilPow::new(Arc::new(()));
    let difficulty = [3, 0, 0, 0];
    let nonce = [0u8; 32];
    let mut results = Vec::new();
    for i in 0u8..32 {
        let pre_hash = [i; 32];
        let seal = SybilSeal { nonce, difficulty }.encode();
        results.push(pow.verify(&pre_hash, &seal, difficulty));
        assert_eq!(
            results[i as usize],
            mine_attempt(&pre_hash, difficulty, nonce).is_some()
        );
    }
    assert!(results.iter().any(|r| *r) && results.iter().any(|r| !*r));
}

#[test]
fn clone_shares_the_client() {
    let client = Arc::new(41u32);
    let pow = SybilPow::new(client.clone());
    let copy = pow.clone();
    assert!(Arc::ptr_eq(pow.client(), copy.client()));
    assert!(Arc::ptr_eq(pow.client(), &client));
}

#[test]
fn compute_encoding_takes_any_hash_width() {
    let compute = Compute { pre_hash: vec![1u8; 20], nonce: [2u8; 32], difficulty: [5, 0, 0, 0] };
    let bytes = compute.encode();
    assert_eq!(bytes.len(), 84);
    assert!(bytes[..20].iter().all(|b| *b == 1));
    assert!(bytes[20..52].iter().all(|b| *b == 2));
    assert_eq!(bytes[52], 5);
}

#[test]
fn verify_passes_every_seal_at_difficulty_one() {
    let pow = SybilPow::new(Arc::new(()));
    for i in 0u8..16 {
        let seal = SybilSeal { nonce: [i; 32], difficulty: [7, 0, 0, 0] }.encode();
        assert!(pow.verify(&[i; 32], &seal, [1, 0, 0, 0]));
        assert!(pow.verify(&[i; 32], &seal, [0, 0, 0, 0]));
        assert!(mine_attempt(&[i; 32], [1, 0, 0, 0], [i; 32]).is_some());
    }
}

#[test]
fn verify_with_short_pre_hash_matches_mining() {
    let pow = SybilPow::new(Arc::new(()));
    let pre_hash = [8u8; 20];
    let difficulty = [3, 0, 0, 0];
    for i in 0u8..16 {
        let seal = SybilSeal { nonce: [i; 32], difficulty }.encode();
        assert_eq!(
            pow.verify(&pre_hash, &seal, difficulty),
            mine_attempt(&pre_hash, difficulty, [i; 32]).is_some()
        );
    }
}

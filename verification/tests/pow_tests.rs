use nockchain_pool::work::{validate_work, WorkOrderContext, WorkResult};
use nockchain_pool::pow::{
    block_hash, build_block_header, compare_hash_with_target, initial_nonce, next_nonce, nonce_solves, u64_le_bytes,
};

#[test]
fn hash_below_target_on_common_length() {
    assert!(compare_hash_with_target(&[0, 1, 2], &[0, 2, 0]));
    assert!(!compare_hash_with_target(&[0, 3, 0], &[0, 2, 9]));
    // equal is not below
    assert!(!compare_hash_with_target(&[5, 5], &[5, 5]));
    // only the common length counts
    assert!(!compare_hash_with_target(&[5, 5], &[5, 5, 9]));
    assert!(!compare_hash_with_target(&[], &[1]));
    assert!(compare_hash_with_target(&[0x00, 0x7f, 0xff], &[0x00, 0x80, 0xff]));
}

#[test]
fn little_endian_bytes() {
    assert_eq!(u64_le_bytes(0x0102030405060708), 0x0102030405060708u64.to_le_bytes().to_vec());
    assert_eq!(u64_le_bytes(0), vec![0; 8]);
}

#[test]
fn block_header_and_hash() {
    let h = build_block_header(&[1, 2], &[3], 258, &[9, 9]);
    assert_eq!(h, vec![1, 2, 3, 2, 1, 0, 0, 0, 0, 0, 0, 9, 9]);
    let hash = block_hash(&[1, 2], &[3], 258, &[9, 9]);
    assert_eq!(hash, blake3::hash(&h).as_bytes().to_vec());
    assert_eq!(hash.len(), 32);
}

#[test]
fn miner_hash_check() {
    let parent = [7u8; 32];
    let merkle = [8u8; 32];
    let nonce = [0u8; 32];
    let timestamp = 1_700_000_000u64;
    let mut data = parent.to_vec();
    data.extend_from_slice(&merkle);
    data.extend_from_slice(&timestamp.to_le_bytes());
    data.extend_from_slice(&nonce);
    let hash = blake3::hash(&data);
    let h = hash.as_bytes().to_vec();
    let targets = [vec![0xffu8; 32], vec![0u8; 32], h.clone(), vec![0x80u8; 32], vec![0xffu8; 33]];
    for t in targets.iter() {
        assert_eq!(nonce_solves(&parent, &merkle, timestamp, &nonce, t), compare_hash_with_target(&h, t));
    }
    // equal is not below; all zeros is never met
    assert!(!nonce_solves(&parent, &merkle, timestamp, &nonce, &h));
    assert!(!nonce_solves(&parent, &merkle, timestamp, &nonce, &[0u8; 32]));
}

#[test]
fn found_nonce_passes_the_pool_check() {
    let w = WorkOrderContext {
        work_id: "w1".to_string(),
        parent_hash: vec![3; 32],
        merkle_root: vec![4; 32],
        timestamp: 1_700_000_123,
        difficulty_target: {
            let mut t = vec![0xff; 32];
            t[0] = 0x10;
            t
        },
    };
    let mut nonce = initial_nonce(0);
    let mut tries = 0;
    while !nonce_solves(&w.parent_hash, &w.merkle_root, w.timestamp, &nonce, &w.difficulty_target) {
        next_nonce(&mut nonce);
        tries += 1;
        assert!(tries < 100_000);
    }
    let r = WorkResult { work_id: "w1".to_string(), nonce, miner_id: "m".to_string() };
    assert!(validate_work(Some(&w), &r));
}

#[test]
fn nonce_counter() {
    let n = initial_nonce(3);
    assert_eq!(n.len(), 32);
    assert_eq!(n[0], 3);
    assert!(n[1..].iter().all(|b| *b == 0));
    assert_eq!(initial_nonce(257)[0], 1);

    let mut n = vec![0u8, 0, 0];
    next_nonce(&mut n);
    assert_eq!(n, vec![1, 0, 0]);
    let mut n = vec![255u8, 255, 7];
    next_nonce(&mut n);
    assert_eq!(n, vec![0, 0, 8]);
    let mut n = vec![255u8; 4];
    next_nonce(&mut n);
    assert_eq!(n, vec![0; 4]);
    let mut n = vec![254u8, 3];
    next_nonce(&mut n);
    assert_eq!(n, vec![255, 3]);
}

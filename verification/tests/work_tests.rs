use nockchain_pool::error::ErrorKind;
use nockchain_pool::work::{
    assemble_work_order, block_submission, bytes_eq, default_target, generate_work, is_work_outdated, submit_ack,
    validate_work, work_for_new_miner, renew_work, submission_step, SubmissionStep, ChainState, MiningWire, WorkOrder, WorkOrderContext, WorkResult,
};

fn context(id: &str, target: Vec<u8>) -> WorkOrderContext {
    WorkOrderContext {
        work_id: id.to_string(),
        parent_hash: vec![1; 32],
        merkle_root: vec![2; 32],
        timestamp: 1_700_000_000,
        difficulty_target: target,
    }
}

fn header_hash(w: &WorkOrderContext, nonce: &[u8]) -> Vec<u8> {
    let mut data = w.parent_hash.clone();
    data.extend_from_slice(&w.merkle_root);
    data.extend_from_slice(&w.timestamp.to_le_bytes());
    data.extend_from_slice(nonce);
    blake3::hash(&data).as_bytes().to_vec()
}

#[test]
fn wire_verbs() {
    assert_eq!(MiningWire::SetPubKey.verb(), "setpubkey");
    assert_eq!(MiningWire::Enable.verb(), "enable");
}

#[test]
fn default_target_bytes() {
    let t = default_target();
    assert_eq!(t.len(), 32);
    assert_eq!(t[0], 0x00);
    assert_eq!(t[1], 0x80);
    assert!(t[2..].iter().all(|b| *b == 0xff));
}

#[test]
fn generated_work_has_an_id() {
    let w = generate_work(None);
    assert!(!w.work_id.is_empty());
    assert_eq!(w.work_id.len(), 36);
    let c: Vec<char> = w.work_id.chars().collect();
    for (i, ch) in c.iter().enumerate() {
        if [8, 13, 18, 23].contains(&i) {
            assert_eq!(*ch, '-');
        } else {
            assert!(ch.is_ascii_digit() || ('a'..='f').contains(ch));
        }
    }
    assert_eq!(c[14], '4');
    assert!(['8', '9', 'a', 'b'].contains(&c[19]));
    assert_eq!(w.parent_hash, vec![0; 32]);
    assert_eq!(w.merkle_root, vec![0; 32]);
    assert_eq!(w.difficulty_target, default_target());
    let w2 = generate_work(Some(ChainState { parent_hash: vec![5], merkle_root: vec![6], difficulty_target: vec![7] }));
    assert_eq!((w2.parent_hash, w2.merkle_root, w2.difficulty_target), (vec![5], vec![6], vec![7]));
    assert_ne!(w.work_id, generate_work(None).work_id);
}

#[test]
fn assembled_work_keeps_its_parts() {
    let w = assemble_work_order("id".to_string(), 42, None);
    assert_eq!(w.work_id, "id");
    assert_eq!(w.timestamp, 42);
    assert_eq!(w.difficulty_target, default_target());
}

#[test]
fn invalid_nonce_is_not_accepted() {
    // an impossible target: nothing is below all zeros
    let ctx = context("w1", vec![0; 32]);
    let result = WorkResult { work_id: "w1".to_string(), nonce: vec![0, 0, 0, 0], miner_id: "m".to_string() };
    assert!(!validate_work(Some(&ctx), &result));
    assert!(!submit_ack(false).success);
}

#[test]
fn valid_nonce_is_accepted_and_matches_the_hash_rule() {
    let ctx = context("w1", vec![0xff; 32]);
    let result = WorkResult { work_id: "w1".to_string(), nonce: vec![1, 2, 3], miner_id: "m".to_string() };
    let hash = header_hash(&ctx, &result.nonce);
    let expected = hash.iter().zip(ctx.difficulty_target.iter()).find(|(h, t)| h != t).map(|(h, t)| h < t).unwrap_or(false);
    assert_eq!(validate_work(Some(&ctx), &result), expected);
    // with the default target the outcome follows the same rule
    let ctx = context("w2", default_target());
    for n in 0u8..20 {
        let r = WorkResult { work_id: "w2".to_string(), nonce: vec![n], miner_id: "m".to_string() };
        let h = header_hash(&ctx, &r.nonce);
        let exp = h.iter().zip(ctx.difficulty_target.iter()).find(|(a, b)| a != b).map(|(a, b)| a < b).unwrap_or(false);
        assert_eq!(validate_work(Some(&ctx), &r), exp);
    }
}

#[test]
fn invalid_work_id_and_missing_work_are_not_accepted() {
    let ctx = context("w1", vec![0xff; 32]);
    let result = WorkResult { work_id: "invalid_id".to_string(), nonce: vec![1, 2, 3, 4], miner_id: "m".to_string() };
    assert!(!validate_work(Some(&ctx), &result));
    assert!(!validate_work(None, &result));
}

#[test]
fn outdated_work() {
    let ctx = context("w", vec![0]);
    assert!(is_work_outdated(None, Some(&[1; 32]), 0));
    assert!(is_work_outdated(Some(&ctx), None, ctx.timestamp));
    assert!(is_work_outdated(Some(&ctx), Some(&[9; 32]), ctx.timestamp));
    assert!(!is_work_outdated(Some(&ctx), Some(&[1; 32]), ctx.timestamp + 30));
    assert!(is_work_outdated(Some(&ctx), Some(&[1; 32]), ctx.timestamp + 31));
}

#[test]
fn new_miners_get_the_current_work() {
    assert!(work_for_new_miner(None).is_none());
    let ctx = context("cur", vec![3]);
    let w: WorkOrder = work_for_new_miner(Some(&ctx)).unwrap();
    assert_eq!(w.work_id, "cur");
    assert_eq!(w.timestamp, ctx.timestamp);
    assert_eq!(w.difficulty_target, vec![3]);
    let back = WorkOrderContext::from_order(&w);
    assert_eq!(back.parent_hash, ctx.parent_hash);
    assert_eq!(back.difficulty_hex(), "03");
    assert_eq!(context("x", vec![0x00, 0x80, 0xab]).difficulty_hex(), "0080ab");
}

#[test]
fn block_submissions() {
    let ctx = context("w", vec![0]);
    let r = WorkResult { work_id: "w".to_string(), nonce: vec![4, 4], miner_id: "m".to_string() };
    assert!(block_submission(None, &r).is_none());
    let b = block_submission(Some(&ctx), &r).unwrap();
    assert_eq!(b.parent_hash, ctx.parent_hash);
    assert_eq!(b.merkle_root, ctx.merkle_root);
    assert_eq!(b.timestamp, ctx.timestamp);
    assert_eq!(b.nonce, vec![4, 4]);
    let _ = ErrorKind::Other;
}

#[test]
fn byte_equality() {
    assert!(bytes_eq(&[1, 2], &[1, 2]));
    assert!(!bytes_eq(&[1, 2], &[1]));
    assert!(!bytes_eq(&[1, 2], &[1, 3]));
}

#[test]
fn refused_result_is_rejected_and_accepted_one_renews() {
    let w = context("w1", vec![0xff; 32]);
    let bad = WorkResult { work_id: "invalid_id".to_string(), nonce: vec![1, 2, 3, 4], miner_id: "m2".to_string() };
    let (ack, step) = submission_step(Some(&w), &bad);
    assert!(!ack.success);
    assert!(matches!(step, SubmissionStep::Reject));
    let (ack, step) = submission_step(None, &bad);
    assert!(!ack.success);
    assert!(matches!(step, SubmissionStep::Reject));

    let mut nonce = 0u64;
    let good = loop {
        let r = WorkResult { work_id: "w1".to_string(), nonce: nonce.to_le_bytes().to_vec(), miner_id: "m1".to_string() };
        if validate_work(Some(&w), &r) {
            break r;
        }
        nonce += 1;
    };
    let (ack, step) = submission_step(Some(&w), &good);
    assert!(ack.success);
    match step {
        SubmissionStep::SubmitAndRenew(b) => {
            assert_eq!(b.parent_hash, w.parent_hash);
            assert_eq!(b.merkle_root, w.merkle_root);
            assert_eq!(b.timestamp, w.timestamp);
            assert_eq!(b.nonce, good.nonce);
        }
        SubmissionStep::Reject => panic!("a valid result is accepted"),
    }
}

#[test]
fn renewal_installs_the_order_and_sends_it_to_every_miner() {
    let mut current = Some(context("old", vec![1]));
    let fresh = WorkOrder {
        work_id: "new".to_string(),
        parent_hash: vec![9; 32],
        merkle_root: vec![8; 32],
        timestamp: 77,
        difficulty_target: vec![7; 32],
    };
    let miners = vec!["a".to_string(), "b".to_string(), "c".to_string()];
    let recipients = renew_work(&mut current, &fresh, &miners);
    assert_eq!(recipients, miners);
    let c = current.unwrap();
    assert_eq!(c.work_id, "new");
    assert_eq!(c.parent_hash, vec![9; 32]);
    assert_eq!(c.timestamp, 77);
    assert_eq!(c.difficulty_target, vec![7; 32]);
    let mut none = None;
    assert!(renew_work(&mut none, &fresh, &vec![]).is_empty());
    assert!(none.is_some());
}

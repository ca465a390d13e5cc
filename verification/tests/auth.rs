use cita_pipeline::auth::{Verifier, SIGNATURE_BYTES_LEN};
use cita_pipeline::queue::TxHashesReqQueue;
use cita_pipeline::message::{Crypto, Message, MsgClass, OperateType, Ret, VerifyTxReq};
use cita_pipeline::types::{H256, BLOCKLIMIT};

fn digest(tag: u8) -> H256 {
    let mut bytes = [0u8; 32];
    bytes[0] = tag;
    bytes[31] = tag;
    H256(bytes)
}

fn height_of(entry: (String, Message)) -> u64 {
    let (topic, msg) = entry;
    assert_eq!(topic, "auth.blk_tx_hashs_req");
    assert_eq!(msg.operate, OperateType::Broadcast);
    assert_eq!(msg.origin, 0);
    match msg.content {
        MsgClass::BlockTxHashesReq(req) => req.height,
        other => panic!("unexpected content {:?}", other),
    }
}

/// Takes out all that waits in `sink`, and gives the heights that were asked for.
fn requested_heights(sink: &mut TxHashesReqQueue) -> Vec<u64> {
    let mut heights = Vec::new();
    while let Some(entry) = sink.pop() {
        heights.push(height_of(entry));
    }
    assert!(sink.is_empty());
    heights
}

fn request(tx_hash: H256, signer: Vec<u8>) -> VerifyTxReq {
    VerifyTxReq {
        valid_until_block: 0,
        hash: digest(9),
        signature: vec![7u8; SIGNATURE_BYTES_LEN],
        crypto: Crypto::SECP,
        tx_hash,
        signer,
        nonce: String::from("nonce"),
    }
}

#[test]
fn verify_init() {
    let mut v = Verifier::new();
    assert_eq!(v.is_inited(), false);
    let mut tx_pub = TxHashesReqQueue::new();
    v.update_hashes(0, Vec::new(), &mut tx_pub);
    assert_eq!(v.is_inited(), true);
    assert_eq!(v.get_height_latest(), Some(0));
    assert_eq!(v.get_height_low(), Some(0));
}

#[test]
fn verify_update() {
    let mut v = Verifier::new();
    let mut tx_pub = TxHashesReqQueue::new();
    v.update_hashes(100, Vec::new(), &mut tx_pub);
    assert_eq!(v.is_inited(), false);
    assert_eq!(v.get_height_latest(), Some(100));
    assert_eq!(v.get_height_low(), Some(1));
    for i in 0..99 {
        v.update_hashes(i, Vec::new(), &mut tx_pub);
    }
    assert_eq!(v.is_inited(), false);
    v.update_hashes(99, Vec::new(), &mut tx_pub);
    assert_eq!(v.is_inited(), true);

    v.update_hashes(101, Vec::new(), &mut tx_pub);
    assert_eq!(v.get_height_latest(), Some(101));
    assert_eq!(v.get_height_low(), Some(2));
}

#[test]
fn warm_start_from_genesis_asks_for_nothing() {
    let mut v = Verifier::new();
    let mut tx_pub = TxHashesReqQueue::new();
    v.update_hashes(0, Vec::new(), &mut tx_pub);
    assert!(v.is_inited());
    assert!(tx_pub.is_empty());
}

#[test]
fn cold_start_asks_for_the_rest_of_the_window() {
    let mut v = Verifier::new();
    let mut tx_pub = TxHashesReqQueue::new();
    v.update_hashes(100, Vec::new(), &mut tx_pub);
    assert_eq!(requested_heights(&mut tx_pub), (1..100).collect::<Vec<u64>>());
    for i in 1..99 {
        v.update_hashes(i, Vec::new(), &mut tx_pub);
        assert!(!v.is_inited(), "initialised too early, at {}", i);
    }
    v.update_hashes(99, Vec::new(), &mut tx_pub);
    assert!(v.is_inited());
    // Nothing but the first observation asked for anything.
    assert!(tx_pub.is_empty());
}

#[test]
fn cold_start_below_the_window_width_starts_at_zero() {
    let mut v = Verifier::new();
    let mut tx_pub = TxHashesReqQueue::new();
    v.update_hashes(BLOCKLIMIT - 1, Vec::new(), &mut tx_pub);
    assert_eq!(v.get_height_low(), Some(0));
    assert_eq!(requested_heights(&mut tx_pub), (0..BLOCKLIMIT - 1).collect::<Vec<u64>>());
    let mut w = Verifier::new();
    let mut sink = TxHashesReqQueue::new();
    w.update_hashes(BLOCKLIMIT, Vec::new(), &mut sink);
    assert_eq!(w.get_height_low(), Some(1));
}

#[test]
fn forward_step_evicts_what_falls_below() {
    let mut v = Verifier::new();
    let mut tx_pub = TxHashesReqQueue::new();
    v.update_hashes(100, vec![digest(100)], &mut tx_pub);
    for i in 1..100 {
        v.update_hashes(i, vec![digest(i as u8)], &mut tx_pub);
    }
    assert!(v.is_inited());
    assert!(v.check_hash_exist(&digest(1)));
    v.update_hashes(101, vec![digest(101)], &mut tx_pub);
    assert_eq!(v.get_height_latest(), Some(101));
    assert_eq!(v.get_height_low(), Some(2));
    assert!(v.is_inited());
    assert!(!v.check_hash_exist(&digest(1)));
    assert!(v.check_hash_exist(&digest(2)));
    assert!(v.check_hash_exist(&digest(101)));
}

#[test]
fn gap_is_asked_for_and_nothing_recorded() {
    let mut v = Verifier::new();
    let mut tx_pub = TxHashesReqQueue::new();
    for i in 0..=10 {
        v.update_hashes(i, Vec::new(), &mut tx_pub);
    }
    assert!(tx_pub.is_empty());
    assert_eq!(v.get_height_latest(), Some(10));
    v.update_hashes(15, vec![digest(15)], &mut tx_pub);
    assert_eq!(requested_heights(&mut tx_pub), vec![11, 12, 13, 14, 15]);
    assert_eq!(v.get_height_latest(), Some(10));
    assert_eq!(v.get_height_low(), Some(0));
    assert!(!v.check_hash_exist(&digest(15)));
}

#[test]
fn gap_up_to_the_highest_height_is_asked_for() {
    let mut v = Verifier::new();
    let mut tx_pub = TxHashesReqQueue::new();
    v.update_hashes(u64::MAX - 3, Vec::new(), &mut tx_pub);
    requested_heights(&mut tx_pub);
    v.update_hashes(u64::MAX, Vec::new(), &mut tx_pub);
    assert_eq!(requested_heights(&mut tx_pub), vec![u64::MAX - 2, u64::MAX - 1, u64::MAX]);
    assert_eq!(v.get_height_latest(), Some(u64::MAX - 3));
}

#[test]
fn block_below_the_window_is_ignored() {
    let mut v = Verifier::new();
    let mut tx_pub = TxHashesReqQueue::new();
    v.update_hashes(200, Vec::new(), &mut tx_pub);
    assert_eq!(requested_heights(&mut tx_pub).len(), 99);
    v.update_hashes(100, vec![digest(1)], &mut tx_pub);
    assert!(tx_pub.is_empty());
    assert_eq!(v.get_height_low(), Some(101));
    for i in 101..200 {
        v.update_hashes(i, Vec::new(), &mut tx_pub);
    }
    assert!(v.is_inited());
    assert!(!v.check_hash_exist(&digest(1)));
}

#[test]
fn block_within_the_window_overwrites_its_entry() {
    let mut v = Verifier::new();
    let mut tx_pub = TxHashesReqQueue::new();
    v.update_hashes(0, vec![digest(1)], &mut tx_pub);
    v.update_hashes(1, vec![digest(2)], &mut tx_pub);
    assert!(v.check_hash_exist(&digest(1)));
    v.update_hashes(0, vec![digest(3)], &mut tx_pub);
    assert!(!v.check_hash_exist(&digest(1)));
    assert!(v.check_hash_exist(&digest(2)));
    assert!(v.check_hash_exist(&digest(3)));
    assert!(v.is_inited());
}

#[test]
fn window_never_holds_more_than_its_width() {
    let mut v = Verifier::new();
    let mut tx_pub = TxHashesReqQueue::new();
    for i in 0..(3 * BLOCKLIMIT) {
        v.update_hashes(i, vec![digest((i % 251) as u8)], &mut tx_pub);
        let low = v.get_height_low().unwrap();
        let latest = v.get_height_latest().unwrap();
        assert_eq!(latest, i);
        assert!(latest - low + 1 <= BLOCKLIMIT);
        assert!(v.is_inited());
    }
    assert_eq!(v.get_height_low(), Some(3 * BLOCKLIMIT - BLOCKLIMIT));
}

#[test]
fn initialised_window_stays_initialised() {
    let mut v = Verifier::new();
    let mut tx_pub = TxHashesReqQueue::new();
    v.update_hashes(0, Vec::new(), &mut tx_pub);
    assert!(v.is_inited());
    for h in [1u64, 1, 0, 5, 2, 3, 900, 4, 5, 6, 2, u64::MAX, 7] {
        v.update_hashes(h, vec![digest(h as u8)], &mut tx_pub);
        assert!(v.is_inited(), "no longer initialised after {}", h);
    }
    assert!(!tx_pub.is_empty());
    assert_eq!(v.get_height_latest(), Some(7));
}

#[test]
fn uninitialised_window_answers_seen() {
    let mut v = Verifier::new();
    assert!(v.check_hash_exist(&digest(1)));
    let mut tx_pub = TxHashesReqQueue::new();
    v.update_hashes(500, Vec::new(), &mut tx_pub);
    assert!(!v.is_inited());
    assert!(v.check_hash_exist(&digest(1)));
}

#[test]
fn send_txhashs_req_covers_a_half_open_range() {
    let mut sink = TxHashesReqQueue::new();
    Verifier::send_txhashs_req(3, 6, &mut sink);
    Verifier::send_txhashs_req(6, 6, &mut sink);
    Verifier::send_txhashs_req(9, 2, &mut sink);
    Verifier::send_txhashs_req(8, 10, &mut sink);
    assert!(!sink.is_empty());
    assert_eq!(requested_heights(&mut sink), vec![3, 4, 5, 8, 9]);
    assert_eq!(sink.pop(), None);
}

#[test]
fn a_gap_of_any_width_takes_no_room() {
    let mut v = Verifier::new();
    let mut tx_pub = TxHashesReqQueue::new();
    v.update_hashes(0, Vec::new(), &mut tx_pub);
    v.update_hashes(u64::MAX, Vec::new(), &mut tx_pub);
    v.update_hashes(u64::MAX - 1, Vec::new(), &mut tx_pub);
    for expected in [1u64, 2, 3] {
        assert_eq!(tx_pub.pop().map(height_of), Some(expected));
    }
    assert!(!tx_pub.is_empty());
    assert_eq!(v.get_height_latest(), Some(0));
}

#[test]
fn verify_pipeline() {
    let key = vec![4u8; 64];
    let mut warm = Verifier::new();
    let mut tx_pub = TxHashesReqQueue::new();
    warm.update_hashes(0, vec![digest(1)], &mut tx_pub);

    let dup = warm.verfiy_tx(&request(digest(1), Vec::new()), Some(key.clone()));
    assert_eq!(dup.ret, Ret::Dup);
    assert_eq!(dup.tx_hash, digest(1));
    assert!(dup.signer.is_empty());

    let cold = Verifier::new();
    let not_ready = cold.verfiy_tx(&request(digest(1), Vec::new()), Some(key.clone()));
    assert_eq!(not_ready.ret, Ret::NotReady);
    assert!(!cold.needs_recovery(&request(digest(1), Vec::new())));

    assert!(warm.needs_recovery(&request(digest(2), Vec::new())));
    let ok = warm.verfiy_tx(&request(digest(2), Vec::new()), Some(key.clone()));
    assert_eq!(ok.ret, Ret::OK);
    assert_eq!(ok.tx_hash, digest(2));
    assert_eq!(ok.signer, key);

    let again = warm.verfiy_tx(&request(digest(2), Vec::new()), Some(key.clone()));
    assert_eq!(again.ret, ok.ret);
    assert_eq!(again.signer, ok.signer);
    assert_eq!(again.tx_hash, ok.tx_hash);
}

#[test]
fn verify_rejects_bad_signatures() {
    let key = vec![4u8; 64];
    let mut v = Verifier::new();
    let mut tx_pub = TxHashesReqQueue::new();
    v.update_hashes(0, Vec::new(), &mut tx_pub);

    let mut short = request(digest(2), Vec::new());
    short.signature.pop();
    assert!(!v.needs_recovery(&short));
    assert_eq!(v.verfiy_tx(&short, Some(key.clone())).ret, Ret::BadSig);
    assert_eq!(v.verify_sig(&short, Some(key.clone())), Err(()));

    let mut other_scheme = request(digest(2), Vec::new());
    other_scheme.crypto = Crypto::SM2;
    assert_eq!(v.verfiy_tx(&other_scheme, Some(key.clone())).ret, Ret::BadSig);
    assert_eq!(v.verify_sig(&other_scheme, Some(key.clone())), Err(()));

    let unrecoverable = request(digest(2), Vec::new());
    assert_eq!(v.verfiy_tx(&unrecoverable, None).ret, Ret::BadSig);
    assert_eq!(v.verify_sig(&unrecoverable, None), Err(()));
    assert_eq!(v.verify_sig(&unrecoverable, Some(key.clone())), Ok(key.clone()));

    let claimed_other = request(digest(2), vec![5u8; 64]);
    let resp = v.verfiy_tx(&claimed_other, Some(key.clone()));
    assert_eq!(resp.ret, Ret::BadSig);
    assert!(resp.signer.is_empty());

    let claimed_same = request(digest(2), key.clone());
    let resp = v.verfiy_tx(&claimed_same, Some(key.clone()));
    assert_eq!(resp.ret, Ret::OK);
    assert_eq!(resp.signer, key);
}

#[test]
fn verify_rejects_long_nonce_first() {
    let v = Verifier::new();
    let mut req = request(digest(1), Vec::new());
    req.nonce = "n".repeat(129);
    assert_eq!(v.verfiy_tx(&req, None).ret, Ret::InvalidNonce);
    assert!(!v.needs_recovery(&req));
    req.nonce = "n".repeat(128);
    assert_eq!(v.verfiy_tx(&req, None).ret, Ret::NotReady);
    // The limit counts bytes, not characters.
    let mut warm = Verifier::new();
    let mut tx_pub = TxHashesReqQueue::new();
    warm.update_hashes(0, Vec::new(), &mut tx_pub);
    req.nonce = "\u{e9}".repeat(64);
    assert_eq!(warm.verfiy_tx(&req, Some(vec![1])).ret, Ret::OK);
    req.nonce = "\u{e9}".repeat(65);
    assert_eq!(warm.verfiy_tx(&req, Some(vec![1])).ret, Ret::InvalidNonce);
}

#[test]
fn valid_until_block_lies_in_the_window_ahead() {
    let mut v = Verifier::new();
    assert!(!v.verify_valid_until_block(1));
    let mut tx_pub = TxHashesReqQueue::new();
    v.update_hashes(10, Vec::new(), &mut tx_pub);
    assert!(!v.verify_valid_until_block(10));
    assert!(v.verify_valid_until_block(11));
    assert!(v.verify_valid_until_block(10 + BLOCKLIMIT));
    assert!(!v.verify_valid_until_block(11 + BLOCKLIMIT));
    assert!(!v.verify_valid_until_block(9));
    let mut top = Verifier::new();
    top.update_hashes(u64::MAX - 1, Vec::new(), &mut tx_pub);
    assert!(top.verify_valid_until_block(u64::MAX));
    assert!(!top.verify_valid_until_block(u64::MAX - 1));
}

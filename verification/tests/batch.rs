use std::time::{Duration, SystemTime};

use cita_pipeline::batch::{
    batch_forward_new_tx, flush, flush_due, flush_idle, forward_service, profile_schedule, submit,
    NewTxFlowConfig, ProfileConfig,
};
use cita_pipeline::message::{
    BatchRequest, Message, MsgClass, OperateType, Req, Request, UnverifiedTransaction,
};

fn new_tx(tag: u8) -> Request {
    Request { request_id: vec![tag], req: Req::UnTx(UnverifiedTransaction { raw: vec![tag, tag] }) }
}

fn batch_of(entry: &(String, Message)) -> (&Vec<u8>, &Vec<Request>) {
    assert_eq!(entry.0, "jsonrpc.new_tx_batch");
    assert_eq!(entry.1.operate, OperateType::Broadcast);
    assert_eq!(entry.1.origin, 0);
    match &entry.1.content {
        MsgClass::Request(Request { request_id, req: Req::BatchReq(BatchRequest { new_tx_requests }) }) => {
            (request_id, new_tx_requests)
        }
        other => panic!("unexpected content {:?}", other),
    }
}

fn far_future() -> SystemTime {
    SystemTime::now() + Duration::from_secs(3600)
}

const PATIENT: NewTxFlowConfig = NewTxFlowConfig { count_per_batch: 2, buffer_duration: u32::MAX };

#[test]
fn flush_is_due_by_size_or_by_age() {
    let config = NewTxFlowConfig { count_per_batch: 3, buffer_duration: 1000 };
    assert!(!flush_due(3, Some(1000), &config));
    assert!(flush_due(4, Some(0), &config));
    assert!(flush_due(4, None, &config));
    assert!(flush_due(1, Some(1001), &config));
    assert!(!flush_due(0, None, &config));
    // More than a second counts in full.
    assert!(flush_due(1, Some(1_000_000_500), &config));
    let slow = NewTxFlowConfig { count_per_batch: 3, buffer_duration: u32::MAX };
    assert!(!flush_due(1, Some(u32::MAX as u128), &slow));
    assert!(flush_due(1, Some(u32::MAX as u128 + 1), &slow));
}

#[test]
fn other_topics_are_passed_on_at_once() {
    let mut buffer = vec![new_tx(1)];
    let mut tx_pub = Vec::new();
    let mut time_stamp = far_future();
    let stamp = time_stamp;
    let req = Request { request_id: vec![7], req: Req::BlockNumber };
    forward_service(String::from("jsonrpc.rpc"), req, &mut buffer, &mut time_stamp, &mut tx_pub, &PATIENT);
    assert_eq!(buffer, vec![new_tx(1)]);
    assert_eq!(time_stamp, stamp);
    assert_eq!(
        tx_pub,
        vec![(
            String::from("jsonrpc.rpc"),
            Message {
                operate: OperateType::Broadcast,
                origin: 0,
                content: MsgClass::Request(Request { request_id: vec![7], req: Req::BlockNumber }),
            },
        )]
    );
}

#[test]
fn new_transactions_are_gathered_until_the_batch_is_full() {
    let mut buffer = Vec::new();
    let mut tx_pub = Vec::new();
    let mut time_stamp = far_future();
    forward_service(String::from("jsonrpc.new_tx"), new_tx(1), &mut buffer, &mut time_stamp, &mut tx_pub, &PATIENT);
    forward_service(String::from("jsonrpc.new_tx"), new_tx(2), &mut buffer, &mut time_stamp, &mut tx_pub, &PATIENT);
    assert_eq!(buffer, vec![new_tx(1), new_tx(2)]);
    assert!(tx_pub.is_empty());
    forward_service(String::from("jsonrpc.new_tx"), new_tx(3), &mut buffer, &mut time_stamp, &mut tx_pub, &PATIENT);
    assert!(buffer.is_empty());
    assert_eq!(tx_pub.len(), 1);
    let (id, requests) = batch_of(&tx_pub[0]);
    assert_eq!(requests, &vec![new_tx(1), new_tx(2), new_tx(3)]);
    assert_eq!(id.len(), 16);
    assert!(time_stamp <= SystemTime::now());
}

#[test]
fn new_transaction_is_passed_on_when_the_batch_is_old() {
    let mut buffer = Vec::new();
    let mut tx_pub = Vec::new();
    let mut time_stamp = SystemTime::now() - Duration::from_secs(5);
    let config = NewTxFlowConfig { count_per_batch: 100, buffer_duration: 1000 };
    forward_service(String::from("jsonrpc.new_tx"), new_tx(1), &mut buffer, &mut time_stamp, &mut tx_pub, &config);
    assert!(buffer.is_empty());
    assert_eq!(tx_pub.len(), 1);
    assert_eq!(batch_of(&tx_pub[0]).1, &vec![new_tx(1)]);
    assert!(time_stamp > SystemTime::now() - Duration::from_secs(4));
}

#[test]
fn batch_ids_are_fresh_random_uuids() {
    let mut tx_pub = Vec::new();
    let mut time_stamp = far_future();
    for tag in 0..8 {
        let mut buffer = vec![new_tx(tag)];
        batch_forward_new_tx(&mut buffer, &mut time_stamp, &mut tx_pub);
        assert!(buffer.is_empty());
    }
    let ids: Vec<&Vec<u8>> = tx_pub.iter().map(|e| batch_of(e).0).collect();
    for (i, id) in ids.iter().enumerate() {
        assert_eq!(id.len(), 16);
        assert_eq!(id[6] & 0xf0, 0x40);
        assert_eq!(id[8] & 0xc0, 0x80);
        for other in &ids[i + 1..] {
            assert_ne!(id, other);
        }
    }
}

#[test]
fn flush_keeps_the_order_and_the_id() {
    let mut buffer = vec![new_tx(3), new_tx(1), new_tx(2)];
    let mut tx_pub = Vec::new();
    flush(&mut buffer, vec![9; 16], &mut tx_pub);
    assert!(buffer.is_empty());
    assert_eq!(tx_pub.len(), 1);
    let (id, requests) = batch_of(&tx_pub[0]);
    assert_eq!(id, &vec![9; 16]);
    assert_eq!(requests, &vec![new_tx(3), new_tx(1), new_tx(2)]);
}

#[test]
fn submit_tells_new_transactions_from_the_rest() {
    let mut buffer = Vec::new();
    let mut tx_pub = Vec::new();
    assert!(submit(String::from("jsonrpc.new_tx"), new_tx(1), &mut buffer, &mut tx_pub));
    assert!(!submit(String::from("jsonrpc.new_tx_batch"), new_tx(2), &mut buffer, &mut tx_pub));
    assert!(!submit(String::new(), new_tx(3), &mut buffer, &mut tx_pub));
    assert_eq!(buffer, vec![new_tx(1)]);
    assert_eq!(tx_pub.len(), 2);
    assert_eq!(tx_pub[0].0, "jsonrpc.new_tx_batch");
    assert_eq!(tx_pub[1].0, "");
}

#[test]
fn idle_flush_passes_on_what_waits() {
    let mut buffer = Vec::new();
    let mut tx_pub = Vec::new();
    let mut time_stamp = far_future();
    assert!(!flush_idle(&mut buffer, &mut time_stamp, &mut tx_pub));
    assert!(tx_pub.is_empty());
    buffer.push(new_tx(1));
    assert!(flush_idle(&mut buffer, &mut time_stamp, &mut tx_pub));
    assert!(buffer.is_empty());
    assert_eq!(batch_of(&tx_pub[0]).1, &vec![new_tx(1)]);
}

#[test]
fn a_clock_that_went_back_does_not_make_a_batch_old() {
    let mut buffer = Vec::new();
    let mut tx_pub = Vec::new();
    let mut time_stamp = far_future();
    let config = NewTxFlowConfig { count_per_batch: 100, buffer_duration: 0 };
    forward_service(String::from("jsonrpc.new_tx"), new_tx(1), &mut buffer, &mut time_stamp, &mut tx_pub, &config);
    assert_eq!(buffer, vec![new_tx(1)]);
    assert!(tx_pub.is_empty());
}

#[test]
fn profiler_runs_only_when_enabled_with_both_times() {
    let on = ProfileConfig { enable: true, flag_prof_start: 3, flag_prof_duration: 7 };
    assert_eq!(profile_schedule(&on), Some((3, 7)));
    assert_eq!(profile_schedule(&ProfileConfig { enable: false, ..on }), None);
    assert_eq!(profile_schedule(&ProfileConfig { flag_prof_start: 0, ..on }), None);
    assert_eq!(profile_schedule(&ProfileConfig { flag_prof_duration: 0, ..on }), None);
}

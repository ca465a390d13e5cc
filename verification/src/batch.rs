//! The admission batcher: requests from the front end are passed on at once, but for
//! new transactions, which are gathered and passed on in batches.

use std::time::SystemTime;
use vstd::prelude::*;
use crate::message::{
    BatchRequest, Message, MessageView, MsgClass, MsgClassView, Req, ReqView, Request,
    RequestView, TOPIC_NEW_TX, TOPIC_NEW_TX_BATCH,
};

verus! {

/// When a batch of new transactions is passed on.
#[derive(Clone, Copy, Debug)]
pub struct NewTxFlowConfig {
    /// A batch is passed on once it holds more requests than this.
    pub count_per_batch: usize,
    /// A batch is passed on once it is older than this, in nanoseconds.
    pub buffer_duration: u32,
}

/// Whether and when the profiler runs.
#[derive(Clone, Copy, Debug)]
pub struct ProfileConfig {
    pub enable: bool,
    /// Seconds to wait before the profiler starts.
    pub flag_prof_start: u64,
    /// Seconds for which the profiler runs.
    pub flag_prof_duration: u64,
}

/// Whether `id` can be the bytes of a random (version 4) UUID: sixteen bytes that
/// carry the version in the high half of the seventh and the variant in the top two
/// bits of the ninth.
pub open spec fn is_random_uuid(id: Seq<u8>) -> bool {
    &&& id.len() == 16
    &&& id[6] & 0xf0 == 0x40
    &&& id[8] & 0xc0 == 0x80
}

/// Calls `uuid::Uuid::new_v4` and gives the bytes of the UUID it made. The bytes come
/// from the system's random number generator, so all that is claimed of them is what
/// holds of every version 4 UUID: their number, and the version and variant bits.
#[verifier::external_body]
fn new_request_id() -> (id: Vec<u8>)
    ensures
        is_random_uuid(id@),
{
    uuid::Uuid::new_v4().as_bytes().to_vec()
}

/// The request that passes `requests` on as one batch under the id `request_id`, as
/// it is put on the bus.
pub open spec fn batch_entry(request_id: Seq<u8>, requests: Seq<Request>) -> (Seq<char>, MessageView) {
    (
        TOPIC_NEW_TX_BATCH@,
        Message::spec_init_default(
            MsgClassView::Request(
                RequestView { request_id, req: ReqView::BatchReq(requests) },
            ),
        ),
    )
}

/// The request `req` passed on by itself on `topic`, as it is put on the bus.
pub open spec fn single_entry(topic: Seq<char>, req: RequestView) -> (Seq<char>, MessageView) {
    (topic, Message::spec_init_default(MsgClassView::Request(req)))
}

/// Whether a batch of `buffered` requests, gathered for `elapsed` nanoseconds, is
/// passed on: it holds more than `count_per_batch` requests, or it is older than
/// `buffer_duration`. A batch whose age is not known is not taken to be old.
pub open spec fn spec_flush_due(buffered: nat, elapsed: Option<u128>, config: NewTxFlowConfig) -> bool {
    buffered > config.count_per_batch || (elapsed is Some && elapsed->0 > config.buffer_duration)
}

/// Whether a batch of `buffered` requests, gathered for `elapsed` nanoseconds, is
/// passed on.
pub fn flush_due(buffered: usize, elapsed: Option<u128>, config: &NewTxFlowConfig) -> (due: bool)
    ensures
        due == spec_flush_due(buffered as nat, elapsed, *config),
{
    if buffered > config.count_per_batch {
        return true;
    }
    match elapsed {
        Some(nanos) => nanos > config.buffer_duration as u128,
        None => false,
    }
}

/// Takes in the request `req` that came on `topic`: a new transaction joins
/// `new_tx_request_buffer`; anything else is put on `tx_pub` at once, by itself.
/// Says whether the request joined the buffer.
pub fn submit(
    topic: String,
    req: Request,
    new_tx_request_buffer: &mut Vec<Request>,
    tx_pub: &mut Vec<(String, Message)>,
) -> (buffered: bool)
    ensures
        buffered == (topic@ == TOPIC_NEW_TX@),
        buffered ==> final(new_tx_request_buffer)@ == old(new_tx_request_buffer)@.push(req)
            && final(tx_pub).deep_view() == old(tx_pub).deep_view(),
        !buffered ==> final(new_tx_request_buffer)@ == old(new_tx_request_buffer)@
            && final(tx_pub).deep_view() == old(tx_pub).deep_view().push(
            single_entry(topic@, req.deep_view()),
        ),
{
    if topic != TOPIC_NEW_TX.to_owned() {
        let msg = Message::init_default(MsgClass::Request(req));
        tx_pub.push((topic, msg));
        assert(tx_pub.deep_view() =~= old(tx_pub).deep_view().push(
            single_entry(topic@, req.deep_view()),
        ));
        false
    } else {
        new_tx_request_buffer.push(req);
        assert(tx_pub.deep_view() =~= old(tx_pub).deep_view());
        true
    }
}

/// Puts the requests of `new_tx_request_buffer` on `tx_pub` as one batch under the id
/// `request_id`, in the order in which they were gathered, and empties the buffer.
pub fn flush(
    new_tx_request_buffer: &mut Vec<Request>,
    request_id: Vec<u8>,
    tx_pub: &mut Vec<(String, Message)>,
)
    ensures
        final(new_tx_request_buffer)@ == Seq::<Request>::empty(),
        final(tx_pub).deep_view() == old(tx_pub).deep_view().push(
            batch_entry(request_id@, old(new_tx_request_buffer)@),
        ),
{
    let mut requests: Vec<Request> = Vec::new();
    std::mem::swap(new_tx_request_buffer, &mut requests);
    let batch_request = BatchRequest { new_tx_requests: requests };
    let request = Request { request_id, req: Req::BatchReq(batch_request) };
    let data = Message::init_default(MsgClass::Request(request));
    tx_pub.push((TOPIC_NEW_TX_BATCH.to_owned(), data));
    assert(tx_pub.deep_view() =~= old(tx_pub).deep_view().push(
        batch_entry(request_id@, old(new_tx_request_buffer)@),
    ));
}

/// The requests of a batch, where `entry` is one.
pub open spec fn requests_of(entry: (Seq<char>, MessageView)) -> Seq<Request> {
    match entry.1.content {
        MsgClassView::Request(request) => match request.req {
            ReqView::BatchReq(requests) => if entry.0 == TOPIC_NEW_TX_BATCH@ {
                requests
            } else {
                Seq::empty()
            },
            _ => Seq::empty(),
        },
        _ => Seq::empty(),
    }
}

/// The requests that were passed on in the batches among `sent`, in the order in
/// which they were passed on.
pub open spec fn batched(sent: Seq<(Seq<char>, MessageView)>) -> Seq<Request>
    decreases sent.len(),
{
    if sent.len() == 0 {
        Seq::empty()
    } else {
        batched(sent.drop_last()) + requests_of(sent.last())
    }
}

/// A batch that is passed on adds its requests, in their order, to those that were
/// passed on before.
pub proof fn lemma_batched_push(sent: Seq<(Seq<char>, MessageView)>, id: Seq<u8>, requests: Seq<Request>)
    ensures
        batched(sent.push(batch_entry(id, requests))) == batched(sent) + requests,
{
    let after = sent.push(batch_entry(id, requests));
    assert(after.drop_last() =~= sent);
    assert(requests_of(after.last()) == requests);
}

/// Whether `after` is `before` with one batch more: the requests `requests` under an
/// id that a random UUID gave.
pub open spec fn batch_was_sent(
    before: Seq<(Seq<char>, MessageView)>,
    after: Seq<(Seq<char>, MessageView)>,
    requests: Seq<Request>,
) -> bool {
    exists|id: Seq<u8>| #[trigger] is_random_uuid(id) && after == before.push(batch_entry(id, requests))
}

/// Passes the requests of `new_tx_request_buffer` on as one batch under a fresh id,
/// empties the buffer, and starts the time of the next batch.
pub fn batch_forward_new_tx(
    new_tx_request_buffer: &mut Vec<Request>,
    time_stamp: &mut SystemTime,
    tx_pub: &mut Vec<(String, Message)>,
)
    ensures
        final(new_tx_request_buffer)@ == Seq::<Request>::empty(),
        batch_was_sent(
            old(tx_pub).deep_view(),
            final(tx_pub).deep_view(),
            old(new_tx_request_buffer)@,
        ),
        batched(final(tx_pub).deep_view()) == batched(old(tx_pub).deep_view())
            + old(new_tx_request_buffer)@,
{
    let request_id = new_request_id();
    let ghost id = request_id@;
    flush(new_tx_request_buffer, request_id, tx_pub);
    *time_stamp = SystemTime::now();
    assert(is_random_uuid(id));
    proof {
        lemma_batched_push(old(tx_pub).deep_view(), id, old(new_tx_request_buffer)@);
    }
}

/// Takes in the request `req` that came on `topic`.
///
/// A request that is no new transaction is put on `tx_pub` at once. A new
/// transaction joins the buffer; the buffer is then passed on as one batch if it
/// holds more than `count_per_batch` requests, or if more than `buffer_duration` has
/// passed since `time_stamp`, the time at which the last batch was passed on.
pub fn forward_service(
    topic: String,
    req: Request,
    new_tx_request_buffer: &mut Vec<Request>,
    time_stamp: &mut SystemTime,
    tx_pub: &mut Vec<(String, Message)>,
    config: &NewTxFlowConfig,
)
    ensures
        topic@ != TOPIC_NEW_TX@ ==> {
            &&& final(new_tx_request_buffer)@ == old(new_tx_request_buffer)@
            &&& final(tx_pub).deep_view() == old(tx_pub).deep_view().push(
                single_entry(topic@, req.deep_view()),
            )
            &&& *final(time_stamp) == *old(time_stamp)
        },
        topic@ == TOPIC_NEW_TX@ ==> {
            ||| {
                &&& final(new_tx_request_buffer)@ == old(new_tx_request_buffer)@.push(req)
                &&& final(tx_pub).deep_view() == old(tx_pub).deep_view()
                &&& *final(time_stamp) == *old(time_stamp)
                &&& old(new_tx_request_buffer)@.len() + 1 <= config.count_per_batch
            }
            ||| {
                &&& final(new_tx_request_buffer)@ == Seq::<Request>::empty()
                &&& batch_was_sent(
                    old(tx_pub).deep_view(),
                    final(tx_pub).deep_view(),
                    old(new_tx_request_buffer)@.push(req),
                )
            }
        },
        // No new transaction is lost, passed on twice, or passed on out of order.
        topic@ == TOPIC_NEW_TX@ ==> batched(final(tx_pub).deep_view())
            + final(new_tx_request_buffer)@ == batched(old(tx_pub).deep_view())
            + old(new_tx_request_buffer)@.push(req),
{
    if submit(topic, req, new_tx_request_buffer, tx_pub) {
        let elapsed = match time_stamp.elapsed() {
            Ok(age) => Some(age.as_nanos()),
            Err(_) => None,
        };
        if flush_due(new_tx_request_buffer.len(), elapsed, config) {
            batch_forward_new_tx(new_tx_request_buffer, time_stamp, tx_pub);
            assert(batched(tx_pub.deep_view()) + Seq::<Request>::empty() =~= batched(
                old(tx_pub).deep_view(),
            ) + old(new_tx_request_buffer)@.push(req));
        }
    }
}

/// What is done when no request has come for one `buffer_duration`: the requests that
/// wait in the buffer are passed on as one batch. Says whether there were any.
pub fn flush_idle(
    new_tx_request_buffer: &mut Vec<Request>,
    time_stamp: &mut SystemTime,
    tx_pub: &mut Vec<(String, Message)>,
) -> (flushed: bool)
    ensures
        flushed == (old(new_tx_request_buffer)@.len() > 0),
        final(new_tx_request_buffer)@ == Seq::<Request>::empty(),
        flushed ==> batch_was_sent(
            old(tx_pub).deep_view(),
            final(tx_pub).deep_view(),
            old(new_tx_request_buffer)@,
        ),
        !flushed ==> final(tx_pub).deep_view() == old(tx_pub).deep_view() && *final(time_stamp)
            == *old(time_stamp),
        batched(final(tx_pub).deep_view()) == batched(old(tx_pub).deep_view())
            + old(new_tx_request_buffer)@,
{
    if new_tx_request_buffer.len() > 0 {
        batch_forward_new_tx(new_tx_request_buffer, time_stamp, tx_pub);
        true
    } else {
        assert(new_tx_request_buffer@ =~= Seq::<Request>::empty());
        assert(batched(tx_pub.deep_view()) + Seq::<Request>::empty() =~= batched(
            tx_pub.deep_view(),
        ));
        false
    }
}

/// When the profiler is to run: after `flag_prof_start` seconds and for
/// `flag_prof_duration` seconds, provided that it is enabled and neither is zero.
pub open spec fn spec_profile_schedule(config: ProfileConfig) -> Option<(u64, u64)> {
    if config.enable && config.flag_prof_start != 0 && config.flag_prof_duration != 0 {
        Some((config.flag_prof_start, config.flag_prof_duration))
    } else {
        None
    }
}

/// When the profiler is to run, as a delay and a duration in seconds, if at all.
pub fn profile_schedule(config: &ProfileConfig) -> (schedule: Option<(u64, u64)>)
    ensures
        schedule == spec_profile_schedule(*config),
{
    if config.enable && config.flag_prof_start != 0 && config.flag_prof_duration != 0 {
        Some((config.flag_prof_start, config.flag_prof_duration))
    } else {
        None
    }
}

} // verus!

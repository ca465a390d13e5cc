//! The queue of requests for the transaction hashes of blocks.
//!
//! A node that starts late, or that misses blocks, asks for the hashes of whole runs
//! of heights. The queue holds each run as its first height and its length, and
//! hands the requests out one by one.

use vstd::prelude::*;
use crate::message::{
    BlockTxHashesReq, Message, MessageView, MsgClass, MsgClassView, TOPIC_BLOCK_TXHASHES_REQ,
};

verus! {

/// The heights `first, first + 1, ..` below `end`, in ascending order.
pub open spec fn heights(first: int, end: int) -> Seq<u64> {
    Seq::new(if end > first { (end - first) as nat } else { 0 }, |i: int| (first + i) as u64)
}

/// The request for the transaction hashes at `height`, as it is put on the bus.
pub open spec fn txhashes_request(height: u64) -> (Seq<char>, MessageView) {
    (
        TOPIC_BLOCK_TXHASHES_REQ@,
        Message::spec_init_default(MsgClassView::BlockTxHashesReq(BlockTxHashesReq { height })),
    )
}

/// One request for each height of `heights(first, end)`, in that order.
pub open spec fn txhashes_requests(first: int, end: int) -> Seq<(Seq<char>, MessageView)> {
    heights(first, end).map_values(|h: u64| txhashes_request(h))
}

/// A run of heights: `count` of them, from `first` upwards.
#[derive(Clone, Copy, Debug, PartialEq, Eq, Structural)]
pub struct HeightRange {
    pub first: u64,
    pub count: u64,
}

impl HeightRange {
    /// A run holds a height at least, and none beyond the highest there is.
    pub open spec fn wf(self) -> bool {
        self.count >= 1 && self.first + self.count <= 0x1_0000_0000_0000_0000
    }

    /// One request for each height of the run, in ascending order.
    pub open spec fn requests(self) -> Seq<(Seq<char>, MessageView)> {
        txhashes_requests(self.first as int, self.first + self.count)
    }
}

/// The requests for the heights of `ranges`, run after run.
pub open spec fn pending(ranges: Seq<HeightRange>) -> Seq<(Seq<char>, MessageView)>
    decreases ranges.len(),
{
    if ranges.len() == 0 {
        Seq::empty()
    } else {
        pending(ranges.drop_last()) + ranges.last().requests()
    }
}

/// The requests of some runs are those of the first run, then those of the others.
pub proof fn lemma_pending_front(ranges: Seq<HeightRange>)
    requires
        ranges.len() > 0,
    ensures
        pending(ranges) == ranges[0].requests() + pending(ranges.drop_first()),
    decreases ranges.len(),
{
    if ranges.len() == 1 {
        assert(ranges.drop_last() =~= Seq::empty());
        assert(ranges.drop_first() =~= Seq::empty());
        assert(pending(ranges) =~= ranges[0].requests() + pending(ranges.drop_first()));
    } else {
        let init = ranges.drop_last();
        let tail = ranges.drop_first();
        lemma_pending_front(init);
        assert(tail.drop_last() =~= init.drop_first());
        assert(tail.last() == ranges.last());
        assert(pending(ranges) =~= ranges[0].requests() + pending(tail));
    }
}

/// Requests for the transaction hashes of blocks that wait to be sent, in the order
/// in which they were asked for. A run of heights takes the room of one, however long
/// it is.
#[derive(Clone, Debug, PartialEq, Eq)]
pub struct TxHashesReqQueue {
    ranges: Vec<HeightRange>,
}

impl View for TxHashesReqQueue {
    type V = Seq<(Seq<char>, MessageView)>;

    closed spec fn view(&self) -> Seq<(Seq<char>, MessageView)> {
        pending(self.ranges@)
    }
}

impl TxHashesReqQueue {
    /// The invariant of the queue.
    pub closed spec fn wf(&self) -> bool {
        forall|i: int| 0 <= i < self.ranges@.len() ==> (#[trigger] self.ranges@[i]).wf()
    }

    /// A queue in which nothing waits.
    pub fn new() -> (queue: TxHashesReqQueue)
        ensures
            queue.wf(),
            queue@ == Seq::<(Seq<char>, MessageView)>::empty(),
    {
        TxHashesReqQueue { ranges: Vec::new() }
    }

    /// Whether nothing waits.
    pub fn is_empty(&self) -> (r: bool)
        requires
            self.wf(),
        ensures
            r == (self@.len() == 0),
    {
        proof {
            if self.ranges@.len() > 0 {
                lemma_pending_front(self.ranges@);
                assert(self.ranges@[0].wf());
            }
        }
        self.ranges.len() == 0
    }

    /// Appends the requests for `count` heights from `first` upwards.
    pub(crate) fn push_range(&mut self, first: u64, count: u64)
        requires
            old(self).wf(),
            first + count <= 0x1_0000_0000_0000_0000,
        ensures
            final(self).wf(),
            final(self)@ == old(self)@ + txhashes_requests(first as int, first + count),
    {
        if count > 0 {
            self.ranges.push(HeightRange { first, count });
            assert(self.ranges@.drop_last() =~= old(self).ranges@);
        } else {
            assert(heights(first as int, first + count) =~= Seq::empty());
            assert(self@ =~= old(self)@ + txhashes_requests(first as int, first + count));
        }
    }

    /// Takes out the request that has waited longest, if any waits.
    pub fn pop(&mut self) -> (r: Option<(String, Message)>)
        requires
            old(self).wf(),
        ensures
            final(self).wf(),
            match r {
                Some(entry) => {
                    &&& old(self)@.len() > 0
                    &&& (entry.0@, entry.1.deep_view()) == old(self)@[0]
                    &&& final(self)@ == old(self)@.drop_first()
                },
                None => old(self)@.len() == 0 && final(self)@ == old(self)@,
            },
    {
        if self.ranges.len() == 0 {
            return None;
        }
        let range = self.ranges.remove(0);
        let ghost rest = self.ranges@;
        let ghost after = HeightRange { first: (range.first + 1) as u64, count: (range.count - 1) as u64 };
        proof {
            assert(rest =~= old(self).ranges@.drop_first());
            assert(old(self).ranges@[0].wf());
            lemma_pending_front(old(self).ranges@);
            assert(range.requests()[0] == txhashes_request(range.first));
            if range.count > 1 {
                assert(range.requests().drop_first() =~= after.requests());
            } else {
                assert(range.requests().drop_first() =~= Seq::empty());
            }
            assert((range.requests() + pending(rest)).drop_first() =~= range.requests().drop_first()
                + pending(rest));
        }
        if range.count > 1 {
            self.ranges.insert(0, HeightRange { first: range.first + 1, count: range.count - 1 });
            proof {
                assert(self.ranges@.drop_first() =~= rest);
                lemma_pending_front(self.ranges@);
                assert forall|i: int| 0 <= i < self.ranges@.len() implies (
                #[trigger] self.ranges@[i]).wf() by {
                    if i > 0 {
                        assert(self.ranges@[i] == old(self).ranges@[i]);
                    }
                }
            }
        } else {
            assert(Seq::<(Seq<char>, MessageView)>::empty() + pending(rest) =~= pending(rest));
            assert forall|i: int| 0 <= i < self.ranges@.len() implies (
            #[trigger] self.ranges@[i]).wf() by {
                assert(self.ranges@[i] == old(self).ranges@[i + 1]);
            }
        }
        let msg = Message::init_default(
            MsgClass::BlockTxHashesReq(BlockTxHashesReq { height: range.first }),
        );
        Some((TOPIC_BLOCK_TXHASHES_REQ.to_owned(), msg))
    }
}

} // verus!

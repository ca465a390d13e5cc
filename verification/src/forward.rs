//! The forwarder: it takes the messages that the bus delivers to the chain, keeps the
//! queue of blocks up to date, and says what has to be answered, persisted and
//! passed on.
//!
//! The chain store, the bus and the block processor stay outside. What the forwarder
//! needs from the store is read beforehand and handed in; what it wants done comes
//! back as a list of actions, in the order in which they have to take effect.

use vstd::prelude::*;
use crate::chain::{Action, ActionView, BlockInQueue, BlockInQueueView, Chain, ChainView, push_action};
use crate::message::{
    copy_hashes, Block, BlockTxHashesReq, BlockView, BlockWithProof, ErrorCode,
    FullTransaction, Message, MessageView, MsgClass, MsgClassView, OperateType,
    Proof, ProofView, Req, ReqView, Request, RequestView, Response, ResponseData,
    ResponseDataView, ResponseView, SyncRequest, SyncResponse, HMAX, TOPIC_CHAIN_BLK,
    TOPIC_CHAIN_RPC, TOPIC_EXECUTOR_RPC,
};
use crate::types::H256;

verus! {

/// What the chain store gave for the read that a request names.
#[derive(Debug, PartialEq, Eq)]
pub enum ReadOutcome {
    /// The store holds nothing under what the request names, or nothing was read.
    Missing,
    /// The result, as JSON.
    Text(String),
    /// A transaction with its place in the chain.
    Transaction(FullTransaction),
    /// The id of a filter that was installed.
    FilterId(u64),
    /// Whether the filter to be removed was there.
    Removed(bool),
    /// The parameter of the request could not be decoded; the text says why.
    BadParam(String),
    /// The result could not be encoded; the text says why.
    Unserialisable(String),
}

pub enum ReadOutcomeView {
    Missing,
    Text(Seq<char>),
    Transaction(Seq<u8>),
    FilterId(u64),
    Removed(bool),
    BadParam(Seq<char>),
    Unserialisable(Seq<char>),
}

impl DeepView for ReadOutcome {
    type V = ReadOutcomeView;

    open spec fn deep_view(&self) -> ReadOutcomeView {
        match self {
            ReadOutcome::Missing => ReadOutcomeView::Missing,
            ReadOutcome::Text(s) => ReadOutcomeView::Text(s@),
            ReadOutcome::Transaction(ts) => ReadOutcomeView::Transaction(ts.raw@),
            ReadOutcome::FilterId(id) => ReadOutcomeView::FilterId(*id),
            ReadOutcome::Removed(b) => ReadOutcomeView::Removed(*b),
            ReadOutcome::BadParam(s) => ReadOutcomeView::BadParam(s@),
            ReadOutcome::Unserialisable(s) => ReadOutcomeView::Unserialisable(s@),
        }
    }
}

/// What was read from the chain store before a message is dispatched.
#[derive(Debug, PartialEq, Eq)]
pub struct Found {
    /// The blocks that the store holds at the heights that were looked up.
    pub blocks: Vec<Block>,
    /// The proof that is persisted as the current one, if there is one.
    pub current_proof: Option<Proof>,
    /// The outcome of the read that a request names.
    pub read: ReadOutcome,
}

pub struct FoundView {
    pub blocks: Seq<BlockView>,
    pub current_proof: Option<ProofView>,
    pub read: ReadOutcomeView,
}

impl DeepView for Found {
    type V = FoundView;

    open spec fn deep_view(&self) -> FoundView {
        FoundView {
            blocks: self.blocks.deep_view(),
            current_proof: self.current_proof.deep_view(),
            read: self.read.deep_view(),
        }
    }
}

impl Found {
    /// Nothing was read.
    pub fn nothing() -> (found: Found)
        ensures
            found.deep_view() == (FoundView {
                blocks: Seq::empty(),
                current_proof: None,
                read: ReadOutcomeView::Missing,
            }),
    {
        let found = Found { blocks: Vec::new(), current_proof: None, read: ReadOutcome::Missing };
        assert(found.blocks.deep_view() =~= Seq::empty());
        found
    }
}

/// How a request is dealt with.
#[derive(Clone, Copy, Debug, PartialEq, Eq, Structural)]
pub enum Route {
    /// It is answered from what the forwarder knows.
    Answer,
    /// It is answered from what the chain store gives for the read that it names.
    Query,
    /// It is passed on to the executor as it came.
    Retransmit,
}

/// What has to be read from the chain store before a message can be dispatched.
#[derive(Debug, PartialEq, Eq)]
pub enum Lookup {
    Nothing,
    /// The read that the request names.
    Read,
    /// The blocks at these heights, and the current proof.
    Blocks(Vec<u64>),
}

pub enum LookupView {
    Nothing,
    Read,
    Blocks(Seq<u64>),
}

impl DeepView for Lookup {
    type V = LookupView;

    open spec fn deep_view(&self) -> LookupView {
        match self {
            Lookup::Nothing => LookupView::Nothing,
            Lookup::Read => LookupView::Read,
            Lookup::Blocks(heights) => LookupView::Blocks(heights@),
        }
    }
}

/// How the request `req` is dealt with.
pub open spec fn route(req: ReqView) -> Route {
    match req {
        ReqView::BlockByHash(_)
        | ReqView::BlockByHeight(_)
        | ReqView::Transaction(_)
        | ReqView::TransactionReceipt(_)
        | ReqView::Filter(_)
        | ReqView::NewFilter(_)
        | ReqView::NewBlockFilter
        | ReqView::UninstallFilter(_)
        | ReqView::FilterChanges(_)
        | ReqView::FilterLogs(_) => Route::Query,
        ReqView::Call(_) | ReqView::TransactionCount(_) | ReqView::Code(_) => Route::Retransmit,
        ReqView::BlockNumber | ReqView::UnTx(_) | ReqView::BatchReq(_) | ReqView::Other => Route::Answer,
    }
}

/// What has to be read from the chain store before `msg` can be dispatched.
pub open spec fn lookup_for(msg: MsgClassView) -> LookupView {
    match msg {
        MsgClassView::Request(req) => if route(req.req) == Route::Query {
            LookupView::Read
        } else {
            LookupView::Nothing
        },
        MsgClassView::SyncRequest(heights) => LookupView::Blocks(heights),
        MsgClassView::BlockTxHashesReq(req) => LookupView::Blocks(seq![req.height]),
        _ => LookupView::Nothing,
    }
}

/// The result that a read yields for the request that named it, where the outcome is
/// of the kind that the request calls for.
pub open spec fn read_result(req: ReqView, outcome: ReadOutcomeView) -> Option<ResponseDataView> {
    match (req, outcome) {
        (ReqView::BlockByHash(_), ReadOutcomeView::Text(s)) => Some(ResponseDataView::Block(s)),
        (ReqView::BlockByHeight(_), ReadOutcomeView::Text(s)) => Some(ResponseDataView::Block(s)),
        (ReqView::Transaction(_), ReadOutcomeView::Transaction(ts)) => Some(
            ResponseDataView::Ts(ts),
        ),
        (ReqView::TransactionReceipt(_), ReadOutcomeView::Text(s)) => Some(
            ResponseDataView::Receipt(s),
        ),
        (ReqView::Filter(_), ReadOutcomeView::Text(s)) => Some(ResponseDataView::Logs(s)),
        (ReqView::NewFilter(_), ReadOutcomeView::FilterId(id)) => Some(
            ResponseDataView::FilterId(id),
        ),
        (ReqView::NewBlockFilter, ReadOutcomeView::FilterId(id)) => Some(
            ResponseDataView::FilterId(id),
        ),
        (ReqView::UninstallFilter(_), ReadOutcomeView::Removed(b)) => Some(
            ResponseDataView::UninstallFilter(b),
        ),
        (ReqView::FilterChanges(_), ReadOutcomeView::Text(s)) => Some(
            ResponseDataView::FilterChanges(s),
        ),
        (ReqView::FilterLogs(_), ReadOutcomeView::Text(s)) => Some(
            ResponseDataView::FilterLogs(s),
        ),
        _ => None,
    }
}

/// The code and the result of the response to a request that is answered from a read
/// without a result: an error is reported as a query error with its text, in the
/// place of the block where a block was asked for by a parameter that could not be
/// decoded; anything else means that the chain holds nothing.
pub open spec fn read_failure(req: ReqView, outcome: ReadOutcomeView) -> (
    Option<ErrorCode>,
    Option<ResponseDataView>,
) {
    match outcome {
        ReadOutcomeView::BadParam(e) => if req is BlockByHash || req is BlockByHeight {
            (Some(ErrorCode::QueryError), Some(ResponseDataView::Block(e)))
        } else {
            (Some(ErrorCode::QueryError), Some(ResponseDataView::ErrorMsg(e)))
        },
        ReadOutcomeView::Unserialisable(e) => (
            Some(ErrorCode::QueryError),
            Some(ResponseDataView::ErrorMsg(e)),
        ),
        _ => (None, Some(ResponseDataView::Nothing(true))),
    }
}

/// The first of `found` that stands at `height`, if there is one.
pub open spec fn block_at(found: Seq<BlockView>, height: u64) -> Option<BlockView>
    decreases found.len(),
{
    if found.len() == 0 {
        None
    } else if found[0].height == height {
        Some(found[0])
    } else {
        block_at(found.drop_first(), height)
    }
}

/// For each of `heights`, in order, the block of `found` at that height, where there
/// is one.
pub open spec fn blocks_at(heights: Seq<u64>, found: Seq<BlockView>) -> Seq<BlockView>
    decreases heights.len(),
{
    if heights.len() == 0 {
        Seq::empty()
    } else {
        let before = blocks_at(heights.drop_last(), found);
        match block_at(found, heights.last()) {
            Some(block) => before.push(block),
            None => before,
        }
    }
}

/// The transaction hashes of a block, if there is one.
pub open spec fn hashes_of(block: Option<BlockView>) -> Option<Seq<H256>> {
    match block {
        Some(b) => Some(b.tx_hashes),
        None => None,
    }
}

impl ChainView {
    /// The code and the result of the response to the request `req`, where `outcome`
    /// is what the chain store gave for the read that the request names.
    pub open spec fn answer(self, req: ReqView, outcome: ReadOutcomeView) -> (
        Option<ErrorCode>,
        Option<ResponseDataView>,
    ) {
        match route(req) {
            Route::Query => match read_result(req, outcome) {
                Some(data) => (None, Some(data)),
                None => read_failure(req, outcome),
            },
            _ => if req is BlockNumber {
                (None, Some(ResponseDataView::BlockNumber(self.block_number())))
            } else {
                (None, None)
            },
        }
    }

    /// What is done about the request `req`, which came as the bytes `imsg`: a request
    /// for the executor is passed on as it came; any other is answered under its own
    /// id on the chain's topic.
    pub open spec fn reply(self, req: RequestView, imsg: Seq<u8>, outcome: ReadOutcomeView) -> ActionView {
        if route(req.req) == Route::Retransmit {
            ActionView::Relay(TOPIC_EXECUTOR_RPC@, imsg)
        } else {
            ActionView::Publish(
                TOPIC_CHAIN_RPC@,
                Message::spec_init_default(
                    MsgClassView::Response(
                        ResponseView {
                            request_id: req.request_id,
                            code: self.answer(req.req, outcome).0,
                            data: self.answer(req.req, outcome).1,
                        },
                    ),
                ),
            )
        }
    }

    /// The blocks that answer a peer's request for `heights`: those of `found` at
    /// these heights, and after them a proof-only block with the current proof where
    /// there is one and the current height is among `heights`.
    pub open spec fn sync_blocks(
        self,
        heights: Seq<u64>,
        found: Seq<BlockView>,
        current_proof: Option<ProofView>,
    ) -> Seq<BlockView> {
        if heights.contains(self.current_height) && current_proof is Some {
            blocks_at(heights, found).push(BlockView::proof_only(current_proof->0))
        } else {
            blocks_at(heights, found)
        }
    }

    /// What is done about the request of the peer `origin` for the blocks at
    /// `heights`: the blocks go to that peer alone, unless there are none.
    pub open spec fn sync_reply(
        self,
        heights: Seq<u64>,
        origin: u32,
        found: Seq<BlockView>,
        current_proof: Option<ProofView>,
    ) -> Seq<ActionView> {
        let blocks = self.sync_blocks(heights, found, current_proof);
        if blocks.len() > 0 {
            seq![
                ActionView::Publish(
                    TOPIC_CHAIN_BLK@,
                    Message::spec_init(
                        OperateType::Single,
                        origin,
                        MsgClassView::SyncResponse(blocks),
                    ),
                ),
            ]
        } else {
            Seq::empty()
        }
    }

    /// What is done about a request for the transaction hashes of the block at
    /// `height`: they are announced where the chain store holds them.
    pub open spec fn tx_hashes_reply(self, height: u64, tx_hashes: Option<Seq<H256>>) -> Seq<
        ActionView,
    > {
        match tx_hashes {
            Some(hashes) => seq![self.tx_hashes_notice(height, hashes)],
            None => Seq::empty(),
        }
    }

    /// The chain after the message `msg`, which came as the bytes `imsg`, and what the
    /// host has to do, where `found` is what was read from the chain store for it.
    pub open spec fn dispatch(self, msg: MessageView, imsg: Seq<u8>, found: FoundView) -> (
        ChainView,
        Seq<ActionView>,
    ) {
        match msg.content {
            MsgClassView::Request(req) => (self, seq![self.reply(req, imsg, found.read)]),
            MsgClassView::ExecutedResult(info) => (self, seq![ActionView::WriteExecuted(info)]),
            MsgClassView::BlockWithProof(block, proof) => self.consensus_enqueue(block, proof),
            MsgClassView::SyncRequest(heights) => (
                self,
                self.sync_reply(heights, msg.origin, found.blocks, found.current_proof),
            ),
            MsgClassView::SyncResponse(blocks) => self.deal_sync(blocks),
            MsgClassView::BlockTxHashesReq(req) => (
                self,
                self.tx_hashes_reply(req.height, hashes_of(block_at(found.blocks, req.height))),
            ),
            _ => (self, Seq::empty()),
        }
    }
}

/// A copy of `heights`.
fn copy_heights(heights: &Vec<u64>) -> (r: Vec<u64>)
    ensures
        r@ == heights@,
{
    let mut r: Vec<u64> = Vec::new();
    let mut i: usize = 0;
    while i < heights.len()
        invariant
            i <= heights.len(),
            r@ == heights@.subrange(0, i as int),
        decreases heights.len() - i,
    {
        r.push(heights[i]);
        assert(r@ =~= heights@.subrange(0, i + 1));
        i = i + 1;
    }
    assert(r@ =~= heights@);
    r
}

/// Position in `found` of the first block that stands at `height`, if there is one.
fn find_block(found: &Vec<Block>, height: u64) -> (at: Option<usize>)
    ensures
        match at {
            Some(i) => i < found.len() && block_at(found.deep_view(), height) == Some(
                found[i as int].deep_view(),
            ),
            None => block_at(found.deep_view(), height) is None,
        },
{
    let ghost all = found.deep_view();
    let mut i: usize = 0;
    assert(all.skip(0) =~= all);
    while i < found.len()
        invariant
            i <= found.len(),
            all == found.deep_view(),
            block_at(all, height) == block_at(all.skip(i as int), height),
        decreases found.len() - i,
    {
        assert(all.skip(i as int)[0] == found[i as int].deep_view());
        if found[i].height == height {
            return Some(i);
        }
        assert(all.skip(i as int).drop_first() =~= all.skip(i + 1));
        i = i + 1;
    }
    None
}

impl Route {
    /// How the request `req` is dealt with.
    pub fn of(req: &Req) -> (r: Route)
        ensures
            r == route(req.deep_view()),
    {
        match req {
            Req::BlockByHash(_)
            | Req::BlockByHeight(_)
            | Req::Transaction(_)
            | Req::TransactionReceipt(_)
            | Req::Filter(_)
            | Req::NewFilter(_)
            | Req::NewBlockFilter
            | Req::UninstallFilter(_)
            | Req::FilterChanges(_)
            | Req::FilterLogs(_) => Route::Query,
            Req::Call(_) | Req::TransactionCount(_) | Req::Code(_) => Route::Retransmit,
            Req::BlockNumber | Req::UnTx(_) | Req::BatchReq(_) | Req::Other => Route::Answer,
        }
    }
}

/// The code and the result of the response to a request that is answered from a read
/// without a result.
fn failure(by_block: bool, outcome: ReadOutcome) -> (r: (Option<ErrorCode>, Option<ResponseData>))
    ensures
        forall|req: ReqView|
            by_block == (req is BlockByHash || req is BlockByHeight) ==> (r.0, r.1.deep_view())
                == #[trigger] read_failure(req, outcome.deep_view()),
{
    match outcome {
        ReadOutcome::BadParam(e) => {
            if by_block {
                (Some(ErrorCode::QueryError), Some(ResponseData::Block(e)))
            } else {
                (Some(ErrorCode::QueryError), Some(ResponseData::ErrorMsg(e)))
            }
        },
        ReadOutcome::Unserialisable(e) => (
            Some(ErrorCode::QueryError),
            Some(ResponseData::ErrorMsg(e)),
        ),
        _ => (None, Some(ResponseData::Nothing(true))),
    }
}

/// The forwarder of the chain.
#[derive(Debug, PartialEq, Eq)]
pub struct Forward {
    /// The chain as the forwarder sees it.
    pub chain: Chain,
}

impl Forward {
    /// A forwarder for `chain`.
    pub fn new(chain: Chain) -> (forward: Forward)
        ensures
            forward.chain == chain,
    {
        Forward { chain }
    }

    /// What has to be read from the chain store before `msg` can be dispatched.
    pub fn lookup(msg: &Message) -> (l: Lookup)
        ensures
            l.deep_view() == lookup_for(msg.content.deep_view()),
    {
        match &msg.content {
            MsgClass::Request(req) => {
                if Route::of(&req.req) == Route::Query {
                    Lookup::Read
                } else {
                    Lookup::Nothing
                }
            },
            MsgClass::SyncRequest(sync_req) => Lookup::Blocks(copy_heights(&sync_req.heights)),
            MsgClass::BlockTxHashesReq(req) => {
                let mut heights: Vec<u64> = Vec::new();
                heights.push(req.height);
                assert(heights@ =~= seq![req.height]);
                Lookup::Blocks(heights)
            },
            _ => Lookup::Nothing,
        }
    }

    /// Takes in the message `msg`, which came as the bytes `msg_bytes`, and says what
    /// the host has to do. `found` is what was read from the chain store for it.
    pub fn dispatch_msg(&mut self, _key: &str, msg: Message, msg_bytes: Vec<u8>, found: Found) -> (actions:
        Vec<Action>)
        ensures
            (final(self).chain@, actions.deep_view()) == old(self).chain@.dispatch(
                msg.deep_view(),
                msg_bytes@,
                found.deep_view(),
            ),
    {
        let origin = msg.origin;
        match msg.content {
            MsgClass::Request(req) => {
                let mut actions: Vec<Action> = Vec::new();
                assert(actions.deep_view() =~= Seq::empty());
                let action = self.reply_request(req, msg_bytes, found.read);
                push_action(&mut actions, action);
                assert(actions.deep_view() =~= seq![action.deep_view()]);
                actions
            },
            MsgClass::ExecutedResult(info) => {
                let mut actions: Vec<Action> = Vec::new();
                assert(actions.deep_view() =~= Seq::empty());
                push_action(&mut actions, Action::WriteExecuted(info));
                assert(actions.deep_view() =~= seq![ActionView::WriteExecuted(info.raw@)]);
                actions
            },
            MsgClass::BlockWithProof(proof_blk) => self.consensus_block_enqueue(proof_blk),
            MsgClass::SyncRequest(sync_req) => self.reply_syn_req(
                sync_req,
                origin,
                &found.blocks,
                found.current_proof,
            ),
            MsgClass::SyncResponse(sync_res) => self.deal_sync_blocks(sync_res),
            MsgClass::BlockTxHashesReq(req) => {
                let tx_hashes = match find_block(&found.blocks, req.height) {
                    Some(i) => Some(copy_hashes(&found.blocks[i].tx_hashes)),
                    None => None,
                };
                self.deal_block_tx_req(&req, tx_hashes)
            },
            _ => {
                let actions: Vec<Action> = Vec::new();
                assert(actions.deep_view() =~= Seq::empty());
                actions
            },
        }
    }

    /// The code and the result of the response to the request `req`, where `outcome`
    /// is what the chain store gave for the read that the request names.
    pub fn answer(&self, req: &Req, outcome: ReadOutcome) -> (r: (
        Option<ErrorCode>,
        Option<ResponseData>,
    ))
        ensures
            (r.0, r.1.deep_view()) == self.chain@.answer(req.deep_view(), outcome.deep_view()),
    {
        match req {
            Req::BlockNumber => (None, Some(ResponseData::BlockNumber(self.chain.block_number()))),
            Req::BlockByHash(_) | Req::BlockByHeight(_) => match outcome {
                ReadOutcome::Text(s) => (None, Some(ResponseData::Block(s))),
                other => failure(true, other),
            },
            Req::Transaction(_) => match outcome {
                ReadOutcome::Transaction(ts) => (None, Some(ResponseData::Ts(ts))),
                other => failure(false, other),
            },
            Req::TransactionReceipt(_) => match outcome {
                ReadOutcome::Text(s) => (None, Some(ResponseData::Receipt(s))),
                other => failure(false, other),
            },
            Req::Filter(_) => match outcome {
                ReadOutcome::Text(s) => (None, Some(ResponseData::Logs(s))),
                other => failure(false, other),
            },
            Req::NewFilter(_) | Req::NewBlockFilter => match outcome {
                ReadOutcome::FilterId(id) => (None, Some(ResponseData::FilterId(id))),
                other => failure(false, other),
            },
            Req::UninstallFilter(_) => match outcome {
                ReadOutcome::Removed(b) => (None, Some(ResponseData::UninstallFilter(b))),
                other => failure(false, other),
            },
            Req::FilterChanges(_) => match outcome {
                ReadOutcome::Text(s) => (None, Some(ResponseData::FilterChanges(s))),
                other => failure(false, other),
            },
            Req::FilterLogs(_) => match outcome {
                ReadOutcome::Text(s) => (None, Some(ResponseData::FilterLogs(s))),
                other => failure(false, other),
            },
            _ => (None, None),
        }
    }

    /// What is done about the request `req`, which came as the bytes `imsg`.
    /// `outcome` is what the chain store gave for the read that the request names.
    pub fn reply_request(&self, req: Request, imsg: Vec<u8>, outcome: ReadOutcome) -> (action: Action)
        ensures
            action.deep_view() == self.chain@.reply(req.deep_view(), imsg@, outcome.deep_view()),
    {
        if Route::of(&req.req) == Route::Retransmit {
            return Action::Relay(TOPIC_EXECUTOR_RPC.to_owned(), imsg);
        }
        let (code, data) = self.answer(&req.req, outcome);
        let response = Response { request_id: req.request_id, code, data };
        Action::Publish(
            TOPIC_CHAIN_RPC.to_owned(),
            Message::init_default(MsgClass::Response(response)),
        )
    }

    /// Takes in a block that consensus delivered with its proof, and says what the
    /// host has to do.
    pub fn consensus_block_enqueue(&mut self, proof_blk: BlockWithProof) -> (actions: Vec<Action>)
        ensures
            (final(self).chain@, actions.deep_view()) == old(self).chain@.consensus_enqueue(
                proof_blk.blk.deep_view(),
                proof_blk.proof.deep_view(),
            ),
            final(self).chain@.max_store_height >= old(self).chain@.max_store_height,
    {
        let block = proof_blk.blk;
        let proof = proof_blk.proof;
        let mut actions: Vec<Action> = Vec::new();
        assert(actions.deep_view() =~= Seq::empty());
        let height = block.height;
        if self.chain.max_store_height < HMAX && height == self.chain.max_store_height + 1 {
            let notice = self.chain.tx_hashes_notice(height, copy_hashes(&block.tx_hashes));
            self.chain.block_map.insert(
                height,
                BlockInQueue::ConsensusBlock(block.duplicate(), proof.duplicate()),
            );
            assert(self.chain@.block_map =~= old(self).chain@.block_map.insert(
                height,
                BlockInQueueView::ConsensusBlock(block.deep_view(), proof.deep_view()),
            ));
            push_action(&mut actions, Action::SaveCurrentProof(proof));
            push_action(&mut actions, Action::SetBlockBody(height, block));
            self.chain.max_store_height = height;
            push_action(&mut actions, notice);
            assert(actions.deep_view() =~= old(self).chain@.consensus_enqueue(
                block.deep_view(),
                proof.deep_view(),
            ).1);
        }
        actions
    }

    /// What is done about the request of the peer `origin` for the blocks at the
    /// heights of `sync_req`. `found` holds the blocks that the chain store has at
    /// these heights, `current_proof` the proof that is persisted as the current one.
    pub fn reply_syn_req(
        &self,
        sync_req: SyncRequest,
        origin: u32,
        found: &Vec<Block>,
        current_proof: Option<Proof>,
    ) -> (actions: Vec<Action>)
        ensures
            actions.deep_view() == self.chain@.sync_reply(
                sync_req.heights@,
                origin,
                found.deep_view(),
                current_proof.deep_view(),
            ),
    {
        let heights = sync_req.heights;
        let mut blocks: Vec<Block> = Vec::new();
        let mut asked_current = false;
        let mut i: usize = 0;
        assert(blocks.deep_view() =~= Seq::empty());
        assert(heights@.subrange(0, 0) =~= Seq::empty());
        while i < heights.len()
            invariant
                i <= heights.len(),
                blocks.deep_view() == blocks_at(heights@.subrange(0, i as int), found.deep_view()),
                asked_current == heights@.subrange(0, i as int).contains(self.chain.current_height),
            decreases heights.len() - i,
        {
            let height = heights[i];
            let ghost before = heights@.subrange(0, i as int);
            let ghost upto = heights@.subrange(0, i + 1);
            assert(upto.drop_last() =~= before);
            assert(upto.last() == height);
            match find_block(found, height) {
                Some(at) => {
                    let ghost had = blocks.deep_view();
                    let block = found[at].duplicate();
                    blocks.push(block);
                    assert(blocks.deep_view() =~= had.push(block.deep_view()));
                },
                None => {},
            }
            if height == self.chain.current_height {
                asked_current = true;
            }
            proof {
                if before.contains(self.chain.current_height) {
                    let j = choose|j: int| 0 <= j < before.len() && before[j] == self.chain.current_height;
                    assert(upto[j] == self.chain.current_height);
                }
                if upto.contains(self.chain.current_height) && height != self.chain.current_height {
                    let j = choose|j: int| 0 <= j < upto.len() && upto[j] == self.chain.current_height;
                    assert(before[j] == self.chain.current_height);
                }
                if height == self.chain.current_height {
                    assert(upto[i as int] == height);
                }
            }
            i = i + 1;
        }
        assert(heights@.subrange(0, i as int) =~= heights@);
        if asked_current {
            match current_proof {
                Some(proof) => {
                    let ghost had = blocks.deep_view();
                    let block = Block::proof_only(proof);
                    blocks.push(block);
                    assert(blocks.deep_view() =~= had.push(block.deep_view()));
                },
                None => {},
            }
        }
        let mut actions: Vec<Action> = Vec::new();
        assert(actions.deep_view() =~= Seq::empty());
        if blocks.len() > 0 {
            let msg = Message::init(
                OperateType::Single,
                origin,
                MsgClass::SyncResponse(SyncResponse { blocks }),
            );
            let action = Action::Publish(TOPIC_CHAIN_BLK.to_owned(), msg);
            push_action(&mut actions, action);
            assert(actions.deep_view() =~= seq![action.deep_view()]);
        }
        actions
    }

    /// Takes in the blocks that a peer delivered, in their order, and says what the
    /// host has to do.
    pub fn deal_sync_blocks(&mut self, sync_res: SyncResponse) -> (actions: Vec<Action>)
        ensures
            (final(self).chain@, actions.deep_view()) == old(self).chain@.deal_sync(
                sync_res.blocks.deep_view(),
            ),
    {
        let blocks = sync_res.blocks;
        let ghost all = blocks.deep_view();
        let mut actions: Vec<Action> = Vec::new();
        let mut i: usize = 0;
        assert(actions.deep_view() =~= Seq::empty());
        assert(all.skip(0) =~= all);
        assert(Seq::<ActionView>::empty() + self.chain@.deal_sync(all).1 =~= self.chain@.deal_sync(
            all,
        ).1);
        while i < blocks.len()
            invariant
                i <= blocks.len(),
                all == blocks.deep_view(),
                all == sync_res.blocks.deep_view(),
                old(self).chain@.deal_sync(all).0 == self.chain@.deal_sync(all.skip(i as int)).0,
                old(self).chain@.deal_sync(all).1 == actions.deep_view() + self.chain@.deal_sync(
                    all.skip(i as int),
                ).1,
            decreases blocks.len() - i,
        {
            let ghost rest = all.skip(i as int);
            assert(rest[0] == blocks[i as int].deep_view());
            assert(rest.drop_first() =~= all.skip(i + 1));
            let blk_height = blocks[i].height;
            if blk_height < self.chain.max_height {
                i = i + 1;
                continue ;
            }
            if blk_height != HMAX && !blocks[i].check_hash() {
                assert(rest.len() > 0);
                assert(self.chain@.deal_sync(rest) == (self.chain@, Seq::<ActionView>::empty()));
                assert(actions.deep_view() + Seq::<ActionView>::empty() =~= actions.deep_view());
                return actions;
            }
            let ghost before = self.chain@;
            let ghost done = actions.deep_view();
            let mut added = self.add_sync_block(blocks[i].duplicate());
            let ghost first = added.deep_view();
            actions.append(&mut added);
            assert(actions.deep_view() =~= done + first);
            assert(done + (first + self.chain@.deal_sync(all.skip(i + 1)).1) =~= (done + first)
                + self.chain@.deal_sync(all.skip(i + 1)).1);
            i = i + 1;
        }
        assert(actions.deep_view() + Seq::<ActionView>::empty() =~= actions.deep_view());
        actions
    }

    /// Takes in a block that a peer delivered, and says what the host has to do.
    pub fn add_sync_block(&mut self, block: Block) -> (actions: Vec<Action>)
        ensures
            (final(self).chain@, actions.deep_view()) == old(self).chain@.add_sync(
                block.deep_view(),
            ),
    {
        let mut actions: Vec<Action> = Vec::new();
        assert(actions.deep_view() =~= Seq::empty());
        match self.chain.proof_type {
            Some(kind) => {
                if kind != block.proof.kind {
                    return actions;
                }
            },
            None => {
                return actions;
            },
        }
        let proof_height = block.proof.block_height();
        let height = block.height;
        if height != HMAX {
            if proof_height == self.chain.max_height || proof_height
                == self.chain.max_store_height {
                let notice = self.chain.tx_hashes_notice(height, copy_hashes(&block.tx_hashes));
                self.chain.fill_proof(proof_height, &block.proof);
                let ghost bound = self.chain@;
                self.chain.block_map.insert(
                    height,
                    BlockInQueue::SyncBlock((block.duplicate(), None)),
                );
                assert(self.chain@.block_map =~= bound.block_map.insert(
                    height,
                    BlockInQueueView::SyncBlock(block.deep_view(), None),
                ));
                push_action(&mut actions, Action::SetBlockBody(height, block));
                self.chain.max_store_height = height;
                push_action(&mut actions, notice);
                assert(actions.deep_view() =~= old(self).chain@.add_sync(block.deep_view()).1);
            }
        } else if proof_height > self.chain.current_height {
            self.chain.fill_proof(proof_height, &block.proof);
        }
        actions
    }

    /// What is done about a request for the transaction hashes of a block.
    /// `tx_hashes` holds them where the chain store has the block.
    pub fn deal_block_tx_req(&self, block_tx_hashes_req: &BlockTxHashesReq, tx_hashes: Option<Vec<H256>>) -> (actions:
        Vec<Action>)
        ensures
            actions.deep_view() == self.chain@.tx_hashes_reply(
                block_tx_hashes_req.height,
                match tx_hashes {
                    Some(hashes) => Some(hashes@),
                    None => None,
                },
            ),
    {
        let mut actions: Vec<Action> = Vec::new();
        assert(actions.deep_view() =~= Seq::empty());
        match tx_hashes {
            Some(hashes) => {
                let action = self.chain.tx_hashes_notice(block_tx_hashes_req.height, hashes);
                push_action(&mut actions, action);
                assert(actions.deep_view() =~= seq![action.deep_view()]);
            },
            None => {},
        }
        actions
    }
}

} // verus!

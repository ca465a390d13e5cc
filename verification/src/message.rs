//! The structured messages that travel over the bus, as plain values.

use vstd::prelude::*;
use crate::types::H256;

verus! {

/// Topic on which the verifier asks the chain for a block's transaction hashes.
pub const TOPIC_BLOCK_TXHASHES_REQ: &'static str = "auth.blk_tx_hashs_req";

/// Topic on which the chain answers read requests.
pub const TOPIC_CHAIN_RPC: &'static str = "chain.rpc";

/// Topic on which read requests that need the executor are passed on.
pub const TOPIC_EXECUTOR_RPC: &'static str = "executor.rpc";

/// Topic on which blocks are sent to peers that asked for them.
pub const TOPIC_CHAIN_BLK: &'static str = "chain.blk";

/// Topic on which the chain announces the transaction hashes of a block.
pub const TOPIC_CHAIN_TXHASHES: &'static str = "chain.txhashes";

/// Topic on which new transactions arrive from the front end.
pub const TOPIC_NEW_TX: &'static str = "jsonrpc.new_tx";

/// Topic on which batches of new transactions are passed on.
pub const TOPIC_NEW_TX_BATCH: &'static str = "jsonrpc.new_tx_batch";

/// The height that marks a block which carries nothing but a proof.
pub const HMAX: u64 = 0xffff_ffff_ffff_ffff;

/// How a message is addressed.
#[derive(Clone, Copy, Debug, PartialEq, Eq, Structural)]
pub enum OperateType {
    /// To every peer.
    Broadcast,
    /// To the one peer named by the envelope's origin.
    Single,
    /// To every peer but the one named by the envelope's origin.
    Subtract,
}

/// Asks the chain for the transaction hashes of the block at one height.
#[derive(Clone, Copy, Debug, PartialEq, Eq, Structural)]
pub struct BlockTxHashesReq {
    pub height: u64,
}

impl DeepView for BlockTxHashesReq {
    type V = BlockTxHashesReq;

    open spec fn deep_view(&self) -> BlockTxHashesReq {
        *self
    }
}

/// The signature scheme of a transaction.
#[derive(Clone, Copy, Debug, PartialEq, Eq, Structural)]
pub enum Crypto {
    SECP,
    SM2,
}

/// Verdict on a transaction.
#[derive(Clone, Copy, Debug, PartialEq, Eq, Structural)]
pub enum Ret {
    /// Admitted.
    OK,
    /// The transaction hash is already in the window.
    Dup,
    /// The window is not yet initialised, so the hash may have been seen.
    NotReady,
    /// Wrong signature length, unsupported scheme, unrecoverable signature or signer mismatch.
    BadSig,
    /// The nonce is longer than 128 bytes.
    InvalidNonce,
    /// `valid_until_block` lies outside the validity window. The verdict of whoever
    /// asks the verifier whether that block is still ahead, and hears that it is not.
    InvalidUntilBlock,
}

/// Asks for one transaction to be verified.
#[derive(Clone, Debug, PartialEq, Eq)]
pub struct VerifyTxReq {
    pub valid_until_block: u64,
    /// The digest that was signed.
    pub hash: H256,
    pub signature: Vec<u8>,
    pub crypto: Crypto,
    pub tx_hash: H256,
    /// The claimed signer's public key; empty when none is claimed.
    pub signer: Vec<u8>,
    pub nonce: String,
}

pub struct VerifyTxReqView {
    pub valid_until_block: u64,
    pub hash: H256,
    pub signature: Seq<u8>,
    pub crypto: Crypto,
    pub tx_hash: H256,
    pub signer: Seq<u8>,
    pub nonce: Seq<char>,
}

impl DeepView for VerifyTxReq {
    type V = VerifyTxReqView;

    open spec fn deep_view(&self) -> VerifyTxReqView {
        VerifyTxReqView {
            valid_until_block: self.valid_until_block,
            hash: self.hash,
            signature: self.signature@,
            crypto: self.crypto,
            tx_hash: self.tx_hash,
            signer: self.signer@,
            nonce: self.nonce@,
        }
    }
}

/// The verdict on one transaction.
#[derive(Clone, Debug, PartialEq, Eq)]
pub struct VerifyTxResp {
    pub tx_hash: H256,
    pub ret: Ret,
    /// The recovered public key when the verdict is `OK`, empty otherwise.
    pub signer: Vec<u8>,
}

pub struct VerifyTxRespView {
    pub tx_hash: H256,
    pub ret: Ret,
    pub signer: Seq<u8>,
}

impl DeepView for VerifyTxResp {
    type V = VerifyTxRespView;

    open spec fn deep_view(&self) -> VerifyTxRespView {
        VerifyTxRespView { tx_hash: self.tx_hash, ret: self.ret, signer: self.signer@ }
    }
}

/// A signed transaction whose signature has not been checked yet, as it came off
/// the wire.
#[derive(Clone, Debug, PartialEq, Eq)]
pub struct UnverifiedTransaction {
    pub raw: Vec<u8>,
}

impl DeepView for UnverifiedTransaction {
    type V = Seq<u8>;

    open spec fn deep_view(&self) -> Seq<u8> {
        self.raw@
    }
}

/// The consensus algorithm that a proof belongs to.
#[derive(Clone, Copy, Debug, PartialEq, Eq, Structural)]
pub enum ProofType {
    AuthorityRound,
    Raft,
    Tendermint,
}

/// The proof that consensus was reached on a block.
#[derive(Clone, Debug, PartialEq, Eq)]
pub struct Proof {
    /// The proof as it travels on the wire.
    pub content: Vec<u8>,
    pub kind: ProofType,
    /// Height of the block that the proof vouches for; `HMAX` where it names none.
    pub height: u64,
}

pub struct ProofView {
    pub content: Seq<u8>,
    pub kind: ProofType,
    pub height: u64,
}

impl DeepView for Proof {
    type V = ProofView;

    open spec fn deep_view(&self) -> ProofView {
        ProofView { content: self.content@, kind: self.kind, height: self.height }
    }
}

impl ProofView {
    /// Height of the block that the proof vouches for, with 0 where it names none.
    pub open spec fn block_height(self) -> u64 {
        if self.height == HMAX {
            0
        } else {
            self.height
        }
    }
}

impl Proof {
    /// Height of the block that the proof vouches for, with 0 where it names none.
    pub fn block_height(&self) -> (h: u64)
        ensures
            h == self.deep_view().block_height(),
    {
        if self.height == HMAX {
            0
        } else {
            self.height
        }
    }

    /// A copy of the proof.
    pub fn duplicate(&self) -> (p: Proof)
        ensures
            p.deep_view() == self.deep_view(),
    {
        Proof { content: copy_bytes(&self.content), kind: self.kind, height: self.height }
    }
}

/// A copy of `bytes`.
pub fn copy_bytes(bytes: &Vec<u8>) -> (r: Vec<u8>)
    ensures
        r@ == bytes@,
{
    let mut r: Vec<u8> = Vec::new();
    let mut i: usize = 0;
    while i < bytes.len()
        invariant
            i <= bytes.len(),
            r@ == bytes@.subrange(0, i as int),
        decreases bytes.len() - i,
    {
        r.push(bytes[i]);
        assert(r@ =~= bytes@.subrange(0, i + 1));
        i = i + 1;
    }
    assert(r@ =~= bytes@);
    r
}

/// A copy of `hashes`.
pub fn copy_hashes(hashes: &Vec<H256>) -> (r: Vec<H256>)
    ensures
        r@ == hashes@,
{
    let mut r: Vec<H256> = Vec::new();
    let mut i: usize = 0;
    while i < hashes.len()
        invariant
            i <= hashes.len(),
            r@ == hashes@.subrange(0, i as int),
        decreases hashes.len() - i,
    {
        r.push(hashes[i]);
        assert(r@ =~= hashes@.subrange(0, i + 1));
        i = i + 1;
    }
    assert(r@ =~= hashes@);
    r
}

/// A block, as far as the pipeline reads it.
#[derive(Clone, Debug, PartialEq, Eq)]
pub struct Block {
    /// Height in the header; `HMAX` marks a block that carries nothing but a proof.
    pub height: u64,
    /// The proof in the header: that of the block before this one.
    pub proof: Proof,
    /// The transactions root that the header states.
    pub transactions_root: H256,
    /// The transactions root that the body yields.
    pub body_root: H256,
    /// Hashes of the transactions in the body, in order.
    pub tx_hashes: Vec<H256>,
    /// The block as it travels on the wire.
    pub raw: Vec<u8>,
}

pub struct BlockView {
    pub height: u64,
    pub proof: ProofView,
    pub transactions_root: H256,
    pub body_root: H256,
    pub tx_hashes: Seq<H256>,
    pub raw: Seq<u8>,
}

impl DeepView for Block {
    type V = BlockView;

    open spec fn deep_view(&self) -> BlockView {
        BlockView {
            height: self.height,
            proof: self.proof.deep_view(),
            transactions_root: self.transactions_root,
            body_root: self.body_root,
            tx_hashes: self.tx_hashes@,
            raw: self.raw@,
        }
    }
}

impl BlockView {
    /// Whether the body yields the transactions root that the header states.
    pub open spec fn check_hash(self) -> bool {
        self.transactions_root == self.body_root
    }

    /// The block that carries nothing but `proof`.
    pub open spec fn proof_only(proof: ProofView) -> BlockView {
        BlockView {
            height: HMAX,
            proof,
            transactions_root: H256::spec_zero(),
            body_root: H256::spec_zero(),
            tx_hashes: Seq::empty(),
            raw: Seq::empty(),
        }
    }
}

impl Block {
    /// Whether the body yields the transactions root that the header states.
    pub fn check_hash(&self) -> (r: bool)
        ensures
            r == self.deep_view().check_hash(),
    {
        self.transactions_root == self.body_root
    }

    /// The block that carries nothing but `proof`.
    pub fn proof_only(proof: Proof) -> (b: Block)
        ensures
            b.deep_view() == BlockView::proof_only(proof.deep_view()),
    {
        Block {
            height: HMAX,
            proof,
            transactions_root: H256::zero(),
            body_root: H256::zero(),
            tx_hashes: Vec::new(),
            raw: Vec::new(),
        }
    }

    /// A copy of the block.
    pub fn duplicate(&self) -> (b: Block)
        ensures
            b.deep_view() == self.deep_view(),
    {
        Block {
            height: self.height,
            proof: self.proof.duplicate(),
            transactions_root: self.transactions_root,
            body_root: self.body_root,
            tx_hashes: copy_hashes(&self.tx_hashes),
            raw: copy_bytes(&self.raw),
        }
    }
}

/// A block on which consensus was reached, with the proof of that.
#[derive(Clone, Debug, PartialEq, Eq)]
pub struct BlockWithProof {
    pub blk: Block,
    pub proof: Proof,
}

/// Asks a peer for the blocks at some heights.
#[derive(Clone, Debug, PartialEq, Eq)]
pub struct SyncRequest {
    pub heights: Vec<u64>,
}

/// The blocks that a peer sends on request.
#[derive(Clone, Debug, PartialEq, Eq)]
pub struct SyncResponse {
    pub blocks: Vec<Block>,
}

/// The gas that one account may use in a block.
#[derive(Clone, Debug, PartialEq, Eq)]
pub struct AccountGasLimit {
    pub common_gas_limit: u64,
    /// Limits of the accounts that have one of their own, by address.
    pub specific_gas_limit: Vec<(String, u64)>,
}

pub struct AccountGasLimitView {
    pub common_gas_limit: u64,
    pub specific_gas_limit: Seq<(Seq<char>, u64)>,
}

impl DeepView for AccountGasLimit {
    type V = AccountGasLimitView;

    open spec fn deep_view(&self) -> AccountGasLimitView {
        AccountGasLimitView {
            common_gas_limit: self.common_gas_limit,
            specific_gas_limit: self.specific_gas_limit.deep_view(),
        }
    }
}

impl AccountGasLimit {
    /// A copy of the limits.
    pub fn duplicate(&self) -> (r: AccountGasLimit)
        ensures
            r.deep_view() == self.deep_view(),
    {
        let mut specific: Vec<(String, u64)> = Vec::new();
        let mut i: usize = 0;
        while i < self.specific_gas_limit.len()
            invariant
                i <= self.specific_gas_limit.len(),
                specific.deep_view() == self.specific_gas_limit.deep_view().subrange(0, i as int),
            decreases self.specific_gas_limit.len() - i,
        {
            let ghost before = specific.deep_view();
            let entry = &self.specific_gas_limit[i];
            specific.push((entry.0.clone(), entry.1));
            assert(specific.deep_view() =~= before.push((entry.0@, entry.1)));
            assert(specific.deep_view() =~= self.specific_gas_limit.deep_view().subrange(0, i + 1));
            i = i + 1;
        }
        assert(specific.deep_view() =~= self.specific_gas_limit.deep_view());
        AccountGasLimit { common_gas_limit: self.common_gas_limit, specific_gas_limit: specific }
    }
}

/// Announces the transaction hashes of the block at one height.
#[derive(Clone, Debug, PartialEq, Eq)]
pub struct BlockTxHashes {
    pub height: u64,
    pub tx_hashes: Vec<H256>,
    pub block_gas_limit: u64,
    pub account_gas_limit: AccountGasLimit,
}

pub struct BlockTxHashesView {
    pub height: u64,
    pub tx_hashes: Seq<H256>,
    pub block_gas_limit: u64,
    pub account_gas_limit: AccountGasLimitView,
}

impl DeepView for BlockTxHashes {
    type V = BlockTxHashesView;

    open spec fn deep_view(&self) -> BlockTxHashesView {
        BlockTxHashesView {
            height: self.height,
            tx_hashes: self.tx_hashes@,
            block_gas_limit: self.block_gas_limit,
            account_gas_limit: self.account_gas_limit.deep_view(),
        }
    }
}

/// What the executor reports of a block it has run, as it travels on the wire.
#[derive(Clone, Debug, PartialEq, Eq)]
pub struct ExecutedResult {
    pub raw: Vec<u8>,
}

impl DeepView for ExecutedResult {
    type V = Seq<u8>;

    open spec fn deep_view(&self) -> Seq<u8> {
        self.raw@
    }
}

/// A transaction with its place in the chain, as it travels on the wire.
#[derive(Clone, Debug, PartialEq, Eq)]
pub struct FullTransaction {
    pub raw: Vec<u8>,
}

impl DeepView for FullTransaction {
    type V = Seq<u8>;

    open spec fn deep_view(&self) -> Seq<u8> {
        self.raw@
    }
}

/// What a request asks for. Text parameters are JSON.
#[derive(Debug, PartialEq, Eq)]
pub enum Req {
    BlockNumber,
    BlockByHash(String),
    BlockByHeight(String),
    Transaction(Vec<u8>),
    TransactionReceipt(Vec<u8>),
    Filter(String),
    Call(Vec<u8>),
    TransactionCount(String),
    Code(String),
    NewFilter(String),
    NewBlockFilter,
    UninstallFilter(u64),
    FilterChanges(u64),
    FilterLogs(u64),
    /// A new transaction.
    UnTx(UnverifiedTransaction),
    /// Several new transactions at once.
    BatchReq(BatchRequest),
    /// Anything else.
    Other,
}

/// New-transaction requests that are passed on together.
#[derive(Debug, PartialEq, Eq)]
pub struct BatchRequest {
    pub new_tx_requests: Vec<Request>,
}

/// A request from the front end.
#[derive(Debug, PartialEq, Eq)]
pub struct Request {
    pub request_id: Vec<u8>,
    pub req: Req,
}

/// Model of what a request asks for. The requests of a batch stand for themselves.
pub enum ReqView {
    BlockNumber,
    BlockByHash(Seq<char>),
    BlockByHeight(Seq<char>),
    Transaction(Seq<u8>),
    TransactionReceipt(Seq<u8>),
    Filter(Seq<char>),
    Call(Seq<u8>),
    TransactionCount(Seq<char>),
    Code(Seq<char>),
    NewFilter(Seq<char>),
    NewBlockFilter,
    UninstallFilter(u64),
    FilterChanges(u64),
    FilterLogs(u64),
    UnTx(Seq<u8>),
    BatchReq(Seq<Request>),
    Other,
}

pub struct RequestView {
    pub request_id: Seq<u8>,
    pub req: ReqView,
}

impl DeepView for Req {
    type V = ReqView;

    open spec fn deep_view(&self) -> ReqView {
        match self {
            Req::BlockNumber => ReqView::BlockNumber,
            Req::BlockByHash(s) => ReqView::BlockByHash(s@),
            Req::BlockByHeight(s) => ReqView::BlockByHeight(s@),
            Req::Transaction(b) => ReqView::Transaction(b@),
            Req::TransactionReceipt(b) => ReqView::TransactionReceipt(b@),
            Req::Filter(s) => ReqView::Filter(s@),
            Req::Call(b) => ReqView::Call(b@),
            Req::TransactionCount(s) => ReqView::TransactionCount(s@),
            Req::Code(s) => ReqView::Code(s@),
            Req::NewFilter(s) => ReqView::NewFilter(s@),
            Req::NewBlockFilter => ReqView::NewBlockFilter,
            Req::UninstallFilter(id) => ReqView::UninstallFilter(*id),
            Req::FilterChanges(id) => ReqView::FilterChanges(*id),
            Req::FilterLogs(id) => ReqView::FilterLogs(*id),
            Req::UnTx(tx) => ReqView::UnTx(tx.raw@),
            Req::BatchReq(batch) => ReqView::BatchReq(batch.new_tx_requests@),
            Req::Other => ReqView::Other,
        }
    }
}

impl DeepView for Request {
    type V = RequestView;

    open spec fn deep_view(&self) -> RequestView {
        RequestView { request_id: self.request_id@, req: self.req.deep_view() }
    }
}

/// Why a request failed.
#[derive(Clone, Copy, Debug, PartialEq, Eq, Structural)]
pub enum ErrorCode {
    /// A read request could not be decoded, or its result not encoded.
    QueryError,
}

/// The result that a response carries. Text results are JSON.
#[derive(Clone, Debug, PartialEq, Eq)]
pub enum ResponseData {
    ErrorMsg(String),
    BlockNumber(u64),
    Block(String),
    Ts(FullTransaction),
    /// The chain holds nothing under what the request names.
    Nothing(bool),
    Receipt(String),
    Logs(String),
    FilterId(u64),
    UninstallFilter(bool),
    FilterChanges(String),
    FilterLogs(String),
}

pub enum ResponseDataView {
    ErrorMsg(Seq<char>),
    BlockNumber(u64),
    Block(Seq<char>),
    Ts(Seq<u8>),
    Nothing(bool),
    Receipt(Seq<char>),
    Logs(Seq<char>),
    FilterId(u64),
    UninstallFilter(bool),
    FilterChanges(Seq<char>),
    FilterLogs(Seq<char>),
}

impl DeepView for ResponseData {
    type V = ResponseDataView;

    open spec fn deep_view(&self) -> ResponseDataView {
        match self {
            ResponseData::ErrorMsg(s) => ResponseDataView::ErrorMsg(s@),
            ResponseData::BlockNumber(n) => ResponseDataView::BlockNumber(*n),
            ResponseData::Block(s) => ResponseDataView::Block(s@),
            ResponseData::Ts(ts) => ResponseDataView::Ts(ts.raw@),
            ResponseData::Nothing(b) => ResponseDataView::Nothing(*b),
            ResponseData::Receipt(s) => ResponseDataView::Receipt(s@),
            ResponseData::Logs(s) => ResponseDataView::Logs(s@),
            ResponseData::FilterId(n) => ResponseDataView::FilterId(*n),
            ResponseData::UninstallFilter(b) => ResponseDataView::UninstallFilter(*b),
            ResponseData::FilterChanges(s) => ResponseDataView::FilterChanges(s@),
            ResponseData::FilterLogs(s) => ResponseDataView::FilterLogs(s@),
        }
    }
}

/// The answer to a request.
#[derive(Clone, Debug, PartialEq, Eq)]
pub struct Response {
    /// The id of the request that is answered.
    pub request_id: Vec<u8>,
    /// Set when the request failed.
    pub code: Option<ErrorCode>,
    pub data: Option<ResponseData>,
}

pub struct ResponseView {
    pub request_id: Seq<u8>,
    pub code: Option<ErrorCode>,
    pub data: Option<ResponseDataView>,
}

impl DeepView for Response {
    type V = ResponseView;

    open spec fn deep_view(&self) -> ResponseView {
        ResponseView {
            request_id: self.request_id@,
            code: self.code,
            data: self.data.deep_view(),
        }
    }
}

/// What a message carries.
#[derive(Debug, PartialEq, Eq)]
pub enum MsgClass {
    Request(Request),
    Response(Response),
    ExecutedResult(ExecutedResult),
    BlockWithProof(BlockWithProof),
    SyncRequest(SyncRequest),
    SyncResponse(SyncResponse),
    BlockTxHashes(BlockTxHashes),
    BlockTxHashesReq(BlockTxHashesReq),
    VerifyTxReq(VerifyTxReq),
    VerifyTxResp(VerifyTxResp),
    /// Anything else.
    Other,
}

pub enum MsgClassView {
    Request(RequestView),
    Response(ResponseView),
    ExecutedResult(Seq<u8>),
    BlockWithProof(BlockView, ProofView),
    SyncRequest(Seq<u64>),
    SyncResponse(Seq<BlockView>),
    BlockTxHashes(BlockTxHashesView),
    BlockTxHashesReq(BlockTxHashesReq),
    VerifyTxReq(VerifyTxReqView),
    VerifyTxResp(VerifyTxRespView),
    Other,
}

impl DeepView for MsgClass {
    type V = MsgClassView;

    open spec fn deep_view(&self) -> MsgClassView {
        match self {
            MsgClass::Request(r) => MsgClassView::Request(r.deep_view()),
            MsgClass::Response(r) => MsgClassView::Response(r.deep_view()),
            MsgClass::ExecutedResult(r) => MsgClassView::ExecutedResult(r.raw@),
            MsgClass::BlockWithProof(b) => MsgClassView::BlockWithProof(
                b.blk.deep_view(),
                b.proof.deep_view(),
            ),
            MsgClass::SyncRequest(r) => MsgClassView::SyncRequest(r.heights@),
            MsgClass::SyncResponse(r) => MsgClassView::SyncResponse(r.blocks.deep_view()),
            MsgClass::BlockTxHashes(r) => MsgClassView::BlockTxHashes(r.deep_view()),
            MsgClass::BlockTxHashesReq(r) => MsgClassView::BlockTxHashesReq(*r),
            MsgClass::VerifyTxReq(r) => MsgClassView::VerifyTxReq(r.deep_view()),
            MsgClass::VerifyTxResp(r) => MsgClassView::VerifyTxResp(r.deep_view()),
            MsgClass::Other => MsgClassView::Other,
        }
    }
}

/// The envelope of every message: how it is addressed, and what it carries.
#[derive(Debug, PartialEq, Eq)]
pub struct Message {
    pub operate: OperateType,
    /// Peer the message came from, or is addressed to.
    pub origin: u32,
    pub content: MsgClass,
}

pub struct MessageView {
    pub operate: OperateType,
    pub origin: u32,
    pub content: MsgClassView,
}

impl DeepView for Message {
    type V = MessageView;

    open spec fn deep_view(&self) -> MessageView {
        MessageView {
            operate: self.operate,
            origin: self.origin,
            content: self.content.deep_view(),
        }
    }
}

impl Message {
    /// The envelope that `init_default` gives a content: broadcast, from no peer.
    pub open spec fn spec_init_default(content: MsgClassView) -> MessageView {
        MessageView { operate: OperateType::Broadcast, origin: 0, content }
    }

    /// The envelope of a content that goes to one peer.
    pub open spec fn spec_init(operate: OperateType, origin: u32, content: MsgClassView) -> MessageView {
        MessageView { operate, origin, content }
    }

    /// Wraps a content, addressed as `operate` says with respect to the peer `origin`.
    pub fn init(operate: OperateType, origin: u32, content: MsgClass) -> (m: Message)
        ensures
            m.deep_view() == Message::spec_init(operate, origin, content.deep_view()),
    {
        Message { operate, origin, content }
    }

    /// Wraps a content for broadcast, from no peer.
    pub fn init_default(content: MsgClass) -> (m: Message)
        ensures
            m.deep_view() == Message::spec_init_default(content.deep_view()),
    {
        Message { operate: OperateType::Broadcast, origin: 0, content }
    }
}

} // verus!

//! The chain as the forwarder sees it: the queue of blocks that wait to be run, the
//! heights that bound it, and the rules by which blocks from consensus and blocks
//! from peers enter the queue.

use std::collections::BTreeMap;
use vstd::prelude::*;
use crate::message::{
    AccountGasLimit, AccountGasLimitView, Block, BlockTxHashes, BlockTxHashesView,
    BlockView, ExecutedResult, Message, MessageView, MsgClass, MsgClassView, Proof, ProofType,
    ProofView, HMAX, TOPIC_CHAIN_TXHASHES,
};
use crate::types::H256;

verus! {

/// A block that waits in the queue, by where it came from.
#[derive(Debug, PartialEq, Eq)]
pub enum BlockInQueue {
    /// A block from consensus, with its proof.
    ConsensusBlock(Block, Proof),
    /// A block from a peer. Its proof is known once the block after it has arrived.
    SyncBlock((Block, Option<Proof>)),
}

pub enum BlockInQueueView {
    ConsensusBlock(BlockView, ProofView),
    SyncBlock(BlockView, Option<ProofView>),
}

impl DeepView for BlockInQueue {
    type V = BlockInQueueView;

    open spec fn deep_view(&self) -> BlockInQueueView {
        match self {
            BlockInQueue::ConsensusBlock(block, proof) => BlockInQueueView::ConsensusBlock(
                block.deep_view(),
                proof.deep_view(),
            ),
            BlockInQueue::SyncBlock(pair) => BlockInQueueView::SyncBlock(
                pair.0.deep_view(),
                pair.1.deep_view(),
            ),
        }
    }
}

/// Something that the host of the pipeline has to do for it, outside of it.
#[derive(Debug, PartialEq, Eq)]
pub enum Action {
    /// Publish a message on a topic of the bus.
    Publish(String, Message),
    /// Publish bytes as they are on a topic of the bus.
    Relay(String, Vec<u8>),
    /// Hand an execution result to the block processor.
    WriteExecuted(ExecutedResult),
    /// Persist a proof as the current one.
    SaveCurrentProof(Proof),
    /// Persist the body of the block at a height.
    SetBlockBody(u64, Block),
}

pub enum ActionView {
    Publish(Seq<char>, MessageView),
    Relay(Seq<char>, Seq<u8>),
    WriteExecuted(Seq<u8>),
    SaveCurrentProof(ProofView),
    SetBlockBody(u64, BlockView),
}

impl DeepView for Action {
    type V = ActionView;

    open spec fn deep_view(&self) -> ActionView {
        match self {
            Action::Publish(topic, msg) => ActionView::Publish(topic@, msg.deep_view()),
            Action::Relay(topic, bytes) => ActionView::Relay(topic@, bytes@),
            Action::WriteExecuted(result) => ActionView::WriteExecuted(result.raw@),
            Action::SaveCurrentProof(proof) => ActionView::SaveCurrentProof(proof.deep_view()),
            Action::SetBlockBody(height, block) => ActionView::SetBlockBody(
                *height,
                block.deep_view(),
            ),
        }
    }
}

/// Mathematical model of the chain as the forwarder sees it.
pub struct ChainView {
    /// The queue of blocks, by height.
    pub block_map: Map<u64, BlockInQueueView>,
    /// Highest height whose block body is persisted; `HMAX` while there is none.
    pub max_store_height: u64,
    /// Highest height whose block has been run.
    pub max_height: u64,
    /// Height of the block that was run last.
    pub current_height: u64,
    /// The kind of proof that the chain accepts.
    pub proof_type: Option<ProofType>,
    pub block_gas_limit: u64,
    pub account_gas_limit: AccountGasLimitView,
}

impl ChainView {
    /// The invariant that binds the two frontiers: nothing is run before it is stored.
    pub open spec fn wf(self) -> bool {
        self.max_store_height >= self.max_height
    }

    /// The announcement of the transaction hashes of the block at `height`.
    pub open spec fn tx_hashes_notice(self, height: u64, tx_hashes: Seq<H256>) -> ActionView {
        ActionView::Publish(
            TOPIC_CHAIN_TXHASHES@,
            Message::spec_init_default(
                MsgClassView::BlockTxHashes(
                    BlockTxHashesView {
                        height,
                        tx_hashes,
                        block_gas_limit: self.block_gas_limit,
                        account_gas_limit: self.account_gas_limit,
                    },
                ),
            ),
        )
    }

    /// Whether a block from consensus at `height` is the next one to store.
    pub open spec fn accepts_consensus(self, height: u64) -> bool {
        height == self.max_store_height + 1
    }

    /// The chain after consensus delivered `block` with `proof`, and what the host has
    /// to do: a block that is not the next one to store changes nothing; the next one
    /// enters the queue, becomes the stored frontier, and has its proof and body
    /// persisted before its transaction hashes are announced.
    pub open spec fn consensus_enqueue(self, block: BlockView, proof: ProofView) -> (
        ChainView,
        Seq<ActionView>,
    ) {
        if self.accepts_consensus(block.height) {
            (
                ChainView {
                    block_map: self.block_map.insert(
                        block.height,
                        BlockInQueueView::ConsensusBlock(block, proof),
                    ),
                    max_store_height: block.height,
                    ..self
                },
                seq![
                    ActionView::SaveCurrentProof(proof),
                    ActionView::SetBlockBody(block.height, block),
                    self.tx_hashes_notice(block.height, block.tx_hashes),
                ],
            )
        } else {
            (self, Seq::empty())
        }
    }

    /// Whether the queue holds at `height` a block from a peer whose proof is not
    /// known yet.
    pub open spec fn awaits_proof(self, height: u64) -> bool {
        self.block_map.contains_key(height) && self.block_map[height] matches BlockInQueueView::SyncBlock(
            _,
            None,
        )
    }

    /// The chain with `proof` bound to the block that waits for one at `height`, if
    /// there is such a block.
    pub open spec fn fill_proof(self, height: u64, proof: ProofView) -> ChainView {
        if self.awaits_proof(height) {
            ChainView {
                block_map: self.block_map.insert(
                    height,
                    BlockInQueueView::SyncBlock(
                        self.block_map[height]->SyncBlock_0,
                        Some(proof),
                    ),
                ),
                ..self
            }
        } else {
            self
        }
    }

    /// Whether a block from a peer, other than a proof-only one, continues the chain:
    /// its proof is of the chain's kind and vouches for one of the two frontiers.
    pub open spec fn accepts_sync(self, block: BlockView) -> bool {
        &&& self.proof_type == Some(block.proof.kind)
        &&& block.height != HMAX
        &&& (block.proof.block_height() == self.max_height || block.proof.block_height()
            == self.max_store_height)
    }

    /// The chain after a peer delivered `block`, and what the host has to do.
    ///
    /// A block whose proof is not of the chain's kind is dropped. A block that
    /// continues the chain binds its proof to the block before it, where that one
    /// waits for a proof, enters the queue without a proof of its own and becomes the
    /// stored frontier; its body is persisted before its transaction hashes are
    /// announced. A proof-only block binds its proof to the block that it vouches
    /// for, where that one lies above the current height and waits for a proof.
    pub open spec fn add_sync(self, block: BlockView) -> (ChainView, Seq<ActionView>) {
        let proof_height = block.proof.block_height();
        if self.proof_type != Some(block.proof.kind) {
            (self, Seq::empty())
        } else if block.height != HMAX {
            if proof_height == self.max_height || proof_height == self.max_store_height {
                let bound = self.fill_proof(proof_height, block.proof);
                (
                    ChainView {
                        block_map: bound.block_map.insert(
                            block.height,
                            BlockInQueueView::SyncBlock(block, None),
                        ),
                        max_store_height: block.height,
                        ..bound
                    },
                    seq![
                        ActionView::SetBlockBody(block.height, block),
                        self.tx_hashes_notice(block.height, block.tx_hashes),
                    ],
                )
            } else {
                (self, Seq::empty())
            }
        } else if proof_height > self.current_height {
            (self.fill_proof(proof_height, block.proof), Seq::empty())
        } else {
            (self, Seq::empty())
        }
    }

    /// The chain after a peer delivered `blocks`, in that order, and what the host has
    /// to do. Blocks below the height that was run are passed over; the first block
    /// whose body does not yield the transactions root of its header ends the
    /// delivery; every other block is added.
    pub open spec fn deal_sync(self, blocks: Seq<BlockView>) -> (ChainView, Seq<ActionView>)
        decreases blocks.len(),
    {
        if blocks.len() == 0 {
            (self, Seq::empty())
        } else {
            let block = blocks[0];
            if block.height < self.max_height {
                self.deal_sync(blocks.drop_first())
            } else if block.height != HMAX && !block.check_hash() {
                (self, Seq::empty())
            } else {
                let (added, first) = self.add_sync(block);
                let (last, rest) = added.deal_sync(blocks.drop_first());
                (last, first + rest)
            }
        }
    }

    /// The height that is reported as the block number: the stored frontier where
    /// there is one, else the height that was run.
    pub open spec fn block_number(self) -> u64 {
        if self.max_store_height == HMAX {
            self.max_height
        } else {
            self.max_store_height
        }
    }
}

/// The chain as the forwarder sees it.
#[derive(Debug, PartialEq, Eq)]
pub struct Chain {
    /// The queue of blocks, by height.
    pub block_map: BTreeMap<u64, BlockInQueue>,
    /// Highest height whose block body is persisted; `HMAX` while there is none.
    pub max_store_height: u64,
    /// Highest height whose block has been run.
    pub max_height: u64,
    /// Height of the block that was run last.
    pub current_height: u64,
    /// The kind of proof that the chain accepts.
    pub proof_type: Option<ProofType>,
    pub block_gas_limit: u64,
    pub account_gas_limit: AccountGasLimit,
}

/// Model of a queue of blocks.
pub open spec fn queue_view(queue: Map<u64, BlockInQueue>) -> Map<u64, BlockInQueueView> {
    Map::new(|k: u64| queue.contains_key(k), |k: u64| queue[k].deep_view())
}

impl View for Chain {
    type V = ChainView;

    open spec fn view(&self) -> ChainView {
        ChainView {
            block_map: queue_view(self.block_map@),
            max_store_height: self.max_store_height,
            max_height: self.max_height,
            current_height: self.current_height,
            proof_type: self.proof_type,
            block_gas_limit: self.block_gas_limit,
            account_gas_limit: self.account_gas_limit.deep_view(),
        }
    }
}

/// Appends `action` to `actions`.
pub fn push_action(actions: &mut Vec<Action>, action: Action)
    ensures
        final(actions).deep_view() == old(actions).deep_view().push(action.deep_view()),
{
    actions.push(action);
    assert(actions.deep_view() =~= old(actions).deep_view().push(action.deep_view()));
}

impl Chain {
    /// A chain with an empty queue, whose stored frontier is the height that was run.
    pub fn new(
        height: u64,
        proof_type: Option<ProofType>,
        block_gas_limit: u64,
        account_gas_limit: AccountGasLimit,
    ) -> (chain: Chain)
        ensures
            chain@ == (ChainView {
                block_map: Map::empty(),
                max_store_height: height,
                max_height: height,
                current_height: height,
                proof_type,
                block_gas_limit,
                account_gas_limit: account_gas_limit.deep_view(),
            }),
            chain@.wf(),
    {
        let chain = Chain {
            block_map: BTreeMap::new(),
            max_store_height: height,
            max_height: height,
            current_height: height,
            proof_type,
            block_gas_limit,
            account_gas_limit,
        };
        assert(chain@.block_map =~= Map::empty());
        chain
    }

    /// Highest height whose block body is persisted.
    pub fn get_max_store_height(&self) -> (h: u64)
        ensures
            h == self@.max_store_height,
    {
        self.max_store_height
    }

    /// Highest height whose block has been run.
    pub fn get_max_height(&self) -> (h: u64)
        ensures
            h == self@.max_height,
    {
        self.max_height
    }

    /// Height of the block that was run last.
    pub fn get_current_height(&self) -> (h: u64)
        ensures
            h == self@.current_height,
    {
        self.current_height
    }

    /// The height that is reported as the block number.
    pub fn block_number(&self) -> (h: u64)
        ensures
            h == self@.block_number(),
    {
        if self.max_store_height == HMAX {
            self.max_height
        } else {
            self.max_store_height
        }
    }

    /// The announcement of the transaction hashes of the block at `height`.
    pub fn tx_hashes_notice(&self, height: u64, tx_hashes: Vec<H256>) -> (action: Action)
        ensures
            action.deep_view() == self@.tx_hashes_notice(height, tx_hashes@),
    {
        let notice = BlockTxHashes {
            height,
            tx_hashes,
            block_gas_limit: self.block_gas_limit,
            account_gas_limit: self.account_gas_limit.duplicate(),
        };
        Action::Publish(
            TOPIC_CHAIN_TXHASHES.to_owned(),
            Message::init_default(MsgClass::BlockTxHashes(notice)),
        )
    }

    /// Binds `proof` to the block that waits for one at `height`, if there is such a
    /// block.
    pub fn fill_proof(&mut self, height: u64, proof: &Proof)
        ensures
            final(self)@ == old(self)@.fill_proof(height, proof.deep_view()),
    {
        match self.block_map.remove(&height) {
            Some(BlockInQueue::SyncBlock((block, None))) => {
                self.block_map.insert(
                    height,
                    BlockInQueue::SyncBlock((block, Some(proof.duplicate()))),
                );
                assert(self@.block_map =~= old(self)@.fill_proof(
                    height,
                    proof.deep_view(),
                ).block_map);
            },
            Some(other) => {
                self.block_map.insert(height, other);
                assert(self@.block_map =~= old(self)@.block_map);
            },
            None => {
                assert(self@.block_map =~= old(self)@.block_map);
            },
        }
    }
}

/// A delivery of blocks from a peer keeps the stored frontier above the height that
/// was run.
pub proof fn lemma_deal_sync_keeps_frontiers_ordered(chain: ChainView, blocks: Seq<BlockView>)
    requires
        chain.wf(),
    ensures
        chain.deal_sync(blocks).0.wf(),
        chain.deal_sync(blocks).0.max_height == chain.max_height,
    decreases blocks.len(),
{
    if blocks.len() > 0 {
        let block = blocks[0];
        if block.height < chain.max_height {
            lemma_deal_sync_keeps_frontiers_ordered(chain, blocks.drop_first());
        } else if block.height != HMAX && !block.check_hash() {
        } else {
            lemma_deal_sync_keeps_frontiers_ordered(chain.add_sync(block).0, blocks.drop_first());
        }
    }
}

/// A block from consensus never lowers the stored frontier, and keeps it above the
/// height that was run: the frontier moves up by one where the block is accepted, and
/// stays where it is otherwise.
pub proof fn lemma_consensus_enqueue_is_monotone(chain: ChainView, block: BlockView, proof: ProofView)
    ensures
        chain.consensus_enqueue(block, proof).0.max_store_height >= chain.max_store_height,
        chain.accepts_consensus(block.height) ==> chain.consensus_enqueue(
            block,
            proof,
        ).0.max_store_height == chain.max_store_height + 1,
        !chain.accepts_consensus(block.height) ==> chain.consensus_enqueue(block, proof).0
            == chain,
        chain.wf() ==> chain.consensus_enqueue(block, proof).0.wf(),
{
}

/// Whether `action` announces the transaction hashes of the block at `height`.
pub open spec fn announces(action: ActionView, height: u64) -> bool {
    match action {
        ActionView::Publish(topic, msg) => topic == TOPIC_CHAIN_TXHASHES@ && match msg.content {
            MsgClassView::BlockTxHashes(notice) => notice.height == height,
            _ => false,
        },
        _ => false,
    }
}

/// Whether `action` has the body of the block at `height` persisted.
pub open spec fn persists_body(action: ActionView, height: u64) -> bool {
    match action {
        ActionView::SetBlockBody(at, _) => at == height,
        _ => false,
    }
}

/// Whether `actions` announce the transaction hashes of a block only after they have
/// its body persisted.
pub open spec fn announces_after_body(actions: Seq<ActionView>) -> bool {
    forall|i: int, height: u64|
        0 <= i < actions.len() && #[trigger] announces(actions[i], height) ==> exists|j: int|
            0 <= j < i && #[trigger] persists_body(actions[j], height)
}

/// The transaction hashes of a block that enters the queue are announced only after
/// its body is persisted, and the stored frontier is then at its height.
pub proof fn lemma_announcement_follows_body(chain: ChainView, block: BlockView, proof: ProofView)
    ensures
        announces_after_body(chain.consensus_enqueue(block, proof).1),
        announces_after_body(chain.add_sync(block).1),
        forall|i: int, height: u64|
            0 <= i < chain.consensus_enqueue(block, proof).1.len() && #[trigger] announces(
                chain.consensus_enqueue(block, proof).1[i],
                height,
            ) ==> chain.consensus_enqueue(block, proof).0.max_store_height == height,
        forall|i: int, height: u64|
            0 <= i < chain.add_sync(block).1.len() && #[trigger] announces(
                chain.add_sync(block).1[i],
                height,
            ) ==> chain.add_sync(block).0.max_store_height == height,
{
    let by_consensus = chain.consensus_enqueue(block, proof).1;
    assert forall|i: int, height: u64|
        0 <= i < by_consensus.len() && #[trigger] announces(
            by_consensus[i],
            height,
        ) implies exists|j: int| 0 <= j < i && #[trigger] persists_body(by_consensus[j], height) by {
        assert(i == 2);
        assert(persists_body(by_consensus[1], height));
    }
    let by_sync = chain.add_sync(block).1;
    assert forall|i: int, height: u64|
        0 <= i < by_sync.len() && #[trigger] announces(by_sync[i], height) implies exists|j: int|
        0 <= j < i && #[trigger] persists_body(by_sync[j], height) by {
        assert(i == 1);
        assert(persists_body(by_sync[0], height));
    }
}

/// The chain after consensus delivered `blocks` with their proofs, one after the other.
pub open spec fn consensus_replay(chain: ChainView, blocks: Seq<(BlockView, ProofView)>) -> ChainView
    decreases blocks.len(),
{
    if blocks.len() == 0 {
        chain
    } else {
        consensus_replay(chain, blocks.drop_last()).consensus_enqueue(
            blocks.last().0,
            blocks.last().1,
        ).0
    }
}

/// The heights of those of `blocks` that are accepted when consensus delivers them
/// one after the other, in the order of delivery.
pub open spec fn accepted_heights(chain: ChainView, blocks: Seq<(BlockView, ProofView)>) -> Seq<u64>
    decreases blocks.len(),
{
    if blocks.len() == 0 {
        Seq::empty()
    } else {
        let before = accepted_heights(chain, blocks.drop_last());
        if consensus_replay(chain, blocks.drop_last()).accepts_consensus(blocks.last().0.height) {
            before.push(blocks.last().0.height)
        } else {
            before
        }
    }
}

/// Whatever consensus delivers, in whatever order, the blocks that are accepted stand
/// one above the other from the stored frontier upwards, and the frontier ends at the
/// last of them: it never falls, and never skips a height.
pub proof fn lemma_consensus_replay_is_gapless(chain: ChainView, blocks: Seq<(BlockView, ProofView)>)
    ensures
        consensus_replay(chain, blocks).max_store_height == chain.max_store_height
            + accepted_heights(chain, blocks).len(),
        forall|i: int|
            0 <= i < accepted_heights(chain, blocks).len() ==> #[trigger] accepted_heights(
                chain,
                blocks,
            )[i] == chain.max_store_height + 1 + i,
    decreases blocks.len(),
{
    if blocks.len() > 0 {
        lemma_consensus_replay_is_gapless(chain, blocks.drop_last());
    }
}

/// Of two blocks from consensus that are accepted one after the other, the second
/// stands one above the first.
pub proof fn lemma_consensus_heights_are_consecutive(
    chain: ChainView,
    first: BlockView,
    first_proof: ProofView,
    second: BlockView,
    second_proof: ProofView,
)
    requires
        chain.accepts_consensus(first.height),
        chain.consensus_enqueue(first, first_proof).0.accepts_consensus(second.height),
    ensures
        second.height == first.height + 1,
{
}

/// A block from consensus that was accepted is rejected when it is delivered again:
/// the chain stays as it is and the host has nothing to do.
pub proof fn lemma_consensus_redelivery_is_rejected(
    chain: ChainView,
    block: BlockView,
    proof: ProofView,
)
    requires
        chain.accepts_consensus(block.height),
    ensures
        ({
            let accepted = chain.consensus_enqueue(block, proof).0;
            accepted.consensus_enqueue(block, proof) == (accepted, Seq::<ActionView>::empty())
        }),
{
}

/// Of two blocks from peers that continue the chain one after the other, the second
/// brings the proof of the first: after both, the first waits in the queue with that
/// proof, the second without one, and the stored frontier is at the second.
pub proof fn lemma_sync_binds_proof_of_block_before(chain: ChainView, first: BlockView, second: BlockView)
    requires
        chain.accepts_sync(first),
        chain.proof_type == Some(second.proof.kind),
        second.height != HMAX,
        second.height != first.height,
        second.proof.block_height() == first.height,
    ensures
        ({
            let after = chain.add_sync(first).0.add_sync(second).0;
            &&& after.block_map.contains_key(first.height)
            &&& after.block_map[first.height] == BlockInQueueView::SyncBlock(
                first,
                Some(second.proof),
            )
            &&& after.block_map.contains_key(second.height)
            &&& after.block_map[second.height] == BlockInQueueView::SyncBlock(second, None)
            &&& after.max_store_height == second.height
        }),
{
}

/// Binding a proof touches one entry of the queue at most, and only one that waited
/// for a proof: blocks from consensus and blocks whose proof is known stay as they are.
pub proof fn lemma_fill_proof_binds_once(chain: ChainView, height: u64, proof: ProofView)
    ensures
        ({
            let bound = chain.fill_proof(height, proof);
            &&& bound.block_map.dom() == chain.block_map.dom()
            &&& forall|k: u64| #[trigger]
                chain.block_map.contains_key(k) && !(k == height && chain.awaits_proof(k))
                    ==> bound.block_map[k] == chain.block_map[k]
            &&& chain.awaits_proof(height) ==> bound.block_map[height]
                == BlockInQueueView::SyncBlock(
                chain.block_map[height]->SyncBlock_0,
                Some(proof),
            )
            &&& !bound.awaits_proof(height)
            &&& bound.fill_proof(height, proof) == bound
        }),
{
    let bound = chain.fill_proof(height, proof);
    assert(bound.block_map.dom() =~= chain.block_map.dom());
}

} // verus!

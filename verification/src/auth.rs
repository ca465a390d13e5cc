//! The transaction verifier: a sliding window of the transaction hashes of recent
//! blocks, and the checks a transaction passes before it is admitted.

use std::collections::HashMap;
use std::time::SystemTime;
use vstd::prelude::*;
use vstd::utf8::encode_utf8;
use crate::message::{
    Crypto, MessageView, Ret, UnverifiedTransaction, VerifyTxReq, VerifyTxReqView, VerifyTxResp,
    VerifyTxRespView,
};
use crate::queue::{heights, txhashes_requests, TxHashesReqQueue};
use crate::types::{H256, BLOCKLIMIT};

verus! {

/// Names a verification request: one transaction by its hash, or a whole block by a
/// running number.
#[derive(Debug, Clone)]
pub enum VerifyRequestID {
    SingleVerifyRequestID(Vec<u8>),
    BlockVerifyRequestID(u64),
}

/// A verification request, or the response to one.
#[derive(Debug, Clone)]
pub enum VerifyRequestResponse {
    AuthRequest(VerifyTxReq),
    AuthResponse(VerifyTxResp),
}

/// A verification request or response together with what is known of its origin.
#[derive(Debug, Clone)]
pub struct VerifyRequestResponseInfo {
    pub sub_module: u32,
    pub verify_type: VerifyType,
    pub request_id: VerifyRequestID,
    pub time_stamp: SystemTime,
    pub req_resp: VerifyRequestResponse,
    pub un_tx: Option<UnverifiedTransaction>,
}

/// How far the verification of a block has come.
#[derive(Debug, Clone, Copy, PartialEq, Eq, Structural)]
pub enum VerifyResult {
    VerifyNotBegin,
    VerifyOngoing,
    VerifyFailed,
    VerifySucceeded,
}

/// Progress of the verification of one block's transactions.
#[derive(Debug)]
pub struct BlockVerifyStatus {
    pub request_id: u64,
    pub block_verify_result: VerifyResult,
    pub verify_success_cnt_required: usize,
    pub verify_success_cnt_capture: usize,
    pub cache_hit: usize,
}

/// Whether a transaction is verified by itself or as part of a block.
#[derive(Debug, Clone, Copy, PartialEq, Eq, Structural)]
pub enum VerifyType {
    SingleVerify,
    BlockVerify,
}

/// Length in bytes of a signature.
pub const SIGNATURE_BYTES_LEN: usize = 65;

/// Longest nonce, in bytes, that a transaction may carry.
pub const NONCE_BYTES_MAX: usize = 128;

/// Lowest height that a window whose latest height is `latest` retains.
pub open spec fn window_low(latest: u64) -> u64 {
    if latest < BLOCKLIMIT {
        0
    } else {
        (latest - BLOCKLIMIT + 1) as u64
    }
}

/// Whether the signature of `req` has the length and the scheme from which a public
/// key can be recovered.
pub open spec fn signature_well_formed(req: VerifyTxReqView) -> bool {
    req.signature.len() == SIGNATURE_BYTES_LEN && req.crypto == Crypto::SECP
}

/// The signer of `req`: the recovered key, provided the signature is well formed and
/// yields one.
pub open spec fn signer_of(req: VerifyTxReqView, recovered: Option<Seq<u8>>) -> Result<Seq<u8>, ()> {
    if !signature_well_formed(req) {
        Err(())
    } else {
        match recovered {
            Some(key) => Ok(key),
            None => Err(()),
        }
    }
}

/// The bytes of a recovered public key, if there is one.
pub open spec fn key_bytes(recovered: Option<Vec<u8>>) -> Option<Seq<u8>> {
    match recovered {
        Some(key) => Some(key@),
        None => None,
    }
}

/// A response to `req` that carries the verdict `ret` and no signer.
pub open spec fn verdict(req: VerifyTxReqView, ret: Ret) -> VerifyTxRespView {
    VerifyTxRespView { tx_hash: req.tx_hash, ret, signer: Seq::empty() }
}

/// Mathematical model of the verifier's window.
pub struct WindowView {
    /// Whether the window has ever been fully populated.
    pub inited: bool,
    /// Highest height whose hashes were observed.
    pub height_latest: Option<u64>,
    /// Lowest height that is retained.
    pub height_low: Option<u64>,
    /// The transaction hashes retained, by height.
    pub hashes: Map<u64, Set<H256>>,
}

impl WindowView {
    /// The window before anything was observed.
    pub open spec fn empty() -> WindowView {
        WindowView {
            inited: false,
            height_latest: None,
            height_low: None,
            hashes: Map::empty(),
        }
    }

    /// Whether every height between the lowest and the latest has an entry.
    pub open spec fn full(self) -> bool {
        match (self.height_latest, self.height_low) {
            (Some(latest), Some(low)) => self.hashes.dom().len() == latest - low + 1,
            _ => false,
        }
    }

    /// The invariant of the window.
    pub open spec fn wf(self) -> bool {
        &&& self.hashes.dom().finite()
        &&& match self.height_latest {
            None => {
                &&& self.height_low is None
                &&& self.hashes.dom() =~= Set::<u64>::empty()
                &&& !self.inited
            },
            Some(latest) => {
                &&& self.height_low == Some(window_low(latest))
                &&& forall|k: u64| #[trigger]
                    self.hashes.contains_key(k) ==> window_low(latest) <= k <= latest
                &&& self.inited <==> self.full()
            },
        }
    }

    /// Whether `hash` occurs in the entry of some retained height.
    pub open spec fn retains(self, hash: H256) -> bool {
        exists|k: u64| #[trigger] self.hashes.contains_key(k) && self.hashes[k].contains(hash)
    }

    /// The answer of `check_hash_exist`: a window that is not yet initialised answers
    /// that every hash may have been seen.
    pub open spec fn contains(self, hash: H256) -> bool {
        !self.inited || self.retains(hash)
    }

    /// The window with the entry `(h, set)` put in, initialised if that fills it.
    pub open spec fn insert(self, h: u64, set: Set<H256>) -> WindowView {
        let w = WindowView { hashes: self.hashes.insert(h, set), ..self };
        WindowView { inited: self.inited || w.full(), ..w }
    }

    /// The window moved so that `h` is its latest height, without the entries that
    /// fall below its new lowest height.
    pub open spec fn advance(self, h: u64) -> WindowView {
        WindowView {
            height_latest: Some(h),
            height_low: Some(window_low(h)),
            hashes: self.hashes.restrict(Set::new(|k: u64| k >= window_low(h))),
            ..self
        }
    }

    /// The window after the hashes `set` of the block at height `h` were observed.
    pub open spec fn update(self, h: u64, set: Set<H256>) -> WindowView {
        match self.height_latest {
            None => self.advance(h).insert(h, set),
            Some(latest) => {
                if h == latest + 1 {
                    self.advance(h).insert(h, set)
                } else if h > latest + 1 {
                    self
                } else if h < window_low(latest) {
                    self
                } else {
                    self.insert(h, set)
                }
            },
        }
    }

    /// Whether a transaction that is valid up to the block at `valid_until_block` can
    /// still be admitted: that block lies after the latest one, by at most `BLOCKLIMIT`.
    pub open spec fn valid_until(self, valid_until_block: u64) -> bool {
        match self.height_latest {
            Some(latest) => latest < valid_until_block <= latest + BLOCKLIMIT,
            None => false,
        }
    }

    /// Whether the verdict on `req` depends on the public key that its signature yields.
    pub open spec fn needs_recovery(self, req: VerifyTxReqView) -> bool {
        &&& encode_utf8(req.nonce).len() <= NONCE_BYTES_MAX
        &&& !self.contains(req.tx_hash)
        &&& signature_well_formed(req)
    }

    /// The verdict on `req`, where `recovered` is the public key that the signature
    /// yields for the signed digest, if it yields one.
    pub open spec fn verify(self, req: VerifyTxReqView, recovered: Option<Seq<u8>>) -> VerifyTxRespView {
        if encode_utf8(req.nonce).len() > NONCE_BYTES_MAX {
            verdict(req, Ret::InvalidNonce)
        } else if self.contains(req.tx_hash) {
            if self.inited {
                verdict(req, Ret::Dup)
            } else {
                verdict(req, Ret::NotReady)
            }
        } else {
            match signer_of(req, recovered) {
                Err(_) => verdict(req, Ret::BadSig),
                Ok(signer) => {
                    if req.signer.len() != 0 && req.signer != signer {
                        verdict(req, Ret::BadSig)
                    } else {
                        VerifyTxRespView { tx_hash: req.tx_hash, ret: Ret::OK, signer }
                    }
                },
            }
        }
    }

    /// The heights whose hashes are asked for when the block at height `h` is observed:
    /// the rest of the window on the first observation, the gap after a jump ahead.
    pub open spec fn backfill(self, h: u64) -> Seq<(Seq<char>, MessageView)> {
        match self.height_latest {
            None => txhashes_requests(window_low(h) as int, h as int),
            Some(latest) => {
                if h > latest + 1 {
                    txhashes_requests(latest + 1, h + 1)
                } else {
                    Seq::empty()
                }
            },
        }
    }
}


/// The heights from `lo` to `hi`, both included.
pub open spec fn height_range(lo: u64, hi: u64) -> Set<u64> {
    Set::new(|k: u64| lo <= k <= hi)
}

/// A range of heights is finite and holds `hi - lo + 1` heights.
pub proof fn lemma_height_range_len(lo: u64, hi: u64)
    requires
        lo <= hi,
    ensures
        height_range(lo, hi).finite(),
        height_range(lo, hi).len() == hi - lo + 1,
    decreases hi - lo,
{
    if lo == hi {
        assert(height_range(lo, hi) =~= Set::<u64>::empty().insert(lo));
    } else {
        let below = (hi - 1) as u64;
        lemma_height_range_len(lo, below);
        assert(height_range(lo, hi) =~= height_range(lo, below).insert(hi));
    }
}

/// A finite set of heights that lies within a range holds at most as many heights as
/// the range, and as many only if it is the range.
pub proof fn lemma_heights_within_range(s: Set<u64>, lo: u64, hi: u64)
    requires
        s.finite(),
        lo <= hi,
        forall|k: u64| s.contains(k) ==> lo <= k <= hi,
    ensures
        s.len() <= hi - lo + 1,
        s.len() == hi - lo + 1 ==> s == height_range(lo, hi),
{
    lemma_height_range_len(lo, hi);
    let r = height_range(lo, hi);
    assert(s.subset_of(r));
    vstd::set_lib::lemma_len_subset(s, r);
    if s.len() == r.len() {
        vstd::set_lib::lemma_subset_equality(s, r);
    }
}

impl WindowView {
    /// The window holds at most `BLOCKLIMIT` entries, and each retained height lies
    /// between the lowest and the latest.
    pub proof fn lemma_bounded(self)
        requires
            self.wf(),
        ensures
            self.hashes.dom().len() <= BLOCKLIMIT,
            forall|k: u64| #[trigger]
                self.hashes.contains_key(k) ==> {
                    &&& self.height_low is Some
                    &&& self.height_latest is Some
                    &&& self.height_low->0 <= k <= self.height_latest->0
                },
    {
        match self.height_latest {
            None => {},
            Some(latest) => {
                lemma_heights_within_range(self.hashes.dom(), window_low(latest), latest);
            },
        }
    }

    /// Putting an entry at a height within the window keeps the invariant.
    pub proof fn lemma_insert_wf(self, h: u64, set: Set<H256>)
        requires
            self.hashes.dom().finite(),
            self.height_latest is Some,
            self.height_low == Some(window_low(self.height_latest->0)),
            forall|k: u64| #[trigger]
                self.hashes.contains_key(k) ==> window_low(self.height_latest->0) <= k
                    <= self.height_latest->0,
            self.inited ==> self.hashes.dom().insert(h).len() == self.height_latest->0
                - window_low(self.height_latest->0) + 1,
            window_low(self.height_latest->0) <= h <= self.height_latest->0,
        ensures
            self.insert(h, set).wf(),
    {
        let w = self.insert(h, set);
        assert(w.hashes.dom() =~= self.hashes.dom().insert(h));
    }

    /// Observing a block keeps the invariant of the window.
    pub proof fn lemma_update_wf(self, h: u64, set: Set<H256>)
        requires
            self.wf(),
        ensures
            self.update(h, set).wf(),
    {
        match self.height_latest {
            None => {
                let a = self.advance(h);
                assert(a.hashes.dom() =~= Set::<u64>::empty());
                a.lemma_insert_wf(h, set);
            },
            Some(latest) => {
                let low = window_low(latest);
                if h == latest + 1 {
                    let a = self.advance(h);
                    let new_low = window_low(h);
                    assert(a.hashes.dom() =~= self.hashes.dom().filter(|k: u64| k >= new_low));
                    self.hashes.dom().lemma_len_filter(|k: u64| k >= new_low);
                    if self.inited {
                        lemma_heights_within_range(self.hashes.dom(), low, latest);
                        assert(a.hashes.dom().insert(h) =~= height_range(new_low, h));
                        lemma_height_range_len(new_low, h);
                    }
                    a.lemma_insert_wf(h, set);
                } else if h > latest + 1 {
                } else if h < low {
                } else {
                    if self.inited {
                        lemma_heights_within_range(self.hashes.dom(), low, latest);
                        assert(self.hashes.dom().insert(h) =~= self.hashes.dom());
                    }
                    self.lemma_insert_wf(h, set);
                }
            },
        }
    }

    /// The window after the blocks of `observed` were observed one after the other,
    /// each given by its height and its transaction hashes.
    pub open spec fn replay(self, observed: Seq<(u64, Set<H256>)>) -> WindowView
        decreases observed.len(),
    {
        if observed.len() == 0 {
            self
        } else {
            self.replay(observed.drop_last()).update(observed.last().0, observed.last().1)
        }
    }

    /// Whatever blocks are observed, in whatever order, the window keeps its
    /// invariant: it holds at most `BLOCKLIMIT` entries, each at a height between its
    /// lowest and its latest.
    pub proof fn lemma_replay_wf(self, observed: Seq<(u64, Set<H256>)>)
        requires
            self.wf(),
        ensures
            self.replay(observed).wf(),
            self.replay(observed).hashes.dom().len() <= BLOCKLIMIT,
            forall|k: u64| #[trigger]
                self.replay(observed).hashes.contains_key(k) ==> {
                    &&& self.replay(observed).height_low is Some
                    &&& self.replay(observed).height_latest is Some
                    &&& self.replay(observed).height_low->0 <= k <= self.replay(
                        observed,
                    ).height_latest->0
                },
        decreases observed.len(),
    {
        if observed.len() > 0 {
            self.lemma_replay_wf(observed.drop_last());
            self.replay(observed.drop_last()).lemma_update_wf(
                observed.last().0,
                observed.last().1,
            );
        }
        self.replay(observed).lemma_bounded();
    }

    /// A window that is initialised stays so, whatever blocks are observed afterwards.
    pub proof fn lemma_replay_keeps_inited(self, observed: Seq<(u64, Set<H256>)>)
        requires
            self.inited,
        ensures
            self.replay(observed).inited,
        decreases observed.len(),
    {
        if observed.len() > 0 {
            self.lemma_replay_keeps_inited(observed.drop_last());
        }
    }

    /// Once the window is initialised it stays so, whatever is observed next.
    pub proof fn lemma_inited_is_stable(self, h: u64, set: Set<H256>)
        requires
            self.inited,
        ensures
            self.update(h, set).inited,
    {
    }

    /// The verdict on a request is a function of the request, of the recovered key and
    /// of two facts about the window: whether it is initialised, and whether it retains
    /// the request's transaction hash. Two windows that agree on both give the same
    /// verdict, and so does one window asked twice.
    pub proof fn lemma_verify_is_repeatable(
        self,
        other: WindowView,
        req: VerifyTxReqView,
        recovered: Option<Seq<u8>>,
    )
        requires
            self.inited == other.inited,
            self.retains(req.tx_hash) == other.retains(req.tx_hash),
        ensures
            self.verify(req, recovered) == other.verify(req, recovered),
    {
    }

    /// A hash for which an initialised window answers "not seen" is in no retained entry.
    pub proof fn lemma_no_false_negative(self, hash: H256)
        requires
            !self.contains(hash),
        ensures
            self.inited,
            forall|k: u64| #[trigger]
                self.hashes.contains_key(k) ==> !self.hashes[k].contains(hash),
    {
    }
}


/// The verifier: the window of recent transaction hashes.
#[derive(Debug, Clone)]
pub struct Verifier {
    inited: bool,
    height_latest: Option<u64>,
    height_low: Option<u64>,
    hashes: HashMap<u64, Vec<H256>>,
}

impl View for Verifier {
    type V = WindowView;

    closed spec fn view(&self) -> WindowView {
        WindowView {
            inited: self.inited,
            height_latest: self.height_latest,
            height_low: self.height_low,
            hashes: Map::new(
                |k: u64| self.hashes@.contains_key(k),
                |k: u64| self.hashes@[k]@.to_set(),
            ),
        }
    }
}

impl Default for Verifier {
    fn default() -> (v: Verifier)
        ensures
            v.wf(),
            v@ == WindowView::empty(),
    {
        let v = Verifier {
            inited: false,
            height_latest: None,
            height_low: None,
            hashes: HashMap::with_capacity(BLOCKLIMIT as usize),
        };
        assert(v@.hashes =~= Map::<u64, Set<H256>>::empty());
        v
    }
}

/// Lowest height that a window whose latest height is `latest` retains.
fn low_of(latest: u64) -> (low: u64)
    ensures
        low == window_low(latest),
{
    if latest < BLOCKLIMIT {
        0
    } else {
        latest - BLOCKLIMIT + 1
    }
}

/// Whether `hash` is among `hashes`.
fn holds(hashes: &Vec<H256>, hash: &H256) -> (r: bool)
    ensures
        r == hashes@.to_set().contains(*hash),
{
    let mut i: usize = 0;
    while i < hashes.len()
        invariant
            i <= hashes.len(),
            forall|j: int| 0 <= j < i ==> hashes@[j] != *hash,
        decreases hashes.len() - i,
    {
        if hashes[i] == *hash {
            assert(hashes@.contains(*hash));
            return true;
        }
        i = i + 1;
    }
    assert(!hashes@.contains(*hash));
    false
}

impl Verifier {
    /// The invariant of the verifier: that of its window.
    pub open spec fn wf(&self) -> bool {
        self@.wf()
    }

    /// A verifier that has observed nothing.
    pub fn new() -> (v: Verifier)
        ensures
            v.wf(),
            v@ == WindowView::empty(),
    {
        Verifier::default()
    }

    /// Whether the window has been fully populated.
    pub fn is_inited(&self) -> (r: bool)
        ensures
            r == self@.inited,
    {
        self.inited
    }

    /// Highest height whose hashes were observed.
    pub fn get_height_latest(&self) -> (r: Option<u64>)
        ensures
            r == self@.height_latest,
    {
        self.height_latest
    }

    /// Lowest height that is retained.
    pub fn get_height_low(&self) -> (r: Option<u64>)
        ensures
            r == self@.height_low,
    {
        self.height_low
    }

    /// Queues on `tx_pub` one request for the transaction hashes of each height from
    /// `low` up to, but not including, `high`.
    pub fn send_txhashs_req(low: u64, high: u64, tx_pub: &mut TxHashesReqQueue)
        requires
            old(tx_pub).wf(),
        ensures
            final(tx_pub).wf(),
            final(tx_pub)@ == old(tx_pub)@ + txhashes_requests(low as int, high as int),
    {
        if low < high {
            tx_pub.push_range(low, high - low);
        } else {
            assert(heights(low as int, high as int) =~= Seq::empty());
            assert(tx_pub@ =~= old(tx_pub)@ + txhashes_requests(low as int, high as int));
        }
    }

    /// Removes the entries of the heights from `from` up to, but not including, `below`.
    fn evict(&mut self, from: u64, below: u64)
        requires
            forall|k: u64| #[trigger] old(self)@.hashes.contains_key(k) ==> from <= k,
        ensures
            final(self).inited == old(self).inited,
            final(self).height_latest == old(self).height_latest,
            final(self).height_low == old(self).height_low,
            final(self)@.hashes == old(self)@.hashes.restrict(Set::new(|k: u64| k >= below)),
    {
        let mut i: u64 = from;
        assert(self@.hashes =~= old(self)@.hashes.restrict(Set::new(|k: u64| k >= i)));
        while i < below
            invariant
                self.inited == old(self).inited,
                self.height_latest == old(self).height_latest,
                self.height_low == old(self).height_low,
                from <= i,
                from <= below ==> i <= below,
                below < from ==> i == from,
                self@.hashes == old(self)@.hashes.restrict(Set::new(|k: u64| k >= i)),
            decreases below - i,
        {
            let ghost before = self@.hashes;
            self.hashes.remove(&i);
            assert(self@.hashes =~= before.remove(i));
            assert(before.remove(i) =~= old(self)@.hashes.restrict(
                Set::new(|k: u64| k >= i + 1),
            ));
            i = i + 1;
        }
        assert(self@.hashes =~= old(self)@.hashes.restrict(Set::new(|k: u64| k >= below)));
    }

    /// Puts the entry `(h, hashes)` into the window and marks it initialised when that
    /// has filled it.
    fn store(&mut self, h: u64, hashes: Vec<H256>)
        requires
            old(self).height_latest is Some,
            old(self).height_low == Some(window_low(old(self).height_latest->0)),
        ensures
            final(self)@ == old(self)@.insert(h, hashes@.to_set()),
    {
        let ghost set = hashes@.to_set();
        self.hashes.insert(h, hashes);
        assert(self@.hashes =~= old(self)@.hashes.insert(h, set));
        assert(self@.hashes.dom() =~= old(self)@.hashes.dom().insert(h));
        assert(self.hashes@.dom() =~= self@.hashes.dom());
        let latest = self.height_latest.unwrap();
        let low = self.height_low.unwrap();
        if self.hashes.len() as u64 == latest - low + 1 {
            self.inited = true;
        }
    }

    /// Records the transaction hashes `hashes` of the block at height `h`.
    ///
    /// The first block observed fixes the window and asks, on `tx_pub`, for the hashes
    /// of the heights below it that the window retains. The block that follows the
    /// latest one moves the window forward and drops what falls below it. A block
    /// further ahead is not recorded: the hashes of the gap, and its own, are asked
    /// for instead. A block below the window is ignored, one within it is recorded.
    pub fn update_hashes(&mut self, h: u64, hashes: Vec<H256>, tx_pub: &mut TxHashesReqQueue)
        requires
            old(self).wf(),
            old(tx_pub).wf(),
        ensures
            final(self).wf(),
            final(tx_pub).wf(),
            final(self)@ == old(self)@.update(h, hashes@.to_set()),
            final(tx_pub)@ == old(tx_pub)@ + old(self)@.backfill(h),
            final(self)@.hashes.dom().len() <= BLOCKLIMIT,
            forall|k: u64| #[trigger]
                final(self)@.hashes.contains_key(k) ==> {
                    &&& final(self)@.height_low is Some
                    &&& final(self)@.height_latest is Some
                    &&& final(self)@.height_low->0 <= k <= final(self)@.height_latest->0
                },
            old(self)@.inited ==> final(self)@.inited,
    {
        proof {
            old(self)@.lemma_update_wf(h, hashes@.to_set());
            old(self)@.update(h, hashes@.to_set()).lemma_bounded();
            old(self)@.lemma_bounded();
        }
        if self.height_latest.is_none() && self.height_low.is_none() {
            let low = low_of(h);
            self.height_latest = Some(h);
            self.height_low = Some(low);
            Verifier::send_txhashs_req(low, h, tx_pub);
            assert(self@.hashes =~= old(self)@.advance(h).hashes);
            assert(self@.hashes.dom() =~= Set::<u64>::empty());
        } else {
            let current_height = self.height_latest.unwrap();
            let current_height_low = self.height_low.unwrap();
            if current_height < u64::MAX && h == current_height + 1 {
                let low = low_of(h);
                self.height_latest = Some(h);
                self.height_low = Some(low);
                self.evict(current_height_low, low);
                proof {
                    assert(self@.hashes.dom() =~= old(self)@.hashes.dom().filter(
                        |k: u64| k >= low,
                    ));
                    old(self)@.hashes.dom().lemma_len_filter(|k: u64| k >= low);
                }
            } else if h > current_height && h - current_height > 1 {
                tx_pub.push_range(current_height + 1, h - current_height);
                return ;
            }
            if h < self.height_low.unwrap() {
                assert(tx_pub@ =~= old(tx_pub)@ + Seq::empty());
                return ;
            }
            assert(tx_pub@ =~= old(tx_pub)@ + Seq::empty());
        }
        self.store(h, hashes);
    }

    /// Whether the transaction hash `hash` may have been seen: always so before the
    /// window is initialised, and afterwards when some retained height holds it.
    pub fn check_hash_exist(&self, hash: &H256) -> (r: bool)
        requires
            self.wf(),
        ensures
            r == self@.contains(*hash),
            !r ==> forall|k: u64| #[trigger]
                self@.hashes.contains_key(k) ==> !self@.hashes[k].contains(*hash),
    {
        if !self.inited {
            return true;
        }
        let latest = self.height_latest.unwrap();
        let low = self.height_low.unwrap();
        let mut k: u64 = low;
        loop
            invariant
                self.wf(),
                self.inited,
                self.height_latest == Some(latest),
                self.height_low == Some(low),
                low <= k <= latest,
                forall|j: u64|
                    low <= j < k && #[trigger] self@.hashes.contains_key(j)
                        ==> !self@.hashes[j].contains(*hash),
            decreases latest - k,
        {
            match self.hashes.get(&k) {
                Some(hashes) => {
                    if holds(hashes, hash) {
                        assert(self@.hashes.contains_key(k));
                        return true;
                    }
                },
                None => {},
            }
            if k == latest {
                return false;
            }
            k = k + 1;
        }
    }

    /// Whether the signature of `req` has the length and the scheme from which a
    /// public key can be recovered.
    pub fn signature_well_formed(req: &VerifyTxReq) -> (r: bool)
        ensures
            r == signature_well_formed(req.deep_view()),
    {
        req.signature.len() == SIGNATURE_BYTES_LEN && req.crypto == Crypto::SECP
    }

    /// The signer of `req`. `recovered` is the public key that the signature yields
    /// for the signed digest, or `None` when it yields none; it is looked at only when
    /// the signature is well formed.
    pub fn verify_sig(&self, req: &VerifyTxReq, recovered: Option<Vec<u8>>) -> (r: Result<Vec<u8>, ()>)
        ensures
            match r {
                Ok(key) => signer_of(req.deep_view(), key_bytes(recovered)) == Ok::<Seq<u8>, ()>(
                    key@,
                ),
                Err(_) => signer_of(req.deep_view(), key_bytes(recovered)) is Err,
            },
    {
        if req.signature.len() != SIGNATURE_BYTES_LEN {
            return Err(());
        }
        match req.crypto {
            Crypto::SECP => match recovered {
                Some(key) => Ok(key),
                None => Err(()),
            },
            _ => Err(()),
        }
    }

    /// Whether the verdict on `req` depends on the public key that its signature
    /// yields, so that the key has to be recovered before `verfiy_tx` is called.
    pub fn needs_recovery(&self, req: &VerifyTxReq) -> (r: bool)
        requires
            self.wf(),
        ensures
            r == self@.needs_recovery(req.deep_view()),
    {
        req.nonce.as_str().as_bytes().len() <= NONCE_BYTES_MAX && !self.check_hash_exist(&req.tx_hash)
            && Verifier::signature_well_formed(req)
    }

    /// The verdict on the transaction of `req`. `recovered` is the public key that
    /// the signature yields for the signed digest, or `None` when it yields none.
    pub fn verfiy_tx(&self, req: &VerifyTxReq, recovered: Option<Vec<u8>>) -> (resp: VerifyTxResp)
        requires
            self.wf(),
        ensures
            resp.deep_view() == self@.verify(req.deep_view(), key_bytes(recovered)),
    {
        let mut resp = VerifyTxResp { tx_hash: req.tx_hash, ret: Ret::OK, signer: Vec::new() };
        if req.nonce.as_str().as_bytes().len() > NONCE_BYTES_MAX {
            resp.ret = Ret::InvalidNonce;
            return resp;
        }
        let ret = self.check_hash_exist(&req.tx_hash);
        if ret {
            if self.is_inited() {
                resp.ret = Ret::Dup;
            } else {
                resp.ret = Ret::NotReady;
            }
            return resp;
        }
        match self.verify_sig(req, recovered) {
            Err(_) => {
                resp.ret = Ret::BadSig;
                resp
            },
            Ok(signer) => {
                if !req.signer.is_empty() && !same_bytes(&req.signer, &signer) {
                    resp.ret = Ret::BadSig;
                    return resp;
                }
                resp.signer = signer;
                resp
            },
        }
    }

    /// Whether a transaction that is valid up to the block at `valid_until_block` can
    /// still be admitted.
    pub fn verify_valid_until_block(&self, valid_until_block: u64) -> (result: bool)
        ensures
            result == self@.valid_until(valid_until_block),
    {
        match self.height_latest {
            Some(height) => valid_until_block > height && valid_until_block - height <= BLOCKLIMIT,
            None => false,
        }
    }
}

/// Whether `a` and `b` hold the same bytes.
fn same_bytes(a: &Vec<u8>, b: &Vec<u8>) -> (r: bool)
    ensures
        r == (a@ == b@),
{
    if a.len() != b.len() {
        return false;
    }
    let mut i: usize = 0;
    while i < a.len()
        invariant
            a.len() == b.len(),
            i <= a.len(),
            forall|j: int| 0 <= j < i ==> a@[j] == b@[j],
        decreases a.len() - i,
    {
        if a[i] != b[i] {
            return false;
        }
        i = i + 1;
    }
    assert(a@ =~= b@);
    true
}

} // verus!

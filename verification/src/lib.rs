//! Verified core of a blockchain node's transaction-admission and
//! block-synchronisation pipeline.
//!
//! The verifier (`auth`) keeps a sliding window of the transaction hashes of recent
//! blocks and gives the verdict on each incoming transaction. The forwarder
//! (`forward`) reconciles the blocks that consensus and peers deliver with the queue
//! of blocks that wait to be run (`chain`), and answers read requests. The batcher
//! (`batch`) gathers new transactions and passes them on in batches.
//!
//! The bus, the chain store and signature recovery stay outside: the pipeline is
//! handed what was read and recovered, and says what is to be published and
//! persisted.

pub mod auth;
pub mod batch;
pub mod chain;
pub mod clock;
pub mod forward;
pub mod message;
pub mod queue;
pub mod types;

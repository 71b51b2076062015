//! Verified core of a ledger indexer for a Particl node.
//!
//! The indexer reads blocks from the node, attributes each block to a
//! cold-staking pool, reads the governance vote that it carries, and keeps a
//! database in step with the chain. This library holds every decision of
//! that work, each with a contract that Verus proves; it opens no
//! connection. A driver performs the actions that the engine asks for and
//! reports back what came of them.
//!
//! - [`engine`]: the state machine of catch-up and live tail, the scan of one
//!   block, and the window of hashes that keeps notifications from being
//!   processed twice.
//! - [`console`]: the node's records, the commands sent to the node, the
//!   stake address and the vote of a block, and the detection of proposals.
//! - [`tally`]: proposals and the reading of the node's vote tally.
//! - [`pools`]: the registry of known pools.
//! - [`db`]: the consistency check on the persisted heights.
//! - [`rpc`]: the address of the node's console and the parameters of a call.
//! - [`logger`]: the form of a log line.
//! - [`error`]: the reasons for which ingestion stops.
//! - [`text`]: splitting, trimming and decimal numbers on characters.

pub mod console;
pub mod db;
pub mod engine;
pub mod error;
pub mod logger;
pub mod pools;
pub mod rpc;
pub mod tally;
pub mod text;

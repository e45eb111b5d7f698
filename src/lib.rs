//! Control logic for running a deployment script: sender and nonce
//! selection, library predeploys, the rerun under a corrected deployer,
//! queue assembly, resuming a persisted sequence and multi-chain fan-out.
pub mod address;
pub mod error;
pub mod laws;
pub mod multi;
pub mod orchestrator;
pub mod queue;
pub mod resume;
pub mod sender;

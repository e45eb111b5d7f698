//! What can stop a run.
use vstd::prelude::*;

verus! {

#[derive(Clone, Copy, Debug, PartialEq, Eq, Structural)]
pub enum ScriptError {
    /// A new deployer must be used, but no RPC endpoint is configured to
    /// fetch its nonce from.
    MissingRpcUrl,
    /// Resuming or verifying needs an RPC endpoint and none is configured.
    MissingForkUrl,
    /// The target contract is absent from the relinked artifacts.
    TargetNotFound,
    /// Relinking a recorded sequence still leaves libraries to predeploy.
    IncompleteLibraries,
    /// After the rerun under the new deployer, the script still expects
    /// yet another deployer.
    PersistentSenderMismatch,
    /// No record of the sequence exists, neither broadcast nor dry-run.
    ResumeMismatch,
    /// The nonces that the library deploys would need exceed `u64`.
    NonceOverflow,
    /// An event came that the current stage does not await.
    OutOfOrder,
    /// Compiling, linking or simulating failed.
    Simulation,
    /// A request to the chain failed.
    Network,
    /// The sequence failed the verification preflight, or verification itself.
    Verification,
}

} // verus!

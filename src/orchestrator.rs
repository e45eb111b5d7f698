//! The top-level run as a state machine. Each step takes what the outside
//! world reported (a nonce, the outcome of a simulation) and names the next
//! thing to do; the caller does it and reports back.
use vstd::prelude::*;
use crate::address::Address;
use crate::error::ScriptError;
use crate::queue::{assemble_queue, pass_queue, BroadcastableTransaction};
use crate::sender::{initial_sender, maybe_new_sender, new_sender_spec, pass_nonce, LOCAL_NONCE};

verus! {

/// The command-line switches that steer a run.
#[derive(Clone, Copy, Debug, PartialEq, Eq, Structural)]
pub struct ScriptFlags {
    pub resume: bool,
    pub verify: bool,
    pub broadcast: bool,
    pub multi: bool,
    pub debug: bool,
    pub json: bool,
    /// A sender was named explicitly, so the deployer is never changed.
    pub sender_given: bool,
}

impl ScriptFlags {
    /// The run only resumes or verifies an earlier sequence.
    pub open spec fn resumes_spec(self) -> bool {
        self.resume || (self.verify && !self.broadcast)
    }

    pub fn resumes(&self) -> (r: bool)
        ensures
            r == self.resumes_spec(),
    {
        self.resume || (self.verify && !self.broadcast)
    }
}

#[derive(Clone, Copy, Debug, PartialEq, Eq, Structural)]
pub enum Stage {
    /// Waiting for the on-chain nonce of the first pass's sender.
    AwaitNonce,
    /// Waiting for the first pass to be compiled, linked and simulated.
    AwaitFirstPass,
    /// Waiting for the on-chain nonce of the corrected deployer.
    AwaitRerunNonce,
    /// Waiting for the relink and the rerun under the corrected deployer.
    AwaitRerunPass,
    /// Handed over to the resume and verify path.
    Resuming,
    /// The final queue was handed over for broadcast.
    Done,
    Failed,
}

/// What the caller is to do next.
pub enum Action {
    /// Fetch the next nonce of `sender` from the chain.
    FetchNonce { sender: Address },
    /// Compile, link against (`sender`, `nonce`) and simulate once.
    /// Configured library addresses are dropped unless `keep_libraries`.
    Simulate { sender: Address, nonce: u64, keep_libraries: bool },
    /// Relink with the configured libraries against (`sender`, `nonce`)
    /// and simulate again under `sender`.
    Rerun { sender: Address, nonce: u64 },
    /// Load the recorded sequence and resume or verify it.
    Resume,
    /// Show the result, then persist and broadcast `transactions`.
    /// `relinked` tells that traces must be decoded for the new addresses.
    Broadcast { transactions: Option<Vec<BroadcastableTransaction>>, relinked: bool },
    Stop { error: ScriptError },
}

/// What the caller reports back.
pub enum Event {
    NonceFetched { nonce: u64 },
    /// A simulation finished: what the script emitted, and the bytecode of
    /// the libraries to predeploy, in order.
    PassDone {
        transactions: Option<Vec<BroadcastableTransaction>>,
        predeploy_libraries: Vec<Vec<u8>>,
    },
    /// The relink found no target contract: no simulation happened.
    TargetMissing,
    Failed { error: ScriptError },
}

/// Where a run stands: its switches, its stage, and the sender and nonce
/// of the current pass.
pub struct Orchestrator {
    pub flags: ScriptFlags,
    pub stage: Stage,
    pub sender: Address,
    pub nonce: u64,
    pub fork_url: Option<String>,
}

/// The view of an optional transaction list.
pub open spec fn opt_view(t: Option<Vec<BroadcastableTransaction>>) -> Option<Seq<BroadcastableTransaction>> {
    match t {
        Some(v) => Some(v@),
        None => None,
    }
}

/// `a` broadcasts the queue of a pass by `o`'s sender from `o`'s nonce:
/// the deploys of `libs`, then `txs`; nothing when the script emitted no
/// transaction list.
pub open spec fn broadcasts_pass(
    a: Action,
    o: Orchestrator,
    libs: Seq<Vec<u8>>,
    txs: Option<Vec<BroadcastableTransaction>>,
    relinked: bool,
) -> bool {
    match a {
        Action::Broadcast { transactions, relinked: r } => r == relinked && match txs {
            Some(t) => transactions matches Some(q) && pass_queue(q@, o.sender, o.nonce, libs, o.fork_url, t@),
            None => transactions is None,
        },
        _ => false,
    }
}

pub open spec fn stops_with(a: Action, e: ScriptError) -> bool {
    a matches Action::Stop { error } && error == e
}

/// One step of the run: `n` and `a` follow from `o` and `e`.
pub open spec fn step_spec(o: Orchestrator, e: Event, n: Orchestrator, a: Action) -> bool {
    &&& n.flags == o.flags
    &&& match (o.stage, e) {
        (_, Event::Failed { error }) => n.stage == Stage::Failed && stops_with(a, error),
        (Stage::AwaitNonce, Event::NonceFetched { nonce }) => {
            &&& n == (Orchestrator { stage: Stage::AwaitFirstPass, nonce, ..o })
            &&& a == (Action::Simulate { sender: o.sender, nonce, keep_libraries: true })
        },
        (Stage::AwaitFirstPass, Event::PassDone { transactions, predeploy_libraries }) => {
            let ns = new_sender_spec(o.sender, o.flags.sender_given, opt_view(transactions), predeploy_libraries@.len());
            if o.flags.resumes_spec() {
                n == (Orchestrator { stage: Stage::Resuming, ..o }) && a == Action::Resume
            } else if ns is Some {
                if o.fork_url is None {
                    n == (Orchestrator { stage: Stage::Failed, ..o }) && stops_with(a, ScriptError::MissingRpcUrl)
                } else {
                    &&& n == (Orchestrator { stage: Stage::AwaitRerunNonce, sender: ns->0, ..o })
                    &&& a == (Action::FetchNonce { sender: ns->0 })
                }
            } else if o.nonce + predeploy_libraries@.len() > u64::MAX {
                n == (Orchestrator { stage: Stage::Failed, ..o }) && stops_with(a, ScriptError::NonceOverflow)
            } else {
                n == (Orchestrator { stage: Stage::Done, ..o })
                    && broadcasts_pass(a, o, predeploy_libraries@, transactions, false)
            }
        },
        (Stage::AwaitRerunNonce, Event::NonceFetched { nonce }) => {
            &&& n == (Orchestrator { stage: Stage::AwaitRerunPass, nonce, ..o })
            &&& a == (Action::Rerun { sender: o.sender, nonce })
        },
        (Stage::AwaitRerunPass, Event::TargetMissing) => {
            n == (Orchestrator { stage: Stage::Failed, ..o }) && stops_with(a, ScriptError::TargetNotFound)
        },
        (Stage::AwaitRerunPass, Event::PassDone { transactions, predeploy_libraries }) => {
            let txs = match transactions { Some(t) => t@, None => Seq::empty() };
            if new_sender_spec(o.sender, false, Some(txs), predeploy_libraries@.len()) is Some {
                n == (Orchestrator { stage: Stage::Failed, ..o })
                    && stops_with(a, ScriptError::PersistentSenderMismatch)
            } else if o.nonce + predeploy_libraries@.len() > u64::MAX {
                n == (Orchestrator { stage: Stage::Failed, ..o }) && stops_with(a, ScriptError::NonceOverflow)
            } else {
                &&& n == (Orchestrator { stage: Stage::Done, ..o })
                &&& a matches Action::Broadcast { transactions: Some(q), relinked: true }
                &&& pass_queue(q@, o.sender, o.nonce, predeploy_libraries@, o.fork_url, txs)
            }
        },
        _ => n == (Orchestrator { stage: Stage::Failed, ..o }) && stops_with(a, ScriptError::OutOfOrder),
    }
}

impl Orchestrator {
    /// Begins a run. The sender is the single loaded key's address, else
    /// the configured one. With an RPC endpoint its nonce is fetched first;
    /// without one the first pass runs at once on the local nonce, dropping
    /// configured library addresses.
    pub fn start(
        flags: ScriptFlags,
        configured: Address,
        key_addresses: &Vec<Address>,
        fork_url: Option<String>,
    ) -> (r: (Orchestrator, Action))
        ensures
            r.0.flags == flags,
            r.0.fork_url == fork_url,
            r.0.sender == (if key_addresses@.len() == 1 { key_addresses@[0] } else { configured }),
            fork_url is Some ==> r.0.stage == Stage::AwaitNonce && r.1 == (Action::FetchNonce { sender: r.0.sender }),
            fork_url is None ==> r.0.stage == Stage::AwaitFirstPass && r.0.nonce == LOCAL_NONCE
                && r.1 == (Action::Simulate { sender: r.0.sender, nonce: LOCAL_NONCE, keep_libraries: false }),
    {
        let sender = initial_sender(configured, key_addresses);
        if fork_url.is_some() {
            (Orchestrator { flags, stage: Stage::AwaitNonce, sender, nonce: 0, fork_url }, Action::FetchNonce { sender })
        } else {
            let p = pass_nonce(None);
            (
                Orchestrator { flags, stage: Stage::AwaitFirstPass, sender, nonce: p.nonce, fork_url },
                Action::Simulate { sender, nonce: p.nonce, keep_libraries: p.keep_libraries },
            )
        }
    }

    fn fail(&mut self, error: ScriptError) -> (a: Action)
        ensures
            *final(self) == (Orchestrator { stage: Stage::Failed, ..*old(self) }),
            stops_with(a, error),
    {
        self.stage = Stage::Failed;
        Action::Stop { error }
    }

    /// Takes the outside world's report `e` and returns what to do next.
    pub fn step(&mut self, e: Event) -> (a: Action)
        ensures
            step_spec(*old(self), e, *final(self), a),
    {
        match e {
            Event::Failed { error } => self.fail(error),
            Event::NonceFetched { nonce } => match self.stage {
                Stage::AwaitNonce => {
                    let p = pass_nonce(Some(nonce));
                    self.stage = Stage::AwaitFirstPass;
                    self.nonce = p.nonce;
                    Action::Simulate { sender: self.sender, nonce: p.nonce, keep_libraries: p.keep_libraries }
                },
                Stage::AwaitRerunNonce => {
                    self.stage = Stage::AwaitRerunPass;
                    self.nonce = nonce;
                    Action::Rerun { sender: self.sender, nonce }
                },
                _ => self.fail(ScriptError::OutOfOrder),
            },
            Event::TargetMissing => match self.stage {
                Stage::AwaitRerunPass => self.fail(ScriptError::TargetNotFound),
                _ => self.fail(ScriptError::OutOfOrder),
            },
            Event::PassDone { transactions, predeploy_libraries } => match self.stage {
                Stage::AwaitFirstPass => self.first_pass_done(transactions, predeploy_libraries),
                Stage::AwaitRerunPass => self.rerun_done(transactions, predeploy_libraries),
                _ => self.fail(ScriptError::OutOfOrder),
            },
        }
    }

    /// After the first pass: resume, switch to the deployer that the script
    /// expects, or queue the library deploys ahead of the script's
    /// transactions under the current sender.
    fn first_pass_done(
        &mut self,
        transactions: Option<Vec<BroadcastableTransaction>>,
        predeploy_libraries: Vec<Vec<u8>>,
    ) -> (a: Action)
        requires
            old(self).stage == Stage::AwaitFirstPass,
        ensures
            step_spec(*old(self), Event::PassDone { transactions, predeploy_libraries }, *final(self), a),
    {
        if self.flags.resumes() {
            self.stage = Stage::Resuming;
            return Action::Resume;
        }
        let ns = maybe_new_sender(self.sender, self.flags.sender_given, transactions.as_ref(), predeploy_libraries.len());
        match ns {
            Some(s) => {
                if self.fork_url.is_none() {
                    return self.fail(ScriptError::MissingRpcUrl);
                }
                self.stage = Stage::AwaitRerunNonce;
                self.sender = s;
                Action::FetchNonce { sender: s }
            },
            None => {
                if self.nonce > u64::MAX - predeploy_libraries.len() as u64 {
                    return self.fail(ScriptError::NonceOverflow);
                }
                self.stage = Stage::Done;
                let queue = match transactions {
                    Some(t) => Some(assemble_queue(self.sender, self.nonce, &predeploy_libraries, &self.fork_url, t)),
                    None => None,
                };
                Action::Broadcast { transactions: queue, relinked: false }
            },
        }
    }

    /// After the rerun: the queue is built from the rerun's output alone.
    fn rerun_done(
        &mut self,
        transactions: Option<Vec<BroadcastableTransaction>>,
        predeploy_libraries: Vec<Vec<u8>>,
    ) -> (a: Action)
        requires
            old(self).stage == Stage::AwaitRerunPass,
        ensures
            step_spec(*old(self), Event::PassDone { transactions, predeploy_libraries }, *final(self), a),
    {
        let txs = match transactions {
            Some(t) => t,
            None => Vec::new(),
        };
        if maybe_new_sender(self.sender, false, Some(&txs), predeploy_libraries.len()).is_some() {
            return self.fail(ScriptError::PersistentSenderMismatch);
        }
        if self.nonce > u64::MAX - predeploy_libraries.len() as u64 {
            return self.fail(ScriptError::NonceOverflow);
        }
        self.stage = Stage::Done;
        let q = assemble_queue(self.sender, self.nonce, &predeploy_libraries, &self.fork_url, txs);
        Action::Broadcast { transactions: Some(q), relinked: true }
    }
}

} // verus!

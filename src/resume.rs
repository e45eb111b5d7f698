//! Resuming or verifying a recorded deployment sequence. Nothing here
//! simulates: the path works on the recorded queue alone.
use vstd::prelude::*;
use crate::error::ScriptError;
use crate::orchestrator::ScriptFlags;
use crate::queue::BroadcastableTransaction;

verus! {

/// Which of the two records of a sequence is read.
#[derive(Clone, Copy, Debug, PartialEq, Eq, Structural)]
pub enum RecordMode {
    /// The record of a run that attempted to broadcast.
    Broadcast,
    /// The record of a simulation that never sent anything.
    DryRun,
}

pub open spec fn record_choice(broadcasted: bool, has_broadcast: bool, has_dry_run: bool) -> Result<RecordMode, ScriptError> {
    if broadcasted && has_broadcast {
        Ok(RecordMode::Broadcast)
    } else if has_dry_run {
        Ok(RecordMode::DryRun)
    } else {
        Err(ScriptError::ResumeMismatch)
    }
}

/// Picks the record to load. After a broadcast attempt the broadcast record
/// is preferred, falling back to the dry-run record; otherwise only the
/// dry-run record is looked at. With neither, the sequence cannot be found.
pub fn choose_record(broadcasted: bool, has_broadcast: bool, has_dry_run: bool) -> (r: Result<RecordMode, ScriptError>)
    ensures
        r == record_choice(broadcasted, has_broadcast, has_dry_run),
{
    if broadcasted && has_broadcast {
        Ok(RecordMode::Broadcast)
    } else if has_dry_run {
        Ok(RecordMode::DryRun)
    } else {
        Err(ScriptError::ResumeMismatch)
    }
}

/// A persisted deployment: the queue, the block number of each
/// transaction's receipt once it is confirmed, the libraries it was linked
/// with, and its chain.
pub struct ScriptSequence {
    pub transactions: Vec<BroadcastableTransaction>,
    pub receipts: Vec<Option<u64>>,
    pub libraries: Vec<String>,
    pub chain: u64,
}

pub open spec fn is_first_pending(r: Seq<Option<u64>>, i: int) -> bool {
    &&& 0 <= i < r.len()
    &&& r[i] is None
    &&& forall|j: int| 0 <= j < i ==> (#[trigger] r[j]) is Some
}

pub open spec fn all_confirmed(r: Seq<Option<u64>>) -> bool {
    forall|j: int| 0 <= j < r.len() ==> (#[trigger] r[j]) is Some
}

impl ScriptSequence {
    pub open spec fn wf(&self) -> bool {
        self.receipts@.len() == self.transactions@.len()
    }

    /// The first transaction of the queue that has no receipt yet.
    pub fn first_pending(&self) -> (r: Option<usize>)
        ensures
            r matches Some(i) ==> is_first_pending(self.receipts@, i as int),
            r is None ==> all_confirmed(self.receipts@),
    {
        let mut i: usize = 0;
        while i < self.receipts.len()
            invariant
                i <= self.receipts@.len(),
                forall|j: int| 0 <= j < i ==> (#[trigger] self.receipts@[j]) is Some,
            decreases self.receipts@.len() - i,
        {
            if self.receipts[i].is_none() {
                return Some(i);
            }
            i = i + 1;
        }
        None
    }

    /// Records that transaction `i` was confirmed in block `block`.
    pub fn attach_receipt(&mut self, i: usize, block: u64)
        requires
            i < old(self).receipts@.len(),
        ensures
            final(self).receipts@ == old(self).receipts@.update(i as int, Some(block)),
            final(self).transactions@ == old(self).transactions@,
            final(self).libraries@ == old(self).libraries@,
            final(self).chain == old(self).chain,
    {
        self.receipts.set(i, Some(block));
    }

    /// Adds the receipts that waiting on the chain turned up; receipts
    /// already recorded are kept.
    pub fn merge_receipts(&mut self, found: &Vec<Option<u64>>)
        requires
            found@.len() == old(self).receipts@.len(),
        ensures
            final(self).receipts@.len() == old(self).receipts@.len(),
            forall|i: int| 0 <= i < found@.len() ==> #[trigger] final(self).receipts@[i] == (
                if old(self).receipts@[i] is Some { old(self).receipts@[i] } else { found@[i] }),
            final(self).transactions@ == old(self).transactions@,
            final(self).libraries@ == old(self).libraries@,
            final(self).chain == old(self).chain,
    {
        let mut i: usize = 0;
        while i < found.len()
            invariant
                i <= found@.len(),
                found@.len() == old(self).receipts@.len(),
                self.receipts@.len() == old(self).receipts@.len(),
                forall|j: int| 0 <= j < i ==> #[trigger] self.receipts@[j] == (
                    if old(self).receipts@[j] is Some { old(self).receipts@[j] } else { found@[j] }),
                forall|j: int| i <= j < found@.len() ==> #[trigger] self.receipts@[j] == old(self).receipts@[j],
                self.transactions@ == old(self).transactions@,
                self.libraries@ == old(self).libraries@,
                self.chain == old(self).chain,
            decreases found@.len() - i,
        {
            if self.receipts[i].is_none() {
                self.receipts.set(i, found[i]);
            }
            i = i + 1;
        }
    }
}

/// Checks, once a recorded sequence was relinked with its own libraries,
/// that no library is left to predeploy.
pub fn check_libraries_complete(n_predeploy: usize) -> (r: Result<(), ScriptError>)
    ensures
        n_predeploy == 0 <==> r is Ok,
        n_predeploy > 0 ==> r == Err::<(), ScriptError>(ScriptError::IncompleteLibraries),
{
    if n_predeploy == 0 {
        Ok(())
    } else {
        Err(ScriptError::IncompleteLibraries)
    }
}

#[derive(Clone, Copy, Debug, PartialEq, Eq, Structural)]
pub enum ResumeStatus {
    /// Every transaction of the sequence is confirmed.
    Sent,
    /// The sequence's contracts were verified.
    Verified,
}

#[derive(Clone, Copy, Debug, PartialEq, Eq, Structural)]
pub enum ResumeStage {
    AwaitChain,
    AwaitRecords,
    AwaitPreflight,
    AwaitPending,
    Sending,
    AwaitRelink,
    AwaitVerification,
    Finished,
    /// A send failed: the rest of the queue stays unsent.
    Halted,
    Failed,
}

/// What the caller is to do next on the resume path.
#[derive(Clone, Copy, Debug, PartialEq, Eq, Structural)]
pub enum ResumeAction {
    FetchChainId,
    /// Read whichever of the two records of the sequence on `chain` exist.
    LoadRecords { chain: u64 },
    /// Check the loaded sequence against what verification needs.
    Preflight,
    /// Wait for receipts of the transactions that have none.
    WaitPending,
    /// Sign and send transaction `index` of the sequence.
    Send { index: usize },
    /// Relink the target with the sequence's libraries.
    Relink,
    VerifyContracts,
    Finish { status: ResumeStatus },
    Stop { error: ScriptError },
}

pub enum ResumeEvent {
    ChainId { chain: u64 },
    RecordsLoaded { broadcast: Option<ScriptSequence>, dry_run: Option<ScriptSequence> },
    PreflightDone { ok: bool },
    /// For each transaction, the block of the receipt found, if any.
    PendingDone { receipts: Vec<Option<u64>> },
    /// The send of transaction `index` confirmed in `block`, or failed.
    Sent { index: usize, block: Option<u64> },
    /// How many libraries the relink still wants predeployed.
    Relinked { n_predeploy: usize },
    VerificationDone { ok: bool },
    Failed { error: ScriptError },
}

/// Where the resume path stands, with the sequence it works on.
pub struct Resumer {
    pub flags: ScriptFlags,
    pub stage: ResumeStage,
    pub chain: u64,
    pub mode: Option<RecordMode>,
    pub sequence: ScriptSequence,
}

pub open spec fn merged_receipts(old: Seq<Option<u64>>, found: Seq<Option<u64>>) -> Seq<Option<u64>> {
    Seq::new(old.len(), |i: int| if old[i] is Some { old[i] } else { found[i] })
}

/// Once receipts are in: send the first unconfirmed transaction when
/// resuming, else relink for verification, else finish.
pub open spec fn proceeds(n: Resumer, a: ResumeAction) -> bool {
    let r = n.sequence.receipts@;
    if n.flags.resume && !all_confirmed(r) {
        &&& n.stage == ResumeStage::Sending
        &&& a matches ResumeAction::Send { index } && is_first_pending(r, index as int)
    } else if n.flags.verify {
        n.stage == ResumeStage::AwaitRelink && a == ResumeAction::Relink
    } else {
        n.stage == ResumeStage::Finished && a == (ResumeAction::Finish { status: ResumeStatus::Sent })
    }
}

pub open spec fn keeps_sequence(o: Resumer, n: Resumer) -> bool {
    &&& n.flags == o.flags
    &&& n.chain == o.chain
    &&& n.mode == o.mode
    &&& n.sequence.transactions@ == o.sequence.transactions@
    &&& n.sequence.libraries@ == o.sequence.libraries@
    &&& n.sequence.chain == o.sequence.chain
}

pub open spec fn fails_with(o: Resumer, n: Resumer, a: ResumeAction, e: ScriptError) -> bool {
    keeps_sequence(o, n) && n.sequence.receipts@ == o.sequence.receipts@ && n.stage == ResumeStage::Failed
        && a == (ResumeAction::Stop { error: e })
}

/// One step of the resume path: `n` and `a` follow from `o` and `e`.
pub open spec fn resume_step_spec(o: Resumer, e: ResumeEvent, n: Resumer, a: ResumeAction) -> bool {
    match (o.stage, e) {
        (_, ResumeEvent::Failed { error }) => fails_with(o, n, a, error),
        (ResumeStage::AwaitChain, ResumeEvent::ChainId { chain }) => {
            &&& n == (Resumer { stage: ResumeStage::AwaitRecords, chain, ..o })
            &&& a == (ResumeAction::LoadRecords { chain })
        },
        (ResumeStage::AwaitRecords, ResumeEvent::RecordsLoaded { broadcast, dry_run }) => {
            match record_choice(o.flags.broadcast || o.flags.resume, broadcast is Some, dry_run is Some) {
                Err(err) => fails_with(o, n, a, err),
                Ok(m) => {
                    &&& n.flags == o.flags
                    &&& n.chain == o.chain
                    &&& n.mode == Some(m)
                    &&& n.sequence == (if m == RecordMode::Broadcast { broadcast->0 } else { dry_run->0 })
                    &&& if o.flags.verify {
                        n.stage == ResumeStage::AwaitPreflight && a == ResumeAction::Preflight
                    } else {
                        n.stage == ResumeStage::AwaitPending && a == ResumeAction::WaitPending
                    }
                },
            }
        },
        (ResumeStage::AwaitPreflight, ResumeEvent::PreflightDone { ok }) => if ok {
            n == (Resumer { stage: ResumeStage::AwaitPending, ..o }) && a == ResumeAction::WaitPending
        } else {
            fails_with(o, n, a, ScriptError::Verification)
        },
        (ResumeStage::AwaitPending, ResumeEvent::PendingDone { receipts }) => {
            if receipts@.len() != o.sequence.receipts@.len() {
                fails_with(o, n, a, ScriptError::OutOfOrder)
            } else {
                &&& keeps_sequence(o, n)
                &&& n.sequence.receipts@ == merged_receipts(o.sequence.receipts@, receipts@)
                &&& proceeds(n, a)
            }
        },
        (ResumeStage::Sending, ResumeEvent::Sent { index, block }) => {
            if index >= o.sequence.receipts@.len() {
                fails_with(o, n, a, ScriptError::OutOfOrder)
            } else {
                match block {
                    None => {
                        &&& keeps_sequence(o, n)
                        &&& n.sequence.receipts@ == o.sequence.receipts@
                        &&& n.stage == ResumeStage::Halted
                        &&& a == (ResumeAction::Stop { error: ScriptError::Network })
                    },
                    Some(b) => {
                        &&& keeps_sequence(o, n)
                        &&& n.sequence.receipts@ == o.sequence.receipts@.update(index as int, Some(b))
                        &&& proceeds(n, a)
                    },
                }
            }
        },
        (ResumeStage::AwaitRelink, ResumeEvent::Relinked { n_predeploy }) => if n_predeploy > 0 {
            fails_with(o, n, a, ScriptError::IncompleteLibraries)
        } else {
            n == (Resumer { stage: ResumeStage::AwaitVerification, ..o }) && a == ResumeAction::VerifyContracts
        },
        (ResumeStage::AwaitVerification, ResumeEvent::VerificationDone { ok }) => if ok {
            &&& n == (Resumer { stage: ResumeStage::Finished, ..o })
            &&& a == (ResumeAction::Finish { status: ResumeStatus::Verified })
        } else {
            fails_with(o, n, a, ScriptError::Verification)
        },
        _ => fails_with(o, n, a, ScriptError::OutOfOrder),
    }
}

impl Resumer {
    /// Begins the resume path; it needs an RPC endpoint.
    pub fn start(flags: ScriptFlags, fork_url: &Option<String>) -> (r: (Resumer, ResumeAction))
        ensures
            r.0.flags == flags,
            r.0.mode is None,
            fork_url is Some ==> r.0.stage == ResumeStage::AwaitChain && r.1 == ResumeAction::FetchChainId,
            fork_url is None ==> r.0.stage == ResumeStage::Failed
                && r.1 == (ResumeAction::Stop { error: ScriptError::MissingForkUrl }),
    {
        let sequence = ScriptSequence {
            transactions: Vec::new(),
            receipts: Vec::new(),
            libraries: Vec::new(),
            chain: 0,
        };
        if fork_url.is_some() {
            (Resumer { flags, stage: ResumeStage::AwaitChain, chain: 0, mode: None, sequence }, ResumeAction::FetchChainId)
        } else {
            (
                Resumer { flags, stage: ResumeStage::Failed, chain: 0, mode: None, sequence },
                ResumeAction::Stop { error: ScriptError::MissingForkUrl },
            )
        }
    }

    fn fail(&mut self, error: ScriptError) -> (a: ResumeAction)
        ensures
            fails_with(*old(self), *final(self), a, error),
    {
        self.stage = ResumeStage::Failed;
        ResumeAction::Stop { error }
    }

    fn proceed(&mut self) -> (a: ResumeAction)
        ensures
            keeps_sequence(*old(self), *final(self)),
            final(self).sequence.receipts@ == old(self).sequence.receipts@,
            proceeds(*final(self), a),
    {
        if self.flags.resume {
            if let Some(index) = self.sequence.first_pending() {
                self.stage = ResumeStage::Sending;
                return ResumeAction::Send { index };
            }
        }
        if self.flags.verify {
            self.stage = ResumeStage::AwaitRelink;
            ResumeAction::Relink
        } else {
            self.stage = ResumeStage::Finished;
            ResumeAction::Finish { status: ResumeStatus::Sent }
        }
    }

    fn records_loaded(&mut self, broadcast: Option<ScriptSequence>, dry_run: Option<ScriptSequence>) -> (a: ResumeAction)
        requires
            old(self).stage == ResumeStage::AwaitRecords,
        ensures
            resume_step_spec(*old(self), ResumeEvent::RecordsLoaded { broadcast, dry_run }, *final(self), a),
    {
        let broadcasted = self.flags.broadcast || self.flags.resume;
        match choose_record(broadcasted, broadcast.is_some(), dry_run.is_some()) {
            Err(err) => self.fail(err),
            Ok(m) => {
                self.mode = Some(m);
                match m {
                    RecordMode::Broadcast => {
                        if let Some(seq) = broadcast {
                            self.sequence = seq;
                        }
                    },
                    RecordMode::DryRun => {
                        if let Some(seq) = dry_run {
                            self.sequence = seq;
                        }
                    },
                }
                if self.flags.verify {
                    self.stage = ResumeStage::AwaitPreflight;
                    ResumeAction::Preflight
                } else {
                    self.stage = ResumeStage::AwaitPending;
                    ResumeAction::WaitPending
                }
            },
        }
    }

    fn pending_done(&mut self, receipts: Vec<Option<u64>>) -> (a: ResumeAction)
        requires
            old(self).stage == ResumeStage::AwaitPending,
        ensures
            resume_step_spec(*old(self), ResumeEvent::PendingDone { receipts }, *final(self), a),
    {
        if receipts.len() != self.sequence.receipts.len() {
            return self.fail(ScriptError::OutOfOrder);
        }
        let ghost before = self.sequence.receipts@;
        self.sequence.merge_receipts(&receipts);
        assert(self.sequence.receipts@ =~= merged_receipts(before, receipts@));
        self.proceed()
    }

    fn sent(&mut self, index: usize, block: Option<u64>) -> (a: ResumeAction)
        requires
            old(self).stage == ResumeStage::Sending,
        ensures
            resume_step_spec(*old(self), ResumeEvent::Sent { index, block }, *final(self), a),
    {
        if index >= self.sequence.receipts.len() {
            return self.fail(ScriptError::OutOfOrder);
        }
        match block {
            None => {
                self.stage = ResumeStage::Halted;
                ResumeAction::Stop { error: ScriptError::Network }
            },
            Some(b) => {
                self.sequence.attach_receipt(index, b);
                self.proceed()
            },
        }
    }

    /// Takes the outside world's report `e` and returns what to do next.
    pub fn step(&mut self, e: ResumeEvent) -> (a: ResumeAction)
        ensures
            resume_step_spec(*old(self), e, *final(self), a),
    {
        match e {
            ResumeEvent::Failed { error } => self.fail(error),
            ResumeEvent::ChainId { chain } => {
                if self.stage != ResumeStage::AwaitChain {
                    return self.fail(ScriptError::OutOfOrder);
                }
                self.stage = ResumeStage::AwaitRecords;
                self.chain = chain;
                ResumeAction::LoadRecords { chain }
            },
            ResumeEvent::RecordsLoaded { broadcast, dry_run } => {
                if self.stage != ResumeStage::AwaitRecords {
                    return self.fail(ScriptError::OutOfOrder);
                }
                self.records_loaded(broadcast, dry_run)
            },
            ResumeEvent::PreflightDone { ok } => {
                if self.stage != ResumeStage::AwaitPreflight {
                    return self.fail(ScriptError::OutOfOrder);
                }
                if !ok {
                    return self.fail(ScriptError::Verification);
                }
                self.stage = ResumeStage::AwaitPending;
                ResumeAction::WaitPending
            },
            ResumeEvent::PendingDone { receipts } => {
                if self.stage != ResumeStage::AwaitPending {
                    return self.fail(ScriptError::OutOfOrder);
                }
                self.pending_done(receipts)
            },
            ResumeEvent::Sent { index, block } => {
                if self.stage != ResumeStage::Sending {
                    return self.fail(ScriptError::OutOfOrder);
                }
                self.sent(index, block)
            },
            ResumeEvent::Relinked { n_predeploy } => {
                if self.stage != ResumeStage::AwaitRelink {
                    return self.fail(ScriptError::OutOfOrder);
                }
                match check_libraries_complete(n_predeploy) {
                    Err(err) => self.fail(err),
                    Ok(()) => {
                        self.stage = ResumeStage::AwaitVerification;
                        ResumeAction::VerifyContracts
                    },
                }
            },
            ResumeEvent::VerificationDone { ok } => {
                if self.stage != ResumeStage::AwaitVerification {
                    return self.fail(ScriptError::OutOfOrder);
                }
                if !ok {
                    return self.fail(ScriptError::Verification);
                }
                self.stage = ResumeStage::Finished;
                ResumeAction::Finish { status: ResumeStatus::Verified }
            },
        }
    }
}

} // verus!

//! Properties of the run that span several steps or several calls.
use vstd::prelude::*;
use crate::address::{predicted_addresses, Address};
use crate::error::ScriptError;
use crate::orchestrator::{opt_view, step_spec, Action, Event, Orchestrator, Stage};
use crate::queue::{is_library_deploy, library_deploys, pass_queue, BroadcastableTransaction};
use crate::resume::{record_choice, resume_step_spec, RecordMode, ResumeAction, ResumeEvent, ResumeStage, Resumer};
use crate::sender::new_sender_spec;

verus! {

/// Linking is deterministic: the same sender, nonce and libraries give the
/// same predicted addresses and the same deploy transactions.
pub proof fn lemma_relink_deterministic(
    sender: Address,
    nonce: u64,
    libs: Seq<Vec<u8>>,
    rpc: Option<String>,
    a1: Seq<Address>,
    a2: Seq<Address>,
    q1: Seq<BroadcastableTransaction>,
    q2: Seq<BroadcastableTransaction>,
)
    requires
        a1 == predicted_addresses(sender, nonce, libs.len()),
        a2 == predicted_addresses(sender, nonce, libs.len()),
        library_deploys(q1, sender, nonce, libs, rpc),
        library_deploys(q2, sender, nonce, libs, rpc),
    ensures
        a1 == a2,
        q1.len() == q2.len(),
        forall|i: int| 0 <= i < q1.len() ==> {
            &&& (#[trigger] q1[i]).rpc == q2[i].rpc
            &&& q1[i].transaction.from == q2[i].transaction.from
            &&& q1[i].transaction.to == q2[i].transaction.to
            &&& q1[i].transaction.nonce == q2[i].transaction.nonce
            &&& q1[i].transaction.data@ == q2[i].transaction.data@
        },
{
    assert forall|i: int| 0 <= i < q1.len() implies {
        &&& (#[trigger] q1[i]).rpc == q2[i].rpc
        &&& q1[i].transaction.from == q2[i].transaction.from
        &&& q1[i].transaction.to == q2[i].transaction.to
        &&& q1[i].transaction.nonce == q2[i].transaction.nonce
        &&& q1[i].transaction.data@ == q2[i].transaction.data@
    } by {
        assert(is_library_deploy(q1[i], sender, nonce + i, libs[i]@, rpc));
        assert(is_library_deploy(q2[i], sender, nonce + i, libs[i]@, rpc));
    }
}

/// Whenever a step hands a queue over for broadcast, that queue is the
/// pass queue of the step's event: the library deploys, in the order given,
/// from the current sender and nonce, then the script's transactions.
pub proof fn lemma_broadcast_is_pass_queue(o: Orchestrator, e: Event, n: Orchestrator, a: Action)
    requires
        step_spec(o, e, n, a),
        a matches Action::Broadcast { transactions: Some(_), .. },
    ensures
        e matches Event::PassDone { transactions, predeploy_libraries } && {
            let q = a->Broadcast_transactions->0;
            let txs = match transactions { Some(t) => t@, None => Seq::empty() };
            pass_queue(q@, n.sender, n.nonce, predeploy_libraries@, n.fork_url, txs)
        },
{
}

/// A first pass whose script expects another deployer leads to exactly one
/// rerun: the nonce of the corrected sender is fetched, the rerun uses it,
/// and whatever follows the rerun neither simulates again nor keeps any
/// transaction of the first pass: the queue is built from the rerun alone.
pub proof fn lemma_single_rerun(
    o0: Orchestrator,
    e1: Event,
    o1: Orchestrator,
    a1: Action,
    nonce: u64,
    o2: Orchestrator,
    a2: Action,
    e3: Event,
    o3: Orchestrator,
    a3: Action,
    e4: Event,
    o4: Orchestrator,
    a4: Action,
)
    requires
        o0.stage == Stage::AwaitFirstPass,
        !o0.flags.resumes_spec(),
        o0.fork_url is Some,
        e1 matches Event::PassDone { transactions, predeploy_libraries }
            && new_sender_spec(o0.sender, o0.flags.sender_given, opt_view(transactions), predeploy_libraries@.len()) is Some,
        step_spec(o0, e1, o1, a1),
        step_spec(o1, Event::NonceFetched { nonce }, o2, a2),
        step_spec(o2, e3, o3, a3),
        step_spec(o3, e4, o4, a4),
    ensures
        ({
            let s = new_sender_spec(o0.sender, o0.flags.sender_given, opt_view(e1->PassDone_transactions), e1->PassDone_predeploy_libraries@.len())->0;
            &&& a1 == (Action::FetchNonce { sender: s })
            &&& a2 == (Action::Rerun { sender: s, nonce })
            &&& o2.sender == s && o2.nonce == nonce
        }),
        !(a3 is Simulate) && !(a3 is Rerun),
        !(a4 is Simulate) && !(a4 is Rerun),
        a3 matches Action::Broadcast { transactions: Some(q), .. } ==> e3 matches Event::PassDone { transactions, predeploy_libraries }
            && pass_queue(q@, o2.sender, nonce, predeploy_libraries@, o2.fork_url,
                match transactions { Some(t) => t@, None => Seq::empty() }),
{
}

/// Once the run has taken the resume path, no step simulates again.
pub proof fn lemma_resume_never_simulates(o0: Orchestrator, e1: Event, o1: Orchestrator, a1: Action, e2: Event, o2: Orchestrator, a2: Action)
    requires
        o0.stage == Stage::AwaitFirstPass,
        o0.flags.resumes_spec(),
        step_spec(o0, e1, o1, a1),
        step_spec(o1, e2, o2, a2),
    ensures
        e1 is PassDone ==> a1 == Action::Resume,
        !(a1 is Simulate) && !(a1 is Rerun),
        !(a2 is Simulate) && !(a2 is Rerun),
{
}

/// Resuming after a broadcast attempt falls back to the dry-run record when
/// no broadcast record exists, and fails with `ResumeMismatch` when neither
/// exists.
pub proof fn lemma_resume_load_fallback(o: Resumer, e: ResumeEvent, n: Resumer, a: ResumeAction)
    requires
        o.stage == ResumeStage::AwaitRecords,
        o.flags.resume,
        e is RecordsLoaded,
        e->RecordsLoaded_broadcast is None,
        resume_step_spec(o, e, n, a),
    ensures
        e->RecordsLoaded_dry_run matches Some(d) ==> n.mode == Some(RecordMode::DryRun) && n.sequence == d
            && n.stage != ResumeStage::Failed,
        e->RecordsLoaded_dry_run is None ==> n.stage == ResumeStage::Failed
            && a == (ResumeAction::Stop { error: ScriptError::ResumeMismatch }),
{
    assert(record_choice(true, false, true) == Ok::<RecordMode, ScriptError>(RecordMode::DryRun));
}

/// Verifying a sequence whose relink leaves a library unresolved fails with
/// `IncompleteLibraries`, and no later step asks for verification.
pub proof fn lemma_incomplete_libraries_stop_verification(
    o0: Resumer,
    n_predeploy: usize,
    o1: Resumer,
    a1: ResumeAction,
    e2: ResumeEvent,
    o2: Resumer,
    a2: ResumeAction,
)
    requires
        o0.stage == ResumeStage::AwaitRelink,
        n_predeploy > 0,
        resume_step_spec(o0, ResumeEvent::Relinked { n_predeploy }, o1, a1),
        resume_step_spec(o1, e2, o2, a2),
    ensures
        a1 == (ResumeAction::Stop { error: ScriptError::IncompleteLibraries }),
        a2 != ResumeAction::VerifyContracts,
        o2.stage == ResumeStage::Failed,
{
}

} // verus!

use script_deploy::address::{predict_library_addresses, Address};
use script_deploy::error::ScriptError;
use script_deploy::orchestrator::{Action, Event, Orchestrator, ScriptFlags, Stage};
use script_deploy::queue::{assemble_queue, create_deploy_transactions, BroadcastableTransaction, TransactionRequest};
use script_deploy::sender::{initial_sender, maybe_load_private_key, maybe_new_sender, pass_nonce, PassNonce};

fn addr(hi: u32, lo: u128) -> Address {
    Address { hi, lo }
}

fn broadcast_flags() -> ScriptFlags {
    ScriptFlags {
        resume: false,
        verify: false,
        broadcast: true,
        multi: false,
        debug: false,
        json: false,
        sender_given: false,
    }
}

fn tx(from: Address, to: Option<Address>, nonce: u64, data: Vec<u8>) -> BroadcastableTransaction {
    BroadcastableTransaction {
        rpc: Some("http://localhost:8545".to_string()),
        transaction: TransactionRequest { from, to, nonce: Some(nonce), data },
    }
}

fn url() -> Option<String> {
    Some("http://localhost:8545".to_string())
}

fn queue_of(a: Action) -> (Vec<BroadcastableTransaction>, bool) {
    match a {
        Action::Broadcast { transactions: Some(q), relinked } => (q, relinked),
        _ => panic!("expected a broadcast"),
    }
}

#[test]
fn create_address_matches_known_vector() {
    let sender = addr(0xb20a608c, 0x624ca5003905aa834de7156c68b2e1d0);
    let r = predict_library_addresses(sender, 0, 2);
    assert_eq!(r, vec![addr(0x00000000, 0x219ab540356cbb839cbe05303d7705fa), addr(0xe33c6e89, 0xe69d085897f98e92b06ebd541d1daa99)]);
}

#[test]
fn relinking_is_deterministic() {
    let s = addr(7, 42);
    let libs = vec![vec![1u8, 2], vec![3u8]];
    assert_eq!(predict_library_addresses(s, 3, 2), predict_library_addresses(s, 3, 2));
    let a = create_deploy_transactions(s, 3, &libs, &url());
    let b = create_deploy_transactions(s, 3, &libs, &url());
    assert_eq!(format!("{:?}", a), format!("{:?}", b));
}

#[test]
fn single_key_becomes_sender() {
    let s = addr(1, 1);
    let k = addr(2, 2);
    assert_eq!(maybe_load_private_key(&vec![k]), Some(k));
    assert_eq!(maybe_load_private_key(&vec![k, s]), None);
    assert_eq!(maybe_load_private_key(&vec![]), None);
    assert_eq!(initial_sender(s, &vec![k]), k);
    assert_eq!(initial_sender(s, &vec![k, k]), s);
}

#[test]
fn pass_nonce_without_chain_is_local() {
    assert_eq!(pass_nonce(None), PassNonce { nonce: 1, keep_libraries: false });
    assert_eq!(pass_nonce(Some(9)), PassNonce { nonce: 9, keep_libraries: true });
}

#[test]
fn deploys_precede_script_in_order() {
    let s = addr(0, 5);
    let libs = vec![vec![0xaa], vec![0xbb], vec![0xcc]];
    let script = vec![tx(s, Some(addr(0, 9)), 13, vec![1]), tx(s, None, 14, vec![2])];
    let q = assemble_queue(s, 10, &libs, &url(), script);
    assert_eq!(q.len(), 5);
    for i in 0..3 {
        assert_eq!(q[i].transaction.to, None);
        assert_eq!(q[i].transaction.from, s);
        assert_eq!(q[i].transaction.nonce, Some(10 + i as u64));
        assert_eq!(q[i].transaction.data, libs[i]);
        assert_eq!(q[i].rpc, url());
    }
    assert_eq!(q[3].transaction.data, vec![1]);
    assert_eq!(q[4].transaction.data, vec![2]);
}

#[test]
fn new_sender_detection() {
    let s = addr(0, 1);
    let s2 = addr(0, 2);
    let s3 = addr(0, 3);
    let one = vec![tx(s2, None, 0, vec![])];
    assert_eq!(maybe_new_sender(s, false, Some(&one), 1), Some(s2));
    assert_eq!(maybe_new_sender(s, true, Some(&one), 1), None);
    assert_eq!(maybe_new_sender(s, false, Some(&one), 0), None);
    assert_eq!(maybe_new_sender(s, false, None, 1), None);
    let calls = vec![tx(s2, Some(s3), 0, vec![])];
    assert_eq!(maybe_new_sender(s, false, Some(&calls), 1), None);
    let ambiguous = vec![tx(s2, None, 0, vec![]), tx(s3, None, 0, vec![])];
    assert_eq!(maybe_new_sender(s, false, Some(&ambiguous), 1), None);
    let default_first = vec![tx(s, None, 0, vec![]), tx(s2, None, 0, vec![])];
    assert_eq!(maybe_new_sender(s, false, Some(&default_first), 1), Some(s2));
}

#[test]
fn fresh_deploy_queue_under_fetched_nonce() {
    let s = addr(0xabcd, 77);
    let (mut o, a) = Orchestrator::start(broadcast_flags(), s, &vec![], url());
    assert!(matches!(a, Action::FetchNonce { sender } if sender == s));
    let n = 40;
    let a = o.step(Event::NonceFetched { nonce: n });
    assert!(matches!(a, Action::Simulate { sender, nonce: 40, keep_libraries: true } if sender == s));
    let l1_addr = predict_library_addresses(s, n, 2)[0];
    let libs = vec![vec![0x11], vec![0x22]];
    let script = vec![tx(s, Some(l1_addr), n + 2, vec![0x01]), tx(s, Some(l1_addr), n + 3, vec![0x02])];
    let a = o.step(Event::PassDone { transactions: Some(script), predeploy_libraries: libs });
    assert_eq!(o.stage, Stage::Done);
    let (q, relinked) = queue_of(a);
    assert!(!relinked);
    let data: Vec<Vec<u8>> = q.iter().map(|t| t.transaction.data.clone()).collect();
    assert_eq!(data, vec![vec![0x11], vec![0x22], vec![0x01], vec![0x02]]);
    let nonces: Vec<Option<u64>> = q.iter().map(|t| t.transaction.nonce).collect();
    assert_eq!(nonces, vec![Some(40), Some(41), Some(42), Some(43)]);
    assert!(q.iter().all(|t| t.transaction.from == s));
}

#[test]
fn rerun_under_expected_deployer() {
    let s = addr(0, 1);
    let s2 = addr(0, 2);
    let (mut o, _) = Orchestrator::start(broadcast_flags(), s, &vec![], url());
    o.step(Event::NonceFetched { nonce: 3 });
    let first = vec![tx(s2, None, 0, vec![0xee])];
    let a = o.step(Event::PassDone { transactions: Some(first), predeploy_libraries: vec![vec![0x11]] });
    assert!(matches!(a, Action::FetchNonce { sender } if sender == s2));
    let n2 = 20;
    let a = o.step(Event::NonceFetched { nonce: n2 });
    assert!(matches!(a, Action::Rerun { sender, nonce: 20 } if sender == s2));
    let rerun = vec![tx(s2, None, n2 + 1, vec![0x01])];
    let a = o.step(Event::PassDone { transactions: Some(rerun), predeploy_libraries: vec![vec![0x11]] });
    let (q, relinked) = queue_of(a);
    assert!(relinked);
    assert_eq!(q.len(), 2);
    assert!(q.iter().all(|t| t.transaction.from == s2));
    assert_eq!(q[0].transaction.nonce, Some(20));
    assert_eq!(q[0].transaction.data, vec![0x11]);
    assert_eq!(q[1].transaction.nonce, Some(21));
    assert_eq!(q[1].transaction.data, vec![0x01]);
    assert!(q.iter().all(|t| t.transaction.data != vec![0xee]));
}

#[test]
fn rerun_without_rpc_fails() {
    let s = addr(0, 1);
    let (mut o, a) = Orchestrator::start(broadcast_flags(), s, &vec![], None);
    assert!(matches!(a, Action::Simulate { nonce: 1, keep_libraries: false, .. }));
    let first = vec![tx(addr(0, 2), None, 0, vec![])];
    let a = o.step(Event::PassDone { transactions: Some(first), predeploy_libraries: vec![vec![1]] });
    assert!(matches!(a, Action::Stop { error: ScriptError::MissingRpcUrl }));
    assert_eq!(o.stage, Stage::Failed);
}

#[test]
fn rerun_target_missing_fails() {
    let (mut o, _) = Orchestrator::start(broadcast_flags(), addr(0, 1), &vec![], url());
    o.step(Event::NonceFetched { nonce: 0 });
    o.step(Event::PassDone { transactions: Some(vec![tx(addr(0, 2), None, 0, vec![])]), predeploy_libraries: vec![vec![1]] });
    o.step(Event::NonceFetched { nonce: 0 });
    let a = o.step(Event::TargetMissing);
    assert!(matches!(a, Action::Stop { error: ScriptError::TargetNotFound }));
}

#[test]
fn persistent_mismatch_is_fatal() {
    let (mut o, _) = Orchestrator::start(broadcast_flags(), addr(0, 1), &vec![], url());
    o.step(Event::NonceFetched { nonce: 0 });
    o.step(Event::PassDone { transactions: Some(vec![tx(addr(0, 2), None, 0, vec![])]), predeploy_libraries: vec![vec![1]] });
    o.step(Event::NonceFetched { nonce: 0 });
    let a = o.step(Event::PassDone { transactions: Some(vec![tx(addr(0, 3), None, 0, vec![])]), predeploy_libraries: vec![vec![1]] });
    assert!(matches!(a, Action::Stop { error: ScriptError::PersistentSenderMismatch }));
}

#[test]
fn nonce_overflow_is_refused() {
    let (mut o, _) = Orchestrator::start(broadcast_flags(), addr(0, 1), &vec![], url());
    o.step(Event::NonceFetched { nonce: u64::MAX });
    let a = o.step(Event::PassDone { transactions: Some(vec![]), predeploy_libraries: vec![vec![1]] });
    assert!(matches!(a, Action::Stop { error: ScriptError::NonceOverflow }));
}

#[test]
fn resume_skips_to_resume_path() {
    let mut flags = broadcast_flags();
    flags.resume = true;
    let (mut o, _) = Orchestrator::start(flags, addr(0, 1), &vec![], url());
    o.step(Event::NonceFetched { nonce: 0 });
    let a = o.step(Event::PassDone { transactions: Some(vec![tx(addr(0, 2), None, 0, vec![])]), predeploy_libraries: vec![vec![1]] });
    assert!(matches!(a, Action::Resume));
    assert_eq!(o.stage, Stage::Resuming);
    let a = o.step(Event::NonceFetched { nonce: 0 });
    assert!(matches!(a, Action::Stop { error: ScriptError::OutOfOrder }));
}

#[test]
fn failure_event_stops() {
    let (mut o, _) = Orchestrator::start(broadcast_flags(), addr(0, 1), &vec![], url());
    let a = o.step(Event::Failed { error: ScriptError::Simulation });
    assert!(matches!(a, Action::Stop { error: ScriptError::Simulation }));
    assert_eq!(o.stage, Stage::Failed);
}

#[test]
fn no_transactions_no_queue() {
    let (mut o, _) = Orchestrator::start(broadcast_flags(), addr(0, 1), &vec![], None);
    let a = o.step(Event::PassDone { transactions: None, predeploy_libraries: vec![vec![1]] });
    assert!(matches!(a, Action::Broadcast { transactions: None, relinked: false }));
}

//! Broadcastable transactions and the ordered queue that a pass produces:
//! library predeploys first, in order, then the script's own transactions.
use vstd::prelude::*;
use crate::address::Address;

verus! {

/// An unsigned transaction as the script produced it.
#[derive(Clone, Debug)]
pub struct TransactionRequest {
    pub from: Address,
    /// `None` for a contract creation.
    pub to: Option<Address>,
    pub nonce: Option<u64>,
    pub data: Vec<u8>,
}

/// A transaction together with the RPC endpoint it is to be sent to.
#[derive(Clone, Debug)]
pub struct BroadcastableTransaction {
    pub rpc: Option<String>,
    pub transaction: TransactionRequest,
}

/// `t` deploys the library `code` from `sender` with nonce `nonce`.
pub open spec fn is_library_deploy(
    t: BroadcastableTransaction,
    sender: Address,
    nonce: int,
    code: Seq<u8>,
    rpc: Option<String>,
) -> bool {
    &&& t.rpc == rpc
    &&& t.transaction.from == sender
    &&& t.transaction.to is None
    &&& t.transaction.nonce == Some(nonce as u64)
    &&& t.transaction.data@ == code
}

/// `q` deploys `libs` one by one, in order, from `sender` with the nonces
/// `nonce`, `nonce + 1`, ...
pub open spec fn library_deploys(
    q: Seq<BroadcastableTransaction>,
    sender: Address,
    nonce: u64,
    libs: Seq<Vec<u8>>,
    rpc: Option<String>,
) -> bool {
    &&& q.len() == libs.len()
    &&& forall|i: int|
        0 <= i < q.len() ==> is_library_deploy(#[trigger] q[i], sender, nonce + i, libs[i]@, rpc)
}

/// `q` is the queue of one pass: the deploys of `libs`, then `script`
/// unchanged.
pub open spec fn pass_queue(
    q: Seq<BroadcastableTransaction>,
    sender: Address,
    nonce: u64,
    libs: Seq<Vec<u8>>,
    rpc: Option<String>,
    script: Seq<BroadcastableTransaction>,
) -> bool {
    &&& q.len() == libs.len() + script.len()
    &&& forall|i: int|
        0 <= i < libs.len() ==> is_library_deploy(#[trigger] q[i], sender, nonce + i, libs[i]@, rpc)
    &&& q.skip(libs.len() as int) == script
}

/// The transactions of `q` carry the nonces `start`, `start + 1`, ...
pub open spec fn nonces_from(q: Seq<BroadcastableTransaction>, start: int) -> bool {
    forall|i: int| 0 <= i < q.len() ==> (#[trigger] q[i]).transaction.nonce == Some((start + i) as u64)
}

/// Builds one deploy transaction per library, in order, from `sender` with
/// consecutive nonces starting at `nonce`.
pub fn create_deploy_transactions(
    sender: Address,
    nonce: u64,
    libs: &Vec<Vec<u8>>,
    rpc: &Option<String>,
) -> (r: Vec<BroadcastableTransaction>)
    requires
        nonce + libs@.len() <= u64::MAX,
    ensures
        library_deploys(r@, sender, nonce, libs@, *rpc),
{
    let mut r: Vec<BroadcastableTransaction> = Vec::new();
    let mut i: usize = 0;
    while i < libs.len()
        invariant
            i <= libs@.len(),
            nonce + libs@.len() <= u64::MAX,
            library_deploys(r@, sender, nonce, libs@.take(i as int), *rpc),
            r@.len() == i,
        decreases libs@.len() - i,
    {
        let data = libs[i].clone();
        assert(data@ =~= libs@[i as int]@);
        let t = BroadcastableTransaction {
            rpc: rpc.clone(),
            transaction: TransactionRequest {
                from: sender,
                to: None,
                nonce: Some(nonce + i as u64),
                data,
            },
        };
        r.push(t);
        i = i + 1;
        assert forall|k: int| 0 <= k < r@.len() implies is_library_deploy(
            #[trigger] r@[k],
            sender,
            nonce + k,
            libs@.take(i as int)[k]@,
            *rpc,
        ) by {
            if k < i - 1 {
                assert(libs@.take(i as int)[k] == libs@.take(i - 1)[k]);
            }
        }
    }
    assert(libs@.take(i as int) =~= libs@);
    r
}

/// The queue of one pass: the deploys of `libs` from `sender` starting at
/// `nonce`, followed by the script's transactions in their own order.
pub fn assemble_queue(
    sender: Address,
    nonce: u64,
    libs: &Vec<Vec<u8>>,
    rpc: &Option<String>,
    script: Vec<BroadcastableTransaction>,
) -> (r: Vec<BroadcastableTransaction>)
    requires
        nonce + libs@.len() <= u64::MAX,
    ensures
        pass_queue(r@, sender, nonce, libs@, *rpc, script@),
{
    let mut q = create_deploy_transactions(sender, nonce, libs, rpc);
    let ghost deploys = q@;
    let mut rest = script;
    q.append(&mut rest);
    assert forall|i: int| 0 <= i < libs@.len() implies is_library_deploy(
        #[trigger] q@[i],
        sender,
        nonce + i,
        libs@[i]@,
        *rpc,
    ) by {
        assert(q@[i] == deploys[i]);
    }
    assert(q@.skip(libs@.len() as int) =~= script@);
    q
}

/// In a pass queue, every library deploy comes before every script
/// transaction, and the deploys follow the order of `libs`: the one at
/// position `i` deploys `libs[i]` with nonce `nonce + i`.
pub proof fn lemma_deploys_precede_script(
    q: Seq<BroadcastableTransaction>,
    sender: Address,
    nonce: u64,
    libs: Seq<Vec<u8>>,
    rpc: Option<String>,
    script: Seq<BroadcastableTransaction>,
)
    requires
        pass_queue(q, sender, nonce, libs, rpc, script),
    ensures
        forall|i: int|
            0 <= i < libs.len() ==> is_library_deploy(#[trigger] q[i], sender, nonce + i, libs[i]@, rpc),
        forall|j: int| 0 <= j < script.len() ==> q[libs.len() + j] == #[trigger] script[j],
{
    assert forall|j: int| 0 <= j < script.len() implies q[libs.len() + j] == #[trigger] script[j] by {
        assert(q.skip(libs.len() as int)[j] == q[libs.len() + j]);
    }
}

/// When the script's transactions carry the nonces that follow the
/// library deploys, the whole queue carries consecutive nonces from `nonce`.
pub proof fn lemma_queue_nonces_contiguous(
    q: Seq<BroadcastableTransaction>,
    sender: Address,
    nonce: u64,
    libs: Seq<Vec<u8>>,
    rpc: Option<String>,
    script: Seq<BroadcastableTransaction>,
)
    requires
        pass_queue(q, sender, nonce, libs, rpc, script),
        nonces_from(script, nonce + libs.len()),
    ensures
        nonces_from(q, nonce as int),
{
    lemma_deploys_precede_script(q, sender, nonce, libs, rpc, script);
    assert forall|i: int| 0 <= i < q.len() implies (#[trigger] q[i]).transaction.nonce == Some(
        (nonce + i) as u64,
    ) by {
        if i < libs.len() {
            assert(is_library_deploy(q[i], sender, nonce + i, libs[i]@, rpc));
        } else {
            let j = i - libs.len();
            assert(q[libs.len() + j] == script[j]);
        }
    }
}

} // verus!

//! Which account deploys, and with which nonce.
use vstd::prelude::*;
use crate::address::Address;
use crate::queue::BroadcastableTransaction;

verus! {

/// With exactly one private key loaded, its address is taken as the sender.
pub fn maybe_load_private_key(key_addresses: &Vec<Address>) -> (r: Option<Address>)
    ensures
        key_addresses@.len() == 1 ==> r == Some(key_addresses@[0]),
        key_addresses@.len() != 1 ==> r is None,
{
    if key_addresses.len() == 1 {
        Some(key_addresses[0])
    } else {
        None
    }
}

/// The sender of the first pass: the single loaded key's address, else the
/// configured sender.
pub fn initial_sender(configured: Address, key_addresses: &Vec<Address>) -> (r: Address)
    ensures
        r == (if key_addresses@.len() == 1 { key_addresses@[0] } else { configured }),
{
    match maybe_load_private_key(key_addresses) {
        Some(a) => a,
        None => configured,
    }
}

/// How a pass is set up: the nonce its predictions start from, and whether
/// the configured library addresses are kept.
#[derive(Clone, Copy, Debug, PartialEq, Eq, Structural)]
pub struct PassNonce {
    pub nonce: u64,
    pub keep_libraries: bool,
}

/// The nonce a pass runs with when no chain is at hand.
pub const LOCAL_NONCE: u64 = 1;

/// With a chain (its fetched nonce given) the pass uses the on-chain nonce
/// and keeps configured libraries; without one it uses the local nonce and
/// drops them, as nothing could confirm they exist.
pub fn pass_nonce(fetched: Option<u64>) -> (r: PassNonce)
    ensures
        fetched matches Some(n) ==> r == (PassNonce { nonce: n, keep_libraries: true }),
        fetched is None ==> r == (PassNonce { nonce: LOCAL_NONCE, keep_libraries: false }),
{
    match fetched {
        Some(n) => PassNonce { nonce: n, keep_libraries: true },
        None => PassNonce { nonce: LOCAL_NONCE, keep_libraries: false },
    }
}

/// Scans `txs` for contract creations. The first creator that differs from
/// `default` becomes the candidate; a later creation by anyone else makes
/// the choice ambiguous, and then no new sender is taken.
pub open spec fn scan_creators(
    txs: Seq<BroadcastableTransaction>,
    default: Address,
    found: Option<Address>,
) -> Option<Address>
    decreases txs.len(),
{
    if txs.len() == 0 {
        found
    } else {
        let t = txs[0].transaction;
        let rest = txs.drop_first();
        if t.to is Some {
            scan_creators(rest, default, found)
        } else {
            match found {
                Some(ns) => if t.from != ns {
                    None
                } else {
                    scan_creators(rest, default, found)
                },
                None => if t.from != default {
                    scan_creators(rest, default, Some(t.from))
                } else {
                    scan_creators(rest, default, None)
                },
            }
        }
    }
}

/// The deployer that the first pass shows the script expects, where it is
/// not the default sender: only when libraries are to be predeployed and no
/// sender was given explicitly.
pub open spec fn new_sender_spec(
    default: Address,
    sender_given: bool,
    txs: Option<Seq<BroadcastableTransaction>>,
    n_predeploy: nat,
) -> Option<Address> {
    match txs {
        Some(t) => if n_predeploy > 0 && !sender_given {
            scan_creators(t, default, None)
        } else {
            None
        },
        None => None,
    }
}

/// Decides whether the predeployed libraries must come from another sender
/// than `default`.
pub fn maybe_new_sender(
    default: Address,
    sender_given: bool,
    txs: Option<&Vec<BroadcastableTransaction>>,
    n_predeploy: usize,
) -> (r: Option<Address>)
    ensures
        r == new_sender_spec(
            default,
            sender_given,
            match txs { Some(t) => Some(t@), None => None },
            n_predeploy as nat,
        ),
{
    match txs {
        None => None,
        Some(t) => {
            if n_predeploy == 0 || sender_given {
                return None;
            }
            let mut found: Option<Address> = None;
            let mut i: usize = 0;
            assert(t@.skip(0) =~= t@);
            while i < t.len()
                invariant
                    i <= t@.len(),
                    n_predeploy > 0,
                    !sender_given,
                    txs == Some(t),
                    scan_creators(t@, default, None) == scan_creators(t@.skip(i as int), default, found),
                decreases t@.len() - i,
            {
                let tx = &t[i].transaction;
                assert(t@.skip(i as int).drop_first() =~= t@.skip(i + 1));
                if tx.to.is_none() {
                    match found {
                        Some(ns) => {
                            if tx.from != ns {
                                assert(scan_creators(t@.skip(i as int), default, found) is None);
                                return None;
                            }
                        },
                        None => {
                            if tx.from != default {
                                found = Some(tx.from);
                            }
                        },
                    }
                }
                i = i + 1;
            }
            found
        },
    }
}

} // verus!

//! Account addresses and the addresses that contract creation yields.
use vstd::prelude::*;

verus! {

/// A 20-byte account address, read big-endian: the first four bytes in
/// `hi`, the other sixteen in `lo`.
#[derive(Clone, Copy, Debug, PartialEq, Eq, Structural)]
pub struct Address {
    pub hi: u32,
    pub lo: u128,
}

/// The address of the contract that `sender` creates with `nonce`
/// (`keccak256(rlp([sender, nonce]))[12..]`).
pub uninterp spec fn create_address(sender: Address, nonce: u64) -> Address;

/// Relies on alloy_primitives::Address::create, which derives the created
/// contract's address from the sender and nonce alone.
#[verifier::external_body]
pub(crate) fn create(sender: Address, nonce: u64) -> (r: Address)
    ensures
        r == create_address(sender, nonce),
{
    let mut b = [0u8; 20];
    b[..4].copy_from_slice(&sender.hi.to_be_bytes());
    b[4..].copy_from_slice(&sender.lo.to_be_bytes());
    let c = alloy_primitives::Address::new(b).create(nonce).into_array();
    let (mut hi, mut lo) = ([0u8; 4], [0u8; 16]);
    hi.copy_from_slice(&c[..4]);
    lo.copy_from_slice(&c[4..]);
    Address { hi: u32::from_be_bytes(hi), lo: u128::from_be_bytes(lo) }
}

/// The addresses at which `count` libraries deployed one after another by
/// `sender`, starting at `nonce`, come to stand.
pub open spec fn predicted_addresses(sender: Address, nonce: u64, count: nat) -> Seq<Address> {
    Seq::new(count, |i: int| create_address(sender, (nonce + i) as u64))
}

/// Predicts where `count` predeployed libraries will land when `sender`
/// deploys them in order from `nonce` on.
pub fn predict_library_addresses(sender: Address, nonce: u64, count: u64) -> (r: Vec<Address>)
    requires
        nonce + count <= u64::MAX,
    ensures
        r@ == predicted_addresses(sender, nonce, count as nat),
{
    let mut r: Vec<Address> = Vec::new();
    let mut i: u64 = 0;
    while i < count
        invariant
            i <= count,
            nonce + count <= u64::MAX,
            r@ == predicted_addresses(sender, nonce, i as nat),
        decreases count - i,
    {
        r.push(create(sender, nonce + i));
        i = i + 1;
        assert(r@ =~= predicted_addresses(sender, nonce, i as nat));
    }
    r
}

} // verus!

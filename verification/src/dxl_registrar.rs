//! The DXL staking pool.
use vstd::prelude::*;
use crate::pubkey::Pubkey;

verus! {

/// The address.
pub open spec fn spec_id() -> Pubkey {
    Pubkey { w0: 7351957340139008922, w1: 8022196565171638093, w2: 15995070285925081872, w3: 50230090423166289 }
}

/// Returns the address.
pub fn id() -> (k: Pubkey)
    ensures
        k == spec_id(),
{
    Pubkey { w0: 7351957340139008922, w1: 8022196565171638093, w2: 15995070285925081872, w3: 50230090423166289 }
}

/// Confirms that a given address is this one.
pub fn check_id(id: &Pubkey) -> (b: bool)
    ensures
        b == (*id == spec_id()),
{
    id.equals(&self::id())
}

} // verus!

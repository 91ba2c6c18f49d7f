//! The MSRM staking pool.
use vstd::prelude::*;
use crate::pubkey::Pubkey;

verus! {

/// The address.
pub open spec fn spec_id() -> Pubkey {
    Pubkey { w0: 14079950238405465958, w1: 12214778993038045270, w2: 14342004006976090575, w3: 18157107882382208859 }
}

/// Returns the address.
pub fn id() -> (k: Pubkey)
    ensures
        k == spec_id(),
{
    Pubkey { w0: 14079950238405465958, w1: 12214778993038045270, w2: 14342004006976090575, w3: 18157107882382208859 }
}

/// Confirms that a given address is this one.
pub fn check_id(id: &Pubkey) -> (b: bool)
    ensures
        b == (*id == spec_id()),
{
    id.equals(&self::id())
}

} // verus!

//! The SRM staking pool.
use vstd::prelude::*;
use crate::pubkey::Pubkey;

verus! {

/// The address.
pub open spec fn spec_id() -> Pubkey {
    Pubkey { w0: 2501364254380987977, w1: 14808534213141171893, w2: 1597745389836533785, w3: 3971479616169514034 }
}

/// Returns the address.
pub fn id() -> (k: Pubkey)
    ensures
        k == spec_id(),
{
    Pubkey { w0: 2501364254380987977, w1: 14808534213141171893, w2: 1597745389836533785, w3: 3971479616169514034 }
}

/// Confirms that a given address is this one.
pub fn check_id(id: &Pubkey) -> (b: bool)
    ensures
        b == (*id == spec_id()),
{
    id.equals(&self::id())
}

} // verus!

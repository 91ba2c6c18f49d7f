//! The FIDA token mint.
use vstd::prelude::*;
use crate::pubkey::Pubkey;

verus! {

/// The address.
pub open spec fn spec_id() -> Pubkey {
    Pubkey { w0: 17993459738980470218, w1: 18257768356256550265, w2: 1318123695269684375, w3: 6745449819371003610 }
}

/// Returns the address.
pub fn id() -> (k: Pubkey)
    ensures
        k == spec_id(),
{
    Pubkey { w0: 17993459738980470218, w1: 18257768356256550265, w2: 1318123695269684375, w3: 6745449819371003610 }
}

/// Confirms that a given address is this one.
pub fn check_id(id: &Pubkey) -> (b: bool)
    ensures
        b == (*id == spec_id()),
{
    id.equals(&self::id())
}

} // verus!

//! The DXL token mint.
use vstd::prelude::*;
use crate::pubkey::Pubkey;

verus! {

/// The address.
pub open spec fn spec_id() -> Pubkey {
    Pubkey { w0: 11918534843588724715, w1: 4998823528338629743, w2: 10233020862010456031, w3: 7792914536084106229 }
}

/// Returns the address.
pub fn id() -> (k: Pubkey)
    ensures
        k == spec_id(),
{
    Pubkey { w0: 11918534843588724715, w1: 4998823528338629743, w2: 10233020862010456031, w3: 7792914536084106229 }
}

/// Confirms that a given address is this one.
pub fn check_id(id: &Pubkey) -> (b: bool)
    ensures
        b == (*id == spec_id()),
{
    id.equals(&self::id())
}

} // verus!

//! The SRM token mint.
use vstd::prelude::*;
use crate::pubkey::Pubkey;

verus! {

/// The address.
pub open spec fn spec_id() -> Pubkey {
    Pubkey { w0: 9021440243262325510, w1: 12000476193571164165, w2: 15528317907740331233, w3: 9743734532515987957 }
}

/// Returns the address.
pub fn id() -> (k: Pubkey)
    ensures
        k == spec_id(),
{
    Pubkey { w0: 9021440243262325510, w1: 12000476193571164165, w2: 15528317907740331233, w3: 9743734532515987957 }
}

/// Confirms that a given address is this one.
pub fn check_id(id: &Pubkey) -> (b: bool)
    ensures
        b == (*id == spec_id()),
{
    id.equals(&self::id())
}

} // verus!

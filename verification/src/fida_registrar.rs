//! The FIDA staking pool.
use vstd::prelude::*;
use crate::pubkey::Pubkey;

verus! {

/// The address.
pub open spec fn spec_id() -> Pubkey {
    Pubkey { w0: 17811799941390876990, w1: 4880667048323627788, w2: 12395738495117122104, w3: 13866190787561790893 }
}

/// Returns the address.
pub fn id() -> (k: Pubkey)
    ensures
        k == spec_id(),
{
    Pubkey { w0: 17811799941390876990, w1: 4880667048323627788, w2: 12395738495117122104, w3: 13866190787561790893 }
}

/// Confirms that a given address is this one.
pub fn check_id(id: &Pubkey) -> (b: bool)
    ensures
        b == (*id == spec_id()),
{
    id.equals(&self::id())
}

} // verus!

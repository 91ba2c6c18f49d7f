//! Staking registry: members stake tokens into a pool, reward vendors drop
//! rewards that are distributed pro rata to staked pool tokens, and unstaking
//! goes through a timelocked pending withdrawal.
//!
//! Every decision of the program is a verified function over plain account
//! values; the runtime around it performs the token transfers it asks for.
use vstd::prelude::*;

pub mod error;
pub mod pubkey;
pub mod state;
pub mod reward_queue;
pub mod seeds;
pub mod accounts;
pub mod calls;
pub mod rewards;
pub mod handlers;
pub mod realizor;
pub mod laws;
pub mod borsh;
pub mod codec;
pub mod instruction;
pub mod client;
pub mod token;
pub mod srm_registrar;
pub mod msrm_registrar;
pub mod fida_registrar;
pub mod dxl_registrar;
pub mod srm_mint;
pub mod fida_mint;
pub mod dxl_mint;

use crate::pubkey::Pubkey;

verus! {

/// The address of this program.
pub open spec fn spec_id() -> Pubkey {
    Pubkey { w0: 14862480583430818878, w1: 14954192180347862986, w2: 502962402546401552, w3: 12702488285429794948 }
}

/// Returns the program ID.
pub fn id() -> (k: Pubkey)
    ensures
        k == spec_id(),
{
    Pubkey { w0: 14862480583430818878, w1: 14954192180347862986, w2: 502962402546401552, w3: 12702488285429794948 }
}

/// Confirms that a given pubkey is equivalent to the program ID.
pub fn check_id(id: &Pubkey) -> (b: bool)
    ensures
        b == (*id == spec_id()),
{
    id.equals(&self::id())
}

/// The address of the token program.
pub open spec fn spec_token_program_id() -> Pubkey {
    Pubkey { w0: 10637895772709248262, w1: 12428223917890587609, w2: 10463932726783620124, w3: 12178014311288245306 }
}

/// Returns the address of the token program.
pub fn token_program_id() -> (k: Pubkey)
    ensures
        k == spec_token_program_id(),
{
    Pubkey { w0: 10637895772709248262, w1: 12428223917890587609, w2: 10463932726783620124, w3: 12178014311288245306 }
}

/// Smallest reward an SRM pool accepts.
pub const SRM_MIN_REWARD: u64 = 500_000_000;

/// Smallest reward a FIDA pool accepts.
pub const FIDA_MIN_REWARD: u64 = 900_000_000;

/// Smallest reward a DXL pool accepts.
pub const DXL_MIN_REWARD: u64 = 900_000_000;

} // verus!

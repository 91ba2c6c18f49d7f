//! The calls an instruction makes into the token and lockup programs, for
//! the runtime to perform after the instruction has decided on them.
use vstd::prelude::*;
use crate::pubkey::Pubkey;
use crate::seeds::{
    owned_seeds, registrar_seeds, registry_seeds, spec_owned_seeds, spec_registrar_seeds,
    spec_registry_seeds,
};
use crate::state::Realizor;

verus! {

/// The program derived address that signs a call, if any.
#[derive(Clone, Copy, Debug, PartialEq, Eq, Structural)]
pub enum Signer {
    /// The call needs no signature of the program.
    Unsigned,
    /// Signed by the address derived from a registrar, an account it owns
    /// (a member or a vendor) and the nonce.
    Owned { registrar: Pubkey, owner: Pubkey, nonce: u8 },
    /// Signed by the address derived from a registrar and its nonce.
    Registrar { registrar: Pubkey, nonce: u8 },
    /// Signed by the registry singleton's address, derived with its bump.
    Registry { bump: u8 },
}

impl Signer {
    /// The seeds the runtime signs with.
    pub open spec fn spec_seeds(self) -> Seq<Seq<u8>> {
        match self {
            Signer::Unsigned => Seq::empty(),
            Signer::Owned { registrar, owner, nonce } => spec_owned_seeds(registrar, owner, nonce),
            Signer::Registrar { registrar, nonce } => spec_registrar_seeds(registrar, nonce),
            Signer::Registry { bump } => spec_registry_seeds(bump),
        }
    }

    /// The seeds the runtime signs with.
    pub fn seeds(&self) -> (s: Vec<Vec<u8>>)
        ensures
            s.deep_view() == self.spec_seeds(),
    {
        match self {
            Signer::Unsigned => {
                let s: Vec<Vec<u8>> = Vec::new();
                assert(s.deep_view() =~= Seq::<Seq<u8>>::empty());
                s
            },
            Signer::Owned { registrar, owner, nonce } => owned_seeds(registrar, owner, *nonce),
            Signer::Registrar { registrar, nonce } => registrar_seeds(registrar, *nonce),
            Signer::Registry { bump } => registry_seeds(*bump),
        }
    }
}

/// An instruction of another program.
#[derive(Clone, Copy, Debug, PartialEq, Eq, Structural)]
pub enum Call {
    /// Move `amount` tokens between two token accounts.
    Transfer { from: Pubkey, to: Pubkey, authority: Pubkey, amount: u64 },
    /// Create `amount` new tokens of `mint` in `to`.
    MintTo { mint: Pubkey, to: Pubkey, authority: Pubkey, amount: u64 },
    /// Destroy `amount` tokens of `mint` held in `from`.
    Burn { mint: Pubkey, from: Pubkey, authority: Pubkey, amount: u64 },
    /// Lock `deposit_amount` tokens in a new vesting account of the lockup
    /// program.
    CreateVesting {
        beneficiary: Pubkey,
        deposit_amount: u64,
        nonce: u8,
        start_ts: i64,
        end_ts: i64,
        period_count: u64,
        realizor: Option<Realizor>,
    },
    /// Create the account `to`, funded with `lamports` by `from`, with
    /// `space` bytes of data owned by `owner`.
    CreateAccount { from: Pubkey, to: Pubkey, lamports: u64, space: u64, owner: Pubkey },
    /// Move `lamports` from `from` to `to`.
    SystemTransfer { from: Pubkey, to: Pubkey, lamports: u64 },
    /// Give `account` `space` bytes of data.
    Allocate { account: Pubkey, space: u64 },
    /// Make `owner` the owner of `account`.
    Assign { account: Pubkey, owner: Pubkey },
}

/// A call together with the address that signs it.
#[derive(Clone, Copy, Debug, PartialEq, Eq, Structural)]
pub struct Cpi {
    pub call: Call,
    pub signer: Signer,
}

/// What a call does to token balances and mint supplies, keyed by address:
/// a transfer moves `amount` from one account to another, a mint adds it to
/// the account and to the mint's supply, a burn takes it from both; the
/// other calls move no tokens.
pub open spec fn spec_token_effect(call: Call, l: spec_fn(Pubkey) -> int) -> spec_fn(Pubkey) -> int {
    match call {
        Call::Transfer { from, to, amount, .. } => |k: Pubkey|
            l(k) - (if k == from { amount as int } else { 0 }) + (if k == to { amount as int } else { 0 }),
        Call::MintTo { mint, to, amount, .. } => |k: Pubkey|
            l(k) + (if k == mint { amount as int } else { 0 }) + (if k == to { amount as int } else { 0 }),
        Call::Burn { mint, from, amount, .. } => |k: Pubkey|
            l(k) - (if k == mint { amount as int } else { 0 }) - (if k == from { amount as int } else { 0 }),
        _ => l,
    }
}

/// What a sequence of calls, made in order, does to token balances and mint
/// supplies.
pub open spec fn spec_token_effects(calls: Seq<Cpi>, l: spec_fn(Pubkey) -> int) -> spec_fn(Pubkey) -> int
    decreases calls.len(),
{
    if calls.len() == 0 {
        l
    } else {
        spec_token_effects(calls.drop_first(), spec_token_effect(calls[0].call, l))
    }
}

} // verus!

//! The accounts each instruction takes, as plain values, and the checks
//! the program makes on them before it runs the instruction.
use vstd::prelude::*;
use crate::calls::{Call, Cpi, Signer};
use crate::error::{Error, FrameworkError};
use crate::pubkey::Pubkey;
use crate::reward_queue::RewardQueue;
use crate::seeds::{
    check_seeds, owned_seeds, owned_seeds_twice, registrar_seeds, registry_base_seeds,
    registry_seeds, spec_check_seeds, spec_owned_seeds, spec_owned_seeds_twice,
    spec_registrar_seeds, spec_registry_base_seeds, spec_registry_seeds, spec_state_seeds,
    state_seeds,
};
use crate::state::{
    BalanceSandbox, Member, Mint, PendingWithdrawal, Registrar, Registry, RewardVendor,
    TokenAccount, Vesting,
};
use crate::{spec_token_program_id, token_program_id};

verus! {

/// An account as the transaction presents it.
#[derive(Clone, Copy, Debug, PartialEq, Eq, Structural)]
pub struct AccountRef {
    pub key: Pubkey,
    /// The program that owns the account.
    pub owner: Pubkey,
    pub is_signer: bool,
    pub is_writable: bool,
}

/// An account together with its decoded data.
#[derive(Debug)]
pub struct Account<T> {
    pub info: AccountRef,
    pub data: T,
}

/// An account the instruction initializes: its data must not carry a
/// discriminator yet, and it must hold enough lamports to be rent exempt.
#[derive(Debug)]
pub struct FreshAccount<T> {
    pub info: AccountRef,
    /// The first eight bytes of the account's data, little endian.
    pub discriminator: u64,
    /// Whether the account's lamports cover rent exemption for its size.
    pub rent_exempt: bool,
    pub data: T,
}

/// The error of a failed account check.
pub open spec fn fail(e: FrameworkError) -> Result<(), Error> {
    Err(Error::ProgramError(e))
}

fn fail_with(e: FrameworkError) -> (r: Result<(), Error>)
    ensures
        r == fail(e),
{
    Err(Error::ProgramError(e))
}

/// The outcome of checking a fresh account: zero discriminator, writable,
/// rent exempt.
pub open spec fn spec_check_fresh<T>(a: &FreshAccount<T>) -> Result<(), Error> {
    if a.discriminator != 0 {
        fail(FrameworkError::ConstraintZero)
    } else if !a.info.is_writable {
        fail(FrameworkError::ConstraintMut)
    } else if !a.rent_exempt {
        fail(FrameworkError::ConstraintRentExempt)
    } else {
        Ok(())
    }
}

fn check_fresh<T>(a: &FreshAccount<T>) -> (r: Result<(), Error>)
    ensures
        r == spec_check_fresh(a),
{
    if a.discriminator != 0 {
        fail_with(FrameworkError::ConstraintZero)
    } else if !a.info.is_writable {
        fail_with(FrameworkError::ConstraintMut)
    } else if !a.rent_exempt {
        fail_with(FrameworkError::ConstraintRentExempt)
    } else {
        Ok(())
    }
}

/// The first byte of the instruction arguments, as the account checks that
/// take a bump seed read it.
pub open spec fn spec_bump_arg(ix_data: Seq<u8>) -> Option<u8> {
    if ix_data.len() == 0 {
        None
    } else {
        Some(ix_data[0])
    }
}

fn bump_arg(ix_data: &[u8]) -> (b: Option<u8>)
    ensures
        b == spec_bump_arg(ix_data@),
{
    if ix_data.len() == 0 {
        None
    } else {
        Some(ix_data[0])
    }
}

/// Accounts of `new_registry`.
#[derive(Debug)]
pub struct NewRegistry {
    pub authority: AccountRef,
    pub lockup_program: AccountRef,
    pub registry: FreshAccount<Registry>,
    pub system_program: AccountRef,
}

impl NewRegistry {
    /// The outcome of the checks, given the canonical registry address and
    /// bump seed.
    pub open spec fn spec_try_accounts(&self, ix_data: Seq<u8>, canonical: (Pubkey, u8)) -> Result<(), Error> {
        match spec_bump_arg(ix_data) {
            None => Err(Error::ProgramError(FrameworkError::InstructionDidNotDeserialize)),
            Some(registry_bump) => if self.registry.info.key != canonical.0 {
                fail(FrameworkError::ConstraintSeeds)
            } else if registry_bump != canonical.1 {
                fail(FrameworkError::ConstraintSeeds)
            } else if !self.registry.info.is_writable {
                fail(FrameworkError::ConstraintMut)
            } else if !self.registry.rent_exempt {
                fail(FrameworkError::ConstraintRentExempt)
            } else if !self.authority.is_signer {
                fail(FrameworkError::ConstraintSigner)
            } else {
                Ok(())
            },
        }
    }

    /// Checks the accounts; `canonical` is the registry address and bump
    /// seed found for the program (see `registry_address`).
    pub fn try_accounts(&self, ix_data: &[u8], canonical: (Pubkey, u8)) -> (r: Result<(), Error>)
        ensures
            r == self.spec_try_accounts(ix_data@, canonical),
    {
        let registry_bump = match bump_arg(ix_data) {
            None => { return Err(Error::ProgramError(FrameworkError::InstructionDidNotDeserialize)); },
            Some(b) => b,
        };
        if !self.registry.info.key.equals(&canonical.0) {
            fail_with(FrameworkError::ConstraintSeeds)
        } else if registry_bump != canonical.1 {
            fail_with(FrameworkError::ConstraintSeeds)
        } else if !self.registry.info.is_writable {
            fail_with(FrameworkError::ConstraintMut)
        } else if !self.registry.rent_exempt {
            fail_with(FrameworkError::ConstraintRentExempt)
        } else if !self.authority.is_signer {
            fail_with(FrameworkError::ConstraintSigner)
        } else {
            Ok(())
        }
    }
}

/// The number of data bytes of the registry singleton.
pub const REGISTRY_SPACE: u64 = 1000;

/// The rent-exempt minimum that topping up an existing account aims at: at
/// least one lamport.
pub open spec fn spec_top_up_floor(min_balance: u64) -> u64 {
    if min_balance < 1 {
        1
    } else {
        min_balance
    }
}

impl NewRegistry {
    /// The system calls that set up the registry singleton before its checks,
    /// given the account's current lamports and the rent-exempt minimum for
    /// its space: an empty account is created outright; one that already
    /// holds lamports is topped up to the minimum (at least one lamport),
    /// given its space and assigned to the program. The registry's address
    /// signs with the bump seed.
    pub open spec fn spec_init_calls(&self, program_id: Pubkey, bump: u8, lamports: u64, min_balance: u64) -> Seq<Cpi> {
        let payer = self.authority.key;
        let registry = self.registry.info.key;
        let signer = Signer::Registry { bump };
        if lamports == 0 {
            seq![Cpi {
                call: Call::CreateAccount { from: payer, to: registry, lamports: min_balance, space: REGISTRY_SPACE, owner: program_id },
                signer,
            }]
        } else {
            let floor = spec_top_up_floor(min_balance);
            let top_up = if floor > lamports {
                seq![Cpi {
                    call: Call::SystemTransfer { from: payer, to: registry, lamports: (floor - lamports) as u64 },
                    signer: Signer::Unsigned,
                }]
            } else {
                Seq::empty()
            };
            top_up + seq![
                Cpi { call: Call::Allocate { account: registry, space: REGISTRY_SPACE }, signer },
                Cpi { call: Call::Assign { account: registry, owner: program_id }, signer },
            ]
        }
    }

    /// The system calls that set up the registry singleton; `lamports` is
    /// what the account holds now and `min_balance` the rent-exempt minimum
    /// for `REGISTRY_SPACE` bytes.
    pub fn init_calls(&self, program_id: &Pubkey, bump: u8, lamports: u64, min_balance: u64) -> (v: Vec<Cpi>)
        ensures
            v@ == self.spec_init_calls(*program_id, bump, lamports, min_balance),
    {
        let payer = self.authority.key;
        let registry = self.registry.info.key;
        let signer = Signer::Registry { bump };
        let mut v: Vec<Cpi> = Vec::new();
        if lamports == 0 {
            v.push(Cpi {
                call: Call::CreateAccount { from: payer, to: registry, lamports: min_balance, space: REGISTRY_SPACE, owner: *program_id },
                signer,
            });
        } else {
            let floor = if min_balance < 1 { 1 } else { min_balance };
            if floor > lamports {
                v.push(Cpi {
                    call: Call::SystemTransfer { from: payer, to: registry, lamports: floor - lamports },
                    signer: Signer::Unsigned,
                });
            }
            v.push(Cpi { call: Call::Allocate { account: registry, space: REGISTRY_SPACE }, signer });
            v.push(Cpi { call: Call::Assign { account: registry, owner: *program_id }, signer });
        }
        assert(v@ =~= self.spec_init_calls(*program_id, bump, lamports, min_balance));
        v
    }
}

impl NewRegistry {
    /// Checks the accounts against the registry address and bump seed found
    /// for the program: `None` where no bump seed gives an address, which
    /// stops the program.
    pub fn try_accounts_found(&self, program_id: &Pubkey, ix_data: &[u8]) -> (r: Option<Result<(), Error>>)
        ensures
            match crate::pubkey::spec_find_program_address(spec_registry_base_seeds(), program_id.bytes()) {
                None => r is None,
                Some((k, b)) => r == Some(self.spec_try_accounts(ix_data@, (Pubkey::spec_from_bytes(k), b))),
            },
    {
        match registry_address(program_id) {
            None => None,
            Some((k, b)) => {
                proof { k.lemma_from_bytes(k.bytes()); }
                Some(self.try_accounts(ix_data, (k, b)))
            },
        }
    }
}

/// The canonical address of the registry singleton and its bump seed.
pub fn registry_address(program_id: &Pubkey) -> (r: Option<(Pubkey, u8)>)
    ensures
        (match r {
            Some((k, b)) => Some((k.bytes(), b)),
            None => None::<(Seq<u8>, u8)>,
        }) == crate::pubkey::spec_find_program_address(spec_registry_base_seeds(), program_id.bytes()),
{
    crate::pubkey::find_program_address(&registry_base_seeds(), program_id)
}

/// Accounts of `set_lockup_program`.
#[derive(Debug)]
pub struct SetLockupProgram {
    pub authority: AccountRef,
    pub registry: Account<Registry>,
}

impl SetLockupProgram {
    /// The outcome of the checks the program makes on these accounts.
    pub open spec fn spec_try_accounts(&self, program_id: Pubkey, ix_data: Seq<u8>) -> Result<(), Error> {
        match spec_bump_arg(ix_data) {
            None => Err(Error::ProgramError(FrameworkError::InstructionDidNotDeserialize)),
            Some(registry_bump) => if !self.authority.is_signer {
                fail(FrameworkError::ConstraintSigner)
            } else if spec_check_seeds(spec_registry_seeds(registry_bump), program_id, self.registry.info.key) is Err {
                fail(FrameworkError::ConstraintSeeds)
            } else if !self.registry.info.is_writable {
                fail(FrameworkError::ConstraintMut)
            } else {
                Ok(())
            },
        }
    }

    /// Checks the accounts, in the order the program checks them.
    pub fn try_accounts(&self, program_id: &Pubkey, ix_data: &[u8]) -> (r: Result<(), Error>)
        ensures
            r == self.spec_try_accounts(*program_id, ix_data@),
    {
        let registry_bump = match bump_arg(ix_data) {
            None => { return Err(Error::ProgramError(FrameworkError::InstructionDidNotDeserialize)); },
            Some(b) => b,
        };
        if !self.authority.is_signer {
            fail_with(FrameworkError::ConstraintSigner)
        } else if check_seeds(&registry_seeds(registry_bump), program_id, &self.registry.info.key).is_err() {
            fail_with(FrameworkError::ConstraintSeeds)
        } else if !self.registry.info.is_writable {
            fail_with(FrameworkError::ConstraintMut)
        } else {
            Ok(())
        }
    }
}

/// Accounts of `initialize`.
#[derive(Debug)]
pub struct Initialize {
    pub registrar: FreshAccount<Registrar>,
    pub reward_event_q: FreshAccount<RewardQueue>,
    pub pool_mint: Account<Mint>,
}

impl Initialize {
    /// The outcome of the checks the program makes on these accounts.
    pub open spec fn spec_try_accounts(&self) -> Result<(), Error> {
        if spec_check_fresh(&self.registrar) is Err {
            spec_check_fresh(&self.registrar)
        } else if spec_check_fresh(&self.reward_event_q) is Err {
            spec_check_fresh(&self.reward_event_q)
        } else if self.pool_mint.data.decimals != 0 {
            fail(FrameworkError::Deprecated)
        } else {
            Ok(())
        }
    }

    /// Checks the accounts, in the order the program checks them.
    pub fn try_accounts(&self) -> (r: Result<(), Error>)
        ensures
            r == self.spec_try_accounts(),
    {
        let r1 = check_fresh(&self.registrar);
        if r1.is_err() {
            return r1;
        }
        let r2 = check_fresh(&self.reward_event_q);
        if r2.is_err() {
            return r2;
        }
        if self.pool_mint.data.decimals != 0 {
            fail_with(FrameworkError::Deprecated)
        } else {
            Ok(())
        }
    }
}

/// Accounts of `update_registrar`.
#[derive(Debug)]
pub struct UpdateRegistrar {
    pub registrar: Account<Registrar>,
    pub authority: AccountRef,
}

impl UpdateRegistrar {
    /// The outcome of the checks the program makes on these accounts.
    pub open spec fn spec_try_accounts(&self) -> Result<(), Error> {
        if !self.registrar.info.is_writable {
            fail(FrameworkError::ConstraintMut)
        } else if self.registrar.data.authority != self.authority.key {
            fail(FrameworkError::ConstraintHasOne)
        } else if !self.authority.is_signer {
            fail(FrameworkError::ConstraintSigner)
        } else {
            Ok(())
        }
    }

    /// Checks the accounts, in the order the program checks them.
    pub fn try_accounts(&self) -> (r: Result<(), Error>)
        ensures
            r == self.spec_try_accounts(),
    {
        if !self.registrar.info.is_writable {
            fail_with(FrameworkError::ConstraintMut)
        } else if !self.registrar.data.authority.equals(&self.authority.key) {
            fail_with(FrameworkError::ConstraintHasOne)
        } else if !self.authority.is_signer {
            fail_with(FrameworkError::ConstraintSigner)
        } else {
            Ok(())
        }
    }
}

/// Accounts of `create_member`.
#[derive(Debug)]
pub struct CreateMember {
    pub registrar: Account<Registrar>,
    pub member: FreshAccount<Member>,
    pub beneficiary: AccountRef,
    pub member_signer: AccountRef,
    pub token_program: AccountRef,
}

impl CreateMember {
    /// The outcome of the checks the program makes on these accounts.
    pub open spec fn spec_try_accounts(&self) -> Result<(), Error> {
        if spec_check_fresh(&self.member) is Err {
            spec_check_fresh(&self.member)
        } else if !self.beneficiary.is_signer {
            fail(FrameworkError::ConstraintSigner)
        } else if self.token_program.key != spec_token_program_id() {
            fail(FrameworkError::Deprecated)
        } else {
            Ok(())
        }
    }

    /// Checks the accounts, in the order the program checks them.
    pub fn try_accounts(&self) -> (r: Result<(), Error>)
        ensures
            r == self.spec_try_accounts(),
    {
        let r1 = check_fresh(&self.member);
        if r1.is_err() {
            return r1;
        }
        if !self.beneficiary.is_signer {
            fail_with(FrameworkError::ConstraintSigner)
        } else if !self.token_program.key.equals(&token_program_id()) {
            fail_with(FrameworkError::Deprecated)
        } else {
            Ok(())
        }
    }
}

/// The four token accounts of one set of a member's balances.
#[derive(Debug)]
pub struct BalanceSandboxAccounts {
    pub spt: Account<TokenAccount>,
    pub vault: Account<TokenAccount>,
    pub vault_stake: Account<TokenAccount>,
    pub vault_pw: Account<TokenAccount>,
}

impl BalanceSandboxAccounts {
    /// The addresses of the four accounts.
    pub open spec fn spec_sandbox(&self) -> BalanceSandbox {
        BalanceSandbox {
            spt: self.spt.info.key,
            vault: self.vault.info.key,
            vault_stake: self.vault_stake.info.key,
            vault_pw: self.vault_pw.info.key,
        }
    }

    /// The addresses of the four accounts.
    pub fn sandbox(&self) -> (b: BalanceSandbox)
        ensures
            b == self.spec_sandbox(),
    {
        BalanceSandbox {
            spt: self.spt.info.key,
            vault: self.vault.info.key,
            vault_stake: self.vault_stake.info.key,
            vault_pw: self.vault_pw.info.key,
        }
    }

    /// All four are writable and owned alike, and the vaults hold one mint.
    pub open spec fn spec_try_accounts(&self) -> Result<(), Error> {
        if !self.spt.info.is_writable {
            fail(FrameworkError::ConstraintMut)
        } else if !self.vault.info.is_writable {
            fail(FrameworkError::ConstraintMut)
        } else if self.vault.data.owner != self.spt.data.owner {
            fail(FrameworkError::Deprecated)
        } else if !self.vault_stake.info.is_writable {
            fail(FrameworkError::ConstraintMut)
        } else if self.vault_stake.data.owner != self.spt.data.owner {
            fail(FrameworkError::Deprecated)
        } else if self.vault_stake.data.mint != self.vault.data.mint {
            fail(FrameworkError::Deprecated)
        } else if !self.vault_pw.info.is_writable {
            fail(FrameworkError::ConstraintMut)
        } else if self.vault_pw.data.owner != self.spt.data.owner {
            fail(FrameworkError::Deprecated)
        } else if self.vault_pw.data.mint != self.vault.data.mint {
            fail(FrameworkError::Deprecated)
        } else {
            Ok(())
        }
    }

    /// Checks the accounts, in the order the program checks them.
    pub fn try_accounts(&self) -> (r: Result<(), Error>)
        ensures
            r == self.spec_try_accounts(),
    {
        if !self.spt.info.is_writable {
            fail_with(FrameworkError::ConstraintMut)
        } else if !self.vault.info.is_writable {
            fail_with(FrameworkError::ConstraintMut)
        } else if !self.vault.data.owner.equals(&self.spt.data.owner) {
            fail_with(FrameworkError::Deprecated)
        } else if !self.vault_stake.info.is_writable {
            fail_with(FrameworkError::ConstraintMut)
        } else if !self.vault_stake.data.owner.equals(&self.spt.data.owner) {
            fail_with(FrameworkError::Deprecated)
        } else if !self.vault_stake.data.mint.equals(&self.vault.data.mint) {
            fail_with(FrameworkError::Deprecated)
        } else if !self.vault_pw.info.is_writable {
            fail_with(FrameworkError::ConstraintMut)
        } else if !self.vault_pw.data.owner.equals(&self.spt.data.owner) {
            fail_with(FrameworkError::Deprecated)
        } else if !self.vault_pw.data.mint.equals(&self.vault.data.mint) {
            fail_with(FrameworkError::Deprecated)
        } else {
            Ok(())
        }
    }
}

/// Accounts of `update_member_balances`: the member's balance accounts must
/// be owned by the member signer and hold the registrar's mints.
#[derive(Debug)]
pub struct UpdateMemberBalances {
    pub registrar: Account<Registrar>,
    pub member: Account<Member>,
    pub balances: BalanceSandboxAccounts,
    pub member_signer: AccountRef,
}

impl UpdateMemberBalances {
    /// The outcome of the checks the program makes on these accounts.
    pub open spec fn spec_try_accounts(&self) -> Result<(), Error> {
        if self.balances.spec_try_accounts() is Err {
            self.balances.spec_try_accounts()
        } else if !self.member.info.is_writable {
            fail(FrameworkError::ConstraintMut)
        } else if self.balances.spt.data.owner != self.member_signer.key {
            fail(FrameworkError::Deprecated)
        } else if self.balances.spt.data.mint != self.registrar.data.pool_mint {
            fail(FrameworkError::Deprecated)
        } else if self.balances.vault.data.mint != self.registrar.data.mint {
            fail(FrameworkError::Deprecated)
        } else {
            Ok(())
        }
    }

    /// Checks the accounts, in the order the program checks them.
    pub fn try_accounts(&self) -> (r: Result<(), Error>)
        ensures
            r == self.spec_try_accounts(),
    {
        let r1 = self.balances.try_accounts();
        if r1.is_err() {
            return r1;
        }
        if !self.member.info.is_writable {
            fail_with(FrameworkError::ConstraintMut)
        } else if !self.balances.spt.data.owner.equals(&self.member_signer.key) {
            fail_with(FrameworkError::Deprecated)
        } else if !self.balances.spt.data.mint.equals(&self.registrar.data.pool_mint) {
            fail_with(FrameworkError::Deprecated)
        } else if !self.balances.vault.data.mint.equals(&self.registrar.data.mint) {
            fail_with(FrameworkError::Deprecated)
        } else {
            Ok(())
        }
    }
}

/// Accounts of `update_member_balances_lock`: the member's locked balance accounts must
/// be owned by the member signer and hold the registrar's mints.
#[derive(Debug)]
pub struct UpdateMemberBalancesLock {
    pub registrar: Account<Registrar>,
    pub member: Account<Member>,
    pub balances_locked: BalanceSandboxAccounts,
    pub member_signer: AccountRef,
}

impl UpdateMemberBalancesLock {
    /// The outcome of the checks the program makes on these accounts.
    pub open spec fn spec_try_accounts(&self) -> Result<(), Error> {
        if self.balances_locked.spec_try_accounts() is Err {
            self.balances_locked.spec_try_accounts()
        } else if !self.member.info.is_writable {
            fail(FrameworkError::ConstraintMut)
        } else if self.balances_locked.spt.data.owner != self.member_signer.key {
            fail(FrameworkError::Deprecated)
        } else if self.balances_locked.spt.data.mint != self.registrar.data.pool_mint {
            fail(FrameworkError::Deprecated)
        } else if self.balances_locked.vault.data.mint != self.registrar.data.mint {
            fail(FrameworkError::Deprecated)
        } else {
            Ok(())
        }
    }

    /// Checks the accounts, in the order the program checks them.
    pub fn try_accounts(&self) -> (r: Result<(), Error>)
        ensures
            r == self.spec_try_accounts(),
    {
        let r1 = self.balances_locked.try_accounts();
        if r1.is_err() {
            return r1;
        }
        if !self.member.info.is_writable {
            fail_with(FrameworkError::ConstraintMut)
        } else if !self.balances_locked.spt.data.owner.equals(&self.member_signer.key) {
            fail_with(FrameworkError::Deprecated)
        } else if !self.balances_locked.spt.data.mint.equals(&self.registrar.data.pool_mint) {
            fail_with(FrameworkError::Deprecated)
        } else if !self.balances_locked.vault.data.mint.equals(&self.registrar.data.mint) {
            fail_with(FrameworkError::Deprecated)
        } else {
            Ok(())
        }
    }
}

/// Accounts of `update_member`.
#[derive(Debug)]
pub struct UpdateMember {
    pub member: Account<Member>,
    pub beneficiary: AccountRef,
}

impl UpdateMember {
    /// The outcome of the checks the program makes on these accounts.
    pub open spec fn spec_try_accounts(&self) -> Result<(), Error> {
        if !self.member.info.is_writable {
            fail(FrameworkError::ConstraintMut)
        } else if self.member.data.beneficiary != self.beneficiary.key {
            fail(FrameworkError::ConstraintHasOne)
        } else if !self.beneficiary.is_signer {
            fail(FrameworkError::ConstraintSigner)
        } else {
            Ok(())
        }
    }

    /// Checks the accounts, in the order the program checks them.
    pub fn try_accounts(&self) -> (r: Result<(), Error>)
        ensures
            r == self.spec_try_accounts(),
    {
        if !self.member.info.is_writable {
            fail_with(FrameworkError::ConstraintMut)
        } else if !self.member.data.beneficiary.equals(&self.beneficiary.key) {
            fail_with(FrameworkError::ConstraintHasOne)
        } else if !self.beneficiary.is_signer {
            fail_with(FrameworkError::ConstraintSigner)
        } else {
            Ok(())
        }
    }
}

/// Accounts of `deposit`.
#[derive(Debug)]
pub struct Deposit {
    pub member: Account<Member>,
    pub beneficiary: AccountRef,
    pub vault: Account<TokenAccount>,
    pub depositor: AccountRef,
    pub depositor_authority: AccountRef,
    pub token_program: AccountRef,
}

impl Deposit {
    /// The outcome of the checks the program makes on these accounts.
    pub open spec fn spec_try_accounts(&self) -> Result<(), Error> {
        if self.member.data.beneficiary != self.beneficiary.key {
            fail(FrameworkError::ConstraintHasOne)
        } else if !self.beneficiary.is_signer {
            fail(FrameworkError::ConstraintSigner)
        } else if !self.vault.info.is_writable {
            fail(FrameworkError::ConstraintMut)
        } else if self.vault.info.key != self.member.data.balances.vault {
            fail(FrameworkError::Deprecated)
        } else if !self.depositor.is_writable {
            fail(FrameworkError::ConstraintMut)
        } else if !self.depositor_authority.is_signer {
            fail(FrameworkError::ConstraintSigner)
        } else if self.depositor_authority.key != self.member.data.beneficiary {
            fail(FrameworkError::Deprecated)
        } else if self.token_program.key != spec_token_program_id() {
            fail(FrameworkError::Deprecated)
        } else {
            Ok(())
        }
    }

    /// Checks the accounts, in the order the program checks them.
    pub fn try_accounts(&self) -> (r: Result<(), Error>)
        ensures
            r == self.spec_try_accounts(),
    {
        if !self.member.data.beneficiary.equals(&self.beneficiary.key) {
            fail_with(FrameworkError::ConstraintHasOne)
        } else if !self.beneficiary.is_signer {
            fail_with(FrameworkError::ConstraintSigner)
        } else if !self.vault.info.is_writable {
            fail_with(FrameworkError::ConstraintMut)
        } else if !self.vault.info.key.equals(&self.member.data.balances.vault) {
            fail_with(FrameworkError::Deprecated)
        } else if !self.depositor.is_writable {
            fail_with(FrameworkError::ConstraintMut)
        } else if !self.depositor_authority.is_signer {
            fail_with(FrameworkError::ConstraintSigner)
        } else if !self.depositor_authority.key.equals(&self.member.data.beneficiary) {
            fail_with(FrameworkError::Deprecated)
        } else if !self.token_program.key.equals(&token_program_id()) {
            fail_with(FrameworkError::Deprecated)
        } else {
            Ok(())
        }
    }
}

/// Accounts of `deposit_locked`: a vesting account of the lockup program
/// and the member's locked vault.
#[derive(Debug)]
pub struct DepositLocked {
    pub vesting: Account<Vesting>,
    pub vesting_vault: AccountRef,
    pub depositor_authority: AccountRef,
    pub token_program: AccountRef,
    pub member_vault: Account<TokenAccount>,
    pub member_signer: AccountRef,
    pub registry: Account<Registry>,
    pub registrar: Account<Registrar>,
    pub member: Account<Member>,
    pub beneficiary: AccountRef,
}

impl DepositLocked {
    /// The outcome of the checks the program makes on these accounts.
    pub open spec fn spec_try_accounts(&self, program_id: Pubkey) -> Result<(), Error> {
        if self.vesting.info.owner != self.registry.data.lockup_program {
            fail(FrameworkError::Deprecated)
        } else if self.vesting.data.beneficiary != self.member.data.beneficiary {
            fail(FrameworkError::Deprecated)
        } else if !self.vesting_vault.is_writable {
            fail(FrameworkError::ConstraintMut)
        } else if self.vesting_vault.key != self.vesting.data.vault {
            fail(FrameworkError::Deprecated)
        } else if !self.depositor_authority.is_signer {
            fail(FrameworkError::ConstraintSigner)
        } else if self.token_program.key != spec_token_program_id() {
            fail(FrameworkError::Deprecated)
        } else if !self.member_vault.info.is_writable {
            fail(FrameworkError::ConstraintMut)
        } else if self.member_vault.info.key != self.member.data.balances_locked.vault {
            fail(FrameworkError::Deprecated)
        } else if spec_check_seeds(
            spec_owned_seeds_twice(self.registrar.info.key, self.member.info.key, self.member.data.nonce),
            program_id,
            self.member_signer.key,
        ) is Err {
            fail(FrameworkError::ConstraintSeeds)
        } else if spec_check_seeds(spec_state_seeds(), program_id, self.registry.info.key) is Err {
            fail(FrameworkError::ConstraintSeeds)
        } else if self.member.data.registrar != self.registrar.info.key {
            fail(FrameworkError::ConstraintHasOne)
        } else if self.member.data.beneficiary != self.beneficiary.key {
            fail(FrameworkError::ConstraintHasOne)
        } else if !self.beneficiary.is_signer {
            fail(FrameworkError::ConstraintSigner)
        } else {
            Ok(())
        }
    }

    /// Checks the accounts, in the order the program checks them.
    pub fn try_accounts(&self, program_id: &Pubkey) -> (r: Result<(), Error>)
        ensures
            r == self.spec_try_accounts(*program_id),
    {
        if !self.vesting.info.owner.equals(&self.registry.data.lockup_program) {
            fail_with(FrameworkError::Deprecated)
        } else if !self.vesting.data.beneficiary.equals(&self.member.data.beneficiary) {
            fail_with(FrameworkError::Deprecated)
        } else if !self.vesting_vault.is_writable {
            fail_with(FrameworkError::ConstraintMut)
        } else if !self.vesting_vault.key.equals(&self.vesting.data.vault) {
            fail_with(FrameworkError::Deprecated)
        } else if !self.depositor_authority.is_signer {
            fail_with(FrameworkError::ConstraintSigner)
        } else if !self.token_program.key.equals(&token_program_id()) {
            fail_with(FrameworkError::Deprecated)
        } else if !self.member_vault.info.is_writable {
            fail_with(FrameworkError::ConstraintMut)
        } else if !self.member_vault.info.key.equals(&self.member.data.balances_locked.vault) {
            fail_with(FrameworkError::Deprecated)
        } else if check_seeds(
            &owned_seeds_twice(&self.registrar.info.key, &self.member.info.key, self.member.data.nonce),
            program_id,
            &self.member_signer.key,
        ).is_err() {
            fail_with(FrameworkError::ConstraintSeeds)
        } else if check_seeds(&state_seeds(), program_id, &self.registry.info.key).is_err() {
            fail_with(FrameworkError::ConstraintSeeds)
        } else if !self.member.data.registrar.equals(&self.registrar.info.key) {
            fail_with(FrameworkError::ConstraintHasOne)
        } else if !self.member.data.beneficiary.equals(&self.beneficiary.key) {
            fail_with(FrameworkError::ConstraintHasOne)
        } else if !self.beneficiary.is_signer {
            fail_with(FrameworkError::ConstraintSigner)
        } else {
            Ok(())
        }
    }
}

/// Accounts of `withdraw_locked`: a vesting account of the lockup program
/// and the member's locked vault.
#[derive(Debug)]
pub struct WithdrawLocked {
    pub vesting: Account<Vesting>,
    pub vesting_vault: AccountRef,
    pub vesting_signer: AccountRef,
    pub token_program: AccountRef,
    pub member_vault: Account<TokenAccount>,
    pub member_signer: AccountRef,
    pub registry: Account<Registry>,
    pub registrar: Account<Registrar>,
    pub member: Account<Member>,
    pub beneficiary: AccountRef,
}

impl WithdrawLocked {
    /// The outcome of the checks the program makes on these accounts.
    pub open spec fn spec_try_accounts(&self, program_id: Pubkey) -> Result<(), Error> {
        if self.vesting.info.owner != self.registry.data.lockup_program {
            fail(FrameworkError::Deprecated)
        } else if self.vesting.data.beneficiary != self.member.data.beneficiary {
            fail(FrameworkError::Deprecated)
        } else if !self.vesting_vault.is_writable {
            fail(FrameworkError::ConstraintMut)
        } else if self.vesting_vault.key != self.vesting.data.vault {
            fail(FrameworkError::Deprecated)
        } else if !self.vesting_signer.is_signer {
            fail(FrameworkError::ConstraintSigner)
        } else if self.token_program.key != spec_token_program_id() {
            fail(FrameworkError::Deprecated)
        } else if !self.member_vault.info.is_writable {
            fail(FrameworkError::ConstraintMut)
        } else if self.member_vault.info.key != self.member.data.balances_locked.vault {
            fail(FrameworkError::Deprecated)
        } else if spec_check_seeds(
            spec_owned_seeds_twice(self.registrar.info.key, self.member.info.key, self.member.data.nonce),
            program_id,
            self.member_signer.key,
        ) is Err {
            fail(FrameworkError::ConstraintSeeds)
        } else if spec_check_seeds(spec_state_seeds(), program_id, self.registry.info.key) is Err {
            fail(FrameworkError::ConstraintSeeds)
        } else if self.member.data.registrar != self.registrar.info.key {
            fail(FrameworkError::ConstraintHasOne)
        } else if self.member.data.beneficiary != self.beneficiary.key {
            fail(FrameworkError::ConstraintHasOne)
        } else if !self.beneficiary.is_signer {
            fail(FrameworkError::ConstraintSigner)
        } else {
            Ok(())
        }
    }

    /// Checks the accounts, in the order the program checks them.
    pub fn try_accounts(&self, program_id: &Pubkey) -> (r: Result<(), Error>)
        ensures
            r == self.spec_try_accounts(*program_id),
    {
        if !self.vesting.info.owner.equals(&self.registry.data.lockup_program) {
            fail_with(FrameworkError::Deprecated)
        } else if !self.vesting.data.beneficiary.equals(&self.member.data.beneficiary) {
            fail_with(FrameworkError::Deprecated)
        } else if !self.vesting_vault.is_writable {
            fail_with(FrameworkError::ConstraintMut)
        } else if !self.vesting_vault.key.equals(&self.vesting.data.vault) {
            fail_with(FrameworkError::Deprecated)
        } else if !self.vesting_signer.is_signer {
            fail_with(FrameworkError::ConstraintSigner)
        } else if !self.token_program.key.equals(&token_program_id()) {
            fail_with(FrameworkError::Deprecated)
        } else if !self.member_vault.info.is_writable {
            fail_with(FrameworkError::ConstraintMut)
        } else if !self.member_vault.info.key.equals(&self.member.data.balances_locked.vault) {
            fail_with(FrameworkError::Deprecated)
        } else if check_seeds(
            &owned_seeds_twice(&self.registrar.info.key, &self.member.info.key, self.member.data.nonce),
            program_id,
            &self.member_signer.key,
        ).is_err() {
            fail_with(FrameworkError::ConstraintSeeds)
        } else if check_seeds(&state_seeds(), program_id, &self.registry.info.key).is_err() {
            fail_with(FrameworkError::ConstraintSeeds)
        } else if !self.member.data.registrar.equals(&self.registrar.info.key) {
            fail_with(FrameworkError::ConstraintHasOne)
        } else if !self.member.data.beneficiary.equals(&self.beneficiary.key) {
            fail_with(FrameworkError::ConstraintHasOne)
        } else if !self.beneficiary.is_signer {
            fail_with(FrameworkError::ConstraintSigner)
        } else {
            Ok(())
        }
    }
}

/// Accounts of `stake`.
#[derive(Debug)]
pub struct Stake {
    pub registrar: Account<Registrar>,
    pub reward_event_q: Account<RewardQueue>,
    pub pool_mint: Account<Mint>,
    pub member: Account<Member>,
    pub beneficiary: AccountRef,
    pub balances: BalanceSandboxAccounts,
    pub member_signer: AccountRef,
    pub registrar_signer: AccountRef,
    pub token_program: AccountRef,
    /// The clock's unix timestamp.
    pub clock: i64,
}

impl Stake {
    /// The outcome of the checks the program makes on these accounts.
    pub open spec fn spec_try_accounts(&self, program_id: Pubkey) -> Result<(), Error> {
        if self.balances.spec_try_accounts() is Err {
            self.balances.spec_try_accounts()
        } else if self.registrar.data.pool_mint != self.pool_mint.info.key {
            fail(FrameworkError::ConstraintHasOne)
        } else if self.registrar.data.reward_event_q != self.reward_event_q.info.key {
            fail(FrameworkError::ConstraintHasOne)
        } else if !self.pool_mint.info.is_writable {
            fail(FrameworkError::ConstraintMut)
        } else if !self.member.info.is_writable {
            fail(FrameworkError::ConstraintMut)
        } else if self.member.data.beneficiary != self.beneficiary.key {
            fail(FrameworkError::ConstraintHasOne)
        } else if self.member.data.registrar != self.registrar.info.key {
            fail(FrameworkError::ConstraintHasOne)
        } else if !self.beneficiary.is_signer {
            fail(FrameworkError::ConstraintSigner)
        } else if self.balances.spec_sandbox() != self.member.data.balances {
            fail(FrameworkError::Deprecated)
        } else if spec_check_seeds(
            spec_owned_seeds(self.registrar.info.key, self.member.info.key, self.member.data.nonce),
            program_id,
            self.member_signer.key,
        ) is Err {
            fail(FrameworkError::ConstraintSeeds)
        } else if spec_check_seeds(
            spec_registrar_seeds(self.registrar.info.key, self.registrar.data.nonce),
            program_id,
            self.registrar_signer.key,
        ) is Err {
            fail(FrameworkError::ConstraintSeeds)
        } else if self.token_program.key != spec_token_program_id() {
            fail(FrameworkError::Deprecated)
        } else {
            Ok(())
        }
    }

    /// Checks the accounts, in the order the program checks them.
    pub fn try_accounts(&self, program_id: &Pubkey) -> (r: Result<(), Error>)
        ensures
            r == self.spec_try_accounts(*program_id),
    {
        let r1 = self.balances.try_accounts();
        if r1.is_err() {
            return r1;
        }
        if !self.registrar.data.pool_mint.equals(&self.pool_mint.info.key) {
            fail_with(FrameworkError::ConstraintHasOne)
        } else if !self.registrar.data.reward_event_q.equals(&self.reward_event_q.info.key) {
            fail_with(FrameworkError::ConstraintHasOne)
        } else if !self.pool_mint.info.is_writable {
            fail_with(FrameworkError::ConstraintMut)
        } else if !self.member.info.is_writable {
            fail_with(FrameworkError::ConstraintMut)
        } else if !self.member.data.beneficiary.equals(&self.beneficiary.key) {
            fail_with(FrameworkError::ConstraintHasOne)
        } else if !self.member.data.registrar.equals(&self.registrar.info.key) {
            fail_with(FrameworkError::ConstraintHasOne)
        } else if !self.beneficiary.is_signer {
            fail_with(FrameworkError::ConstraintSigner)
        } else if !sandbox_equals(&self.balances.sandbox(), &self.member.data.balances) {
            fail_with(FrameworkError::Deprecated)
        } else if check_seeds(
            &owned_seeds(&self.registrar.info.key, &self.member.info.key, self.member.data.nonce),
            program_id,
            &self.member_signer.key,
        ).is_err() {
            fail_with(FrameworkError::ConstraintSeeds)
        } else if check_seeds(
            &registrar_seeds(&self.registrar.info.key, self.registrar.data.nonce),
            program_id,
            &self.registrar_signer.key,
        ).is_err() {
            fail_with(FrameworkError::ConstraintSeeds)
        } else if !self.token_program.key.equals(&token_program_id()) {
            fail_with(FrameworkError::Deprecated)
        } else {
            Ok(())
        }
    }
}

/// Same as the `==` of balance sets.
pub fn sandbox_equals(a: &BalanceSandbox, b: &BalanceSandbox) -> (r: bool)
    ensures
        r == (*a == *b),
{
    a.spt.equals(&b.spt) && a.vault.equals(&b.vault) && a.vault_stake.equals(&b.vault_stake)
        && a.vault_pw.equals(&b.vault_pw)
}

/// Accounts of `start_unstake`: `balances` are the member's locked balance
/// accounts for a locked withdrawal and its free ones otherwise. The member
/// account is read, not written.
#[derive(Debug)]
pub struct StartUnstake {
    pub registrar: Account<Registrar>,
    pub reward_event_q: Account<RewardQueue>,
    pub pool_mint: AccountRef,
    pub pending_withdrawal: FreshAccount<PendingWithdrawal>,
    pub member: Account<Member>,
    pub beneficiary: AccountRef,
    pub balances: BalanceSandboxAccounts,
    pub member_signer: AccountRef,
    pub token_program: AccountRef,
    /// The clock's unix timestamp.
    pub clock: i64,
}

impl StartUnstake {
    /// The member's balance set that an unstake works on: the locked one for
    /// a locked withdrawal, the free one otherwise.
    pub open spec fn spec_unstaked_balances(&self, locked: bool) -> BalanceSandbox {
        if locked {
            self.member.data.balances_locked
        } else {
            self.member.data.balances
        }
    }

    /// The outcome of the checks the program makes on these accounts, for a
    /// withdrawal that is `locked` or not.
    pub open spec fn spec_try_accounts(&self, program_id: Pubkey, locked: bool) -> Result<(), Error> {
        if self.balances.spec_try_accounts() is Err {
            self.balances.spec_try_accounts()
        } else if self.registrar.data.reward_event_q != self.reward_event_q.info.key {
            fail(FrameworkError::ConstraintHasOne)
        } else if self.registrar.data.pool_mint != self.pool_mint.key {
            fail(FrameworkError::ConstraintHasOne)
        } else if !self.pool_mint.is_writable {
            fail(FrameworkError::ConstraintMut)
        } else if spec_check_fresh(&self.pending_withdrawal) is Err {
            spec_check_fresh(&self.pending_withdrawal)
        } else if self.member.data.beneficiary != self.beneficiary.key {
            fail(FrameworkError::ConstraintHasOne)
        } else if self.member.data.registrar != self.registrar.info.key {
            fail(FrameworkError::ConstraintHasOne)
        } else if !self.beneficiary.is_signer {
            fail(FrameworkError::ConstraintSigner)
        } else if self.balances.spec_sandbox() != self.spec_unstaked_balances(locked) {
            fail(FrameworkError::Deprecated)
        } else if spec_check_seeds(
            spec_owned_seeds(self.registrar.info.key, self.member.info.key, self.member.data.nonce),
            program_id,
            self.member_signer.key,
        ) is Err {
            fail(FrameworkError::ConstraintSeeds)
        } else if self.token_program.key != spec_token_program_id() {
            fail(FrameworkError::Deprecated)
        } else {
            Ok(())
        }
    }

    /// Checks the accounts, in the order the program checks them.
    pub fn try_accounts(&self, program_id: &Pubkey, locked: bool) -> (r: Result<(), Error>)
        ensures
            r == self.spec_try_accounts(*program_id, locked),
    {
        let r1 = self.balances.try_accounts();
        if r1.is_err() {
            return r1;
        }
        if !self.registrar.data.reward_event_q.equals(&self.reward_event_q.info.key) {
            return fail_with(FrameworkError::ConstraintHasOne);
        }
        if !self.registrar.data.pool_mint.equals(&self.pool_mint.key) {
            return fail_with(FrameworkError::ConstraintHasOne);
        }
        if !self.pool_mint.is_writable {
            return fail_with(FrameworkError::ConstraintMut);
        }
        let r2 = check_fresh(&self.pending_withdrawal);
        if r2.is_err() {
            return r2;
        }
        if !self.member.data.beneficiary.equals(&self.beneficiary.key) {
            fail_with(FrameworkError::ConstraintHasOne)
        } else if !self.member.data.registrar.equals(&self.registrar.info.key) {
            fail_with(FrameworkError::ConstraintHasOne)
        } else if !self.beneficiary.is_signer {
            fail_with(FrameworkError::ConstraintSigner)
        } else if !sandbox_equals(
            &self.balances.sandbox(),
            if locked { &self.member.data.balances_locked } else { &self.member.data.balances },
        ) {
            fail_with(FrameworkError::Deprecated)
        } else if check_seeds(
            &owned_seeds(&self.registrar.info.key, &self.member.info.key, self.member.data.nonce),
            program_id,
            &self.member_signer.key,
        ).is_err() {
            fail_with(FrameworkError::ConstraintSeeds)
        } else if !self.token_program.key.equals(&token_program_id()) {
            fail_with(FrameworkError::Deprecated)
        } else {
            Ok(())
        }
    }
}

/// Accounts of `end_unstake`.
#[derive(Debug)]
pub struct EndUnstake {
    pub registrar: Account<Registrar>,
    pub member: Account<Member>,
    pub beneficiary: AccountRef,
    pub pending_withdrawal: Account<PendingWithdrawal>,
    pub vault: AccountRef,
    pub vault_pw: AccountRef,
    pub member_signer: AccountRef,
    pub token_program: AccountRef,
    /// The clock's unix timestamp.
    pub clock: i64,
}

impl EndUnstake {
    /// The outcome of the checks the program makes on these accounts.
    pub open spec fn spec_try_accounts(&self, program_id: Pubkey) -> Result<(), Error> {
        if self.member.data.registrar != self.registrar.info.key {
            fail(FrameworkError::ConstraintHasOne)
        } else if self.member.data.beneficiary != self.beneficiary.key {
            fail(FrameworkError::ConstraintHasOne)
        } else if !self.beneficiary.is_signer {
            fail(FrameworkError::ConstraintSigner)
        } else if !self.pending_withdrawal.info.is_writable {
            fail(FrameworkError::ConstraintMut)
        } else if self.pending_withdrawal.data.registrar != self.registrar.info.key {
            fail(FrameworkError::ConstraintHasOne)
        } else if self.pending_withdrawal.data.member != self.member.info.key {
            fail(FrameworkError::ConstraintHasOne)
        } else if self.pending_withdrawal.data.burned {
            fail(FrameworkError::Deprecated)
        } else if !self.vault.is_writable {
            fail(FrameworkError::ConstraintMut)
        } else if !self.vault_pw.is_writable {
            fail(FrameworkError::ConstraintMut)
        } else if spec_check_seeds(
            spec_owned_seeds(self.registrar.info.key, self.member.info.key, self.member.data.nonce),
            program_id,
            self.member_signer.key,
        ) is Err {
            fail(FrameworkError::ConstraintSeeds)
        } else if self.token_program.key != spec_token_program_id() {
            fail(FrameworkError::Deprecated)
        } else {
            Ok(())
        }
    }

    /// Checks the accounts, in the order the program checks them.
    pub fn try_accounts(&self, program_id: &Pubkey) -> (r: Result<(), Error>)
        ensures
            r == self.spec_try_accounts(*program_id),
    {
        if !self.member.data.registrar.equals(&self.registrar.info.key) {
            fail_with(FrameworkError::ConstraintHasOne)
        } else if !self.member.data.beneficiary.equals(&self.beneficiary.key) {
            fail_with(FrameworkError::ConstraintHasOne)
        } else if !self.beneficiary.is_signer {
            fail_with(FrameworkError::ConstraintSigner)
        } else if !self.pending_withdrawal.info.is_writable {
            fail_with(FrameworkError::ConstraintMut)
        } else if !self.pending_withdrawal.data.registrar.equals(&self.registrar.info.key) {
            fail_with(FrameworkError::ConstraintHasOne)
        } else if !self.pending_withdrawal.data.member.equals(&self.member.info.key) {
            fail_with(FrameworkError::ConstraintHasOne)
        } else if self.pending_withdrawal.data.burned {
            fail_with(FrameworkError::Deprecated)
        } else if !self.vault.is_writable {
            fail_with(FrameworkError::ConstraintMut)
        } else if !self.vault_pw.is_writable {
            fail_with(FrameworkError::ConstraintMut)
        } else if check_seeds(
            &owned_seeds(&self.registrar.info.key, &self.member.info.key, self.member.data.nonce),
            program_id,
            &self.member_signer.key,
        ).is_err() {
            fail_with(FrameworkError::ConstraintSeeds)
        } else if !self.token_program.key.equals(&token_program_id()) {
            fail_with(FrameworkError::Deprecated)
        } else {
            Ok(())
        }
    }
}

/// Accounts of `withdraw`.
#[derive(Debug)]
pub struct Withdraw {
    pub registrar: Account<Registrar>,
    pub member: Account<Member>,
    pub beneficiary: AccountRef,
    pub vault: Account<TokenAccount>,
    pub member_signer: AccountRef,
    pub depositor: AccountRef,
    pub token_program: AccountRef,
}

impl Withdraw {
    /// The outcome of the checks the program makes on these accounts.
    pub open spec fn spec_try_accounts(&self, program_id: Pubkey) -> Result<(), Error> {
        if self.member.data.registrar != self.registrar.info.key {
            fail(FrameworkError::ConstraintHasOne)
        } else if self.member.data.beneficiary != self.beneficiary.key {
            fail(FrameworkError::ConstraintHasOne)
        } else if !self.beneficiary.is_signer {
            fail(FrameworkError::ConstraintSigner)
        } else if !self.vault.info.is_writable {
            fail(FrameworkError::ConstraintMut)
        } else if self.vault.info.key != self.member.data.balances.vault {
            fail(FrameworkError::Deprecated)
        } else if spec_check_seeds(
            spec_owned_seeds(self.registrar.info.key, self.member.info.key, self.member.data.nonce),
            program_id,
            self.member_signer.key,
        ) is Err {
            fail(FrameworkError::ConstraintSeeds)
        } else if !self.depositor.is_writable {
            fail(FrameworkError::ConstraintMut)
        } else if self.token_program.key != spec_token_program_id() {
            fail(FrameworkError::Deprecated)
        } else {
            Ok(())
        }
    }

    /// Checks the accounts, in the order the program checks them.
    pub fn try_accounts(&self, program_id: &Pubkey) -> (r: Result<(), Error>)
        ensures
            r == self.spec_try_accounts(*program_id),
    {
        if !self.member.data.registrar.equals(&self.registrar.info.key) {
            fail_with(FrameworkError::ConstraintHasOne)
        } else if !self.member.data.beneficiary.equals(&self.beneficiary.key) {
            fail_with(FrameworkError::ConstraintHasOne)
        } else if !self.beneficiary.is_signer {
            fail_with(FrameworkError::ConstraintSigner)
        } else if !self.vault.info.is_writable {
            fail_with(FrameworkError::ConstraintMut)
        } else if !self.vault.info.key.equals(&self.member.data.balances.vault) {
            fail_with(FrameworkError::Deprecated)
        } else if check_seeds(
            &owned_seeds(&self.registrar.info.key, &self.member.info.key, self.member.data.nonce),
            program_id,
            &self.member_signer.key,
        ).is_err() {
            fail_with(FrameworkError::ConstraintSeeds)
        } else if !self.depositor.is_writable {
            fail_with(FrameworkError::ConstraintMut)
        } else if !self.token_program.key.equals(&token_program_id()) {
            fail_with(FrameworkError::Deprecated)
        } else {
            Ok(())
        }
    }
}

/// Accounts of `drop_reward`.
#[derive(Debug)]
pub struct DropReward {
    pub registrar: Account<Registrar>,
    pub reward_event_q: Account<RewardQueue>,
    pub pool_mint: Account<Mint>,
    pub vendor: FreshAccount<RewardVendor>,
    pub vendor_vault: Account<TokenAccount>,
    pub depositor: AccountRef,
    pub depositor_authority: AccountRef,
    pub token_program: AccountRef,
    /// The clock's unix timestamp.
    pub clock: i64,
}

impl DropReward {
    /// The outcome of the checks the program makes on these accounts.
    pub open spec fn spec_try_accounts(&self) -> Result<(), Error> {
        if self.registrar.data.reward_event_q != self.reward_event_q.info.key {
            fail(FrameworkError::ConstraintHasOne)
        } else if self.registrar.data.pool_mint != self.pool_mint.info.key {
            fail(FrameworkError::ConstraintHasOne)
        } else if !self.reward_event_q.info.is_writable {
            fail(FrameworkError::ConstraintMut)
        } else if spec_check_fresh(&self.vendor) is Err {
            spec_check_fresh(&self.vendor)
        } else if !self.vendor_vault.info.is_writable {
            fail(FrameworkError::ConstraintMut)
        } else if !self.depositor.is_writable {
            fail(FrameworkError::ConstraintMut)
        } else if !self.depositor_authority.is_signer {
            fail(FrameworkError::ConstraintSigner)
        } else if self.token_program.key != spec_token_program_id() {
            fail(FrameworkError::Deprecated)
        } else {
            Ok(())
        }
    }

    /// Checks the accounts, in the order the program checks them.
    pub fn try_accounts(&self) -> (r: Result<(), Error>)
        ensures
            r == self.spec_try_accounts(),
    {
        if !self.registrar.data.reward_event_q.equals(&self.reward_event_q.info.key) {
            return fail_with(FrameworkError::ConstraintHasOne);
        }
        if !self.registrar.data.pool_mint.equals(&self.pool_mint.info.key) {
            return fail_with(FrameworkError::ConstraintHasOne);
        }
        if !self.reward_event_q.info.is_writable {
            return fail_with(FrameworkError::ConstraintMut);
        }
        let r1 = check_fresh(&self.vendor);
        if r1.is_err() {
            return r1;
        }
        if !self.vendor_vault.info.is_writable {
            fail_with(FrameworkError::ConstraintMut)
        } else if !self.depositor.is_writable {
            fail_with(FrameworkError::ConstraintMut)
        } else if !self.depositor_authority.is_signer {
            fail_with(FrameworkError::ConstraintSigner)
        } else if !self.token_program.key.equals(&token_program_id()) {
            fail_with(FrameworkError::Deprecated)
        } else {
            Ok(())
        }
    }
}

/// The accounts both reward claims take.
#[derive(Debug)]
pub struct ClaimRewardCommon {
    pub registrar: Account<Registrar>,
    pub member: Account<Member>,
    pub beneficiary: AccountRef,
    pub balances_spt: Account<TokenAccount>,
    pub balances_locked_spt: Account<TokenAccount>,
    pub vendor: Account<RewardVendor>,
    pub vault: AccountRef,
    pub vendor_signer: AccountRef,
    pub token_program: AccountRef,
    /// The clock's unix timestamp.
    pub clock: i64,
}

impl ClaimRewardCommon {
    /// The outcome of the checks the program makes on these accounts.
    pub open spec fn spec_try_accounts(&self, program_id: Pubkey) -> Result<(), Error> {
        if !self.member.info.is_writable {
            fail(FrameworkError::ConstraintMut)
        } else if self.member.data.registrar != self.registrar.info.key {
            fail(FrameworkError::ConstraintHasOne)
        } else if self.member.data.beneficiary != self.beneficiary.key {
            fail(FrameworkError::ConstraintHasOne)
        } else if !self.beneficiary.is_signer {
            fail(FrameworkError::ConstraintSigner)
        } else if self.balances_spt.info.key != self.member.data.balances.spt {
            fail(FrameworkError::Deprecated)
        } else if self.balances_locked_spt.info.key != self.member.data.balances_locked.spt {
            fail(FrameworkError::Deprecated)
        } else if self.vendor.data.registrar != self.registrar.info.key {
            fail(FrameworkError::ConstraintHasOne)
        } else if self.vendor.data.vault != self.vault.key {
            fail(FrameworkError::ConstraintHasOne)
        } else if !self.vault.is_writable {
            fail(FrameworkError::ConstraintMut)
        } else if spec_check_seeds(
            spec_owned_seeds(self.registrar.info.key, self.vendor.info.key, self.vendor.data.nonce),
            program_id,
            self.vendor_signer.key,
        ) is Err {
            fail(FrameworkError::ConstraintSeeds)
        } else if self.token_program.key != spec_token_program_id() {
            fail(FrameworkError::Deprecated)
        } else {
            Ok(())
        }
    }

    /// Checks the accounts, in the order the program checks them.
    pub fn try_accounts(&self, program_id: &Pubkey) -> (r: Result<(), Error>)
        ensures
            r == self.spec_try_accounts(*program_id),
    {
        if !self.member.info.is_writable {
            fail_with(FrameworkError::ConstraintMut)
        } else if !self.member.data.registrar.equals(&self.registrar.info.key) {
            fail_with(FrameworkError::ConstraintHasOne)
        } else if !self.member.data.beneficiary.equals(&self.beneficiary.key) {
            fail_with(FrameworkError::ConstraintHasOne)
        } else if !self.beneficiary.is_signer {
            fail_with(FrameworkError::ConstraintSigner)
        } else if !self.balances_spt.info.key.equals(&self.member.data.balances.spt) {
            fail_with(FrameworkError::Deprecated)
        } else if !self.balances_locked_spt.info.key.equals(&self.member.data.balances_locked.spt) {
            fail_with(FrameworkError::Deprecated)
        } else if !self.vendor.data.registrar.equals(&self.registrar.info.key) {
            fail_with(FrameworkError::ConstraintHasOne)
        } else if !self.vendor.data.vault.equals(&self.vault.key) {
            fail_with(FrameworkError::ConstraintHasOne)
        } else if !self.vault.is_writable {
            fail_with(FrameworkError::ConstraintMut)
        } else if check_seeds(
            &owned_seeds(&self.registrar.info.key, &self.vendor.info.key, self.vendor.data.nonce),
            program_id,
            &self.vendor_signer.key,
        ).is_err() {
            fail_with(FrameworkError::ConstraintSeeds)
        } else if !self.token_program.key.equals(&token_program_id()) {
            fail_with(FrameworkError::Deprecated)
        } else {
            Ok(())
        }
    }
}

/// Accounts of `claim_reward`.
#[derive(Debug)]
pub struct ClaimReward {
    pub cmn: ClaimRewardCommon,
    pub to: AccountRef,
}

impl ClaimReward {
    /// The outcome of the checks the program makes on these accounts.
    pub open spec fn spec_try_accounts(&self, program_id: Pubkey) -> Result<(), Error> {
        if self.cmn.spec_try_accounts(program_id) is Err {
            self.cmn.spec_try_accounts(program_id)
        } else if !self.to.is_writable {
            fail(FrameworkError::ConstraintMut)
        } else {
            Ok(())
        }
    }

    /// Checks the accounts, in the order the program checks them.
    pub fn try_accounts(&self, program_id: &Pubkey) -> (r: Result<(), Error>)
        ensures
            r == self.spec_try_accounts(*program_id),
    {
        let r1 = self.cmn.try_accounts(program_id);
        if r1.is_err() {
            return r1;
        }
        if !self.to.is_writable {
            fail_with(FrameworkError::ConstraintMut)
        } else {
            Ok(())
        }
    }
}

/// Accounts of `claim_reward_locked`.
#[derive(Debug)]
pub struct ClaimRewardLocked {
    pub cmn: ClaimRewardCommon,
    pub registry: Account<Registry>,
    pub lockup_program: AccountRef,
}

impl ClaimRewardLocked {
    /// The outcome of the checks the program makes on these accounts.
    pub open spec fn spec_try_accounts(&self, program_id: Pubkey, ix_data: Seq<u8>) -> Result<(), Error> {
        match spec_bump_arg(ix_data) {
            None => Err(Error::ProgramError(FrameworkError::InstructionDidNotDeserialize)),
            Some(registry_bump) => if self.cmn.spec_try_accounts(program_id) is Err {
                self.cmn.spec_try_accounts(program_id)
            } else if spec_check_seeds(spec_registry_seeds(registry_bump), program_id, self.registry.info.key) is Err {
                fail(FrameworkError::ConstraintSeeds)
            } else if self.lockup_program.key != self.registry.data.lockup_program {
                fail(FrameworkError::Deprecated)
            } else {
                Ok(())
            },
        }
    }

    /// Checks the accounts, in the order the program checks them.
    pub fn try_accounts(&self, program_id: &Pubkey, ix_data: &[u8]) -> (r: Result<(), Error>)
        ensures
            r == self.spec_try_accounts(*program_id, ix_data@),
    {
        let registry_bump = match bump_arg(ix_data) {
            None => { return Err(Error::ProgramError(FrameworkError::InstructionDidNotDeserialize)); },
            Some(b) => b,
        };
        let r1 = self.cmn.try_accounts(program_id);
        if r1.is_err() {
            return r1;
        }
        if check_seeds(&registry_seeds(registry_bump), program_id, &self.registry.info.key).is_err() {
            fail_with(FrameworkError::ConstraintSeeds)
        } else if !self.lockup_program.key.equals(&self.registry.data.lockup_program) {
            fail_with(FrameworkError::Deprecated)
        } else {
            Ok(())
        }
    }
}

/// Accounts of `expire_reward`.
#[derive(Debug)]
pub struct ExpireReward {
    pub registrar: Account<Registrar>,
    pub vendor: Account<RewardVendor>,
    pub vault: Account<TokenAccount>,
    pub vendor_signer: AccountRef,
    pub expiry_receiver: AccountRef,
    pub expiry_receiver_token: AccountRef,
    pub token_program: AccountRef,
    /// The clock's unix timestamp.
    pub clock: i64,
}

impl ExpireReward {
    /// The outcome of the checks the program makes on these accounts.
    pub open spec fn spec_try_accounts(&self, program_id: Pubkey) -> Result<(), Error> {
        if !self.vendor.info.is_writable {
            fail(FrameworkError::ConstraintMut)
        } else if self.vendor.data.registrar != self.registrar.info.key {
            fail(FrameworkError::ConstraintHasOne)
        } else if self.vendor.data.vault != self.vault.info.key {
            fail(FrameworkError::ConstraintHasOne)
        } else if self.vendor.data.expiry_receiver != self.expiry_receiver.key {
            fail(FrameworkError::ConstraintHasOne)
        } else if !self.vault.info.is_writable {
            fail(FrameworkError::ConstraintMut)
        } else if spec_check_seeds(
            spec_owned_seeds(self.registrar.info.key, self.vendor.info.key, self.vendor.data.nonce),
            program_id,
            self.vendor_signer.key,
        ) is Err {
            fail(FrameworkError::ConstraintSeeds)
        } else if !self.expiry_receiver.is_signer {
            fail(FrameworkError::ConstraintSigner)
        } else if !self.expiry_receiver_token.is_writable {
            fail(FrameworkError::ConstraintMut)
        } else if self.token_program.key != spec_token_program_id() {
            fail(FrameworkError::Deprecated)
        } else {
            Ok(())
        }
    }

    /// Checks the accounts, in the order the program checks them.
    pub fn try_accounts(&self, program_id: &Pubkey) -> (r: Result<(), Error>)
        ensures
            r == self.spec_try_accounts(*program_id),
    {
        if !self.vendor.info.is_writable {
            fail_with(FrameworkError::ConstraintMut)
        } else if !self.vendor.data.registrar.equals(&self.registrar.info.key) {
            fail_with(FrameworkError::ConstraintHasOne)
        } else if !self.vendor.data.vault.equals(&self.vault.info.key) {
            fail_with(FrameworkError::ConstraintHasOne)
        } else if !self.vendor.data.expiry_receiver.equals(&self.expiry_receiver.key) {
            fail_with(FrameworkError::ConstraintHasOne)
        } else if !self.vault.info.is_writable {
            fail_with(FrameworkError::ConstraintMut)
        } else if check_seeds(
            &owned_seeds(&self.registrar.info.key, &self.vendor.info.key, self.vendor.data.nonce),
            program_id,
            &self.vendor_signer.key,
        ).is_err() {
            fail_with(FrameworkError::ConstraintSeeds)
        } else if !self.expiry_receiver.is_signer {
            fail_with(FrameworkError::ConstraintSigner)
        } else if !self.expiry_receiver_token.is_writable {
            fail_with(FrameworkError::ConstraintMut)
        } else if !self.token_program.key.equals(&token_program_id()) {
            fail_with(FrameworkError::Deprecated)
        } else {
            Ok(())
        }
    }
}

/// Accounts of the registry's realization check of a vesting account.
#[derive(Debug)]
pub struct IsRealized {
    pub member: Account<Member>,
    pub member_spt: Account<TokenAccount>,
    pub member_spt_locked: Account<TokenAccount>,
}

impl IsRealized {
    /// The outcome of the checks the program makes on these accounts.
    pub open spec fn spec_try_accounts(&self) -> Result<(), Error> {
        if self.member.data.balances.spt != self.member_spt.info.key {
            fail(FrameworkError::Deprecated)
        } else if self.member.data.balances_locked.spt != self.member_spt_locked.info.key {
            fail(FrameworkError::Deprecated)
        } else {
            Ok(())
        }
    }

    /// Checks the accounts, in the order the program checks them.
    pub fn try_accounts(&self) -> (r: Result<(), Error>)
        ensures
            r == self.spec_try_accounts(),
    {
        if !self.member.data.balances.spt.equals(&self.member_spt.info.key) {
            fail_with(FrameworkError::Deprecated)
        } else if !self.member.data.balances_locked.spt.equals(&self.member_spt_locked.info.key) {
            fail_with(FrameworkError::Deprecated)
        } else {
            Ok(())
        }
    }
}

} // verus!

//! The account lists of the instructions, as a client builds them: each
//! account's address in the order the instruction reads them, whether it
//! signs and whether the instruction writes it.
use vstd::prelude::*;
use crate::pubkey::Pubkey;

verus! {

/// An account as an instruction lists it.
#[derive(Clone, Copy, Debug, PartialEq, Eq, Structural)]
pub struct AccountMeta {
    pub pubkey: Pubkey,
    pub is_signer: bool,
    pub is_writable: bool,
}

/// The listing of one account.
pub open spec fn meta(pubkey: Pubkey, is_signer: bool, is_writable: bool) -> AccountMeta {
    AccountMeta { pubkey, is_signer, is_writable }
}

fn push_meta(v: &mut Vec<AccountMeta>, pubkey: Pubkey, is_signer: bool, is_writable: bool)
    ensures
        final(v)@ == old(v)@.push(meta(pubkey, is_signer, is_writable)),
{
    v.push(AccountMeta { pubkey, is_signer, is_writable });
}

/// The addresses of the accounts of `initialize`.
#[derive(Clone, Copy, Debug, PartialEq, Eq, Structural)]
pub struct Initialize {
    pub registrar: Pubkey,
    pub reward_event_q: Pubkey,
    pub pool_mint: Pubkey,
    pub rent: Pubkey,
}

impl Initialize {
    /// The account list, in order.
    pub open spec fn spec_account_metas(self) -> Seq<AccountMeta> {
        seq![
            meta(self.registrar, false, true),
            meta(self.reward_event_q, false, true),
            meta(self.pool_mint, false, false),
            meta(self.rent, false, false),
        ]
    }

    /// The account list, in order. Each account's own flags decide whether
    /// it signs; `is_signer` is not read.
    pub fn to_account_metas(&self, is_signer: Option<bool>) -> (v: Vec<AccountMeta>)
        ensures
            v@ == self.spec_account_metas(),
    {
        let mut v: Vec<AccountMeta> = Vec::new();
        push_meta(&mut v, self.registrar, false, true);
        push_meta(&mut v, self.reward_event_q, false, true);
        push_meta(&mut v, self.pool_mint, false, false);
        push_meta(&mut v, self.rent, false, false);
        assert(v@ =~= self.spec_account_metas());
        v
    }
}

/// The addresses of the accounts of `update_registrar`.
#[derive(Clone, Copy, Debug, PartialEq, Eq, Structural)]
pub struct UpdateRegistrar {
    pub registrar: Pubkey,
    pub authority: Pubkey,
}

impl UpdateRegistrar {
    /// The account list, in order.
    pub open spec fn spec_account_metas(self) -> Seq<AccountMeta> {
        seq![
            meta(self.registrar, false, true),
            meta(self.authority, true, false),
        ]
    }

    /// The account list, in order. Each account's own flags decide whether
    /// it signs; `is_signer` is not read.
    pub fn to_account_metas(&self, is_signer: Option<bool>) -> (v: Vec<AccountMeta>)
        ensures
            v@ == self.spec_account_metas(),
    {
        let mut v: Vec<AccountMeta> = Vec::new();
        push_meta(&mut v, self.registrar, false, true);
        push_meta(&mut v, self.authority, true, false);
        assert(v@ =~= self.spec_account_metas());
        v
    }
}

/// The addresses of the accounts of `create_member`.
#[derive(Clone, Copy, Debug, PartialEq, Eq, Structural)]
pub struct CreateMember {
    pub registrar: Pubkey,
    pub member: Pubkey,
    pub beneficiary: Pubkey,
    pub member_signer: Pubkey,
    pub token_program: Pubkey,
    pub rent: Pubkey,
}

impl CreateMember {
    /// The account list, in order.
    pub open spec fn spec_account_metas(self) -> Seq<AccountMeta> {
        seq![
            meta(self.registrar, false, false),
            meta(self.member, false, true),
            meta(self.beneficiary, true, false),
            meta(self.member_signer, false, false),
            meta(self.token_program, false, false),
            meta(self.rent, false, false),
        ]
    }

    /// The account list, in order. Each account's own flags decide whether
    /// it signs; `is_signer` is not read.
    pub fn to_account_metas(&self, is_signer: Option<bool>) -> (v: Vec<AccountMeta>)
        ensures
            v@ == self.spec_account_metas(),
    {
        let mut v: Vec<AccountMeta> = Vec::new();
        push_meta(&mut v, self.registrar, false, false);
        push_meta(&mut v, self.member, false, true);
        push_meta(&mut v, self.beneficiary, true, false);
        push_meta(&mut v, self.member_signer, false, false);
        push_meta(&mut v, self.token_program, false, false);
        push_meta(&mut v, self.rent, false, false);
        assert(v@ =~= self.spec_account_metas());
        v
    }
}

/// The addresses of the accounts of `update_member_balances`.
#[derive(Clone, Copy, Debug, PartialEq, Eq, Structural)]
pub struct UpdateMemberBalances {
    pub registrar: Pubkey,
    pub member: Pubkey,
    pub balances: BalanceSandboxAccounts,
    pub member_signer: Pubkey,
}

impl UpdateMemberBalances {
    /// The account list, in order.
    pub open spec fn spec_account_metas(self) -> Seq<AccountMeta> {
        seq![
            meta(self.registrar, false, false),
            meta(self.member, false, true),
        ]
            + self.balances.spec_account_metas()
            + seq![
            meta(self.member_signer, false, false),
        ]
    }

    /// The account list, in order. Each account's own flags decide whether
    /// it signs; `is_signer` is not read.
    pub fn to_account_metas(&self, is_signer: Option<bool>) -> (v: Vec<AccountMeta>)
        ensures
            v@ == self.spec_account_metas(),
    {
        let mut v: Vec<AccountMeta> = Vec::new();
        push_meta(&mut v, self.registrar, false, false);
        push_meta(&mut v, self.member, false, true);
        let mut nested = self.balances.to_account_metas(None);
        v.append(&mut nested);
        push_meta(&mut v, self.member_signer, false, false);
        assert(v@ =~= self.spec_account_metas());
        v
    }
}

/// The addresses of the accounts of `update_member_balances_lock`.
#[derive(Clone, Copy, Debug, PartialEq, Eq, Structural)]
pub struct UpdateMemberBalancesLock {
    pub registrar: Pubkey,
    pub member: Pubkey,
    pub balances_locked: BalanceSandboxAccounts,
    pub member_signer: Pubkey,
}

impl UpdateMemberBalancesLock {
    /// The account list, in order.
    pub open spec fn spec_account_metas(self) -> Seq<AccountMeta> {
        seq![
            meta(self.registrar, false, false),
            meta(self.member, false, true),
        ]
            + self.balances_locked.spec_account_metas()
            + seq![
            meta(self.member_signer, false, false),
        ]
    }

    /// The account list, in order. Each account's own flags decide whether
    /// it signs; `is_signer` is not read.
    pub fn to_account_metas(&self, is_signer: Option<bool>) -> (v: Vec<AccountMeta>)
        ensures
            v@ == self.spec_account_metas(),
    {
        let mut v: Vec<AccountMeta> = Vec::new();
        push_meta(&mut v, self.registrar, false, false);
        push_meta(&mut v, self.member, false, true);
        let mut nested = self.balances_locked.to_account_metas(None);
        v.append(&mut nested);
        push_meta(&mut v, self.member_signer, false, false);
        assert(v@ =~= self.spec_account_metas());
        v
    }
}

/// The addresses of the four token accounts of one set of a member's balances.
#[derive(Clone, Copy, Debug, PartialEq, Eq, Structural)]
pub struct BalanceSandboxAccounts {
    pub spt: Pubkey,
    pub vault: Pubkey,
    pub vault_stake: Pubkey,
    pub vault_pw: Pubkey,
}

impl BalanceSandboxAccounts {
    /// The account list, in order.
    pub open spec fn spec_account_metas(self) -> Seq<AccountMeta> {
        seq![
            meta(self.spt, false, true),
            meta(self.vault, false, true),
            meta(self.vault_stake, false, true),
            meta(self.vault_pw, false, true),
        ]
    }

    /// The account list, in order. Each account's own flags decide whether
    /// it signs; `is_signer` is not read.
    pub fn to_account_metas(&self, is_signer: Option<bool>) -> (v: Vec<AccountMeta>)
        ensures
            v@ == self.spec_account_metas(),
    {
        let mut v: Vec<AccountMeta> = Vec::new();
        push_meta(&mut v, self.spt, false, true);
        push_meta(&mut v, self.vault, false, true);
        push_meta(&mut v, self.vault_stake, false, true);
        push_meta(&mut v, self.vault_pw, false, true);
        assert(v@ =~= self.spec_account_metas());
        v
    }
}

/// The addresses of the accounts of `new_registry`.
#[derive(Clone, Copy, Debug, PartialEq, Eq, Structural)]
pub struct NewRegistry {
    pub authority: Pubkey,
    pub lockup_program: Pubkey,
    pub registry: Pubkey,
    pub system_program: Pubkey,
}

impl NewRegistry {
    /// The account list, in order.
    pub open spec fn spec_account_metas(self) -> Seq<AccountMeta> {
        seq![
            meta(self.authority, true, false),
            meta(self.lockup_program, false, false),
            meta(self.registry, false, true),
            meta(self.system_program, false, false),
        ]
    }

    /// The account list, in order. Each account's own flags decide whether
    /// it signs; `is_signer` is not read.
    pub fn to_account_metas(&self, is_signer: Option<bool>) -> (v: Vec<AccountMeta>)
        ensures
            v@ == self.spec_account_metas(),
    {
        let mut v: Vec<AccountMeta> = Vec::new();
        push_meta(&mut v, self.authority, true, false);
        push_meta(&mut v, self.lockup_program, false, false);
        push_meta(&mut v, self.registry, false, true);
        push_meta(&mut v, self.system_program, false, false);
        assert(v@ =~= self.spec_account_metas());
        v
    }
}

/// The addresses of the accounts of `set_lockup_program`.
#[derive(Clone, Copy, Debug, PartialEq, Eq, Structural)]
pub struct SetLockupProgram {
    pub authority: Pubkey,
    pub registry: Pubkey,
}

impl SetLockupProgram {
    /// The account list, in order.
    pub open spec fn spec_account_metas(self) -> Seq<AccountMeta> {
        seq![
            meta(self.authority, true, false),
            meta(self.registry, false, true),
        ]
    }

    /// The account list, in order. Each account's own flags decide whether
    /// it signs; `is_signer` is not read.
    pub fn to_account_metas(&self, is_signer: Option<bool>) -> (v: Vec<AccountMeta>)
        ensures
            v@ == self.spec_account_metas(),
    {
        let mut v: Vec<AccountMeta> = Vec::new();
        push_meta(&mut v, self.authority, true, false);
        push_meta(&mut v, self.registry, false, true);
        assert(v@ =~= self.spec_account_metas());
        v
    }
}

/// The addresses of the accounts of `is_realized`.
#[derive(Clone, Copy, Debug, PartialEq, Eq, Structural)]
pub struct IsRealized {
    pub member: Pubkey,
    pub member_spt: Pubkey,
    pub member_spt_locked: Pubkey,
}

impl IsRealized {
    /// The account list, in order.
    pub open spec fn spec_account_metas(self) -> Seq<AccountMeta> {
        seq![
            meta(self.member, false, false),
            meta(self.member_spt, false, false),
            meta(self.member_spt_locked, false, false),
        ]
    }

    /// The account list, in order. Each account's own flags decide whether
    /// it signs; `is_signer` is not read.
    pub fn to_account_metas(&self, is_signer: Option<bool>) -> (v: Vec<AccountMeta>)
        ensures
            v@ == self.spec_account_metas(),
    {
        let mut v: Vec<AccountMeta> = Vec::new();
        push_meta(&mut v, self.member, false, false);
        push_meta(&mut v, self.member_spt, false, false);
        push_meta(&mut v, self.member_spt_locked, false, false);
        assert(v@ =~= self.spec_account_metas());
        v
    }
}

/// The addresses of the accounts of `update_member`.
#[derive(Clone, Copy, Debug, PartialEq, Eq, Structural)]
pub struct UpdateMember {
    pub member: Pubkey,
    pub beneficiary: Pubkey,
}

impl UpdateMember {
    /// The account list, in order.
    pub open spec fn spec_account_metas(self) -> Seq<AccountMeta> {
        seq![
            meta(self.member, false, true),
            meta(self.beneficiary, true, false),
        ]
    }

    /// The account list, in order. Each account's own flags decide whether
    /// it signs; `is_signer` is not read.
    pub fn to_account_metas(&self, is_signer: Option<bool>) -> (v: Vec<AccountMeta>)
        ensures
            v@ == self.spec_account_metas(),
    {
        let mut v: Vec<AccountMeta> = Vec::new();
        push_meta(&mut v, self.member, false, true);
        push_meta(&mut v, self.beneficiary, true, false);
        assert(v@ =~= self.spec_account_metas());
        v
    }
}

/// The addresses of the accounts of `deposit`.
#[derive(Clone, Copy, Debug, PartialEq, Eq, Structural)]
pub struct Deposit {
    pub member: Pubkey,
    pub beneficiary: Pubkey,
    pub vault: Pubkey,
    pub depositor: Pubkey,
    pub depositor_authority: Pubkey,
    pub token_program: Pubkey,
}

impl Deposit {
    /// The account list, in order.
    pub open spec fn spec_account_metas(self) -> Seq<AccountMeta> {
        seq![
            meta(self.member, false, false),
            meta(self.beneficiary, true, false),
            meta(self.vault, false, true),
            meta(self.depositor, false, true),
            meta(self.depositor_authority, true, false),
            meta(self.token_program, false, false),
        ]
    }

    /// The account list, in order. Each account's own flags decide whether
    /// it signs; `is_signer` is not read.
    pub fn to_account_metas(&self, is_signer: Option<bool>) -> (v: Vec<AccountMeta>)
        ensures
            v@ == self.spec_account_metas(),
    {
        let mut v: Vec<AccountMeta> = Vec::new();
        push_meta(&mut v, self.member, false, false);
        push_meta(&mut v, self.beneficiary, true, false);
        push_meta(&mut v, self.vault, false, true);
        push_meta(&mut v, self.depositor, false, true);
        push_meta(&mut v, self.depositor_authority, true, false);
        push_meta(&mut v, self.token_program, false, false);
        assert(v@ =~= self.spec_account_metas());
        v
    }
}

/// The addresses of the accounts of `deposit_locked`.
#[derive(Clone, Copy, Debug, PartialEq, Eq, Structural)]
pub struct DepositLocked {
    pub vesting: Pubkey,
    pub vesting_vault: Pubkey,
    pub depositor_authority: Pubkey,
    pub token_program: Pubkey,
    pub member_vault: Pubkey,
    pub member_signer: Pubkey,
    pub registry: Pubkey,
    pub registrar: Pubkey,
    pub member: Pubkey,
    pub beneficiary: Pubkey,
}

impl DepositLocked {
    /// The account list, in order.
    pub open spec fn spec_account_metas(self) -> Seq<AccountMeta> {
        seq![
            meta(self.vesting, false, false),
            meta(self.vesting_vault, false, true),
            meta(self.depositor_authority, true, false),
            meta(self.token_program, false, false),
            meta(self.member_vault, false, true),
            meta(self.member_signer, false, false),
            meta(self.registry, false, false),
            meta(self.registrar, false, false),
            meta(self.member, false, false),
            meta(self.beneficiary, true, false),
        ]
    }

    /// The account list, in order. Each account's own flags decide whether
    /// it signs; `is_signer` is not read.
    pub fn to_account_metas(&self, is_signer: Option<bool>) -> (v: Vec<AccountMeta>)
        ensures
            v@ == self.spec_account_metas(),
    {
        let mut v: Vec<AccountMeta> = Vec::new();
        push_meta(&mut v, self.vesting, false, false);
        push_meta(&mut v, self.vesting_vault, false, true);
        push_meta(&mut v, self.depositor_authority, true, false);
        push_meta(&mut v, self.token_program, false, false);
        push_meta(&mut v, self.member_vault, false, true);
        push_meta(&mut v, self.member_signer, false, false);
        push_meta(&mut v, self.registry, false, false);
        push_meta(&mut v, self.registrar, false, false);
        push_meta(&mut v, self.member, false, false);
        push_meta(&mut v, self.beneficiary, true, false);
        assert(v@ =~= self.spec_account_metas());
        v
    }
}

/// The addresses of the accounts of `stake`.
#[derive(Clone, Copy, Debug, PartialEq, Eq, Structural)]
pub struct Stake {
    pub registrar: Pubkey,
    pub reward_event_q: Pubkey,
    pub pool_mint: Pubkey,
    pub member: Pubkey,
    pub beneficiary: Pubkey,
    pub balances: BalanceSandboxAccounts,
    pub member_signer: Pubkey,
    pub registrar_signer: Pubkey,
    pub clock: Pubkey,
    pub token_program: Pubkey,
}

impl Stake {
    /// The account list, in order.
    pub open spec fn spec_account_metas(self) -> Seq<AccountMeta> {
        seq![
            meta(self.registrar, false, false),
            meta(self.reward_event_q, false, false),
            meta(self.pool_mint, false, true),
            meta(self.member, false, true),
            meta(self.beneficiary, true, false),
        ]
            + self.balances.spec_account_metas()
            + seq![
            meta(self.member_signer, false, false),
            meta(self.registrar_signer, false, false),
            meta(self.clock, false, false),
            meta(self.token_program, false, false),
        ]
    }

    /// The account list, in order. Each account's own flags decide whether
    /// it signs; `is_signer` is not read.
    pub fn to_account_metas(&self, is_signer: Option<bool>) -> (v: Vec<AccountMeta>)
        ensures
            v@ == self.spec_account_metas(),
    {
        let mut v: Vec<AccountMeta> = Vec::new();
        push_meta(&mut v, self.registrar, false, false);
        push_meta(&mut v, self.reward_event_q, false, false);
        push_meta(&mut v, self.pool_mint, false, true);
        push_meta(&mut v, self.member, false, true);
        push_meta(&mut v, self.beneficiary, true, false);
        let mut nested = self.balances.to_account_metas(None);
        v.append(&mut nested);
        push_meta(&mut v, self.member_signer, false, false);
        push_meta(&mut v, self.registrar_signer, false, false);
        push_meta(&mut v, self.clock, false, false);
        push_meta(&mut v, self.token_program, false, false);
        assert(v@ =~= self.spec_account_metas());
        v
    }
}

/// The addresses of the accounts of `start_unstake`.
#[derive(Clone, Copy, Debug, PartialEq, Eq, Structural)]
pub struct StartUnstake {
    pub registrar: Pubkey,
    pub reward_event_q: Pubkey,
    pub pool_mint: Pubkey,
    pub pending_withdrawal: Pubkey,
    pub member: Pubkey,
    pub beneficiary: Pubkey,
    pub balances: BalanceSandboxAccounts,
    pub member_signer: Pubkey,
    pub token_program: Pubkey,
    pub clock: Pubkey,
    pub rent: Pubkey,
}

impl StartUnstake {
    /// The account list, in order.
    pub open spec fn spec_account_metas(self) -> Seq<AccountMeta> {
        seq![
            meta(self.registrar, false, false),
            meta(self.reward_event_q, false, false),
            meta(self.pool_mint, false, true),
            meta(self.pending_withdrawal, false, true),
            meta(self.member, false, false),
            meta(self.beneficiary, true, false),
        ]
            + self.balances.spec_account_metas()
            + seq![
            meta(self.member_signer, false, false),
            meta(self.token_program, false, false),
            meta(self.clock, false, false),
            meta(self.rent, false, false),
        ]
    }

    /// The account list, in order. Each account's own flags decide whether
    /// it signs; `is_signer` is not read.
    pub fn to_account_metas(&self, is_signer: Option<bool>) -> (v: Vec<AccountMeta>)
        ensures
            v@ == self.spec_account_metas(),
    {
        let mut v: Vec<AccountMeta> = Vec::new();
        push_meta(&mut v, self.registrar, false, false);
        push_meta(&mut v, self.reward_event_q, false, false);
        push_meta(&mut v, self.pool_mint, false, true);
        push_meta(&mut v, self.pending_withdrawal, false, true);
        push_meta(&mut v, self.member, false, false);
        push_meta(&mut v, self.beneficiary, true, false);
        let mut nested = self.balances.to_account_metas(None);
        v.append(&mut nested);
        push_meta(&mut v, self.member_signer, false, false);
        push_meta(&mut v, self.token_program, false, false);
        push_meta(&mut v, self.clock, false, false);
        push_meta(&mut v, self.rent, false, false);
        assert(v@ =~= self.spec_account_metas());
        v
    }
}

/// The addresses of the accounts of `end_unstake`.
#[derive(Clone, Copy, Debug, PartialEq, Eq, Structural)]
pub struct EndUnstake {
    pub registrar: Pubkey,
    pub member: Pubkey,
    pub beneficiary: Pubkey,
    pub pending_withdrawal: Pubkey,
    pub vault: Pubkey,
    pub vault_pw: Pubkey,
    pub member_signer: Pubkey,
    pub clock: Pubkey,
    pub token_program: Pubkey,
}

impl EndUnstake {
    /// The account list, in order.
    pub open spec fn spec_account_metas(self) -> Seq<AccountMeta> {
        seq![
            meta(self.registrar, false, false),
            meta(self.member, false, false),
            meta(self.beneficiary, true, false),
            meta(self.pending_withdrawal, false, true),
            meta(self.vault, false, true),
            meta(self.vault_pw, false, true),
            meta(self.member_signer, false, false),
            meta(self.clock, false, false),
            meta(self.token_program, false, false),
        ]
    }

    /// The account list, in order. Each account's own flags decide whether
    /// it signs; `is_signer` is not read.
    pub fn to_account_metas(&self, is_signer: Option<bool>) -> (v: Vec<AccountMeta>)
        ensures
            v@ == self.spec_account_metas(),
    {
        let mut v: Vec<AccountMeta> = Vec::new();
        push_meta(&mut v, self.registrar, false, false);
        push_meta(&mut v, self.member, false, false);
        push_meta(&mut v, self.beneficiary, true, false);
        push_meta(&mut v, self.pending_withdrawal, false, true);
        push_meta(&mut v, self.vault, false, true);
        push_meta(&mut v, self.vault_pw, false, true);
        push_meta(&mut v, self.member_signer, false, false);
        push_meta(&mut v, self.clock, false, false);
        push_meta(&mut v, self.token_program, false, false);
        assert(v@ =~= self.spec_account_metas());
        v
    }
}

/// The addresses of the accounts of `withdraw`.
#[derive(Clone, Copy, Debug, PartialEq, Eq, Structural)]
pub struct Withdraw {
    pub registrar: Pubkey,
    pub member: Pubkey,
    pub beneficiary: Pubkey,
    pub vault: Pubkey,
    pub member_signer: Pubkey,
    pub depositor: Pubkey,
    pub token_program: Pubkey,
}

impl Withdraw {
    /// The account list, in order.
    pub open spec fn spec_account_metas(self) -> Seq<AccountMeta> {
        seq![
            meta(self.registrar, false, false),
            meta(self.member, false, false),
            meta(self.beneficiary, true, false),
            meta(self.vault, false, true),
            meta(self.member_signer, false, false),
            meta(self.depositor, false, true),
            meta(self.token_program, false, false),
        ]
    }

    /// The account list, in order. Each account's own flags decide whether
    /// it signs; `is_signer` is not read.
    pub fn to_account_metas(&self, is_signer: Option<bool>) -> (v: Vec<AccountMeta>)
        ensures
            v@ == self.spec_account_metas(),
    {
        let mut v: Vec<AccountMeta> = Vec::new();
        push_meta(&mut v, self.registrar, false, false);
        push_meta(&mut v, self.member, false, false);
        push_meta(&mut v, self.beneficiary, true, false);
        push_meta(&mut v, self.vault, false, true);
        push_meta(&mut v, self.member_signer, false, false);
        push_meta(&mut v, self.depositor, false, true);
        push_meta(&mut v, self.token_program, false, false);
        assert(v@ =~= self.spec_account_metas());
        v
    }
}

/// The addresses of the accounts of `withdraw_locked`.
#[derive(Clone, Copy, Debug, PartialEq, Eq, Structural)]
pub struct WithdrawLocked {
    pub vesting: Pubkey,
    pub vesting_vault: Pubkey,
    pub vesting_signer: Pubkey,
    pub token_program: Pubkey,
    pub member_vault: Pubkey,
    pub member_signer: Pubkey,
    pub registry: Pubkey,
    pub registrar: Pubkey,
    pub member: Pubkey,
    pub beneficiary: Pubkey,
}

impl WithdrawLocked {
    /// The account list, in order.
    pub open spec fn spec_account_metas(self) -> Seq<AccountMeta> {
        seq![
            meta(self.vesting, false, false),
            meta(self.vesting_vault, false, true),
            meta(self.vesting_signer, true, false),
            meta(self.token_program, false, false),
            meta(self.member_vault, false, true),
            meta(self.member_signer, false, false),
            meta(self.registry, false, false),
            meta(self.registrar, false, false),
            meta(self.member, false, false),
            meta(self.beneficiary, true, false),
        ]
    }

    /// The account list, in order. Each account's own flags decide whether
    /// it signs; `is_signer` is not read.
    pub fn to_account_metas(&self, is_signer: Option<bool>) -> (v: Vec<AccountMeta>)
        ensures
            v@ == self.spec_account_metas(),
    {
        let mut v: Vec<AccountMeta> = Vec::new();
        push_meta(&mut v, self.vesting, false, false);
        push_meta(&mut v, self.vesting_vault, false, true);
        push_meta(&mut v, self.vesting_signer, true, false);
        push_meta(&mut v, self.token_program, false, false);
        push_meta(&mut v, self.member_vault, false, true);
        push_meta(&mut v, self.member_signer, false, false);
        push_meta(&mut v, self.registry, false, false);
        push_meta(&mut v, self.registrar, false, false);
        push_meta(&mut v, self.member, false, false);
        push_meta(&mut v, self.beneficiary, true, false);
        assert(v@ =~= self.spec_account_metas());
        v
    }
}

/// The addresses of the accounts of `drop_reward`.
#[derive(Clone, Copy, Debug, PartialEq, Eq, Structural)]
pub struct DropReward {
    pub registrar: Pubkey,
    pub reward_event_q: Pubkey,
    pub pool_mint: Pubkey,
    pub vendor: Pubkey,
    pub vendor_vault: Pubkey,
    pub depositor: Pubkey,
    pub depositor_authority: Pubkey,
    pub token_program: Pubkey,
    pub clock: Pubkey,
    pub rent: Pubkey,
}

impl DropReward {
    /// The account list, in order.
    pub open spec fn spec_account_metas(self) -> Seq<AccountMeta> {
        seq![
            meta(self.registrar, false, false),
            meta(self.reward_event_q, false, true),
            meta(self.pool_mint, false, false),
            meta(self.vendor, false, true),
            meta(self.vendor_vault, false, true),
            meta(self.depositor, false, true),
            meta(self.depositor_authority, true, false),
            meta(self.token_program, false, false),
            meta(self.clock, false, false),
            meta(self.rent, false, false),
        ]
    }

    /// The account list, in order. Each account's own flags decide whether
    /// it signs; `is_signer` is not read.
    pub fn to_account_metas(&self, is_signer: Option<bool>) -> (v: Vec<AccountMeta>)
        ensures
            v@ == self.spec_account_metas(),
    {
        let mut v: Vec<AccountMeta> = Vec::new();
        push_meta(&mut v, self.registrar, false, false);
        push_meta(&mut v, self.reward_event_q, false, true);
        push_meta(&mut v, self.pool_mint, false, false);
        push_meta(&mut v, self.vendor, false, true);
        push_meta(&mut v, self.vendor_vault, false, true);
        push_meta(&mut v, self.depositor, false, true);
        push_meta(&mut v, self.depositor_authority, true, false);
        push_meta(&mut v, self.token_program, false, false);
        push_meta(&mut v, self.clock, false, false);
        push_meta(&mut v, self.rent, false, false);
        assert(v@ =~= self.spec_account_metas());
        v
    }
}

/// The addresses of the accounts of `claim_reward`.
#[derive(Clone, Copy, Debug, PartialEq, Eq, Structural)]
pub struct ClaimReward {
    pub cmn: ClaimRewardCommon,
    pub to: Pubkey,
}

impl ClaimReward {
    /// The account list, in order.
    pub open spec fn spec_account_metas(self) -> Seq<AccountMeta> {
        self.cmn.spec_account_metas()
            + seq![
            meta(self.to, false, true),
        ]
    }

    /// The account list, in order. Each account's own flags decide whether
    /// it signs; `is_signer` is not read.
    pub fn to_account_metas(&self, is_signer: Option<bool>) -> (v: Vec<AccountMeta>)
        ensures
            v@ == self.spec_account_metas(),
    {
        let mut v: Vec<AccountMeta> = Vec::new();
        let mut nested = self.cmn.to_account_metas(None);
        v.append(&mut nested);
        push_meta(&mut v, self.to, false, true);
        assert(v@ =~= self.spec_account_metas());
        v
    }
}

/// The addresses of the accounts of `claim_reward_locked`.
#[derive(Clone, Copy, Debug, PartialEq, Eq, Structural)]
pub struct ClaimRewardLocked {
    pub cmn: ClaimRewardCommon,
    pub registry: Pubkey,
    pub lockup_program: Pubkey,
}

impl ClaimRewardLocked {
    /// The account list, in order.
    pub open spec fn spec_account_metas(self) -> Seq<AccountMeta> {
        self.cmn.spec_account_metas()
            + seq![
            meta(self.registry, false, false),
            meta(self.lockup_program, false, false),
        ]
    }

    /// The account list, in order. Each account's own flags decide whether
    /// it signs; `is_signer` is not read.
    pub fn to_account_metas(&self, is_signer: Option<bool>) -> (v: Vec<AccountMeta>)
        ensures
            v@ == self.spec_account_metas(),
    {
        let mut v: Vec<AccountMeta> = Vec::new();
        let mut nested = self.cmn.to_account_metas(None);
        v.append(&mut nested);
        push_meta(&mut v, self.registry, false, false);
        push_meta(&mut v, self.lockup_program, false, false);
        assert(v@ =~= self.spec_account_metas());
        v
    }
}

/// The addresses of the accounts both reward claims take.
#[derive(Clone, Copy, Debug, PartialEq, Eq, Structural)]
pub struct ClaimRewardCommon {
    pub registrar: Pubkey,
    pub member: Pubkey,
    pub beneficiary: Pubkey,
    pub balances_spt: Pubkey,
    pub balances_locked_spt: Pubkey,
    pub vendor: Pubkey,
    pub vault: Pubkey,
    pub vendor_signer: Pubkey,
    pub token_program: Pubkey,
    pub clock: Pubkey,
}

impl ClaimRewardCommon {
    /// The account list, in order.
    pub open spec fn spec_account_metas(self) -> Seq<AccountMeta> {
        seq![
            meta(self.registrar, false, false),
            meta(self.member, false, true),
            meta(self.beneficiary, true, false),
            meta(self.balances_spt, false, false),
            meta(self.balances_locked_spt, false, false),
            meta(self.vendor, false, false),
            meta(self.vault, false, true),
            meta(self.vendor_signer, false, false),
            meta(self.token_program, false, false),
            meta(self.clock, false, false),
        ]
    }

    /// The account list, in order. Each account's own flags decide whether
    /// it signs; `is_signer` is not read.
    pub fn to_account_metas(&self, is_signer: Option<bool>) -> (v: Vec<AccountMeta>)
        ensures
            v@ == self.spec_account_metas(),
    {
        let mut v: Vec<AccountMeta> = Vec::new();
        push_meta(&mut v, self.registrar, false, false);
        push_meta(&mut v, self.member, false, true);
        push_meta(&mut v, self.beneficiary, true, false);
        push_meta(&mut v, self.balances_spt, false, false);
        push_meta(&mut v, self.balances_locked_spt, false, false);
        push_meta(&mut v, self.vendor, false, false);
        push_meta(&mut v, self.vault, false, true);
        push_meta(&mut v, self.vendor_signer, false, false);
        push_meta(&mut v, self.token_program, false, false);
        push_meta(&mut v, self.clock, false, false);
        assert(v@ =~= self.spec_account_metas());
        v
    }
}

/// The addresses of the accounts of `expire_reward`.
#[derive(Clone, Copy, Debug, PartialEq, Eq, Structural)]
pub struct ExpireReward {
    pub registrar: Pubkey,
    pub vendor: Pubkey,
    pub vault: Pubkey,
    pub vendor_signer: Pubkey,
    pub expiry_receiver: Pubkey,
    pub expiry_receiver_token: Pubkey,
    pub token_program: Pubkey,
    pub clock: Pubkey,
}

impl ExpireReward {
    /// The account list, in order.
    pub open spec fn spec_account_metas(self) -> Seq<AccountMeta> {
        seq![
            meta(self.registrar, false, false),
            meta(self.vendor, false, true),
            meta(self.vault, false, true),
            meta(self.vendor_signer, false, false),
            meta(self.expiry_receiver, true, false),
            meta(self.expiry_receiver_token, false, true),
            meta(self.token_program, false, false),
            meta(self.clock, false, false),
        ]
    }

    /// The account list, in order. Each account's own flags decide whether
    /// it signs; `is_signer` is not read.
    pub fn to_account_metas(&self, is_signer: Option<bool>) -> (v: Vec<AccountMeta>)
        ensures
            v@ == self.spec_account_metas(),
    {
        let mut v: Vec<AccountMeta> = Vec::new();
        push_meta(&mut v, self.registrar, false, false);
        push_meta(&mut v, self.vendor, false, true);
        push_meta(&mut v, self.vault, false, true);
        push_meta(&mut v, self.vendor_signer, false, false);
        push_meta(&mut v, self.expiry_receiver, true, false);
        push_meta(&mut v, self.expiry_receiver_token, false, true);
        push_meta(&mut v, self.token_program, false, false);
        push_meta(&mut v, self.clock, false, false);
        assert(v@ =~= self.spec_account_metas());
        v
    }
}

} // verus!

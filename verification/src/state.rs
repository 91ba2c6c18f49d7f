//! The accounts of the registry, as plain values.
use vstd::prelude::*;
use crate::pubkey::Pubkey;

verus! {

/// The singleton holding the lockup program that locked rewards vest in.
#[derive(Clone, Copy, Debug, PartialEq, Eq, Structural)]
pub struct Registry {
    pub lockup_program: Pubkey,
}

/// A staking pool: its authority, mints, reward queue and stake rate.
#[derive(Clone, Copy, Debug, PartialEq, Eq, Structural)]
pub struct Registrar {
    /// Priviledged account.
    pub authority: Pubkey,
    /// Nonce to derive the program-derived address owning the vaults.
    pub nonce: u8,
    /// Number of seconds that must pass for a withdrawal to complete.
    pub withdrawal_timelock: i64,
    /// Global event queue for reward vendoring.
    pub reward_event_q: Pubkey,
    /// Mint of the tokens that can be staked.
    pub mint: Pubkey,
    /// Staking pool token mint.
    pub pool_mint: Pubkey,
    /// The amount of tokens (not decimal) that must be staked to get a single
    /// staking pool token.
    pub stake_rate: u64,
}

/// The token accounts that hold one set of a member's funds.
#[derive(Clone, Copy, Debug, PartialEq, Eq, Structural)]
pub struct BalanceSandbox {
    /// Staking pool token.
    pub spt: Pubkey,
    /// Free balance (deposit) vault.
    pub vault: Pubkey,
    /// Stake vault.
    pub vault_stake: Pubkey,
    /// Pending withdrawal vault.
    pub vault_pw: Pubkey,
}

/// A staker of one registrar.
#[derive(Clone, Copy, Debug, PartialEq, Eq, Structural)]
pub struct Member {
    /// Registrar the member belongs to.
    pub registrar: Pubkey,
    /// The effective owner of the Member account.
    pub beneficiary: Pubkey,
    /// Arbitrary metadata account owned by any program.
    pub metadata: Pubkey,
    /// Sets of balances owned by the Member.
    pub balances: BalanceSandbox,
    /// Locked balances owned by the Member.
    pub balances_locked: BalanceSandbox,
    /// Next position in the rewards event queue to process.
    pub rewards_cursor: u32,
    /// The clock timestamp of the last time this account staked or switched
    /// entities. Used as a proof to reward vendors that the Member account
    /// was staked at a given point in time.
    pub last_stake_ts: i64,
    /// Signer nonce.
    pub nonce: u8,
}

/// An unstake in progress: tokens wait in the pending withdrawal vault until
/// `end_ts`.
#[derive(Clone, Copy, Debug, PartialEq, Eq, Structural)]
pub struct PendingWithdrawal {
    /// Registrar this account belongs to.
    pub registrar: Pubkey,
    /// Member this account belongs to.
    pub member: Pubkey,
    /// One time token. True if the withdrawal has been completed.
    pub burned: bool,
    /// The pool being withdrawn from.
    pub pool: Pubkey,
    /// Unix timestamp when this account was initialized.
    pub start_ts: i64,
    /// Timestamp when the pending withdrawal completes.
    pub end_ts: i64,
    /// The number of tokens redeemed from the staking pool.
    pub amount: u64,
    /// True if the withdrawal applies to locked balances.
    pub locked: bool,
}

/// One reward drop, as recorded in the reward queue.
#[derive(Clone, Copy, Debug, PartialEq, Eq, Structural)]
pub struct RewardEvent {
    pub vendor: Pubkey,
    pub ts: i64,
    pub locked: bool,
}

impl Default for RewardEvent {
    /// The empty event that fills a fresh queue.
    fn default() -> (e: RewardEvent)
        ensures
            e == RewardEvent::spec_default(),
    {
        RewardEvent { vendor: Pubkey { w0: 0, w1: 0, w2: 0, w3: 0 }, ts: 0, locked: false }
    }
}

impl RewardEvent {
    /// The empty event that fills a fresh queue.
    pub open spec fn spec_default() -> RewardEvent {
        RewardEvent { vendor: Pubkey { w0: 0, w1: 0, w2: 0, w3: 0 }, ts: 0, locked: false }
    }
}

/// Whether a reward is paid out directly or through a vesting schedule.
#[derive(Clone, Copy, Debug, PartialEq, Eq, Structural)]
pub enum RewardVendorKind {
    Unlocked,
    Locked { start_ts: i64, end_ts: i64, period_count: u64 },
}

/// Two reward kinds are equal exactly when both are unlocked, or both are
/// locked on the same schedule.
pub proof fn lemma_kind_eq(a: RewardVendorKind, b: RewardVendorKind)
    ensures
        (a == b) == match (a, b) {
            (RewardVendorKind::Unlocked, RewardVendorKind::Unlocked) => true,
            (
                RewardVendorKind::Locked { start_ts: s1, end_ts: e1, period_count: p1 },
                RewardVendorKind::Locked { start_ts: s2, end_ts: e2, period_count: p2 },
            ) => s1 == s2 && e1 == e2 && p1 == p2,
            _ => false,
        },
{
}

/// Compares two reward kinds: the same variant with the same schedule.
pub fn kinds_equal(a: &RewardVendorKind, b: &RewardVendorKind) -> (r: bool)
    ensures
        r == (*a == *b),
{
    *a == *b
}

/// A reward drop: its vault, its share basis and its expiry.
#[derive(Clone, Copy, Debug, PartialEq, Eq, Structural)]
pub struct RewardVendor {
    pub registrar: Pubkey,
    pub vault: Pubkey,
    pub mint: Pubkey,
    pub nonce: u8,
    pub pool_token_supply: u64,
    pub reward_event_q_cursor: u32,
    pub start_ts: i64,
    pub expiry_ts: i64,
    pub expiry_receiver: Pubkey,
    pub from: Pubkey,
    pub total: u64,
    pub expired: bool,
    pub kind: RewardVendorKind,
}

/// The program that decides when a vesting account's tokens are earned, and
/// the account it looks at.
#[derive(Clone, Copy, Debug, PartialEq, Eq, Structural)]
pub struct Realizor {
    /// Program to invoke to check a realization condition.
    pub program: Pubkey,
    /// Address of an arbitrary piece of metadata interpretable by the realizor
    /// program; for staking rewards, the `Member` account.
    pub metadata: Pubkey,
}

/// A vesting account of the lockup program, as far as the registry reads it.
#[derive(Clone, Copy, Debug, PartialEq, Eq, Structural)]
pub struct Vesting {
    /// The owner of this Vesting account.
    pub beneficiary: Pubkey,
    /// The mint of the SPL token locked up.
    pub mint: Pubkey,
    /// Address of the account's token vault.
    pub vault: Pubkey,
    /// The owner of the token account funding this account.
    pub grantor: Pubkey,
    /// The outstanding deposit backing this vesting account.
    pub outstanding: u64,
    /// The starting balance of this vesting account.
    pub start_balance: u64,
    /// The unix timestamp at which this vesting account was created.
    pub created_ts: i64,
    /// The time at which vesting begins.
    pub start_ts: i64,
    /// The time at which all tokens are vested.
    pub end_ts: i64,
    /// The number of times vesting will occur.
    pub period_count: u64,
    /// The amount of tokens in custody of whitelisted programs.
    pub whitelist_owned: u64,
    /// Signer nonce.
    pub nonce: u8,
    /// The program that determines when the locked account is realized.
    pub realizor: Option<Realizor>,
}

/// A token account, as far as the registry reads it.
#[derive(Clone, Copy, Debug, PartialEq, Eq, Structural)]
pub struct TokenAccount {
    pub mint: Pubkey,
    pub owner: Pubkey,
    pub amount: u64,
}

/// A token mint, as far as the registry reads it.
#[derive(Clone, Copy, Debug, PartialEq, Eq, Structural)]
pub struct Mint {
    pub mint_authority: Option<Pubkey>,
    pub supply: u64,
    pub decimals: u8,
}

} // verus!

//! The layout of the registry's account data: each account is an 8-byte
//! discriminator followed by its fields in order.
use vstd::prelude::*;
use crate::borsh::{
    enc_bool, enc_i64, enc_opt_i64, enc_opt_pubkey, enc_pubkey, enc_u32, enc_u64, enc_u8,
    get_bool, get_i64, get_opt_i64, get_opt_pubkey, get_pubkey, get_u32, get_u64, get_u8,
    lemma_enc_lens, lemma_lies_at_split, lemma_read_bool, lemma_read_i64, lemma_read_opt_i64,
    lemma_read_opt_pubkey, lemma_read_pubkey, lemma_read_u32, lemma_read_u64, lemma_read_u8,
    lies_at, put_bool, put_i64, put_opt_i64, put_opt_pubkey, put_pubkey, put_u32, put_u64,
    put_u8, read_bool, read_i64, read_opt_i64, read_opt_pubkey, read_pubkey, read_u32, read_u64,
    read_u8,
};
use crate::error::{Error, FrameworkError};
use crate::realizor::MemberData;
use crate::state::{
    BalanceSandbox, Member, PendingWithdrawal, Realizor, Registrar, Registry, RewardEvent,
    RewardVendor, RewardVendorKind, Vesting,
};

verus! {


/// The layout of a set of balance accounts.
pub open spec fn enc_balance_sandbox(x: BalanceSandbox) -> Seq<u8> {
    enc_pubkey(x.spt) + enc_pubkey(x.vault) + enc_pubkey(x.vault_stake) + enc_pubkey(x.vault_pw)
}

/// Reads a set of balance accounts at position `p`.
pub open spec fn read_balance_sandbox(d: Seq<u8>, p: int) -> Option<(BalanceSandbox, int)> {
    match read_pubkey(d, p) {
        None => None,
        Some((v1, p1)) =>
        match read_pubkey(d, p1) {
            None => None,
            Some((v2, p2)) =>
            match read_pubkey(d, p2) {
                None => None,
                Some((v3, p3)) =>
                match read_pubkey(d, p3) {
                    None => None,
                    Some((v4, p4)) =>
                        Some((BalanceSandbox { spt: v1, vault: v2, vault_stake: v3, vault_pw: v4 }, p4)),
                }
            }
        }
    }
}

/// Reads a set of balance accounts at position `p`.
pub fn get_balance_sandbox(d: &[u8], p: usize) -> (r: Option<(BalanceSandbox, usize)>)
    ensures
        (match r {
            Some((x, q)) => Some((x, q as int)),
            None => None,
        }) == read_balance_sandbox(d@, p as int),
{
    let (v1, p1) = match get_pubkey(d, p) {
        Some(v) => v,
        None => { return None; },
    };
    let (v2, p2) = match get_pubkey(d, p1) {
        Some(v) => v,
        None => { return None; },
    };
    let (v3, p3) = match get_pubkey(d, p2) {
        Some(v) => v,
        None => { return None; },
    };
    let (v4, p4) = match get_pubkey(d, p3) {
        Some(v) => v,
        None => { return None; },
    };
    Some((BalanceSandbox { spt: v1, vault: v2, vault_stake: v3, vault_pw: v4 }, p4))
}

/// Appends the bytes of a set of balance accounts.
pub fn put_balance_sandbox(out: &mut Vec<u8>, x: &BalanceSandbox)
    ensures
        final(out)@ == old(out)@ + enc_balance_sandbox(*x),
{
    let ghost start = out@;
    put_pubkey(out, &x.spt);
    put_pubkey(out, &x.vault);
    put_pubkey(out, &x.vault_stake);
    put_pubkey(out, &x.vault_pw);
    assert(out@ =~= start + enc_balance_sandbox(*x));
}

/// Reading a set of balance accounts back gives what was written.
pub proof fn lemma_read_balance_sandbox(d: Seq<u8>, p: int, x: BalanceSandbox)
    requires
        lies_at(d, p, enc_balance_sandbox(x)),
    ensures
        read_balance_sandbox(d, p) == Some((x, p + enc_balance_sandbox(x).len())),
{
    lemma_enc_lens();
    lemma_lies_at_split(d, p, enc_pubkey(x.spt) + enc_pubkey(x.vault) + enc_pubkey(x.vault_stake), enc_pubkey(x.vault_pw));
    lemma_lies_at_split(d, p, enc_pubkey(x.spt) + enc_pubkey(x.vault), enc_pubkey(x.vault_stake));
    lemma_lies_at_split(d, p, enc_pubkey(x.spt), enc_pubkey(x.vault));
    lemma_read_pubkey(d, p, x.spt);
    lemma_read_pubkey(d, p + (enc_pubkey(x.spt)).len(), x.vault);
    lemma_read_pubkey(d, p + (enc_pubkey(x.spt) + enc_pubkey(x.vault)).len(), x.vault_stake);
    lemma_read_pubkey(d, p + (enc_pubkey(x.spt) + enc_pubkey(x.vault) + enc_pubkey(x.vault_stake)).len(), x.vault_pw);
}

/// The layout of the registry.
pub open spec fn enc_registry(x: Registry) -> Seq<u8> {
    enc_pubkey(x.lockup_program)
}

/// Reads the registry at position `p`.
pub open spec fn read_registry(d: Seq<u8>, p: int) -> Option<(Registry, int)> {
    match read_pubkey(d, p) {
        None => None,
        Some((v1, p1)) =>
            Some((Registry { lockup_program: v1 }, p1)),
    }
}

/// Reads the registry at position `p`.
pub fn get_registry(d: &[u8], p: usize) -> (r: Option<(Registry, usize)>)
    ensures
        (match r {
            Some((x, q)) => Some((x, q as int)),
            None => None,
        }) == read_registry(d@, p as int),
{
    let (v1, p1) = match get_pubkey(d, p) {
        Some(v) => v,
        None => { return None; },
    };
    Some((Registry { lockup_program: v1 }, p1))
}

/// Appends the bytes of the registry.
pub fn put_registry(out: &mut Vec<u8>, x: &Registry)
    ensures
        final(out)@ == old(out)@ + enc_registry(*x),
{
    let ghost start = out@;
    put_pubkey(out, &x.lockup_program);
    assert(out@ =~= start + enc_registry(*x));
}

/// Reading the registry back gives what was written.
pub proof fn lemma_read_registry(d: Seq<u8>, p: int, x: Registry)
    requires
        lies_at(d, p, enc_registry(x)),
    ensures
        read_registry(d, p) == Some((x, p + enc_registry(x).len())),
{
    lemma_enc_lens();
    lemma_read_pubkey(d, p, x.lockup_program);
}

/// The layout of a registrar.
pub open spec fn enc_registrar(x: Registrar) -> Seq<u8> {
    enc_pubkey(x.authority) + enc_u8(x.nonce) + enc_i64(x.withdrawal_timelock) + enc_pubkey(x.reward_event_q) + enc_pubkey(x.mint) + enc_pubkey(x.pool_mint) + enc_u64(x.stake_rate)
}

/// Reads a registrar at position `p`.
pub open spec fn read_registrar(d: Seq<u8>, p: int) -> Option<(Registrar, int)> {
    match read_pubkey(d, p) {
        None => None,
        Some((v1, p1)) =>
        match read_u8(d, p1) {
            None => None,
            Some((v2, p2)) =>
            match read_i64(d, p2) {
                None => None,
                Some((v3, p3)) =>
                match read_pubkey(d, p3) {
                    None => None,
                    Some((v4, p4)) =>
                    match read_pubkey(d, p4) {
                        None => None,
                        Some((v5, p5)) =>
                        match read_pubkey(d, p5) {
                            None => None,
                            Some((v6, p6)) =>
                            match read_u64(d, p6) {
                                None => None,
                                Some((v7, p7)) =>
                                    Some((Registrar { authority: v1, nonce: v2, withdrawal_timelock: v3, reward_event_q: v4, mint: v5, pool_mint: v6, stake_rate: v7 }, p7)),
                            }
                        }
                    }
                }
            }
        }
    }
}

/// Reads a registrar at position `p`.
pub fn get_registrar(d: &[u8], p: usize) -> (r: Option<(Registrar, usize)>)
    ensures
        (match r {
            Some((x, q)) => Some((x, q as int)),
            None => None,
        }) == read_registrar(d@, p as int),
{
    let (v1, p1) = match get_pubkey(d, p) {
        Some(v) => v,
        None => { return None; },
    };
    let (v2, p2) = match get_u8(d, p1) {
        Some(v) => v,
        None => { return None; },
    };
    let (v3, p3) = match get_i64(d, p2) {
        Some(v) => v,
        None => { return None; },
    };
    let (v4, p4) = match get_pubkey(d, p3) {
        Some(v) => v,
        None => { return None; },
    };
    let (v5, p5) = match get_pubkey(d, p4) {
        Some(v) => v,
        None => { return None; },
    };
    let (v6, p6) = match get_pubkey(d, p5) {
        Some(v) => v,
        None => { return None; },
    };
    let (v7, p7) = match get_u64(d, p6) {
        Some(v) => v,
        None => { return None; },
    };
    Some((Registrar { authority: v1, nonce: v2, withdrawal_timelock: v3, reward_event_q: v4, mint: v5, pool_mint: v6, stake_rate: v7 }, p7))
}

/// Appends the bytes of a registrar.
pub fn put_registrar(out: &mut Vec<u8>, x: &Registrar)
    ensures
        final(out)@ == old(out)@ + enc_registrar(*x),
{
    let ghost start = out@;
    put_pubkey(out, &x.authority);
    put_u8(out, x.nonce);
    put_i64(out, x.withdrawal_timelock);
    put_pubkey(out, &x.reward_event_q);
    put_pubkey(out, &x.mint);
    put_pubkey(out, &x.pool_mint);
    put_u64(out, x.stake_rate);
    assert(out@ =~= start + enc_registrar(*x));
}

/// Reading a registrar back gives what was written.
pub proof fn lemma_read_registrar(d: Seq<u8>, p: int, x: Registrar)
    requires
        lies_at(d, p, enc_registrar(x)),
    ensures
        read_registrar(d, p) == Some((x, p + enc_registrar(x).len())),
{
    lemma_enc_lens();
    lemma_lies_at_split(d, p, enc_pubkey(x.authority) + enc_u8(x.nonce) + enc_i64(x.withdrawal_timelock) + enc_pubkey(x.reward_event_q) + enc_pubkey(x.mint) + enc_pubkey(x.pool_mint), enc_u64(x.stake_rate));
    lemma_lies_at_split(d, p, enc_pubkey(x.authority) + enc_u8(x.nonce) + enc_i64(x.withdrawal_timelock) + enc_pubkey(x.reward_event_q) + enc_pubkey(x.mint), enc_pubkey(x.pool_mint));
    lemma_lies_at_split(d, p, enc_pubkey(x.authority) + enc_u8(x.nonce) + enc_i64(x.withdrawal_timelock) + enc_pubkey(x.reward_event_q), enc_pubkey(x.mint));
    lemma_lies_at_split(d, p, enc_pubkey(x.authority) + enc_u8(x.nonce) + enc_i64(x.withdrawal_timelock), enc_pubkey(x.reward_event_q));
    lemma_lies_at_split(d, p, enc_pubkey(x.authority) + enc_u8(x.nonce), enc_i64(x.withdrawal_timelock));
    lemma_lies_at_split(d, p, enc_pubkey(x.authority), enc_u8(x.nonce));
    lemma_read_pubkey(d, p, x.authority);
    lemma_read_u8(d, p + (enc_pubkey(x.authority)).len(), x.nonce);
    lemma_read_i64(d, p + (enc_pubkey(x.authority) + enc_u8(x.nonce)).len(), x.withdrawal_timelock);
    lemma_read_pubkey(d, p + (enc_pubkey(x.authority) + enc_u8(x.nonce) + enc_i64(x.withdrawal_timelock)).len(), x.reward_event_q);
    lemma_read_pubkey(d, p + (enc_pubkey(x.authority) + enc_u8(x.nonce) + enc_i64(x.withdrawal_timelock) + enc_pubkey(x.reward_event_q)).len(), x.mint);
    lemma_read_pubkey(d, p + (enc_pubkey(x.authority) + enc_u8(x.nonce) + enc_i64(x.withdrawal_timelock) + enc_pubkey(x.reward_event_q) + enc_pubkey(x.mint)).len(), x.pool_mint);
    lemma_read_u64(d, p + (enc_pubkey(x.authority) + enc_u8(x.nonce) + enc_i64(x.withdrawal_timelock) + enc_pubkey(x.reward_event_q) + enc_pubkey(x.mint) + enc_pubkey(x.pool_mint)).len(), x.stake_rate);
}

/// The layout of a member.
pub open spec fn enc_member(x: Member) -> Seq<u8> {
    enc_pubkey(x.registrar) + enc_pubkey(x.beneficiary) + enc_pubkey(x.metadata) + enc_balance_sandbox(x.balances) + enc_balance_sandbox(x.balances_locked) + enc_u32(x.rewards_cursor) + enc_i64(x.last_stake_ts) + enc_u8(x.nonce)
}

/// Reads a member at position `p`.
pub open spec fn read_member(d: Seq<u8>, p: int) -> Option<(Member, int)> {
    match read_pubkey(d, p) {
        None => None,
        Some((v1, p1)) =>
        match read_pubkey(d, p1) {
            None => None,
            Some((v2, p2)) =>
            match read_pubkey(d, p2) {
                None => None,
                Some((v3, p3)) =>
                match read_balance_sandbox(d, p3) {
                    None => None,
                    Some((v4, p4)) =>
                    match read_balance_sandbox(d, p4) {
                        None => None,
                        Some((v5, p5)) =>
                        match read_u32(d, p5) {
                            None => None,
                            Some((v6, p6)) =>
                            match read_i64(d, p6) {
                                None => None,
                                Some((v7, p7)) =>
                                match read_u8(d, p7) {
                                    None => None,
                                    Some((v8, p8)) =>
                                        Some((Member { registrar: v1, beneficiary: v2, metadata: v3, balances: v4, balances_locked: v5, rewards_cursor: v6, last_stake_ts: v7, nonce: v8 }, p8)),
                                }
                            }
                        }
                    }
                }
            }
        }
    }
}

/// Reads a member at position `p`.
pub fn get_member(d: &[u8], p: usize) -> (r: Option<(Member, usize)>)
    ensures
        (match r {
            Some((x, q)) => Some((x, q as int)),
            None => None,
        }) == read_member(d@, p as int),
{
    let (v1, p1) = match get_pubkey(d, p) {
        Some(v) => v,
        None => { return None; },
    };
    let (v2, p2) = match get_pubkey(d, p1) {
        Some(v) => v,
        None => { return None; },
    };
    let (v3, p3) = match get_pubkey(d, p2) {
        Some(v) => v,
        None => { return None; },
    };
    let (v4, p4) = match get_balance_sandbox(d, p3) {
        Some(v) => v,
        None => { return None; },
    };
    let (v5, p5) = match get_balance_sandbox(d, p4) {
        Some(v) => v,
        None => { return None; },
    };
    let (v6, p6) = match get_u32(d, p5) {
        Some(v) => v,
        None => { return None; },
    };
    let (v7, p7) = match get_i64(d, p6) {
        Some(v) => v,
        None => { return None; },
    };
    let (v8, p8) = match get_u8(d, p7) {
        Some(v) => v,
        None => { return None; },
    };
    Some((Member { registrar: v1, beneficiary: v2, metadata: v3, balances: v4, balances_locked: v5, rewards_cursor: v6, last_stake_ts: v7, nonce: v8 }, p8))
}

/// Appends the bytes of a member.
pub fn put_member(out: &mut Vec<u8>, x: &Member)
    ensures
        final(out)@ == old(out)@ + enc_member(*x),
{
    let ghost start = out@;
    put_pubkey(out, &x.registrar);
    put_pubkey(out, &x.beneficiary);
    put_pubkey(out, &x.metadata);
    put_balance_sandbox(out, &x.balances);
    put_balance_sandbox(out, &x.balances_locked);
    put_u32(out, x.rewards_cursor);
    put_i64(out, x.last_stake_ts);
    put_u8(out, x.nonce);
    assert(out@ =~= start + enc_member(*x));
}

/// Reading a member back gives what was written.
pub proof fn lemma_read_member(d: Seq<u8>, p: int, x: Member)
    requires
        lies_at(d, p, enc_member(x)),
    ensures
        read_member(d, p) == Some((x, p + enc_member(x).len())),
{
    lemma_enc_lens();
    lemma_lies_at_split(d, p, enc_pubkey(x.registrar) + enc_pubkey(x.beneficiary) + enc_pubkey(x.metadata) + enc_balance_sandbox(x.balances) + enc_balance_sandbox(x.balances_locked) + enc_u32(x.rewards_cursor) + enc_i64(x.last_stake_ts), enc_u8(x.nonce));
    lemma_lies_at_split(d, p, enc_pubkey(x.registrar) + enc_pubkey(x.beneficiary) + enc_pubkey(x.metadata) + enc_balance_sandbox(x.balances) + enc_balance_sandbox(x.balances_locked) + enc_u32(x.rewards_cursor), enc_i64(x.last_stake_ts));
    lemma_lies_at_split(d, p, enc_pubkey(x.registrar) + enc_pubkey(x.beneficiary) + enc_pubkey(x.metadata) + enc_balance_sandbox(x.balances) + enc_balance_sandbox(x.balances_locked), enc_u32(x.rewards_cursor));
    lemma_lies_at_split(d, p, enc_pubkey(x.registrar) + enc_pubkey(x.beneficiary) + enc_pubkey(x.metadata) + enc_balance_sandbox(x.balances), enc_balance_sandbox(x.balances_locked));
    lemma_lies_at_split(d, p, enc_pubkey(x.registrar) + enc_pubkey(x.beneficiary) + enc_pubkey(x.metadata), enc_balance_sandbox(x.balances));
    lemma_lies_at_split(d, p, enc_pubkey(x.registrar) + enc_pubkey(x.beneficiary), enc_pubkey(x.metadata));
    lemma_lies_at_split(d, p, enc_pubkey(x.registrar), enc_pubkey(x.beneficiary));
    lemma_read_pubkey(d, p, x.registrar);
    lemma_read_pubkey(d, p + (enc_pubkey(x.registrar)).len(), x.beneficiary);
    lemma_read_pubkey(d, p + (enc_pubkey(x.registrar) + enc_pubkey(x.beneficiary)).len(), x.metadata);
    lemma_read_balance_sandbox(d, p + (enc_pubkey(x.registrar) + enc_pubkey(x.beneficiary) + enc_pubkey(x.metadata)).len(), x.balances);
    lemma_read_balance_sandbox(d, p + (enc_pubkey(x.registrar) + enc_pubkey(x.beneficiary) + enc_pubkey(x.metadata) + enc_balance_sandbox(x.balances)).len(), x.balances_locked);
    lemma_read_u32(d, p + (enc_pubkey(x.registrar) + enc_pubkey(x.beneficiary) + enc_pubkey(x.metadata) + enc_balance_sandbox(x.balances) + enc_balance_sandbox(x.balances_locked)).len(), x.rewards_cursor);
    lemma_read_i64(d, p + (enc_pubkey(x.registrar) + enc_pubkey(x.beneficiary) + enc_pubkey(x.metadata) + enc_balance_sandbox(x.balances) + enc_balance_sandbox(x.balances_locked) + enc_u32(x.rewards_cursor)).len(), x.last_stake_ts);
    lemma_read_u8(d, p + (enc_pubkey(x.registrar) + enc_pubkey(x.beneficiary) + enc_pubkey(x.metadata) + enc_balance_sandbox(x.balances) + enc_balance_sandbox(x.balances_locked) + enc_u32(x.rewards_cursor) + enc_i64(x.last_stake_ts)).len(), x.nonce);
}

/// The layout of a pending withdrawal.
pub open spec fn enc_pending_withdrawal(x: PendingWithdrawal) -> Seq<u8> {
    enc_pubkey(x.registrar) + enc_pubkey(x.member) + enc_bool(x.burned) + enc_pubkey(x.pool) + enc_i64(x.start_ts) + enc_i64(x.end_ts) + enc_u64(x.amount) + enc_bool(x.locked)
}

/// Reads a pending withdrawal at position `p`.
pub open spec fn read_pending_withdrawal(d: Seq<u8>, p: int) -> Option<(PendingWithdrawal, int)> {
    match read_pubkey(d, p) {
        None => None,
        Some((v1, p1)) =>
        match read_pubkey(d, p1) {
            None => None,
            Some((v2, p2)) =>
            match read_bool(d, p2) {
                None => None,
                Some((v3, p3)) =>
                match read_pubkey(d, p3) {
                    None => None,
                    Some((v4, p4)) =>
                    match read_i64(d, p4) {
                        None => None,
                        Some((v5, p5)) =>
                        match read_i64(d, p5) {
                            None => None,
                            Some((v6, p6)) =>
                            match read_u64(d, p6) {
                                None => None,
                                Some((v7, p7)) =>
                                match read_bool(d, p7) {
                                    None => None,
                                    Some((v8, p8)) =>
                                        Some((PendingWithdrawal { registrar: v1, member: v2, burned: v3, pool: v4, start_ts: v5, end_ts: v6, amount: v7, locked: v8 }, p8)),
                                }
                            }
                        }
                    }
                }
            }
        }
    }
}

/// Reads a pending withdrawal at position `p`.
pub fn get_pending_withdrawal(d: &[u8], p: usize) -> (r: Option<(PendingWithdrawal, usize)>)
    ensures
        (match r {
            Some((x, q)) => Some((x, q as int)),
            None => None,
        }) == read_pending_withdrawal(d@, p as int),
{
    let (v1, p1) = match get_pubkey(d, p) {
        Some(v) => v,
        None => { return None; },
    };
    let (v2, p2) = match get_pubkey(d, p1) {
        Some(v) => v,
        None => { return None; },
    };
    let (v3, p3) = match get_bool(d, p2) {
        Some(v) => v,
        None => { return None; },
    };
    let (v4, p4) = match get_pubkey(d, p3) {
        Some(v) => v,
        None => { return None; },
    };
    let (v5, p5) = match get_i64(d, p4) {
        Some(v) => v,
        None => { return None; },
    };
    let (v6, p6) = match get_i64(d, p5) {
        Some(v) => v,
        None => { return None; },
    };
    let (v7, p7) = match get_u64(d, p6) {
        Some(v) => v,
        None => { return None; },
    };
    let (v8, p8) = match get_bool(d, p7) {
        Some(v) => v,
        None => { return None; },
    };
    Some((PendingWithdrawal { registrar: v1, member: v2, burned: v3, pool: v4, start_ts: v5, end_ts: v6, amount: v7, locked: v8 }, p8))
}

/// Appends the bytes of a pending withdrawal.
pub fn put_pending_withdrawal(out: &mut Vec<u8>, x: &PendingWithdrawal)
    ensures
        final(out)@ == old(out)@ + enc_pending_withdrawal(*x),
{
    let ghost start = out@;
    put_pubkey(out, &x.registrar);
    put_pubkey(out, &x.member);
    put_bool(out, x.burned);
    put_pubkey(out, &x.pool);
    put_i64(out, x.start_ts);
    put_i64(out, x.end_ts);
    put_u64(out, x.amount);
    put_bool(out, x.locked);
    assert(out@ =~= start + enc_pending_withdrawal(*x));
}

/// Reading a pending withdrawal back gives what was written.
pub proof fn lemma_read_pending_withdrawal(d: Seq<u8>, p: int, x: PendingWithdrawal)
    requires
        lies_at(d, p, enc_pending_withdrawal(x)),
    ensures
        read_pending_withdrawal(d, p) == Some((x, p + enc_pending_withdrawal(x).len())),
{
    lemma_enc_lens();
    lemma_lies_at_split(d, p, enc_pubkey(x.registrar) + enc_pubkey(x.member) + enc_bool(x.burned) + enc_pubkey(x.pool) + enc_i64(x.start_ts) + enc_i64(x.end_ts) + enc_u64(x.amount), enc_bool(x.locked));
    lemma_lies_at_split(d, p, enc_pubkey(x.registrar) + enc_pubkey(x.member) + enc_bool(x.burned) + enc_pubkey(x.pool) + enc_i64(x.start_ts) + enc_i64(x.end_ts), enc_u64(x.amount));
    lemma_lies_at_split(d, p, enc_pubkey(x.registrar) + enc_pubkey(x.member) + enc_bool(x.burned) + enc_pubkey(x.pool) + enc_i64(x.start_ts), enc_i64(x.end_ts));
    lemma_lies_at_split(d, p, enc_pubkey(x.registrar) + enc_pubkey(x.member) + enc_bool(x.burned) + enc_pubkey(x.pool), enc_i64(x.start_ts));
    lemma_lies_at_split(d, p, enc_pubkey(x.registrar) + enc_pubkey(x.member) + enc_bool(x.burned), enc_pubkey(x.pool));
    lemma_lies_at_split(d, p, enc_pubkey(x.registrar) + enc_pubkey(x.member), enc_bool(x.burned));
    lemma_lies_at_split(d, p, enc_pubkey(x.registrar), enc_pubkey(x.member));
    lemma_read_pubkey(d, p, x.registrar);
    lemma_read_pubkey(d, p + (enc_pubkey(x.registrar)).len(), x.member);
    lemma_read_bool(d, p + (enc_pubkey(x.registrar) + enc_pubkey(x.member)).len(), x.burned);
    lemma_read_pubkey(d, p + (enc_pubkey(x.registrar) + enc_pubkey(x.member) + enc_bool(x.burned)).len(), x.pool);
    lemma_read_i64(d, p + (enc_pubkey(x.registrar) + enc_pubkey(x.member) + enc_bool(x.burned) + enc_pubkey(x.pool)).len(), x.start_ts);
    lemma_read_i64(d, p + (enc_pubkey(x.registrar) + enc_pubkey(x.member) + enc_bool(x.burned) + enc_pubkey(x.pool) + enc_i64(x.start_ts)).len(), x.end_ts);
    lemma_read_u64(d, p + (enc_pubkey(x.registrar) + enc_pubkey(x.member) + enc_bool(x.burned) + enc_pubkey(x.pool) + enc_i64(x.start_ts) + enc_i64(x.end_ts)).len(), x.amount);
    lemma_read_bool(d, p + (enc_pubkey(x.registrar) + enc_pubkey(x.member) + enc_bool(x.burned) + enc_pubkey(x.pool) + enc_i64(x.start_ts) + enc_i64(x.end_ts) + enc_u64(x.amount)).len(), x.locked);
}

/// The layout of a reward event.
pub open spec fn enc_reward_event(x: RewardEvent) -> Seq<u8> {
    enc_pubkey(x.vendor) + enc_i64(x.ts) + enc_bool(x.locked)
}

/// Reads a reward event at position `p`.
pub open spec fn read_reward_event(d: Seq<u8>, p: int) -> Option<(RewardEvent, int)> {
    match read_pubkey(d, p) {
        None => None,
        Some((v1, p1)) =>
        match read_i64(d, p1) {
            None => None,
            Some((v2, p2)) =>
            match read_bool(d, p2) {
                None => None,
                Some((v3, p3)) =>
                    Some((RewardEvent { vendor: v1, ts: v2, locked: v3 }, p3)),
            }
        }
    }
}

/// Reads a reward event at position `p`.
pub fn get_reward_event(d: &[u8], p: usize) -> (r: Option<(RewardEvent, usize)>)
    ensures
        (match r {
            Some((x, q)) => Some((x, q as int)),
            None => None,
        }) == read_reward_event(d@, p as int),
{
    let (v1, p1) = match get_pubkey(d, p) {
        Some(v) => v,
        None => { return None; },
    };
    let (v2, p2) = match get_i64(d, p1) {
        Some(v) => v,
        None => { return None; },
    };
    let (v3, p3) = match get_bool(d, p2) {
        Some(v) => v,
        None => { return None; },
    };
    Some((RewardEvent { vendor: v1, ts: v2, locked: v3 }, p3))
}

/// Appends the bytes of a reward event.
pub fn put_reward_event(out: &mut Vec<u8>, x: &RewardEvent)
    ensures
        final(out)@ == old(out)@ + enc_reward_event(*x),
{
    let ghost start = out@;
    put_pubkey(out, &x.vendor);
    put_i64(out, x.ts);
    put_bool(out, x.locked);
    assert(out@ =~= start + enc_reward_event(*x));
}

/// Reading a reward event back gives what was written.
pub proof fn lemma_read_reward_event(d: Seq<u8>, p: int, x: RewardEvent)
    requires
        lies_at(d, p, enc_reward_event(x)),
    ensures
        read_reward_event(d, p) == Some((x, p + enc_reward_event(x).len())),
{
    lemma_enc_lens();
    lemma_lies_at_split(d, p, enc_pubkey(x.vendor) + enc_i64(x.ts), enc_bool(x.locked));
    lemma_lies_at_split(d, p, enc_pubkey(x.vendor), enc_i64(x.ts));
    lemma_read_pubkey(d, p, x.vendor);
    lemma_read_i64(d, p + (enc_pubkey(x.vendor)).len(), x.ts);
    lemma_read_bool(d, p + (enc_pubkey(x.vendor) + enc_i64(x.ts)).len(), x.locked);
}

/// The layout of a reward kind: a tag byte, then a locked kind's schedule.
pub open spec fn enc_kind(k: RewardVendorKind) -> Seq<u8> {
    match k {
        RewardVendorKind::Unlocked => seq![0u8],
        RewardVendorKind::Locked { start_ts, end_ts, period_count } => seq![1u8] + enc_i64(start_ts)
            + enc_i64(end_ts) + enc_u64(period_count),
    }
}

/// Reads a reward kind at position `p`.
pub open spec fn read_kind(d: Seq<u8>, p: int) -> Option<(RewardVendorKind, int)> {
    match read_u8(d, p) {
        None => None,
        Some((t, q)) => if t == 0 {
            Some((RewardVendorKind::Unlocked, q))
        } else if t == 1 {
            match read_i64(d, q) {
                None => None,
                Some((s, q1)) => match read_i64(d, q1) {
                    None => None,
                    Some((e, q2)) => match read_u64(d, q2) {
                        None => None,
                        Some((c, q3)) => Some((RewardVendorKind::Locked { start_ts: s, end_ts: e, period_count: c }, q3)),
                    },
                },
            }
        } else {
            None
        },
    }
}

/// Reads a reward kind at position `p`.
pub fn get_kind(d: &[u8], p: usize) -> (r: Option<(RewardVendorKind, usize)>)
    ensures
        (match r {
            Some((x, q)) => Some((x, q as int)),
            None => None,
        }) == read_kind(d@, p as int),
{
    let (t, q) = match get_u8(d, p) {
        Some(v) => v,
        None => { return None; },
    };
    if t == 0 {
        Some((RewardVendorKind::Unlocked, q))
    } else if t == 1 {
        let (s, q1) = match get_i64(d, q) {
            Some(v) => v,
            None => { return None; },
        };
        let (e, q2) = match get_i64(d, q1) {
            Some(v) => v,
            None => { return None; },
        };
        let (c, q3) = match get_u64(d, q2) {
            Some(v) => v,
            None => { return None; },
        };
        Some((RewardVendorKind::Locked { start_ts: s, end_ts: e, period_count: c }, q3))
    } else {
        None
    }
}

/// Why a reward kind does not read: the bytes end too early, or the tag
/// byte names no variant (the index it gives is kept). Both are errors of
/// invalid input.
#[derive(Clone, Copy, Debug, PartialEq, Eq, Structural)]
pub enum KindReadError {
    UnexpectedEnd,
    UnexpectedVariant(u8),
}

/// The decimal digits of a number, most significant first, in ASCII.
pub open spec fn spec_decimal(n: nat) -> Seq<u8>
    decreases n,
{
    if n < 10 {
        seq![(48 + n) as u8]
    } else {
        spec_decimal(n / 10) + seq![(48 + n % 10) as u8]
    }
}

fn decimal(n: u8) -> (v: Vec<u8>)
    ensures
        v@ == spec_decimal(n as nat),
{
    let mut v: Vec<u8> = Vec::new();
    if n >= 100 {
        v.push(48 + n / 100);
        v.push(48 + (n / 10) % 10);
        assert(spec_decimal((n / 10) as nat) == spec_decimal((n / 100) as nat) + seq![(48 + (n / 10) % 10) as u8]);
    } else if n >= 10 {
        v.push(48 + n / 10);
    }
    v.push(48 + n % 10);
    proof {
        reveal_with_fuel(spec_decimal, 3);
    }
    assert(v@ =~= spec_decimal(n as nat));
    v
}

impl KindReadError {
    /// The text of the error, in ASCII.
    pub open spec fn spec_message(self) -> Seq<u8> {
        match self {
            KindReadError::UnexpectedEnd => seq![85u8, 110u8, 101u8, 120u8, 112u8, 101u8, 99u8, 116u8, 101u8, 100u8, 32u8, 108u8, 101u8, 110u8, 103u8, 116u8, 104u8, 32u8, 111u8, 102u8, 32u8, 105u8, 110u8, 112u8, 117u8, 116u8],
            KindReadError::UnexpectedVariant(t) => seq![85u8, 110u8, 101u8, 120u8, 112u8, 101u8, 99u8, 116u8, 101u8, 100u8, 32u8, 118u8, 97u8, 114u8, 105u8, 97u8, 110u8, 116u8, 32u8, 105u8, 110u8, 100u8, 101u8, 120u8, 58u8, 32u8] + spec_decimal(t as nat),
        }
    }

    /// The text of the error, in ASCII: "Unexpected variant index: " and the
    /// index in decimal, or "Unexpected length of input".
    pub fn message(&self) -> (m: Vec<u8>)
        ensures
            m@ == self.spec_message(),
    {
        match self {
            KindReadError::UnexpectedEnd => {
                let m = vec![85u8, 110u8, 101u8, 120u8, 112u8, 101u8, 99u8, 116u8, 101u8, 100u8, 32u8, 108u8, 101u8, 110u8, 103u8, 116u8, 104u8, 32u8, 111u8, 102u8, 32u8, 105u8, 110u8, 112u8, 117u8, 116u8];
                assert(m@ =~= self.spec_message());
                m
            },
            KindReadError::UnexpectedVariant(t) => {
                let mut m = vec![85u8, 110u8, 101u8, 120u8, 112u8, 101u8, 99u8, 116u8, 101u8, 100u8, 32u8, 118u8, 97u8, 114u8, 105u8, 97u8, 110u8, 116u8, 32u8, 105u8, 110u8, 100u8, 101u8, 120u8, 58u8, 32u8];
                let mut digits = decimal(*t);
                m.append(&mut digits);
                assert(m@ =~= self.spec_message());
                m
            },
        }
    }
}

/// The outcome of reading a reward kind at position `p`, with the reason
/// when it does not read.
pub open spec fn spec_deserialize_kind(d: Seq<u8>, p: int) -> Result<(RewardVendorKind, int), KindReadError> {
    match read_kind(d, p) {
        Some(v) => Ok(v),
        None => match read_u8(d, p) {
            Some((t, _)) => if t > 1 {
                Err(KindReadError::UnexpectedVariant(t))
            } else {
                Err(KindReadError::UnexpectedEnd)
            },
            None => Err(KindReadError::UnexpectedEnd),
        },
    }
}

/// Reads a reward kind at position `p`, saying why when it does not read:
/// a tag byte other than 0 or 1 is an unexpected variant index.
pub fn deserialize_kind(d: &[u8], p: usize) -> (r: Result<(RewardVendorKind, usize), KindReadError>)
    ensures
        (match r {
            Ok((x, q)) => Ok((x, q as int)),
            Err(e) => Err(e),
        }) == spec_deserialize_kind(d@, p as int),
{
    match get_kind(d, p) {
        Some(v) => Ok(v),
        None => match get_u8(d, p) {
            Some((t, _)) => if t > 1 {
                Err(KindReadError::UnexpectedVariant(t))
            } else {
                Err(KindReadError::UnexpectedEnd)
            },
            None => Err(KindReadError::UnexpectedEnd),
        },
    }
}

/// Appends the bytes of a reward kind.
pub fn put_kind(out: &mut Vec<u8>, k: &RewardVendorKind)
    ensures
        final(out)@ == old(out)@ + enc_kind(*k),
{
    let ghost start = out@;
    match k {
        RewardVendorKind::Unlocked => put_u8(out, 0),
        RewardVendorKind::Locked { start_ts, end_ts, period_count } => {
            put_u8(out, 1);
            put_i64(out, *start_ts);
            put_i64(out, *end_ts);
            put_u64(out, *period_count);
            assert(out@ =~= start + enc_kind(*k));
        },
    }
}

/// Reading a reward kind back gives what was written.
pub proof fn lemma_read_kind(d: Seq<u8>, p: int, k: RewardVendorKind)
    requires
        lies_at(d, p, enc_kind(k)),
    ensures
        read_kind(d, p) == Some((k, p + enc_kind(k).len())),
{
    lemma_enc_lens();
    match k {
        RewardVendorKind::Unlocked => {
            assert(enc_kind(k) =~= enc_u8(0u8));
            lemma_read_u8(d, p, 0u8);
        },
        RewardVendorKind::Locked { start_ts, end_ts, period_count } => {
            lemma_lies_at_split(d, p, seq![1u8] + enc_i64(start_ts) + enc_i64(end_ts), enc_u64(period_count));
            lemma_lies_at_split(d, p, seq![1u8] + enc_i64(start_ts), enc_i64(end_ts));
            lemma_lies_at_split(d, p, seq![1u8], enc_i64(start_ts));
            lemma_read_u8(d, p, 1u8);
            lemma_read_i64(d, p + 1, start_ts);
            lemma_read_i64(d, p + 9, end_ts);
            lemma_read_u64(d, p + 17, period_count);
        },
    }
}

/// The layout of a reward vendor.
pub open spec fn enc_reward_vendor(x: RewardVendor) -> Seq<u8> {
    enc_pubkey(x.registrar) + enc_pubkey(x.vault) + enc_pubkey(x.mint) + enc_u8(x.nonce) + enc_u64(x.pool_token_supply) + enc_u32(x.reward_event_q_cursor) + enc_i64(x.start_ts) + enc_i64(x.expiry_ts) + enc_pubkey(x.expiry_receiver) + enc_pubkey(x.from) + enc_u64(x.total) + enc_bool(x.expired) + enc_kind(x.kind)
}

/// Reads a reward vendor at position `p`.
pub open spec fn read_reward_vendor(d: Seq<u8>, p: int) -> Option<(RewardVendor, int)> {
    match read_pubkey(d, p) {
        None => None,
        Some((v1, p1)) =>
        match read_pubkey(d, p1) {
            None => None,
            Some((v2, p2)) =>
            match read_pubkey(d, p2) {
                None => None,
                Some((v3, p3)) =>
                match read_u8(d, p3) {
                    None => None,
                    Some((v4, p4)) =>
                    match read_u64(d, p4) {
                        None => None,
                        Some((v5, p5)) =>
                        match read_u32(d, p5) {
                            None => None,
                            Some((v6, p6)) =>
                            match read_i64(d, p6) {
                                None => None,
                                Some((v7, p7)) =>
                                match read_i64(d, p7) {
                                    None => None,
                                    Some((v8, p8)) =>
                                    match read_pubkey(d, p8) {
                                        None => None,
                                        Some((v9, p9)) =>
                                        match read_pubkey(d, p9) {
                                            None => None,
                                            Some((v10, p10)) =>
                                            match read_u64(d, p10) {
                                                None => None,
                                                Some((v11, p11)) =>
                                                match read_bool(d, p11) {
                                                    None => None,
                                                    Some((v12, p12)) =>
                                                    match read_kind(d, p12) {
                                                        None => None,
                                                        Some((v13, p13)) =>
                                                            Some((RewardVendor { registrar: v1, vault: v2, mint: v3, nonce: v4, pool_token_supply: v5, reward_event_q_cursor: v6, start_ts: v7, expiry_ts: v8, expiry_receiver: v9, from: v10, total: v11, expired: v12, kind: v13 }, p13)),
                                                    }
                                                }
                                            }
                                        }
                                    }
                                }
                            }
                        }
                    }
                }
            }
        }
    }
}

/// Reads a reward vendor at position `p`.
pub fn get_reward_vendor(d: &[u8], p: usize) -> (r: Option<(RewardVendor, usize)>)
    ensures
        (match r {
            Some((x, q)) => Some((x, q as int)),
            None => None,
        }) == read_reward_vendor(d@, p as int),
{
    let (v1, p1) = match get_pubkey(d, p) {
        Some(v) => v,
        None => { return None; },
    };
    let (v2, p2) = match get_pubkey(d, p1) {
        Some(v) => v,
        None => { return None; },
    };
    let (v3, p3) = match get_pubkey(d, p2) {
        Some(v) => v,
        None => { return None; },
    };
    let (v4, p4) = match get_u8(d, p3) {
        Some(v) => v,
        None => { return None; },
    };
    let (v5, p5) = match get_u64(d, p4) {
        Some(v) => v,
        None => { return None; },
    };
    let (v6, p6) = match get_u32(d, p5) {
        Some(v) => v,
        None => { return None; },
    };
    let (v7, p7) = match get_i64(d, p6) {
        Some(v) => v,
        None => { return None; },
    };
    let (v8, p8) = match get_i64(d, p7) {
        Some(v) => v,
        None => { return None; },
    };
    let (v9, p9) = match get_pubkey(d, p8) {
        Some(v) => v,
        None => { return None; },
    };
    let (v10, p10) = match get_pubkey(d, p9) {
        Some(v) => v,
        None => { return None; },
    };
    let (v11, p11) = match get_u64(d, p10) {
        Some(v) => v,
        None => { return None; },
    };
    let (v12, p12) = match get_bool(d, p11) {
        Some(v) => v,
        None => { return None; },
    };
    let (v13, p13) = match get_kind(d, p12) {
        Some(v) => v,
        None => { return None; },
    };
    Some((RewardVendor { registrar: v1, vault: v2, mint: v3, nonce: v4, pool_token_supply: v5, reward_event_q_cursor: v6, start_ts: v7, expiry_ts: v8, expiry_receiver: v9, from: v10, total: v11, expired: v12, kind: v13 }, p13))
}

/// Appends the bytes of a reward vendor.
pub fn put_reward_vendor(out: &mut Vec<u8>, x: &RewardVendor)
    ensures
        final(out)@ == old(out)@ + enc_reward_vendor(*x),
{
    let ghost start = out@;
    put_pubkey(out, &x.registrar);
    put_pubkey(out, &x.vault);
    put_pubkey(out, &x.mint);
    put_u8(out, x.nonce);
    put_u64(out, x.pool_token_supply);
    put_u32(out, x.reward_event_q_cursor);
    put_i64(out, x.start_ts);
    put_i64(out, x.expiry_ts);
    put_pubkey(out, &x.expiry_receiver);
    put_pubkey(out, &x.from);
    put_u64(out, x.total);
    put_bool(out, x.expired);
    put_kind(out, &x.kind);
    assert(out@ =~= start + enc_reward_vendor(*x));
}

/// Reading a reward vendor back gives what was written.
pub proof fn lemma_read_reward_vendor(d: Seq<u8>, p: int, x: RewardVendor)
    requires
        lies_at(d, p, enc_reward_vendor(x)),
    ensures
        read_reward_vendor(d, p) == Some((x, p + enc_reward_vendor(x).len())),
{
    lemma_enc_lens();
    lemma_lies_at_split(d, p, enc_pubkey(x.registrar) + enc_pubkey(x.vault) + enc_pubkey(x.mint) + enc_u8(x.nonce) + enc_u64(x.pool_token_supply) + enc_u32(x.reward_event_q_cursor) + enc_i64(x.start_ts) + enc_i64(x.expiry_ts) + enc_pubkey(x.expiry_receiver) + enc_pubkey(x.from) + enc_u64(x.total) + enc_bool(x.expired), enc_kind(x.kind));
    lemma_lies_at_split(d, p, enc_pubkey(x.registrar) + enc_pubkey(x.vault) + enc_pubkey(x.mint) + enc_u8(x.nonce) + enc_u64(x.pool_token_supply) + enc_u32(x.reward_event_q_cursor) + enc_i64(x.start_ts) + enc_i64(x.expiry_ts) + enc_pubkey(x.expiry_receiver) + enc_pubkey(x.from) + enc_u64(x.total), enc_bool(x.expired));
    lemma_lies_at_split(d, p, enc_pubkey(x.registrar) + enc_pubkey(x.vault) + enc_pubkey(x.mint) + enc_u8(x.nonce) + enc_u64(x.pool_token_supply) + enc_u32(x.reward_event_q_cursor) + enc_i64(x.start_ts) + enc_i64(x.expiry_ts) + enc_pubkey(x.expiry_receiver) + enc_pubkey(x.from), enc_u64(x.total));
    lemma_lies_at_split(d, p, enc_pubkey(x.registrar) + enc_pubkey(x.vault) + enc_pubkey(x.mint) + enc_u8(x.nonce) + enc_u64(x.pool_token_supply) + enc_u32(x.reward_event_q_cursor) + enc_i64(x.start_ts) + enc_i64(x.expiry_ts) + enc_pubkey(x.expiry_receiver), enc_pubkey(x.from));
    lemma_lies_at_split(d, p, enc_pubkey(x.registrar) + enc_pubkey(x.vault) + enc_pubkey(x.mint) + enc_u8(x.nonce) + enc_u64(x.pool_token_supply) + enc_u32(x.reward_event_q_cursor) + enc_i64(x.start_ts) + enc_i64(x.expiry_ts), enc_pubkey(x.expiry_receiver));
    lemma_lies_at_split(d, p, enc_pubkey(x.registrar) + enc_pubkey(x.vault) + enc_pubkey(x.mint) + enc_u8(x.nonce) + enc_u64(x.pool_token_supply) + enc_u32(x.reward_event_q_cursor) + enc_i64(x.start_ts), enc_i64(x.expiry_ts));
    lemma_lies_at_split(d, p, enc_pubkey(x.registrar) + enc_pubkey(x.vault) + enc_pubkey(x.mint) + enc_u8(x.nonce) + enc_u64(x.pool_token_supply) + enc_u32(x.reward_event_q_cursor), enc_i64(x.start_ts));
    lemma_lies_at_split(d, p, enc_pubkey(x.registrar) + enc_pubkey(x.vault) + enc_pubkey(x.mint) + enc_u8(x.nonce) + enc_u64(x.pool_token_supply), enc_u32(x.reward_event_q_cursor));
    lemma_lies_at_split(d, p, enc_pubkey(x.registrar) + enc_pubkey(x.vault) + enc_pubkey(x.mint) + enc_u8(x.nonce), enc_u64(x.pool_token_supply));
    lemma_lies_at_split(d, p, enc_pubkey(x.registrar) + enc_pubkey(x.vault) + enc_pubkey(x.mint), enc_u8(x.nonce));
    lemma_lies_at_split(d, p, enc_pubkey(x.registrar) + enc_pubkey(x.vault), enc_pubkey(x.mint));
    lemma_lies_at_split(d, p, enc_pubkey(x.registrar), enc_pubkey(x.vault));
    lemma_read_pubkey(d, p, x.registrar);
    lemma_read_pubkey(d, p + (enc_pubkey(x.registrar)).len(), x.vault);
    lemma_read_pubkey(d, p + (enc_pubkey(x.registrar) + enc_pubkey(x.vault)).len(), x.mint);
    lemma_read_u8(d, p + (enc_pubkey(x.registrar) + enc_pubkey(x.vault) + enc_pubkey(x.mint)).len(), x.nonce);
    lemma_read_u64(d, p + (enc_pubkey(x.registrar) + enc_pubkey(x.vault) + enc_pubkey(x.mint) + enc_u8(x.nonce)).len(), x.pool_token_supply);
    lemma_read_u32(d, p + (enc_pubkey(x.registrar) + enc_pubkey(x.vault) + enc_pubkey(x.mint) + enc_u8(x.nonce) + enc_u64(x.pool_token_supply)).len(), x.reward_event_q_cursor);
    lemma_read_i64(d, p + (enc_pubkey(x.registrar) + enc_pubkey(x.vault) + enc_pubkey(x.mint) + enc_u8(x.nonce) + enc_u64(x.pool_token_supply) + enc_u32(x.reward_event_q_cursor)).len(), x.start_ts);
    lemma_read_i64(d, p + (enc_pubkey(x.registrar) + enc_pubkey(x.vault) + enc_pubkey(x.mint) + enc_u8(x.nonce) + enc_u64(x.pool_token_supply) + enc_u32(x.reward_event_q_cursor) + enc_i64(x.start_ts)).len(), x.expiry_ts);
    lemma_read_pubkey(d, p + (enc_pubkey(x.registrar) + enc_pubkey(x.vault) + enc_pubkey(x.mint) + enc_u8(x.nonce) + enc_u64(x.pool_token_supply) + enc_u32(x.reward_event_q_cursor) + enc_i64(x.start_ts) + enc_i64(x.expiry_ts)).len(), x.expiry_receiver);
    lemma_read_pubkey(d, p + (enc_pubkey(x.registrar) + enc_pubkey(x.vault) + enc_pubkey(x.mint) + enc_u8(x.nonce) + enc_u64(x.pool_token_supply) + enc_u32(x.reward_event_q_cursor) + enc_i64(x.start_ts) + enc_i64(x.expiry_ts) + enc_pubkey(x.expiry_receiver)).len(), x.from);
    lemma_read_u64(d, p + (enc_pubkey(x.registrar) + enc_pubkey(x.vault) + enc_pubkey(x.mint) + enc_u8(x.nonce) + enc_u64(x.pool_token_supply) + enc_u32(x.reward_event_q_cursor) + enc_i64(x.start_ts) + enc_i64(x.expiry_ts) + enc_pubkey(x.expiry_receiver) + enc_pubkey(x.from)).len(), x.total);
    lemma_read_bool(d, p + (enc_pubkey(x.registrar) + enc_pubkey(x.vault) + enc_pubkey(x.mint) + enc_u8(x.nonce) + enc_u64(x.pool_token_supply) + enc_u32(x.reward_event_q_cursor) + enc_i64(x.start_ts) + enc_i64(x.expiry_ts) + enc_pubkey(x.expiry_receiver) + enc_pubkey(x.from) + enc_u64(x.total)).len(), x.expired);
    lemma_read_kind(d, p + (enc_pubkey(x.registrar) + enc_pubkey(x.vault) + enc_pubkey(x.mint) + enc_u8(x.nonce) + enc_u64(x.pool_token_supply) + enc_u32(x.reward_event_q_cursor) + enc_i64(x.start_ts) + enc_i64(x.expiry_ts) + enc_pubkey(x.expiry_receiver) + enc_pubkey(x.from) + enc_u64(x.total) + enc_bool(x.expired)).len(), x.kind);
}

/// The layout of a realizor.
pub open spec fn enc_realizor(x: Realizor) -> Seq<u8> {
    enc_pubkey(x.program) + enc_pubkey(x.metadata)
}

/// Reads a realizor at position `p`.
pub open spec fn read_realizor(d: Seq<u8>, p: int) -> Option<(Realizor, int)> {
    match read_pubkey(d, p) {
        None => None,
        Some((v1, p1)) =>
        match read_pubkey(d, p1) {
            None => None,
            Some((v2, p2)) =>
                Some((Realizor { program: v1, metadata: v2 }, p2)),
        }
    }
}

/// Reads a realizor at position `p`.
pub fn get_realizor(d: &[u8], p: usize) -> (r: Option<(Realizor, usize)>)
    ensures
        (match r {
            Some((x, q)) => Some((x, q as int)),
            None => None,
        }) == read_realizor(d@, p as int),
{
    let (v1, p1) = match get_pubkey(d, p) {
        Some(v) => v,
        None => { return None; },
    };
    let (v2, p2) = match get_pubkey(d, p1) {
        Some(v) => v,
        None => { return None; },
    };
    Some((Realizor { program: v1, metadata: v2 }, p2))
}

/// Appends the bytes of a realizor.
pub fn put_realizor(out: &mut Vec<u8>, x: &Realizor)
    ensures
        final(out)@ == old(out)@ + enc_realizor(*x),
{
    let ghost start = out@;
    put_pubkey(out, &x.program);
    put_pubkey(out, &x.metadata);
    assert(out@ =~= start + enc_realizor(*x));
}

/// Reading a realizor back gives what was written.
pub proof fn lemma_read_realizor(d: Seq<u8>, p: int, x: Realizor)
    requires
        lies_at(d, p, enc_realizor(x)),
    ensures
        read_realizor(d, p) == Some((x, p + enc_realizor(x).len())),
{
    lemma_enc_lens();
    lemma_lies_at_split(d, p, enc_pubkey(x.program), enc_pubkey(x.metadata));
    lemma_read_pubkey(d, p, x.program);
    lemma_read_pubkey(d, p + (enc_pubkey(x.program)).len(), x.metadata);
}

/// The layout of an optional realizor: a tag byte, then the realizor.
pub open spec fn enc_opt_realizor(o: Option<Realizor>) -> Seq<u8> {
    match o {
        None => seq![0u8],
        Some(r) => seq![1u8] + enc_realizor(r),
    }
}

/// Reads an optional realizor at position `p`.
pub open spec fn read_opt_realizor(d: Seq<u8>, p: int) -> Option<(Option<Realizor>, int)> {
    match read_u8(d, p) {
        None => None,
        Some((t, q)) => if t == 0 {
            Some((None, q))
        } else if t == 1 {
            match read_realizor(d, q) {
                None => None,
                Some((r, q1)) => Some((Some(r), q1)),
            }
        } else {
            None
        },
    }
}

/// Reads an optional realizor at position `p`.
pub fn get_opt_realizor(d: &[u8], p: usize) -> (r: Option<(Option<Realizor>, usize)>)
    ensures
        (match r {
            Some((x, q)) => Some((x, q as int)),
            None => None,
        }) == read_opt_realizor(d@, p as int),
{
    let (t, q) = match get_u8(d, p) {
        Some(v) => v,
        None => { return None; },
    };
    if t == 0 {
        Some((None, q))
    } else if t == 1 {
        match get_realizor(d, q) {
            None => None,
            Some((r, q1)) => Some((Some(r), q1)),
        }
    } else {
        None
    }
}

/// Appends the bytes of an optional realizor.
pub fn put_opt_realizor(out: &mut Vec<u8>, o: &Option<Realizor>)
    ensures
        final(out)@ == old(out)@ + enc_opt_realizor(*o),
{
    let ghost start = out@;
    match o {
        None => put_u8(out, 0),
        Some(r) => {
            put_u8(out, 1);
            put_realizor(out, r);
            assert(out@ =~= start + enc_opt_realizor(*o));
        },
    }
}

/// Reading an optional realizor back gives what was written.
pub proof fn lemma_read_opt_realizor(d: Seq<u8>, p: int, o: Option<Realizor>)
    requires
        lies_at(d, p, enc_opt_realizor(o)),
    ensures
        read_opt_realizor(d, p) == Some((o, p + enc_opt_realizor(o).len())),
{
    match o {
        Option::None => {
            assert(enc_opt_realizor(o) =~= enc_u8(0u8));
            lemma_read_u8(d, p, 0u8);
        },
        Option::Some(r) => {
            lemma_lies_at_split(d, p, seq![1u8], enc_realizor(r));
            lemma_read_u8(d, p, 1u8);
            lemma_read_realizor(d, p + 1, r);
        },
    }
}

/// The layout of a vesting account.
pub open spec fn enc_vesting(x: Vesting) -> Seq<u8> {
    enc_pubkey(x.beneficiary) + enc_pubkey(x.mint) + enc_pubkey(x.vault) + enc_pubkey(x.grantor) + enc_u64(x.outstanding) + enc_u64(x.start_balance) + enc_i64(x.created_ts) + enc_i64(x.start_ts) + enc_i64(x.end_ts) + enc_u64(x.period_count) + enc_u64(x.whitelist_owned) + enc_u8(x.nonce) + enc_opt_realizor(x.realizor)
}

/// Reads a vesting account at position `p`.
pub open spec fn read_vesting(d: Seq<u8>, p: int) -> Option<(Vesting, int)> {
    match read_pubkey(d, p) {
        None => None,
        Some((v1, p1)) =>
        match read_pubkey(d, p1) {
            None => None,
            Some((v2, p2)) =>
            match read_pubkey(d, p2) {
                None => None,
                Some((v3, p3)) =>
                match read_pubkey(d, p3) {
                    None => None,
                    Some((v4, p4)) =>
                    match read_u64(d, p4) {
                        None => None,
                        Some((v5, p5)) =>
                        match read_u64(d, p5) {
                            None => None,
                            Some((v6, p6)) =>
                            match read_i64(d, p6) {
                                None => None,
                                Some((v7, p7)) =>
                                match read_i64(d, p7) {
                                    None => None,
                                    Some((v8, p8)) =>
                                    match read_i64(d, p8) {
                                        None => None,
                                        Some((v9, p9)) =>
                                        match read_u64(d, p9) {
                                            None => None,
                                            Some((v10, p10)) =>
                                            match read_u64(d, p10) {
                                                None => None,
                                                Some((v11, p11)) =>
                                                match read_u8(d, p11) {
                                                    None => None,
                                                    Some((v12, p12)) =>
                                                    match read_opt_realizor(d, p12) {
                                                        None => None,
                                                        Some((v13, p13)) =>
                                                            Some((Vesting { beneficiary: v1, mint: v2, vault: v3, grantor: v4, outstanding: v5, start_balance: v6, created_ts: v7, start_ts: v8, end_ts: v9, period_count: v10, whitelist_owned: v11, nonce: v12, realizor: v13 }, p13)),
                                                    }
                                                }
                                            }
                                        }
                                    }
                                }
                            }
                        }
                    }
                }
            }
        }
    }
}

/// Reads a vesting account at position `p`.
pub fn get_vesting(d: &[u8], p: usize) -> (r: Option<(Vesting, usize)>)
    ensures
        (match r {
            Some((x, q)) => Some((x, q as int)),
            None => None,
        }) == read_vesting(d@, p as int),
{
    let (v1, p1) = match get_pubkey(d, p) {
        Some(v) => v,
        None => { return None; },
    };
    let (v2, p2) = match get_pubkey(d, p1) {
        Some(v) => v,
        None => { return None; },
    };
    let (v3, p3) = match get_pubkey(d, p2) {
        Some(v) => v,
        None => { return None; },
    };
    let (v4, p4) = match get_pubkey(d, p3) {
        Some(v) => v,
        None => { return None; },
    };
    let (v5, p5) = match get_u64(d, p4) {
        Some(v) => v,
        None => { return None; },
    };
    let (v6, p6) = match get_u64(d, p5) {
        Some(v) => v,
        None => { return None; },
    };
    let (v7, p7) = match get_i64(d, p6) {
        Some(v) => v,
        None => { return None; },
    };
    let (v8, p8) = match get_i64(d, p7) {
        Some(v) => v,
        None => { return None; },
    };
    let (v9, p9) = match get_i64(d, p8) {
        Some(v) => v,
        None => { return None; },
    };
    let (v10, p10) = match get_u64(d, p9) {
        Some(v) => v,
        None => { return None; },
    };
    let (v11, p11) = match get_u64(d, p10) {
        Some(v) => v,
        None => { return None; },
    };
    let (v12, p12) = match get_u8(d, p11) {
        Some(v) => v,
        None => { return None; },
    };
    let (v13, p13) = match get_opt_realizor(d, p12) {
        Some(v) => v,
        None => { return None; },
    };
    Some((Vesting { beneficiary: v1, mint: v2, vault: v3, grantor: v4, outstanding: v5, start_balance: v6, created_ts: v7, start_ts: v8, end_ts: v9, period_count: v10, whitelist_owned: v11, nonce: v12, realizor: v13 }, p13))
}

/// Appends the bytes of a vesting account.
pub fn put_vesting(out: &mut Vec<u8>, x: &Vesting)
    ensures
        final(out)@ == old(out)@ + enc_vesting(*x),
{
    let ghost start = out@;
    put_pubkey(out, &x.beneficiary);
    put_pubkey(out, &x.mint);
    put_pubkey(out, &x.vault);
    put_pubkey(out, &x.grantor);
    put_u64(out, x.outstanding);
    put_u64(out, x.start_balance);
    put_i64(out, x.created_ts);
    put_i64(out, x.start_ts);
    put_i64(out, x.end_ts);
    put_u64(out, x.period_count);
    put_u64(out, x.whitelist_owned);
    put_u8(out, x.nonce);
    put_opt_realizor(out, &x.realizor);
    assert(out@ =~= start + enc_vesting(*x));
}

/// Reading a vesting account back gives what was written.
pub proof fn lemma_read_vesting(d: Seq<u8>, p: int, x: Vesting)
    requires
        lies_at(d, p, enc_vesting(x)),
    ensures
        read_vesting(d, p) == Some((x, p + enc_vesting(x).len())),
{
    lemma_enc_lens();
    lemma_lies_at_split(d, p, enc_pubkey(x.beneficiary) + enc_pubkey(x.mint) + enc_pubkey(x.vault) + enc_pubkey(x.grantor) + enc_u64(x.outstanding) + enc_u64(x.start_balance) + enc_i64(x.created_ts) + enc_i64(x.start_ts) + enc_i64(x.end_ts) + enc_u64(x.period_count) + enc_u64(x.whitelist_owned) + enc_u8(x.nonce), enc_opt_realizor(x.realizor));
    lemma_lies_at_split(d, p, enc_pubkey(x.beneficiary) + enc_pubkey(x.mint) + enc_pubkey(x.vault) + enc_pubkey(x.grantor) + enc_u64(x.outstanding) + enc_u64(x.start_balance) + enc_i64(x.created_ts) + enc_i64(x.start_ts) + enc_i64(x.end_ts) + enc_u64(x.period_count) + enc_u64(x.whitelist_owned), enc_u8(x.nonce));
    lemma_lies_at_split(d, p, enc_pubkey(x.beneficiary) + enc_pubkey(x.mint) + enc_pubkey(x.vault) + enc_pubkey(x.grantor) + enc_u64(x.outstanding) + enc_u64(x.start_balance) + enc_i64(x.created_ts) + enc_i64(x.start_ts) + enc_i64(x.end_ts) + enc_u64(x.period_count), enc_u64(x.whitelist_owned));
    lemma_lies_at_split(d, p, enc_pubkey(x.beneficiary) + enc_pubkey(x.mint) + enc_pubkey(x.vault) + enc_pubkey(x.grantor) + enc_u64(x.outstanding) + enc_u64(x.start_balance) + enc_i64(x.created_ts) + enc_i64(x.start_ts) + enc_i64(x.end_ts), enc_u64(x.period_count));
    lemma_lies_at_split(d, p, enc_pubkey(x.beneficiary) + enc_pubkey(x.mint) + enc_pubkey(x.vault) + enc_pubkey(x.grantor) + enc_u64(x.outstanding) + enc_u64(x.start_balance) + enc_i64(x.created_ts) + enc_i64(x.start_ts), enc_i64(x.end_ts));
    lemma_lies_at_split(d, p, enc_pubkey(x.beneficiary) + enc_pubkey(x.mint) + enc_pubkey(x.vault) + enc_pubkey(x.grantor) + enc_u64(x.outstanding) + enc_u64(x.start_balance) + enc_i64(x.created_ts), enc_i64(x.start_ts));
    lemma_lies_at_split(d, p, enc_pubkey(x.beneficiary) + enc_pubkey(x.mint) + enc_pubkey(x.vault) + enc_pubkey(x.grantor) + enc_u64(x.outstanding) + enc_u64(x.start_balance), enc_i64(x.created_ts));
    lemma_lies_at_split(d, p, enc_pubkey(x.beneficiary) + enc_pubkey(x.mint) + enc_pubkey(x.vault) + enc_pubkey(x.grantor) + enc_u64(x.outstanding), enc_u64(x.start_balance));
    lemma_lies_at_split(d, p, enc_pubkey(x.beneficiary) + enc_pubkey(x.mint) + enc_pubkey(x.vault) + enc_pubkey(x.grantor), enc_u64(x.outstanding));
    lemma_lies_at_split(d, p, enc_pubkey(x.beneficiary) + enc_pubkey(x.mint) + enc_pubkey(x.vault), enc_pubkey(x.grantor));
    lemma_lies_at_split(d, p, enc_pubkey(x.beneficiary) + enc_pubkey(x.mint), enc_pubkey(x.vault));
    lemma_lies_at_split(d, p, enc_pubkey(x.beneficiary), enc_pubkey(x.mint));
    lemma_read_pubkey(d, p, x.beneficiary);
    lemma_read_pubkey(d, p + (enc_pubkey(x.beneficiary)).len(), x.mint);
    lemma_read_pubkey(d, p + (enc_pubkey(x.beneficiary) + enc_pubkey(x.mint)).len(), x.vault);
    lemma_read_pubkey(d, p + (enc_pubkey(x.beneficiary) + enc_pubkey(x.mint) + enc_pubkey(x.vault)).len(), x.grantor);
    lemma_read_u64(d, p + (enc_pubkey(x.beneficiary) + enc_pubkey(x.mint) + enc_pubkey(x.vault) + enc_pubkey(x.grantor)).len(), x.outstanding);
    lemma_read_u64(d, p + (enc_pubkey(x.beneficiary) + enc_pubkey(x.mint) + enc_pubkey(x.vault) + enc_pubkey(x.grantor) + enc_u64(x.outstanding)).len(), x.start_balance);
    lemma_read_i64(d, p + (enc_pubkey(x.beneficiary) + enc_pubkey(x.mint) + enc_pubkey(x.vault) + enc_pubkey(x.grantor) + enc_u64(x.outstanding) + enc_u64(x.start_balance)).len(), x.created_ts);
    lemma_read_i64(d, p + (enc_pubkey(x.beneficiary) + enc_pubkey(x.mint) + enc_pubkey(x.vault) + enc_pubkey(x.grantor) + enc_u64(x.outstanding) + enc_u64(x.start_balance) + enc_i64(x.created_ts)).len(), x.start_ts);
    lemma_read_i64(d, p + (enc_pubkey(x.beneficiary) + enc_pubkey(x.mint) + enc_pubkey(x.vault) + enc_pubkey(x.grantor) + enc_u64(x.outstanding) + enc_u64(x.start_balance) + enc_i64(x.created_ts) + enc_i64(x.start_ts)).len(), x.end_ts);
    lemma_read_u64(d, p + (enc_pubkey(x.beneficiary) + enc_pubkey(x.mint) + enc_pubkey(x.vault) + enc_pubkey(x.grantor) + enc_u64(x.outstanding) + enc_u64(x.start_balance) + enc_i64(x.created_ts) + enc_i64(x.start_ts) + enc_i64(x.end_ts)).len(), x.period_count);
    lemma_read_u64(d, p + (enc_pubkey(x.beneficiary) + enc_pubkey(x.mint) + enc_pubkey(x.vault) + enc_pubkey(x.grantor) + enc_u64(x.outstanding) + enc_u64(x.start_balance) + enc_i64(x.created_ts) + enc_i64(x.start_ts) + enc_i64(x.end_ts) + enc_u64(x.period_count)).len(), x.whitelist_owned);
    lemma_read_u8(d, p + (enc_pubkey(x.beneficiary) + enc_pubkey(x.mint) + enc_pubkey(x.vault) + enc_pubkey(x.grantor) + enc_u64(x.outstanding) + enc_u64(x.start_balance) + enc_i64(x.created_ts) + enc_i64(x.start_ts) + enc_i64(x.end_ts) + enc_u64(x.period_count) + enc_u64(x.whitelist_owned)).len(), x.nonce);
    lemma_read_opt_realizor(d, p + (enc_pubkey(x.beneficiary) + enc_pubkey(x.mint) + enc_pubkey(x.vault) + enc_pubkey(x.grantor) + enc_u64(x.outstanding) + enc_u64(x.start_balance) + enc_i64(x.created_ts) + enc_i64(x.start_ts) + enc_i64(x.end_ts) + enc_u64(x.period_count) + enc_u64(x.whitelist_owned) + enc_u8(x.nonce)).len(), x.realizor);
}

/// The layout of the member data a realization check reads.
pub open spec fn enc_member_data(x: MemberData) -> Seq<u8> {
    enc_pubkey(x.registrar) + enc_pubkey(x.beneficiary) + enc_pubkey(x.metadata) + enc_pubkey(x.balances_spt) + enc_pubkey(x.balances_locked_spt)
}

/// Reads the member data a realization check reads at position `p`.
pub open spec fn read_member_data(d: Seq<u8>, p: int) -> Option<(MemberData, int)> {
    match read_pubkey(d, p) {
        None => None,
        Some((v1, p1)) =>
        match read_pubkey(d, p1) {
            None => None,
            Some((v2, p2)) =>
            match read_pubkey(d, p2) {
                None => None,
                Some((v3, p3)) =>
                match read_pubkey(d, p3) {
                    None => None,
                    Some((v4, p4)) =>
                    match read_pubkey(d, p4) {
                        None => None,
                        Some((v5, p5)) =>
                            Some((MemberData { registrar: v1, beneficiary: v2, metadata: v3, balances_spt: v4, balances_locked_spt: v5 }, p5)),
                    }
                }
            }
        }
    }
}

/// Reads the member data a realization check reads at position `p`.
pub fn get_member_data(d: &[u8], p: usize) -> (r: Option<(MemberData, usize)>)
    ensures
        (match r {
            Some((x, q)) => Some((x, q as int)),
            None => None,
        }) == read_member_data(d@, p as int),
{
    let (v1, p1) = match get_pubkey(d, p) {
        Some(v) => v,
        None => { return None; },
    };
    let (v2, p2) = match get_pubkey(d, p1) {
        Some(v) => v,
        None => { return None; },
    };
    let (v3, p3) = match get_pubkey(d, p2) {
        Some(v) => v,
        None => { return None; },
    };
    let (v4, p4) = match get_pubkey(d, p3) {
        Some(v) => v,
        None => { return None; },
    };
    let (v5, p5) = match get_pubkey(d, p4) {
        Some(v) => v,
        None => { return None; },
    };
    Some((MemberData { registrar: v1, beneficiary: v2, metadata: v3, balances_spt: v4, balances_locked_spt: v5 }, p5))
}

/// Appends the bytes of the member data a realization check reads.
pub fn put_member_data(out: &mut Vec<u8>, x: &MemberData)
    ensures
        final(out)@ == old(out)@ + enc_member_data(*x),
{
    let ghost start = out@;
    put_pubkey(out, &x.registrar);
    put_pubkey(out, &x.beneficiary);
    put_pubkey(out, &x.metadata);
    put_pubkey(out, &x.balances_spt);
    put_pubkey(out, &x.balances_locked_spt);
    assert(out@ =~= start + enc_member_data(*x));
}

/// Reading the member data a realization check reads back gives what was written.
pub proof fn lemma_read_member_data(d: Seq<u8>, p: int, x: MemberData)
    requires
        lies_at(d, p, enc_member_data(x)),
    ensures
        read_member_data(d, p) == Some((x, p + enc_member_data(x).len())),
{
    lemma_enc_lens();
    lemma_lies_at_split(d, p, enc_pubkey(x.registrar) + enc_pubkey(x.beneficiary) + enc_pubkey(x.metadata) + enc_pubkey(x.balances_spt), enc_pubkey(x.balances_locked_spt));
    lemma_lies_at_split(d, p, enc_pubkey(x.registrar) + enc_pubkey(x.beneficiary) + enc_pubkey(x.metadata), enc_pubkey(x.balances_spt));
    lemma_lies_at_split(d, p, enc_pubkey(x.registrar) + enc_pubkey(x.beneficiary), enc_pubkey(x.metadata));
    lemma_lies_at_split(d, p, enc_pubkey(x.registrar), enc_pubkey(x.beneficiary));
    lemma_read_pubkey(d, p, x.registrar);
    lemma_read_pubkey(d, p + (enc_pubkey(x.registrar)).len(), x.beneficiary);
    lemma_read_pubkey(d, p + (enc_pubkey(x.registrar) + enc_pubkey(x.beneficiary)).len(), x.metadata);
    lemma_read_pubkey(d, p + (enc_pubkey(x.registrar) + enc_pubkey(x.beneficiary) + enc_pubkey(x.metadata)).len(), x.balances_spt);
    lemma_read_pubkey(d, p + (enc_pubkey(x.registrar) + enc_pubkey(x.beneficiary) + enc_pubkey(x.metadata) + enc_pubkey(x.balances_spt)).len(), x.balances_locked_spt);
}


/// Whether `d` starts with the eight bytes of `disc`.
pub fn starts_with8(d: &[u8], disc: &[u8; 8]) -> (b: bool)
    requires
        d@.len() >= 8,
    ensures
        b == (d@.subrange(0, 8) == disc@),
{
    let mut i: usize = 0;
    while i < 8
        invariant
            i <= 8,
            d@.len() >= 8,
            disc@.len() == 8,
            forall|j: int| 0 <= j < i ==> d@[j] == disc@[j],
        decreases 8 - i,
    {
        if d[i] != disc[i] {
            assert(d@.subrange(0, 8)[i as int] != disc@[i as int]);
            return false;
        }
        i = i + 1;
    }
    assert(d@.subrange(0, 8) =~= disc@);
    true
}

/// The outcome of reading an account's data: too short for a
/// discriminator, another type's discriminator, fields that do not decode,
/// or the value.
pub open spec fn spec_read_account<T>(d: Seq<u8>, disc: Seq<u8>, body: Option<(T, int)>) -> Result<T, Error> {
    if d.len() < 8 {
        Err(Error::ProgramError(FrameworkError::AccountDiscriminatorNotFound))
    } else if d.subrange(0, 8) != disc {
        Err(Error::ProgramError(FrameworkError::AccountDiscriminatorMismatch))
    } else {
        match body {
            None => Err(Error::ProgramError(FrameworkError::AccountDidNotDeserialize)),
            Some((x, _)) => Ok(x),
        }
    }
}

/// The outcome of reading an account's fields after its discriminator,
/// without looking at the discriminator.
pub open spec fn spec_read_unchecked<T>(body: Option<(T, int)>) -> Result<T, Error> {
    match body {
        None => Err(Error::ProgramError(FrameworkError::AccountDidNotDeserialize)),
        Some((x, _)) => Ok(x),
    }
}

/// The first eight bytes of account data, little endian, as the check of a
/// fresh account reads them.
pub fn leading_discriminator(d: &[u8]) -> (x: u64)
    requires
        d@.len() >= 8,
    ensures
        x == vstd::bytes::spec_u64_from_le_bytes(d@.subrange(0, 8)),
{
    vstd::bytes::u64_from_le_bytes(vstd::slice::slice_subrange(d, 0, 8))
}

impl Registry {
    /// The eight bytes that mark account data of this type.
    pub open spec fn spec_discriminator() -> Seq<u8> {
        seq![47u8, 174u8, 110u8, 246u8, 184u8, 182u8, 252u8, 218u8]
    }

    /// The eight bytes that mark account data of this type.
    pub fn discriminator() -> (disc: [u8; 8])
        ensures
            disc@ == Self::spec_discriminator(),
    {
        let disc: [u8; 8] = [47u8, 174u8, 110u8, 246u8, 184u8, 182u8, 252u8, 218u8];
        assert(disc@ =~= Self::spec_discriminator());
        disc
    }

    /// The outcome of reading account data of this type.
    pub open spec fn spec_try_deserialize(d: Seq<u8>) -> Result<Registry, Error> {
        spec_read_account(d, Self::spec_discriminator(), read_registry(d, 8))
    }

    /// Reads account data of this type: its discriminator, then its fields.
    pub fn try_deserialize(d: &[u8]) -> (r: Result<Registry, Error>)
        ensures
            r == Self::spec_try_deserialize(d@),
    {
        if d.len() < 8 {
            return Err(Error::ProgramError(FrameworkError::AccountDiscriminatorNotFound));
        }
        if !starts_with8(d, &Self::discriminator()) {
            return Err(Error::ProgramError(FrameworkError::AccountDiscriminatorMismatch));
        }
        Self::try_deserialize_unchecked(d)
    }

    /// Reads the fields of account data of this type, without looking at its
    /// discriminator.
    pub fn try_deserialize_unchecked(d: &[u8]) -> (r: Result<Registry, Error>)
        requires
            d@.len() >= 8,
        ensures
            r == spec_read_unchecked(read_registry(d@, 8)),
    {
        match get_registry(d, 8) {
            Some((x, _)) => Ok(x),
            None => Err(Error::ProgramError(FrameworkError::AccountDidNotDeserialize)),
        }
    }

    /// The account data of this value: discriminator, then fields.
    pub fn try_serialize(&self) -> (v: Vec<u8>)
        ensures
            v@ == Self::spec_discriminator() + enc_registry(*self),
    {
        let mut v: Vec<u8> = Vec::new();
        let disc = Self::discriminator();
        let mut i: usize = 0;
        while i < 8
            invariant
                i <= 8,
                disc@ == Self::spec_discriminator(),
                v@ == disc@.subrange(0, i as int),
            decreases 8 - i,
        {
            v.push(disc[i]);
            assert(v@ =~= disc@.subrange(0, i + 1));
            i = i + 1;
        }
        assert(v@ =~= Self::spec_discriminator());
        put_registry(&mut v, self);
        v
    }
}

/// Account data written for a value reads back as that value, whatever
/// follows it.
pub proof fn lemma_registry_data_round_trip(x: Registry, rest: Seq<u8>)
    ensures
        Registry::spec_try_deserialize(Registry::spec_discriminator() + enc_registry(x) + rest) == Ok::<Registry, Error>(x),
{
    let d = Registry::spec_discriminator() + enc_registry(x) + rest;
    assert(d.subrange(0, 8) =~= Registry::spec_discriminator());
    assert(d.subrange(8, (8 + enc_registry(x).len()) as int) =~= enc_registry(x));
    lemma_read_registry(d, 8, x);
}

impl Registrar {
    /// The eight bytes that mark account data of this type.
    pub open spec fn spec_discriminator() -> Seq<u8> {
        seq![193u8, 202u8, 205u8, 51u8, 78u8, 168u8, 150u8, 128u8]
    }

    /// The eight bytes that mark account data of this type.
    pub fn discriminator() -> (disc: [u8; 8])
        ensures
            disc@ == Self::spec_discriminator(),
    {
        let disc: [u8; 8] = [193u8, 202u8, 205u8, 51u8, 78u8, 168u8, 150u8, 128u8];
        assert(disc@ =~= Self::spec_discriminator());
        disc
    }

    /// The outcome of reading account data of this type.
    pub open spec fn spec_try_deserialize(d: Seq<u8>) -> Result<Registrar, Error> {
        spec_read_account(d, Self::spec_discriminator(), read_registrar(d, 8))
    }

    /// Reads account data of this type: its discriminator, then its fields.
    pub fn try_deserialize(d: &[u8]) -> (r: Result<Registrar, Error>)
        ensures
            r == Self::spec_try_deserialize(d@),
    {
        if d.len() < 8 {
            return Err(Error::ProgramError(FrameworkError::AccountDiscriminatorNotFound));
        }
        if !starts_with8(d, &Self::discriminator()) {
            return Err(Error::ProgramError(FrameworkError::AccountDiscriminatorMismatch));
        }
        Self::try_deserialize_unchecked(d)
    }

    /// Reads the fields of account data of this type, without looking at its
    /// discriminator.
    pub fn try_deserialize_unchecked(d: &[u8]) -> (r: Result<Registrar, Error>)
        requires
            d@.len() >= 8,
        ensures
            r == spec_read_unchecked(read_registrar(d@, 8)),
    {
        match get_registrar(d, 8) {
            Some((x, _)) => Ok(x),
            None => Err(Error::ProgramError(FrameworkError::AccountDidNotDeserialize)),
        }
    }

    /// The account data of this value: discriminator, then fields.
    pub fn try_serialize(&self) -> (v: Vec<u8>)
        ensures
            v@ == Self::spec_discriminator() + enc_registrar(*self),
    {
        let mut v: Vec<u8> = Vec::new();
        let disc = Self::discriminator();
        let mut i: usize = 0;
        while i < 8
            invariant
                i <= 8,
                disc@ == Self::spec_discriminator(),
                v@ == disc@.subrange(0, i as int),
            decreases 8 - i,
        {
            v.push(disc[i]);
            assert(v@ =~= disc@.subrange(0, i + 1));
            i = i + 1;
        }
        assert(v@ =~= Self::spec_discriminator());
        put_registrar(&mut v, self);
        v
    }
}

/// Account data written for a value reads back as that value, whatever
/// follows it.
pub proof fn lemma_registrar_data_round_trip(x: Registrar, rest: Seq<u8>)
    ensures
        Registrar::spec_try_deserialize(Registrar::spec_discriminator() + enc_registrar(x) + rest) == Ok::<Registrar, Error>(x),
{
    let d = Registrar::spec_discriminator() + enc_registrar(x) + rest;
    assert(d.subrange(0, 8) =~= Registrar::spec_discriminator());
    assert(d.subrange(8, (8 + enc_registrar(x).len()) as int) =~= enc_registrar(x));
    lemma_read_registrar(d, 8, x);
}

impl Member {
    /// The eight bytes that mark account data of this type.
    pub open spec fn spec_discriminator() -> Seq<u8> {
        seq![54u8, 19u8, 162u8, 21u8, 29u8, 166u8, 17u8, 198u8]
    }

    /// The eight bytes that mark account data of this type.
    pub fn discriminator() -> (disc: [u8; 8])
        ensures
            disc@ == Self::spec_discriminator(),
    {
        let disc: [u8; 8] = [54u8, 19u8, 162u8, 21u8, 29u8, 166u8, 17u8, 198u8];
        assert(disc@ =~= Self::spec_discriminator());
        disc
    }

    /// The outcome of reading account data of this type.
    pub open spec fn spec_try_deserialize(d: Seq<u8>) -> Result<Member, Error> {
        spec_read_account(d, Self::spec_discriminator(), read_member(d, 8))
    }

    /// Reads account data of this type: its discriminator, then its fields.
    pub fn try_deserialize(d: &[u8]) -> (r: Result<Member, Error>)
        ensures
            r == Self::spec_try_deserialize(d@),
    {
        if d.len() < 8 {
            return Err(Error::ProgramError(FrameworkError::AccountDiscriminatorNotFound));
        }
        if !starts_with8(d, &Self::discriminator()) {
            return Err(Error::ProgramError(FrameworkError::AccountDiscriminatorMismatch));
        }
        Self::try_deserialize_unchecked(d)
    }

    /// Reads the fields of account data of this type, without looking at its
    /// discriminator.
    pub fn try_deserialize_unchecked(d: &[u8]) -> (r: Result<Member, Error>)
        requires
            d@.len() >= 8,
        ensures
            r == spec_read_unchecked(read_member(d@, 8)),
    {
        match get_member(d, 8) {
            Some((x, _)) => Ok(x),
            None => Err(Error::ProgramError(FrameworkError::AccountDidNotDeserialize)),
        }
    }

    /// The account data of this value: discriminator, then fields.
    pub fn try_serialize(&self) -> (v: Vec<u8>)
        ensures
            v@ == Self::spec_discriminator() + enc_member(*self),
    {
        let mut v: Vec<u8> = Vec::new();
        let disc = Self::discriminator();
        let mut i: usize = 0;
        while i < 8
            invariant
                i <= 8,
                disc@ == Self::spec_discriminator(),
                v@ == disc@.subrange(0, i as int),
            decreases 8 - i,
        {
            v.push(disc[i]);
            assert(v@ =~= disc@.subrange(0, i + 1));
            i = i + 1;
        }
        assert(v@ =~= Self::spec_discriminator());
        put_member(&mut v, self);
        v
    }
}

/// Account data written for a value reads back as that value, whatever
/// follows it.
pub proof fn lemma_member_data_round_trip(x: Member, rest: Seq<u8>)
    ensures
        Member::spec_try_deserialize(Member::spec_discriminator() + enc_member(x) + rest) == Ok::<Member, Error>(x),
{
    let d = Member::spec_discriminator() + enc_member(x) + rest;
    assert(d.subrange(0, 8) =~= Member::spec_discriminator());
    assert(d.subrange(8, (8 + enc_member(x).len()) as int) =~= enc_member(x));
    lemma_read_member(d, 8, x);
}

impl PendingWithdrawal {
    /// The eight bytes that mark account data of this type.
    pub open spec fn spec_discriminator() -> Seq<u8> {
        seq![61u8, 103u8, 179u8, 177u8, 148u8, 199u8, 63u8, 171u8]
    }

    /// The eight bytes that mark account data of this type.
    pub fn discriminator() -> (disc: [u8; 8])
        ensures
            disc@ == Self::spec_discriminator(),
    {
        let disc: [u8; 8] = [61u8, 103u8, 179u8, 177u8, 148u8, 199u8, 63u8, 171u8];
        assert(disc@ =~= Self::spec_discriminator());
        disc
    }

    /// The outcome of reading account data of this type.
    pub open spec fn spec_try_deserialize(d: Seq<u8>) -> Result<PendingWithdrawal, Error> {
        spec_read_account(d, Self::spec_discriminator(), read_pending_withdrawal(d, 8))
    }

    /// Reads account data of this type: its discriminator, then its fields.
    pub fn try_deserialize(d: &[u8]) -> (r: Result<PendingWithdrawal, Error>)
        ensures
            r == Self::spec_try_deserialize(d@),
    {
        if d.len() < 8 {
            return Err(Error::ProgramError(FrameworkError::AccountDiscriminatorNotFound));
        }
        if !starts_with8(d, &Self::discriminator()) {
            return Err(Error::ProgramError(FrameworkError::AccountDiscriminatorMismatch));
        }
        Self::try_deserialize_unchecked(d)
    }

    /// Reads the fields of account data of this type, without looking at its
    /// discriminator.
    pub fn try_deserialize_unchecked(d: &[u8]) -> (r: Result<PendingWithdrawal, Error>)
        requires
            d@.len() >= 8,
        ensures
            r == spec_read_unchecked(read_pending_withdrawal(d@, 8)),
    {
        match get_pending_withdrawal(d, 8) {
            Some((x, _)) => Ok(x),
            None => Err(Error::ProgramError(FrameworkError::AccountDidNotDeserialize)),
        }
    }

    /// The account data of this value: discriminator, then fields.
    pub fn try_serialize(&self) -> (v: Vec<u8>)
        ensures
            v@ == Self::spec_discriminator() + enc_pending_withdrawal(*self),
    {
        let mut v: Vec<u8> = Vec::new();
        let disc = Self::discriminator();
        let mut i: usize = 0;
        while i < 8
            invariant
                i <= 8,
                disc@ == Self::spec_discriminator(),
                v@ == disc@.subrange(0, i as int),
            decreases 8 - i,
        {
            v.push(disc[i]);
            assert(v@ =~= disc@.subrange(0, i + 1));
            i = i + 1;
        }
        assert(v@ =~= Self::spec_discriminator());
        put_pending_withdrawal(&mut v, self);
        v
    }
}

/// Account data written for a value reads back as that value, whatever
/// follows it.
pub proof fn lemma_pending_withdrawal_data_round_trip(x: PendingWithdrawal, rest: Seq<u8>)
    ensures
        PendingWithdrawal::spec_try_deserialize(PendingWithdrawal::spec_discriminator() + enc_pending_withdrawal(x) + rest) == Ok::<PendingWithdrawal, Error>(x),
{
    let d = PendingWithdrawal::spec_discriminator() + enc_pending_withdrawal(x) + rest;
    assert(d.subrange(0, 8) =~= PendingWithdrawal::spec_discriminator());
    assert(d.subrange(8, (8 + enc_pending_withdrawal(x).len()) as int) =~= enc_pending_withdrawal(x));
    lemma_read_pending_withdrawal(d, 8, x);
}

impl RewardVendor {
    /// The eight bytes that mark account data of this type.
    pub open spec fn spec_discriminator() -> Seq<u8> {
        seq![75u8, 104u8, 40u8, 211u8, 191u8, 255u8, 206u8, 162u8]
    }

    /// The eight bytes that mark account data of this type.
    pub fn discriminator() -> (disc: [u8; 8])
        ensures
            disc@ == Self::spec_discriminator(),
    {
        let disc: [u8; 8] = [75u8, 104u8, 40u8, 211u8, 191u8, 255u8, 206u8, 162u8];
        assert(disc@ =~= Self::spec_discriminator());
        disc
    }

    /// The outcome of reading account data of this type.
    pub open spec fn spec_try_deserialize(d: Seq<u8>) -> Result<RewardVendor, Error> {
        spec_read_account(d, Self::spec_discriminator(), read_reward_vendor(d, 8))
    }

    /// Reads account data of this type: its discriminator, then its fields.
    pub fn try_deserialize(d: &[u8]) -> (r: Result<RewardVendor, Error>)
        ensures
            r == Self::spec_try_deserialize(d@),
    {
        if d.len() < 8 {
            return Err(Error::ProgramError(FrameworkError::AccountDiscriminatorNotFound));
        }
        if !starts_with8(d, &Self::discriminator()) {
            return Err(Error::ProgramError(FrameworkError::AccountDiscriminatorMismatch));
        }
        Self::try_deserialize_unchecked(d)
    }

    /// Reads the fields of account data of this type, without looking at its
    /// discriminator.
    pub fn try_deserialize_unchecked(d: &[u8]) -> (r: Result<RewardVendor, Error>)
        requires
            d@.len() >= 8,
        ensures
            r == spec_read_unchecked(read_reward_vendor(d@, 8)),
    {
        match get_reward_vendor(d, 8) {
            Some((x, _)) => Ok(x),
            None => Err(Error::ProgramError(FrameworkError::AccountDidNotDeserialize)),
        }
    }

    /// The account data of this value: discriminator, then fields.
    pub fn try_serialize(&self) -> (v: Vec<u8>)
        ensures
            v@ == Self::spec_discriminator() + enc_reward_vendor(*self),
    {
        let mut v: Vec<u8> = Vec::new();
        let disc = Self::discriminator();
        let mut i: usize = 0;
        while i < 8
            invariant
                i <= 8,
                disc@ == Self::spec_discriminator(),
                v@ == disc@.subrange(0, i as int),
            decreases 8 - i,
        {
            v.push(disc[i]);
            assert(v@ =~= disc@.subrange(0, i + 1));
            i = i + 1;
        }
        assert(v@ =~= Self::spec_discriminator());
        put_reward_vendor(&mut v, self);
        v
    }
}

/// Account data written for a value reads back as that value, whatever
/// follows it.
pub proof fn lemma_reward_vendor_data_round_trip(x: RewardVendor, rest: Seq<u8>)
    ensures
        RewardVendor::spec_try_deserialize(RewardVendor::spec_discriminator() + enc_reward_vendor(x) + rest) == Ok::<RewardVendor, Error>(x),
{
    let d = RewardVendor::spec_discriminator() + enc_reward_vendor(x) + rest;
    assert(d.subrange(0, 8) =~= RewardVendor::spec_discriminator());
    assert(d.subrange(8, (8 + enc_reward_vendor(x).len()) as int) =~= enc_reward_vendor(x));
    lemma_read_reward_vendor(d, 8, x);
}

impl Vesting {
    /// The eight bytes that mark account data of this type.
    pub open spec fn spec_discriminator() -> Seq<u8> {
        seq![100u8, 149u8, 66u8, 138u8, 95u8, 200u8, 128u8, 241u8]
    }

    /// The eight bytes that mark account data of this type.
    pub fn discriminator() -> (disc: [u8; 8])
        ensures
            disc@ == Self::spec_discriminator(),
    {
        let disc: [u8; 8] = [100u8, 149u8, 66u8, 138u8, 95u8, 200u8, 128u8, 241u8];
        assert(disc@ =~= Self::spec_discriminator());
        disc
    }

    /// The outcome of reading account data of this type.
    pub open spec fn spec_try_deserialize(d: Seq<u8>) -> Result<Vesting, Error> {
        spec_read_account(d, Self::spec_discriminator(), read_vesting(d, 8))
    }

    /// Reads account data of this type: its discriminator, then its fields.
    pub fn try_deserialize(d: &[u8]) -> (r: Result<Vesting, Error>)
        ensures
            r == Self::spec_try_deserialize(d@),
    {
        if d.len() < 8 {
            return Err(Error::ProgramError(FrameworkError::AccountDiscriminatorNotFound));
        }
        if !starts_with8(d, &Self::discriminator()) {
            return Err(Error::ProgramError(FrameworkError::AccountDiscriminatorMismatch));
        }
        Self::try_deserialize_unchecked(d)
    }

    /// Reads the fields of account data of this type, without looking at its
    /// discriminator.
    pub fn try_deserialize_unchecked(d: &[u8]) -> (r: Result<Vesting, Error>)
        requires
            d@.len() >= 8,
        ensures
            r == spec_read_unchecked(read_vesting(d@, 8)),
    {
        match get_vesting(d, 8) {
            Some((x, _)) => Ok(x),
            None => Err(Error::ProgramError(FrameworkError::AccountDidNotDeserialize)),
        }
    }

    /// The account data of this value: discriminator, then fields.
    pub fn try_serialize(&self) -> (v: Vec<u8>)
        ensures
            v@ == Self::spec_discriminator() + enc_vesting(*self),
    {
        let mut v: Vec<u8> = Vec::new();
        let disc = Self::discriminator();
        let mut i: usize = 0;
        while i < 8
            invariant
                i <= 8,
                disc@ == Self::spec_discriminator(),
                v@ == disc@.subrange(0, i as int),
            decreases 8 - i,
        {
            v.push(disc[i]);
            assert(v@ =~= disc@.subrange(0, i + 1));
            i = i + 1;
        }
        assert(v@ =~= Self::spec_discriminator());
        put_vesting(&mut v, self);
        v
    }
}

/// Account data written for a value reads back as that value, whatever
/// follows it.
pub proof fn lemma_vesting_data_round_trip(x: Vesting, rest: Seq<u8>)
    ensures
        Vesting::spec_try_deserialize(Vesting::spec_discriminator() + enc_vesting(x) + rest) == Ok::<Vesting, Error>(x),
{
    let d = Vesting::spec_discriminator() + enc_vesting(x) + rest;
    assert(d.subrange(0, 8) =~= Vesting::spec_discriminator());
    assert(d.subrange(8, (8 + enc_vesting(x).len()) as int) =~= enc_vesting(x));
    lemma_read_vesting(d, 8, x);
}

/// Where the fields of a registry sit in its account data: after the eight-byte
/// discriminator, each field in declaration order, addresses as their 32 bytes, integers little endian, `bool` as one byte 0 or 1.
pub proof fn lemma_registry_layout(x: Registry)
    ensures
        ({
            let d = Registry::spec_discriminator() + enc_registry(x);
            &&& d.len() == 40
            &&& d.subrange(8, 40) == x.lockup_program.bytes()
        }),
{
    let d = Registry::spec_discriminator() + enc_registry(x);
    let e = enc_registry(x);
    lemma_enc_lens();
    assert(d.subrange(8, 8 + e.len() as int) =~= e);
}

/// Where the fields of a registrar sit in its account data: after the eight-byte
/// discriminator, each field in declaration order, addresses as their 32 bytes, integers little endian, `bool` as one byte 0 or 1.
pub proof fn lemma_registrar_layout(x: Registrar)
    ensures
        ({
            let d = Registrar::spec_discriminator() + enc_registrar(x);
            &&& d.len() == 153
            &&& d.subrange(8, 40) == x.authority.bytes()
            &&& d.subrange(40, 41) == seq![x.nonce]
            &&& d.subrange(41, 49) == vstd::bytes::spec_u64_to_le_bytes(x.withdrawal_timelock as u64)
            &&& d.subrange(49, 81) == x.reward_event_q.bytes()
            &&& d.subrange(81, 113) == x.mint.bytes()
            &&& d.subrange(113, 145) == x.pool_mint.bytes()
            &&& d.subrange(145, 153) == vstd::bytes::spec_u64_to_le_bytes(x.stake_rate)
        }),
{
    let d = Registrar::spec_discriminator() + enc_registrar(x);
    let e = enc_registrar(x);
    lemma_enc_lens();
    assert(d.subrange(8, 8 + e.len() as int) =~= e);
    lemma_lies_at_split(d, 8, enc_pubkey(x.authority) + enc_u8(x.nonce) + enc_i64(x.withdrawal_timelock) + enc_pubkey(x.reward_event_q) + enc_pubkey(x.mint) + enc_pubkey(x.pool_mint), enc_u64(x.stake_rate));
    lemma_lies_at_split(d, 8, enc_pubkey(x.authority) + enc_u8(x.nonce) + enc_i64(x.withdrawal_timelock) + enc_pubkey(x.reward_event_q) + enc_pubkey(x.mint), enc_pubkey(x.pool_mint));
    lemma_lies_at_split(d, 8, enc_pubkey(x.authority) + enc_u8(x.nonce) + enc_i64(x.withdrawal_timelock) + enc_pubkey(x.reward_event_q), enc_pubkey(x.mint));
    lemma_lies_at_split(d, 8, enc_pubkey(x.authority) + enc_u8(x.nonce) + enc_i64(x.withdrawal_timelock), enc_pubkey(x.reward_event_q));
    lemma_lies_at_split(d, 8, enc_pubkey(x.authority) + enc_u8(x.nonce), enc_i64(x.withdrawal_timelock));
    lemma_lies_at_split(d, 8, enc_pubkey(x.authority), enc_u8(x.nonce));
}

/// Where the fields of a member sit in its account data: after the eight-byte
/// discriminator, each field in declaration order, addresses as their 32 bytes, integers little endian, `bool` as one byte 0 or 1.
pub proof fn lemma_member_layout(x: Member)
    ensures
        ({
            let d = Member::spec_discriminator() + enc_member(x);
            &&& d.len() == 373
            &&& d.subrange(8, 40) == x.registrar.bytes()
            &&& d.subrange(40, 72) == x.beneficiary.bytes()
            &&& d.subrange(72, 104) == x.metadata.bytes()
            &&& d.subrange(104, 136) == x.balances.spt.bytes()
            &&& d.subrange(136, 168) == x.balances.vault.bytes()
            &&& d.subrange(168, 200) == x.balances.vault_stake.bytes()
            &&& d.subrange(200, 232) == x.balances.vault_pw.bytes()
            &&& d.subrange(232, 264) == x.balances_locked.spt.bytes()
            &&& d.subrange(264, 296) == x.balances_locked.vault.bytes()
            &&& d.subrange(296, 328) == x.balances_locked.vault_stake.bytes()
            &&& d.subrange(328, 360) == x.balances_locked.vault_pw.bytes()
            &&& d.subrange(360, 364) == vstd::bytes::spec_u32_to_le_bytes(x.rewards_cursor)
            &&& d.subrange(364, 372) == vstd::bytes::spec_u64_to_le_bytes(x.last_stake_ts as u64)
            &&& d.subrange(372, 373) == seq![x.nonce]
        }),
{
    let d = Member::spec_discriminator() + enc_member(x);
    let e = enc_member(x);
    lemma_enc_lens();
    assert(d.subrange(8, 8 + e.len() as int) =~= e);
    lemma_lies_at_split(d, 8, enc_pubkey(x.registrar) + enc_pubkey(x.beneficiary) + enc_pubkey(x.metadata) + enc_balance_sandbox(x.balances) + enc_balance_sandbox(x.balances_locked) + enc_u32(x.rewards_cursor) + enc_i64(x.last_stake_ts), enc_u8(x.nonce));
    lemma_lies_at_split(d, 8, enc_pubkey(x.registrar) + enc_pubkey(x.beneficiary) + enc_pubkey(x.metadata) + enc_balance_sandbox(x.balances) + enc_balance_sandbox(x.balances_locked) + enc_u32(x.rewards_cursor), enc_i64(x.last_stake_ts));
    lemma_lies_at_split(d, 8, enc_pubkey(x.registrar) + enc_pubkey(x.beneficiary) + enc_pubkey(x.metadata) + enc_balance_sandbox(x.balances) + enc_balance_sandbox(x.balances_locked), enc_u32(x.rewards_cursor));
    lemma_lies_at_split(d, 8, enc_pubkey(x.registrar) + enc_pubkey(x.beneficiary) + enc_pubkey(x.metadata) + enc_balance_sandbox(x.balances), enc_balance_sandbox(x.balances_locked));
    lemma_lies_at_split(d, 8, enc_pubkey(x.registrar) + enc_pubkey(x.beneficiary) + enc_pubkey(x.metadata), enc_balance_sandbox(x.balances));
    lemma_lies_at_split(d, 8, enc_pubkey(x.registrar) + enc_pubkey(x.beneficiary), enc_pubkey(x.metadata));
    lemma_lies_at_split(d, 8, enc_pubkey(x.registrar), enc_pubkey(x.beneficiary));
    lemma_lies_at_split(d, (8 + (enc_pubkey(x.registrar) + enc_pubkey(x.beneficiary) + enc_pubkey(x.metadata)).len()) as int, enc_pubkey(x.balances.spt) + enc_pubkey(x.balances.vault) + enc_pubkey(x.balances.vault_stake), enc_pubkey(x.balances.vault_pw));
    lemma_lies_at_split(d, (8 + (enc_pubkey(x.registrar) + enc_pubkey(x.beneficiary) + enc_pubkey(x.metadata)).len()) as int, enc_pubkey(x.balances.spt) + enc_pubkey(x.balances.vault), enc_pubkey(x.balances.vault_stake));
    lemma_lies_at_split(d, (8 + (enc_pubkey(x.registrar) + enc_pubkey(x.beneficiary) + enc_pubkey(x.metadata)).len()) as int, enc_pubkey(x.balances.spt), enc_pubkey(x.balances.vault));
    lemma_lies_at_split(d, (8 + (enc_pubkey(x.registrar) + enc_pubkey(x.beneficiary) + enc_pubkey(x.metadata) + enc_balance_sandbox(x.balances)).len()) as int, enc_pubkey(x.balances_locked.spt) + enc_pubkey(x.balances_locked.vault) + enc_pubkey(x.balances_locked.vault_stake), enc_pubkey(x.balances_locked.vault_pw));
    lemma_lies_at_split(d, (8 + (enc_pubkey(x.registrar) + enc_pubkey(x.beneficiary) + enc_pubkey(x.metadata) + enc_balance_sandbox(x.balances)).len()) as int, enc_pubkey(x.balances_locked.spt) + enc_pubkey(x.balances_locked.vault), enc_pubkey(x.balances_locked.vault_stake));
    lemma_lies_at_split(d, (8 + (enc_pubkey(x.registrar) + enc_pubkey(x.beneficiary) + enc_pubkey(x.metadata) + enc_balance_sandbox(x.balances)).len()) as int, enc_pubkey(x.balances_locked.spt), enc_pubkey(x.balances_locked.vault));
}

/// Where the fields of a pending withdrawal sit in its account data: after the eight-byte
/// discriminator, each field in declaration order, addresses as their 32 bytes, integers little endian, `bool` as one byte 0 or 1.
pub proof fn lemma_pending_withdrawal_layout(x: PendingWithdrawal)
    ensures
        ({
            let d = PendingWithdrawal::spec_discriminator() + enc_pending_withdrawal(x);
            &&& d.len() == 130
            &&& d.subrange(8, 40) == x.registrar.bytes()
            &&& d.subrange(40, 72) == x.member.bytes()
            &&& d.subrange(72, 73) == seq![if x.burned { 1u8 } else { 0u8 }]
            &&& d.subrange(73, 105) == x.pool.bytes()
            &&& d.subrange(105, 113) == vstd::bytes::spec_u64_to_le_bytes(x.start_ts as u64)
            &&& d.subrange(113, 121) == vstd::bytes::spec_u64_to_le_bytes(x.end_ts as u64)
            &&& d.subrange(121, 129) == vstd::bytes::spec_u64_to_le_bytes(x.amount)
            &&& d.subrange(129, 130) == seq![if x.locked { 1u8 } else { 0u8 }]
        }),
{
    let d = PendingWithdrawal::spec_discriminator() + enc_pending_withdrawal(x);
    let e = enc_pending_withdrawal(x);
    lemma_enc_lens();
    assert(d.subrange(8, 8 + e.len() as int) =~= e);
    lemma_lies_at_split(d, 8, enc_pubkey(x.registrar) + enc_pubkey(x.member) + enc_bool(x.burned) + enc_pubkey(x.pool) + enc_i64(x.start_ts) + enc_i64(x.end_ts) + enc_u64(x.amount), enc_bool(x.locked));
    lemma_lies_at_split(d, 8, enc_pubkey(x.registrar) + enc_pubkey(x.member) + enc_bool(x.burned) + enc_pubkey(x.pool) + enc_i64(x.start_ts) + enc_i64(x.end_ts), enc_u64(x.amount));
    lemma_lies_at_split(d, 8, enc_pubkey(x.registrar) + enc_pubkey(x.member) + enc_bool(x.burned) + enc_pubkey(x.pool) + enc_i64(x.start_ts), enc_i64(x.end_ts));
    lemma_lies_at_split(d, 8, enc_pubkey(x.registrar) + enc_pubkey(x.member) + enc_bool(x.burned) + enc_pubkey(x.pool), enc_i64(x.start_ts));
    lemma_lies_at_split(d, 8, enc_pubkey(x.registrar) + enc_pubkey(x.member) + enc_bool(x.burned), enc_pubkey(x.pool));
    lemma_lies_at_split(d, 8, enc_pubkey(x.registrar) + enc_pubkey(x.member), enc_bool(x.burned));
    lemma_lies_at_split(d, 8, enc_pubkey(x.registrar), enc_pubkey(x.member));
}

/// Where the fields of a reward vendor sit in its account data: after the eight-byte
/// discriminator, each field in declaration order, addresses as their 32 bytes, integers little endian, `bool` as one byte 0 or 1.
pub proof fn lemma_reward_vendor_layout(x: RewardVendor)
    ensures
        ({
            let d = RewardVendor::spec_discriminator() + enc_reward_vendor(x);
            &&& d.len() == (206 + enc_kind(x.kind).len()) as int
            &&& d.subrange(8, 40) == x.registrar.bytes()
            &&& d.subrange(40, 72) == x.vault.bytes()
            &&& d.subrange(72, 104) == x.mint.bytes()
            &&& d.subrange(104, 105) == seq![x.nonce]
            &&& d.subrange(105, 113) == vstd::bytes::spec_u64_to_le_bytes(x.pool_token_supply)
            &&& d.subrange(113, 117) == vstd::bytes::spec_u32_to_le_bytes(x.reward_event_q_cursor)
            &&& d.subrange(117, 125) == vstd::bytes::spec_u64_to_le_bytes(x.start_ts as u64)
            &&& d.subrange(125, 133) == vstd::bytes::spec_u64_to_le_bytes(x.expiry_ts as u64)
            &&& d.subrange(133, 165) == x.expiry_receiver.bytes()
            &&& d.subrange(165, 197) == x.from.bytes()
            &&& d.subrange(197, 205) == vstd::bytes::spec_u64_to_le_bytes(x.total)
            &&& d.subrange(205, 206) == seq![if x.expired { 1u8 } else { 0u8 }]
            &&& d.subrange(206, (206 + enc_kind(x.kind).len()) as int) == enc_kind(x.kind)
        }),
{
    let d = RewardVendor::spec_discriminator() + enc_reward_vendor(x);
    let e = enc_reward_vendor(x);
    lemma_enc_lens();
    assert(d.subrange(8, 8 + e.len() as int) =~= e);
    lemma_lies_at_split(d, 8, enc_pubkey(x.registrar) + enc_pubkey(x.vault) + enc_pubkey(x.mint) + enc_u8(x.nonce) + enc_u64(x.pool_token_supply) + enc_u32(x.reward_event_q_cursor) + enc_i64(x.start_ts) + enc_i64(x.expiry_ts) + enc_pubkey(x.expiry_receiver) + enc_pubkey(x.from) + enc_u64(x.total) + enc_bool(x.expired), enc_kind(x.kind));
    lemma_lies_at_split(d, 8, enc_pubkey(x.registrar) + enc_pubkey(x.vault) + enc_pubkey(x.mint) + enc_u8(x.nonce) + enc_u64(x.pool_token_supply) + enc_u32(x.reward_event_q_cursor) + enc_i64(x.start_ts) + enc_i64(x.expiry_ts) + enc_pubkey(x.expiry_receiver) + enc_pubkey(x.from) + enc_u64(x.total), enc_bool(x.expired));
    lemma_lies_at_split(d, 8, enc_pubkey(x.registrar) + enc_pubkey(x.vault) + enc_pubkey(x.mint) + enc_u8(x.nonce) + enc_u64(x.pool_token_supply) + enc_u32(x.reward_event_q_cursor) + enc_i64(x.start_ts) + enc_i64(x.expiry_ts) + enc_pubkey(x.expiry_receiver) + enc_pubkey(x.from), enc_u64(x.total));
    lemma_lies_at_split(d, 8, enc_pubkey(x.registrar) + enc_pubkey(x.vault) + enc_pubkey(x.mint) + enc_u8(x.nonce) + enc_u64(x.pool_token_supply) + enc_u32(x.reward_event_q_cursor) + enc_i64(x.start_ts) + enc_i64(x.expiry_ts) + enc_pubkey(x.expiry_receiver), enc_pubkey(x.from));
    lemma_lies_at_split(d, 8, enc_pubkey(x.registrar) + enc_pubkey(x.vault) + enc_pubkey(x.mint) + enc_u8(x.nonce) + enc_u64(x.pool_token_supply) + enc_u32(x.reward_event_q_cursor) + enc_i64(x.start_ts) + enc_i64(x.expiry_ts), enc_pubkey(x.expiry_receiver));
    lemma_lies_at_split(d, 8, enc_pubkey(x.registrar) + enc_pubkey(x.vault) + enc_pubkey(x.mint) + enc_u8(x.nonce) + enc_u64(x.pool_token_supply) + enc_u32(x.reward_event_q_cursor) + enc_i64(x.start_ts), enc_i64(x.expiry_ts));
    lemma_lies_at_split(d, 8, enc_pubkey(x.registrar) + enc_pubkey(x.vault) + enc_pubkey(x.mint) + enc_u8(x.nonce) + enc_u64(x.pool_token_supply) + enc_u32(x.reward_event_q_cursor), enc_i64(x.start_ts));
    lemma_lies_at_split(d, 8, enc_pubkey(x.registrar) + enc_pubkey(x.vault) + enc_pubkey(x.mint) + enc_u8(x.nonce) + enc_u64(x.pool_token_supply), enc_u32(x.reward_event_q_cursor));
    lemma_lies_at_split(d, 8, enc_pubkey(x.registrar) + enc_pubkey(x.vault) + enc_pubkey(x.mint) + enc_u8(x.nonce), enc_u64(x.pool_token_supply));
    lemma_lies_at_split(d, 8, enc_pubkey(x.registrar) + enc_pubkey(x.vault) + enc_pubkey(x.mint), enc_u8(x.nonce));
    lemma_lies_at_split(d, 8, enc_pubkey(x.registrar) + enc_pubkey(x.vault), enc_pubkey(x.mint));
    lemma_lies_at_split(d, 8, enc_pubkey(x.registrar), enc_pubkey(x.vault));
}

/// Where the fields of a vesting account sit in its account data: after the eight-byte
/// discriminator, each field in declaration order, addresses as their 32 bytes, integers little endian, `bool` as one byte 0 or 1.
pub proof fn lemma_vesting_layout(x: Vesting)
    ensures
        ({
            let d = Vesting::spec_discriminator() + enc_vesting(x);
            &&& d.len() == (193 + enc_opt_realizor(x.realizor).len()) as int
            &&& d.subrange(8, 40) == x.beneficiary.bytes()
            &&& d.subrange(40, 72) == x.mint.bytes()
            &&& d.subrange(72, 104) == x.vault.bytes()
            &&& d.subrange(104, 136) == x.grantor.bytes()
            &&& d.subrange(136, 144) == vstd::bytes::spec_u64_to_le_bytes(x.outstanding)
            &&& d.subrange(144, 152) == vstd::bytes::spec_u64_to_le_bytes(x.start_balance)
            &&& d.subrange(152, 160) == vstd::bytes::spec_u64_to_le_bytes(x.created_ts as u64)
            &&& d.subrange(160, 168) == vstd::bytes::spec_u64_to_le_bytes(x.start_ts as u64)
            &&& d.subrange(168, 176) == vstd::bytes::spec_u64_to_le_bytes(x.end_ts as u64)
            &&& d.subrange(176, 184) == vstd::bytes::spec_u64_to_le_bytes(x.period_count)
            &&& d.subrange(184, 192) == vstd::bytes::spec_u64_to_le_bytes(x.whitelist_owned)
            &&& d.subrange(192, 193) == seq![x.nonce]
            &&& d.subrange(193, (193 + enc_opt_realizor(x.realizor).len()) as int) == enc_opt_realizor(x.realizor)
        }),
{
    let d = Vesting::spec_discriminator() + enc_vesting(x);
    let e = enc_vesting(x);
    lemma_enc_lens();
    assert(d.subrange(8, 8 + e.len() as int) =~= e);
    lemma_lies_at_split(d, 8, enc_pubkey(x.beneficiary) + enc_pubkey(x.mint) + enc_pubkey(x.vault) + enc_pubkey(x.grantor) + enc_u64(x.outstanding) + enc_u64(x.start_balance) + enc_i64(x.created_ts) + enc_i64(x.start_ts) + enc_i64(x.end_ts) + enc_u64(x.period_count) + enc_u64(x.whitelist_owned) + enc_u8(x.nonce), enc_opt_realizor(x.realizor));
    lemma_lies_at_split(d, 8, enc_pubkey(x.beneficiary) + enc_pubkey(x.mint) + enc_pubkey(x.vault) + enc_pubkey(x.grantor) + enc_u64(x.outstanding) + enc_u64(x.start_balance) + enc_i64(x.created_ts) + enc_i64(x.start_ts) + enc_i64(x.end_ts) + enc_u64(x.period_count) + enc_u64(x.whitelist_owned), enc_u8(x.nonce));
    lemma_lies_at_split(d, 8, enc_pubkey(x.beneficiary) + enc_pubkey(x.mint) + enc_pubkey(x.vault) + enc_pubkey(x.grantor) + enc_u64(x.outstanding) + enc_u64(x.start_balance) + enc_i64(x.created_ts) + enc_i64(x.start_ts) + enc_i64(x.end_ts) + enc_u64(x.period_count), enc_u64(x.whitelist_owned));
    lemma_lies_at_split(d, 8, enc_pubkey(x.beneficiary) + enc_pubkey(x.mint) + enc_pubkey(x.vault) + enc_pubkey(x.grantor) + enc_u64(x.outstanding) + enc_u64(x.start_balance) + enc_i64(x.created_ts) + enc_i64(x.start_ts) + enc_i64(x.end_ts), enc_u64(x.period_count));
    lemma_lies_at_split(d, 8, enc_pubkey(x.beneficiary) + enc_pubkey(x.mint) + enc_pubkey(x.vault) + enc_pubkey(x.grantor) + enc_u64(x.outstanding) + enc_u64(x.start_balance) + enc_i64(x.created_ts) + enc_i64(x.start_ts), enc_i64(x.end_ts));
    lemma_lies_at_split(d, 8, enc_pubkey(x.beneficiary) + enc_pubkey(x.mint) + enc_pubkey(x.vault) + enc_pubkey(x.grantor) + enc_u64(x.outstanding) + enc_u64(x.start_balance) + enc_i64(x.created_ts), enc_i64(x.start_ts));
    lemma_lies_at_split(d, 8, enc_pubkey(x.beneficiary) + enc_pubkey(x.mint) + enc_pubkey(x.vault) + enc_pubkey(x.grantor) + enc_u64(x.outstanding) + enc_u64(x.start_balance), enc_i64(x.created_ts));
    lemma_lies_at_split(d, 8, enc_pubkey(x.beneficiary) + enc_pubkey(x.mint) + enc_pubkey(x.vault) + enc_pubkey(x.grantor) + enc_u64(x.outstanding), enc_u64(x.start_balance));
    lemma_lies_at_split(d, 8, enc_pubkey(x.beneficiary) + enc_pubkey(x.mint) + enc_pubkey(x.vault) + enc_pubkey(x.grantor), enc_u64(x.outstanding));
    lemma_lies_at_split(d, 8, enc_pubkey(x.beneficiary) + enc_pubkey(x.mint) + enc_pubkey(x.vault), enc_pubkey(x.grantor));
    lemma_lies_at_split(d, 8, enc_pubkey(x.beneficiary) + enc_pubkey(x.mint), enc_pubkey(x.vault));
    lemma_lies_at_split(d, 8, enc_pubkey(x.beneficiary), enc_pubkey(x.mint));
}

/// Where the fields of the member data the realizor reads sit in its bytes: each field in declaration
/// order, addresses as their 32 bytes, integers little endian, `bool` as one byte 0 or 1.
pub proof fn lemma_member_data_layout(x: MemberData)
    ensures
        ({
            let d = enc_member_data(x);
            &&& d.len() == 160
            &&& d.subrange(0, 32) == x.registrar.bytes()
            &&& d.subrange(32, 64) == x.beneficiary.bytes()
            &&& d.subrange(64, 96) == x.metadata.bytes()
            &&& d.subrange(96, 128) == x.balances_spt.bytes()
            &&& d.subrange(128, 160) == x.balances_locked_spt.bytes()
        }),
{
    let d = enc_member_data(x);
    let e = enc_member_data(x);
    lemma_enc_lens();
    assert(d.subrange(0, e.len() as int) =~= e);
    lemma_lies_at_split(d, 0, enc_pubkey(x.registrar) + enc_pubkey(x.beneficiary) + enc_pubkey(x.metadata) + enc_pubkey(x.balances_spt), enc_pubkey(x.balances_locked_spt));
    lemma_lies_at_split(d, 0, enc_pubkey(x.registrar) + enc_pubkey(x.beneficiary) + enc_pubkey(x.metadata), enc_pubkey(x.balances_spt));
    lemma_lies_at_split(d, 0, enc_pubkey(x.registrar) + enc_pubkey(x.beneficiary), enc_pubkey(x.metadata));
    lemma_lies_at_split(d, 0, enc_pubkey(x.registrar), enc_pubkey(x.beneficiary));
}

/// Where the fields of a reward event sit in its bytes: each field in declaration
/// order, addresses as their 32 bytes, integers little endian, `bool` as one byte 0 or 1.
pub proof fn lemma_reward_event_layout(x: RewardEvent)
    ensures
        ({
            let d = enc_reward_event(x);
            &&& d.len() == 41
            &&& d.subrange(0, 32) == x.vendor.bytes()
            &&& d.subrange(32, 40) == vstd::bytes::spec_u64_to_le_bytes(x.ts as u64)
            &&& d.subrange(40, 41) == seq![if x.locked { 1u8 } else { 0u8 }]
        }),
{
    let d = enc_reward_event(x);
    let e = enc_reward_event(x);
    lemma_enc_lens();
    assert(d.subrange(0, e.len() as int) =~= e);
    lemma_lies_at_split(d, 0, enc_pubkey(x.vendor) + enc_i64(x.ts), enc_bool(x.locked));
    lemma_lies_at_split(d, 0, enc_pubkey(x.vendor), enc_i64(x.ts));
}

/// Where the fields of a set of balance accounts sit in its bytes: each field in declaration
/// order, addresses as their 32 bytes, integers little endian, `bool` as one byte 0 or 1.
pub proof fn lemma_balance_sandbox_layout(x: BalanceSandbox)
    ensures
        ({
            let d = enc_balance_sandbox(x);
            &&& d.len() == 128
            &&& d.subrange(0, 32) == x.spt.bytes()
            &&& d.subrange(32, 64) == x.vault.bytes()
            &&& d.subrange(64, 96) == x.vault_stake.bytes()
            &&& d.subrange(96, 128) == x.vault_pw.bytes()
        }),
{
    let d = enc_balance_sandbox(x);
    let e = enc_balance_sandbox(x);
    lemma_enc_lens();
    assert(d.subrange(0, e.len() as int) =~= e);
    lemma_lies_at_split(d, 0, enc_pubkey(x.spt) + enc_pubkey(x.vault) + enc_pubkey(x.vault_stake), enc_pubkey(x.vault_pw));
    lemma_lies_at_split(d, 0, enc_pubkey(x.spt) + enc_pubkey(x.vault), enc_pubkey(x.vault_stake));
    lemma_lies_at_split(d, 0, enc_pubkey(x.spt), enc_pubkey(x.vault));
}

} // verus!

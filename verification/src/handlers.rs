//! The instructions of the registry. Each takes its checked accounts, updates
//! the account data it owns, and returns the calls into other programs that
//! the runtime must make for it.
use vstd::prelude::*;
use crate::accounts::{
    Account, AccountRef, ClaimReward, ClaimRewardCommon, ClaimRewardLocked, CreateMember, Deposit,
    DepositLocked, DropReward, EndUnstake, ExpireReward, Initialize, IsRealized, NewRegistry,
    SetLockupProgram, Stake, StartUnstake, UpdateMember, UpdateMemberBalances,
    UpdateMemberBalancesLock, UpdateRegistrar, Withdraw, WithdrawLocked,
};
use crate::calls::{Call, Cpi, Signer};
use crate::error::{Error, ErrorCode};
use crate::pubkey::Pubkey;
use crate::rewards::{
    no_available_rewards, reward_amount, reward_eligible, spec_first_unprocessed,
    spec_no_available_rewards, spec_reward_amount, spec_reward_eligible,
};
use crate::reward_queue::RewardQueue;
use crate::state::{
    Member, PendingWithdrawal, Realizor, Registrar, Registry, RewardEvent, RewardVendor,
    RewardVendorKind, Vesting,
};

verus! {

/// The transfer of `amount` signed by the member's vault signer.
pub open spec fn member_transfer(registrar: Pubkey, member: Pubkey, nonce: u8, from: Pubkey, to: Pubkey, authority: Pubkey, amount: u64) -> Cpi {
    Cpi {
        call: Call::Transfer { from, to, authority, amount },
        signer: Signer::Owned { registrar, owner: member, nonce },
    }
}

// ---------------------------------------------------------------- stake

/// The outcome of `stake`: the member's new data and the calls.
pub open spec fn spec_stake(ctx: &Stake, spt_amount: u64) -> Result<(Member, Seq<Cpi>), Error> {
    match spec_no_available_rewards(&ctx.reward_event_q.data, ctx.member.data, ctx.balances.spt.data.amount) {
        Err(e) => Err(e),
        Ok(_) => Ok((
            Member { last_stake_ts: ctx.clock, ..ctx.member.data },
            seq![
                member_transfer(
                    ctx.registrar.info.key,
                    ctx.member.info.key,
                    ctx.member.data.nonce,
                    ctx.balances.vault.info.key,
                    ctx.balances.vault_stake.info.key,
                    ctx.member_signer.key,
                    (spt_amount * ctx.registrar.data.stake_rate) as u64,
                ),
                Cpi {
                    call: Call::MintTo {
                        mint: ctx.pool_mint.info.key,
                        to: ctx.balances.spt.info.key,
                        authority: ctx.registrar_signer.key,
                        amount: spt_amount,
                    },
                    signer: Signer::Registrar {
                        registrar: ctx.registrar.info.key,
                        nonce: ctx.registrar.data.nonce,
                    },
                },
            ],
        )),
    }
}

/// Stakes `spt_amount` pool tokens: moves `spt_amount * stake_rate` tokens
/// from the member's vault to its stake vault, mints the pool tokens to the
/// member, and records the stake time. Refused while the member has rewards
/// to collect.
pub fn stake(ctx: &Stake, spt_amount: u64) -> (r: Result<(Member, Vec<Cpi>), Error>)
    requires
        spec_first_unprocessed(&ctx.reward_event_q.data, ctx.member.data)
            < ctx.reward_event_q.data.spec_head() ==> ctx.reward_event_q.data.spec_capacity() > 0,
        spec_no_available_rewards(&ctx.reward_event_q.data, ctx.member.data, ctx.balances.spt.data.amount) is Ok
            ==> spt_amount * ctx.registrar.data.stake_rate <= u64::MAX,
    ensures
        spec_stake(ctx, spt_amount) == match r {
            Ok((m, calls)) => Ok::<(Member, Seq<Cpi>), Error>((m, calls@)),
            Err(e) => Err(e),
        },
{
    let nar = no_available_rewards(&ctx.reward_event_q.data, &ctx.member.data, &ctx.balances);
    if let Err(e) = nar {
        return Err(e);
    }
    let mut calls: Vec<Cpi> = Vec::new();
    let token_amount = spt_amount * ctx.registrar.data.stake_rate;
    calls.push(Cpi {
        call: Call::Transfer {
            from: ctx.balances.vault.info.key,
            to: ctx.balances.vault_stake.info.key,
            authority: ctx.member_signer.key,
            amount: token_amount,
        },
        signer: Signer::Owned {
            registrar: ctx.registrar.info.key,
            owner: ctx.member.info.key,
            nonce: ctx.member.data.nonce,
        },
    });
    calls.push(Cpi {
        call: Call::MintTo {
            mint: ctx.pool_mint.info.key,
            to: ctx.balances.spt.info.key,
            authority: ctx.registrar_signer.key,
            amount: spt_amount,
        },
        signer: Signer::Registrar { registrar: ctx.registrar.info.key, nonce: ctx.registrar.data.nonce },
    });
    let member = Member { last_stake_ts: ctx.clock, ..ctx.member.data };
    assert(calls@ =~= spec_stake(ctx, spt_amount).unwrap().1);
    Ok((member, calls))
}

// ---------------------------------------------------------------- registry

/// Records the lockup program given to the new registry.
pub fn new_registry(ctx: &NewRegistry) -> (r: Result<Registry, Error>)
    ensures
        r == Ok::<Registry, Error>(Registry { lockup_program: ctx.lockup_program.key }),
{
    Ok(Registry { lockup_program: ctx.lockup_program.key })
}

/// The text of the only address allowed to change the lockup program.
pub open spec fn spec_program_authority_text() -> Seq<char> {
    "HUgFuN4PbvF5YzjDSw9dQ8uTJUcwm2ANsMXwvRdY4ABx"@
}

/// The only address allowed to change the lockup program, decoded from its
/// base-58 text (`None` when the text does not decode).
pub fn program_authority() -> (r: Option<Pubkey>)
    ensures
        (match r {
            Some(k) => Some(k.bytes()),
            None => None::<Seq<u8>>,
        }) == crate::pubkey::spec_parse_pubkey(spec_program_authority_text()),
{
    crate::pubkey::parse_pubkey("HUgFuN4PbvF5YzjDSw9dQ8uTJUcwm2ANsMXwvRdY4ABx")
}

/// The outcome of `set_lockup_program`, given the program authority.
pub open spec fn spec_set_lockup_program(ctx: &SetLockupProgram, lockup_program: Pubkey, expected: Pubkey) -> Result<Registry, Error> {
    if ctx.authority.key != expected {
        Err(Error::ErrorCode(ErrorCode::InvalidProgramAuthority))
    } else {
        Ok(Registry { lockup_program })
    }
}

/// Replaces the registry's lockup program; only the program authority
/// `expected` (see `program_authority`) may do so.
pub fn set_lockup_program(ctx: &SetLockupProgram, lockup_program: Pubkey, expected: Pubkey) -> (r: Result<Registry, Error>)
    ensures
        r == spec_set_lockup_program(ctx, lockup_program, expected),
{
    if !ctx.authority.key.equals(&expected) {
        return Err(Error::ErrorCode(ErrorCode::InvalidProgramAuthority));
    }
    Ok(Registry { lockup_program })
}

/// `set_lockup_program` as the program runs it, with the program authority
/// decoded from its text: `None` where the text does not decode, which stops
/// the program.
pub fn set_lockup_program_checked(ctx: &SetLockupProgram, lockup_program: Pubkey) -> (r: Option<Result<Registry, Error>>)
    ensures
        match crate::pubkey::spec_parse_pubkey(spec_program_authority_text()) {
            None => r is None,
            Some(k) => r == Some(spec_set_lockup_program(ctx, lockup_program, Pubkey::spec_from_bytes(k))),
        },
{
    match program_authority() {
        None => None,
        Some(expected) => {
            proof { expected.lemma_from_bytes(expected.bytes()); }
            Some(set_lockup_program(ctx, lockup_program, expected))
        },
    }
}

// ---------------------------------------------------------------- registrar

/// The outcome of checking that `nonce` derives the registrar's signer and
/// that the pool mint's authority is that signer.
pub open spec fn spec_initialize_accounts(ctx: &Initialize, program_id: Pubkey, nonce: u8) -> Result<(), Error> {
    match crate::pubkey::spec_create_program_address(crate::seeds::spec_registrar_seeds(ctx.registrar.info.key, nonce), program_id.bytes()) {
        None => Err(Error::ErrorCode(ErrorCode::InvalidNonce)),
        Some(k) => match ctx.pool_mint.data.mint_authority {
            Some(a) => if a.bytes() != k {
                Err(Error::ErrorCode(ErrorCode::InvalidPoolMintAuthority))
            } else {
                Ok(())
            },
            None => Err(Error::ErrorCode(ErrorCode::InvalidPoolMintAuthority)),
        },
    }
}

/// The registrar that `initialize` writes.
pub open spec fn spec_initialized_registrar(ctx: &Initialize, mint: Pubkey, authority: Pubkey, nonce: u8, withdrawal_timelock: i64, stake_rate: u64) -> Registrar {
    Registrar {
        authority,
        nonce,
        withdrawal_timelock,
        reward_event_q: ctx.reward_event_q.info.key,
        mint,
        pool_mint: ctx.pool_mint.info.key,
        stake_rate,
    }
}

/// Checks that `nonce` derives the registrar's signer and that the pool
/// mint's authority is that signer.
pub fn initialize_accounts(ctx: &Initialize, program_id: &Pubkey, nonce: u8) -> (r: Result<(), Error>)
    ensures
        r == spec_initialize_accounts(ctx, *program_id, nonce),
{
    let registrar_signer = match crate::pubkey::create_program_address(
        &crate::seeds::registrar_seeds(&ctx.registrar.info.key, nonce),
        program_id,
    ) {
        None => { return Err(Error::ErrorCode(ErrorCode::InvalidNonce)); },
        Some(k) => k,
    };
    match ctx.pool_mint.data.mint_authority {
        Some(a) => {
            proof { a.lemma_bytes_injective(registrar_signer); }
            if !a.equals(&registrar_signer) {
                return Err(Error::ErrorCode(ErrorCode::InvalidPoolMintAuthority));
            }
        },
        None => { return Err(Error::ErrorCode(ErrorCode::InvalidPoolMintAuthority)); },
    }
    Ok(())
}

/// What `initialize` gives back: on success the registrar it writes and the
/// queue resized to `reward_q_len` slots, keeping the slots that remain and
/// filling new ones with the empty event; on failure the error of its checks.
pub open spec fn spec_initialize_outcome(
    ctx: &Initialize,
    program_id: Pubkey,
    mint: Pubkey,
    authority: Pubkey,
    nonce: u8,
    withdrawal_timelock: i64,
    stake_rate: u64,
    reward_q_len: u32,
    r: Result<(Registrar, RewardQueue), Error>,
) -> bool {
    match r {
        Ok((registrar, q)) => {
            &&& spec_initialize_accounts(ctx, program_id, nonce) is Ok
            &&& registrar == spec_initialized_registrar(ctx, mint, authority, nonce, withdrawal_timelock, stake_rate)
            &&& q.spec_head() == ctx.reward_event_q.data.spec_head()
            &&& q.spec_tail() == ctx.reward_event_q.data.spec_tail()
            &&& q.spec_capacity() == reward_q_len
            &&& forall|i: int| 0 <= i < reward_q_len && i < ctx.reward_event_q.data.spec_capacity()
                ==> #[trigger] q.spec_events()[i] == ctx.reward_event_q.data.spec_events()[i]
            &&& forall|i: int| ctx.reward_event_q.data.spec_capacity() <= i < reward_q_len
                ==> #[trigger] q.spec_events()[i] == RewardEvent::spec_default()
        },
        Err(e) => spec_initialize_accounts(ctx, program_id, nonce) == Err::<(), Error>(e),
    }
}

/// Sets up a registrar: its pool mint must be minted by the address derived
/// from the registrar and `nonce`, and the reward queue gets `reward_q_len`
/// slots.
pub fn initialize(
    ctx: Initialize,
    program_id: &Pubkey,
    mint: Pubkey,
    authority: Pubkey,
    nonce: u8,
    withdrawal_timelock: i64,
    stake_rate: u64,
    reward_q_len: u32,
) -> (r: Result<(Registrar, RewardQueue), Error>)
    requires
        spec_initialize_accounts(&ctx, *program_id, nonce) is Ok ==> ctx.pool_mint.data.supply == 0,
    ensures
        spec_initialize_outcome(&ctx, *program_id, mint, authority, nonce, withdrawal_timelock, stake_rate, reward_q_len, r),
{
    let c = initialize_accounts(&ctx, program_id, nonce);
    if let Err(e) = c {
        return Err(e);
    }
    let registrar = Registrar {
        authority,
        nonce,
        withdrawal_timelock,
        reward_event_q: ctx.reward_event_q.info.key,
        mint,
        pool_mint: ctx.pool_mint.info.key,
        stake_rate,
    };
    let mut q = ctx.reward_event_q.data;
    q.resize(reward_q_len as usize);
    Ok((registrar, q))
}

/// The registrar after `update_registrar`: each given field replaced.
pub open spec fn spec_update_registrar(registrar: Registrar, new_authority: Option<Pubkey>, withdrawal_timelock: Option<i64>) -> Registrar {
    Registrar {
        authority: match new_authority {
            Some(a) => a,
            None => registrar.authority,
        },
        withdrawal_timelock: match withdrawal_timelock {
            Some(t) => t,
            None => registrar.withdrawal_timelock,
        },
        ..registrar
    }
}

/// Replaces the registrar's authority and withdrawal timelock where given.
pub fn update_registrar(ctx: &UpdateRegistrar, new_authority: Option<Pubkey>, withdrawal_timelock: Option<i64>) -> (r: Result<Registrar, Error>)
    ensures
        r == Ok::<Registrar, Error>(spec_update_registrar(ctx.registrar.data, new_authority, withdrawal_timelock)),
{
    let mut registrar = ctx.registrar.data;
    if let Some(a) = new_authority {
        registrar.authority = a;
    }
    if let Some(t) = withdrawal_timelock {
        registrar.withdrawal_timelock = t;
    }
    Ok(registrar)
}

// ---------------------------------------------------------------- members

/// `initialize` as the program runs it: `None` where the program stops
/// because the checks pass but the pool mint has already minted tokens,
/// otherwise the outcome of `initialize`.
pub fn initialize_checked(
    ctx: Initialize,
    program_id: &Pubkey,
    mint: Pubkey,
    authority: Pubkey,
    nonce: u8,
    withdrawal_timelock: i64,
    stake_rate: u64,
    reward_q_len: u32,
) -> (r: Option<Result<(Registrar, RewardQueue), Error>>)
    ensures
        r is None <==> (spec_initialize_accounts(&ctx, *program_id, nonce) is Ok && ctx.pool_mint.data.supply != 0),
        r matches Some(res) ==> spec_initialize_outcome(
            &ctx,
            *program_id,
            mint,
            authority,
            nonce,
            withdrawal_timelock,
            stake_rate,
            reward_q_len,
            res,
        ),
{
    if initialize_accounts(&ctx, program_id, nonce).is_ok() && ctx.pool_mint.data.supply != 0 {
        return None;
    }
    Some(initialize(ctx, program_id, mint, authority, nonce, withdrawal_timelock, stake_rate, reward_q_len))
}

/// The outcome of checking that `nonce` derives the member's signer.
pub open spec fn spec_member_signer_check(registrar: Pubkey, member: Pubkey, nonce: u8, program_id: Pubkey, member_signer: Pubkey) -> Result<(), Error> {
    match crate::pubkey::spec_create_program_address(crate::seeds::spec_owned_seeds(registrar, member, nonce), program_id.bytes()) {
        None => Err(Error::ErrorCode(ErrorCode::InvalidNonce)),
        Some(k) => if k != member_signer.bytes() {
            Err(Error::ErrorCode(ErrorCode::InvalidMemberSigner))
        } else {
            Ok(())
        },
    }
}

/// Checks that `nonce` derives the member's signer.
pub fn member_signer_check(registrar: &Pubkey, member: &Pubkey, nonce: u8, program_id: &Pubkey, member_signer: &Pubkey) -> (r: Result<(), Error>)
    ensures
        r == spec_member_signer_check(*registrar, *member, nonce, *program_id, *member_signer),
{
    match crate::pubkey::create_program_address(&crate::seeds::owned_seeds(registrar, member, nonce), program_id) {
        None => Err(Error::ErrorCode(ErrorCode::InvalidNonce)),
        Some(k) => {
            proof { k.lemma_bytes_injective(*member_signer); }
            if !k.equals(member_signer) {
                Err(Error::ErrorCode(ErrorCode::InvalidMemberSigner))
            } else {
                Ok(())
            }
        },
    }
}

/// The outcome of `create_member`.
pub open spec fn spec_create_member(ctx: &CreateMember, program_id: Pubkey, nonce: u8) -> Result<Member, Error> {
    match spec_member_signer_check(ctx.registrar.info.key, ctx.member.info.key, nonce, program_id, ctx.member_signer.key) {
        Err(e) => Err(e),
        Ok(_) => Ok(Member {
            registrar: ctx.registrar.info.key,
            beneficiary: ctx.beneficiary.key,
            nonce,
            ..ctx.member.data
        }),
    }
}

/// Makes the member account belong to the registrar and the beneficiary,
/// with the nonce of its vault signer.
pub fn create_member(ctx: &CreateMember, program_id: &Pubkey, nonce: u8) -> (r: Result<Member, Error>)
    ensures
        r == spec_create_member(ctx, *program_id, nonce),
{
    let c = member_signer_check(&ctx.registrar.info.key, &ctx.member.info.key, nonce, program_id, &ctx.member_signer.key);
    if let Err(e) = c {
        return Err(e);
    }
    Ok(Member {
        registrar: ctx.registrar.info.key,
        beneficiary: ctx.beneficiary.key,
        nonce,
        ..ctx.member.data
    })
}

/// The outcome of `update_member_balances`.
pub open spec fn spec_update_member_balances(ctx: &UpdateMemberBalances, program_id: Pubkey, nonce: u8) -> Result<Member, Error> {
    match spec_member_signer_check(ctx.registrar.info.key, ctx.member.info.key, nonce, program_id, ctx.member_signer.key) {
        Err(e) => Err(e),
        Ok(_) => Ok(Member { balances: ctx.balances.spec_sandbox(), ..ctx.member.data }),
    }
}

/// Records the member's balance accounts.
pub fn update_member_balances(ctx: &UpdateMemberBalances, program_id: &Pubkey, nonce: u8) -> (r: Result<Member, Error>)
    ensures
        r == spec_update_member_balances(ctx, *program_id, nonce),
{
    let c = member_signer_check(&ctx.registrar.info.key, &ctx.member.info.key, nonce, program_id, &ctx.member_signer.key);
    if let Err(e) = c {
        return Err(e);
    }
    Ok(Member { balances: ctx.balances.sandbox(), ..ctx.member.data })
}

/// The outcome of `update_member_balances_lock`.
pub open spec fn spec_update_member_balances_lock(ctx: &UpdateMemberBalancesLock, program_id: Pubkey, nonce: u8) -> Result<Member, Error> {
    match spec_member_signer_check(ctx.registrar.info.key, ctx.member.info.key, nonce, program_id, ctx.member_signer.key) {
        Err(e) => Err(e),
        Ok(_) => Ok(Member { balances_locked: ctx.balances_locked.spec_sandbox(), ..ctx.member.data }),
    }
}

/// Records the member's locked balance accounts.
pub fn update_member_balances_lock(ctx: &UpdateMemberBalancesLock, program_id: &Pubkey, nonce: u8) -> (r: Result<Member, Error>)
    ensures
        r == spec_update_member_balances_lock(ctx, *program_id, nonce),
{
    let c = member_signer_check(&ctx.registrar.info.key, &ctx.member.info.key, nonce, program_id, &ctx.member_signer.key);
    if let Err(e) = c {
        return Err(e);
    }
    Ok(Member { balances_locked: ctx.balances_locked.sandbox(), ..ctx.member.data })
}

/// Replaces the member's metadata account where given.
pub fn update_member(ctx: &UpdateMember, metadata: Option<Pubkey>) -> (r: Result<Member, Error>)
    ensures
        r == Ok::<Member, Error>(match metadata {
            Some(m) => Member { metadata: m, ..ctx.member.data },
            None => ctx.member.data,
        }),
{
    let mut member = ctx.member.data;
    if let Some(m) = metadata {
        member.metadata = m;
    }
    Ok(member)
}

// ---------------------------------------------------------------- deposits

/// Moves `amount` tokens from the depositor into the member's vault, on the
/// depositor authority's signature.
pub fn deposit(ctx: &Deposit, amount: u64) -> (r: Result<Vec<Cpi>, Error>)
    ensures
        r matches Ok(calls) && calls@ == seq![Cpi {
            call: Call::Transfer {
                from: ctx.depositor.key,
                to: ctx.vault.info.key,
                authority: ctx.depositor_authority.key,
                amount,
            },
            signer: Signer::Unsigned,
        }],
{
    let mut calls: Vec<Cpi> = Vec::new();
    calls.push(Cpi {
        call: Call::Transfer {
            from: ctx.depositor.key,
            to: ctx.vault.info.key,
            authority: ctx.depositor_authority.key,
            amount,
        },
        signer: Signer::Unsigned,
    });
    assert(calls@ =~= seq![calls@[0]]);
    Ok(calls)
}

/// Moves `amount` locked tokens from a vesting vault into the member's
/// locked vault, on the depositor authority's signature.
pub fn deposit_locked(ctx: &DepositLocked, amount: u64) -> (r: Result<Vec<Cpi>, Error>)
    ensures
        r matches Ok(calls) && calls@ == seq![Cpi {
            call: Call::Transfer {
                from: ctx.vesting_vault.key,
                to: ctx.member_vault.info.key,
                authority: ctx.depositor_authority.key,
                amount,
            },
            signer: Signer::Unsigned,
        }],
{
    let mut calls: Vec<Cpi> = Vec::new();
    calls.push(Cpi {
        call: Call::Transfer {
            from: ctx.vesting_vault.key,
            to: ctx.member_vault.info.key,
            authority: ctx.depositor_authority.key,
            amount,
        },
        signer: Signer::Unsigned,
    });
    assert(calls@ =~= seq![calls@[0]]);
    Ok(calls)
}

/// Moves `amount` tokens from the member's vault back to the depositor,
/// signed by the member's vault signer.
pub fn withdraw(ctx: &Withdraw, amount: u64) -> (r: Result<Vec<Cpi>, Error>)
    ensures
        r matches Ok(calls) && calls@ == seq![member_transfer(
            ctx.registrar.info.key,
            ctx.member.info.key,
            ctx.member.data.nonce,
            ctx.vault.info.key,
            ctx.depositor.key,
            ctx.member_signer.key,
            amount,
        )],
{
    let mut calls: Vec<Cpi> = Vec::new();
    calls.push(Cpi {
        call: Call::Transfer {
            from: ctx.vault.info.key,
            to: ctx.depositor.key,
            authority: ctx.member_signer.key,
            amount,
        },
        signer: Signer::Owned {
            registrar: ctx.registrar.info.key,
            owner: ctx.member.info.key,
            nonce: ctx.member.data.nonce,
        },
    });
    assert(calls@ =~= seq![calls@[0]]);
    Ok(calls)
}

/// Moves `amount` locked tokens from the member's locked vault back to the
/// vesting vault, signed by the member's vault signer.
pub fn withdraw_locked(ctx: &WithdrawLocked, amount: u64) -> (r: Result<Vec<Cpi>, Error>)
    ensures
        r matches Ok(calls) && calls@ == seq![member_transfer(
            ctx.registrar.info.key,
            ctx.member.info.key,
            ctx.member.data.nonce,
            ctx.member_vault.info.key,
            ctx.vesting_vault.key,
            ctx.member_signer.key,
            amount,
        )],
{
    let mut calls: Vec<Cpi> = Vec::new();
    calls.push(Cpi {
        call: Call::Transfer {
            from: ctx.member_vault.info.key,
            to: ctx.vesting_vault.key,
            authority: ctx.member_signer.key,
            amount,
        },
        signer: Signer::Owned {
            registrar: ctx.registrar.info.key,
            owner: ctx.member.info.key,
            nonce: ctx.member.data.nonce,
        },
    });
    assert(calls@ =~= seq![calls@[0]]);
    Ok(calls)
}

// ---------------------------------------------------------------- unstaking

/// The outcome of `start_unstake`: the pending withdrawal and the calls.
/// The member account is left as it is.
pub open spec fn spec_start_unstake(ctx: &StartUnstake, spt_amount: u64, locked: bool) -> Result<(PendingWithdrawal, Seq<Cpi>), Error> {
    match spec_no_available_rewards(&ctx.reward_event_q.data, ctx.member.data, ctx.balances.spt.data.amount) {
        Err(e) => Err(e),
        Ok(_) => {
            let token_amount = (spt_amount * ctx.registrar.data.stake_rate) as u64;
            Ok((
                PendingWithdrawal {
                    registrar: ctx.registrar.info.key,
                    member: ctx.member.info.key,
                    burned: false,
                    pool: ctx.registrar.data.pool_mint,
                    start_ts: ctx.clock,
                    end_ts: (ctx.clock + ctx.registrar.data.withdrawal_timelock) as i64,
                    amount: token_amount,
                    locked,
                },
                seq![
                    Cpi {
                        call: Call::Burn {
                            mint: ctx.pool_mint.key,
                            from: ctx.balances.spt.info.key,
                            authority: ctx.member_signer.key,
                            amount: spt_amount,
                        },
                        signer: Signer::Owned {
                            registrar: ctx.registrar.info.key,
                            owner: ctx.member.info.key,
                            nonce: ctx.member.data.nonce,
                        },
                    },
                    member_transfer(
                        ctx.registrar.info.key,
                        ctx.member.info.key,
                        ctx.member.data.nonce,
                        ctx.balances.vault_stake.info.key,
                        ctx.balances.vault_pw.info.key,
                        ctx.member_signer.key,
                        token_amount,
                    ),
                ],
            ))
        },
    }
}

/// Starts unstaking `spt_amount` pool tokens: burns them, moves
/// `spt_amount * stake_rate` tokens from the stake vault to the pending
/// withdrawal vault, and opens a pending withdrawal that completes after the
/// registrar's timelock. `ctx.balances` are the balance accounts the
/// withdrawal is `locked` to or not (see `StartUnstake::try_accounts`).
/// Refused while the member has rewards to collect.
pub fn start_unstake(ctx: &StartUnstake, spt_amount: u64, locked: bool) -> (r: Result<(PendingWithdrawal, Vec<Cpi>), Error>)
    requires
        spec_first_unprocessed(&ctx.reward_event_q.data, ctx.member.data)
            < ctx.reward_event_q.data.spec_head() ==> ctx.reward_event_q.data.spec_capacity() > 0,
        spec_no_available_rewards(&ctx.reward_event_q.data, ctx.member.data, ctx.balances.spt.data.amount) is Ok
            ==> spt_amount * ctx.registrar.data.stake_rate <= u64::MAX
                && i64::MIN <= ctx.clock + ctx.registrar.data.withdrawal_timelock <= i64::MAX,
    ensures
        spec_start_unstake(ctx, spt_amount, locked) == match r {
            Ok((pw, calls)) => Ok::<(PendingWithdrawal, Seq<Cpi>), Error>((pw, calls@)),
            Err(e) => Err(e),
        },
{
    let nar = no_available_rewards(&ctx.reward_event_q.data, &ctx.member.data, &ctx.balances);
    if let Err(e) = nar {
        return Err(e);
    }
    let signer = Signer::Owned {
        registrar: ctx.registrar.info.key,
        owner: ctx.member.info.key,
        nonce: ctx.member.data.nonce,
    };
    let mut calls: Vec<Cpi> = Vec::new();
    calls.push(Cpi {
        call: Call::Burn {
            mint: ctx.pool_mint.key,
            from: ctx.balances.spt.info.key,
            authority: ctx.member_signer.key,
            amount: spt_amount,
        },
        signer,
    });
    let token_amount = spt_amount * ctx.registrar.data.stake_rate;
    calls.push(Cpi {
        call: Call::Transfer {
            from: ctx.balances.vault_stake.info.key,
            to: ctx.balances.vault_pw.info.key,
            authority: ctx.member_signer.key,
            amount: token_amount,
        },
        signer,
    });
    let pending_withdrawal = PendingWithdrawal {
        registrar: ctx.registrar.info.key,
        member: ctx.member.info.key,
        burned: false,
        pool: ctx.registrar.data.pool_mint,
        start_ts: ctx.clock,
        end_ts: ctx.clock + ctx.registrar.data.withdrawal_timelock,
        amount: token_amount,
        locked,
    };
    assert(calls@ =~= spec_start_unstake(ctx, spt_amount, locked).unwrap().1);
    Ok((pending_withdrawal, calls))
}

/// The outcome of `end_unstake`: the spent pending withdrawal and the calls.
pub open spec fn spec_end_unstake(ctx: &EndUnstake) -> Result<(PendingWithdrawal, Seq<Cpi>), Error> {
    let pw = ctx.pending_withdrawal.data;
    let balances = if pw.locked {
        ctx.member.data.balances_locked
    } else {
        ctx.member.data.balances
    };
    if pw.end_ts > ctx.clock {
        Err(Error::ErrorCode(ErrorCode::UnstakeTimelock))
    } else if balances.vault != ctx.vault.key {
        Err(Error::ErrorCode(ErrorCode::InvalidVault))
    } else if balances.vault_pw != ctx.vault_pw.key {
        Err(Error::ErrorCode(ErrorCode::InvalidVault))
    } else {
        Ok((
            PendingWithdrawal { burned: true, ..pw },
            seq![member_transfer(
                ctx.registrar.info.key,
                ctx.member.info.key,
                ctx.member.data.nonce,
                ctx.vault_pw.key,
                ctx.vault.key,
                ctx.member_signer.key,
                pw.amount,
            )],
        ))
    }
}

/// Completes an unstake once its timelock has passed: moves the pending
/// tokens back to the member's vault and spends the pending withdrawal.
pub fn end_unstake(ctx: &EndUnstake) -> (r: Result<(PendingWithdrawal, Vec<Cpi>), Error>)
    ensures
        spec_end_unstake(ctx) == match r {
            Ok((pw, calls)) => Ok::<(PendingWithdrawal, Seq<Cpi>), Error>((pw, calls@)),
            Err(e) => Err(e),
        },
{
    let pw = ctx.pending_withdrawal.data;
    if pw.end_ts > ctx.clock {
        return Err(Error::ErrorCode(ErrorCode::UnstakeTimelock));
    }
    let balances = if pw.locked {
        ctx.member.data.balances_locked
    } else {
        ctx.member.data.balances
    };
    if !balances.vault.equals(&ctx.vault.key) {
        return Err(Error::ErrorCode(ErrorCode::InvalidVault));
    }
    if !balances.vault_pw.equals(&ctx.vault_pw.key) {
        return Err(Error::ErrorCode(ErrorCode::InvalidVault));
    }
    let mut calls: Vec<Cpi> = Vec::new();
    calls.push(Cpi {
        call: Call::Transfer {
            from: ctx.vault_pw.key,
            to: ctx.vault.key,
            authority: ctx.member_signer.key,
            amount: pw.amount,
        },
        signer: Signer::Owned {
            registrar: ctx.registrar.info.key,
            owner: ctx.member.info.key,
            nonce: ctx.member.data.nonce,
        },
    });
    assert(calls@ =~= spec_end_unstake(ctx).unwrap().1);
    Ok((PendingWithdrawal { burned: true, ..pw }, calls))
}

// ---------------------------------------------------------------- rewards

/// The outcome of the checks of `drop_reward` before it moves any tokens.
/// `schedule_valid` is the lockup program's verdict on a locked kind's
/// vesting schedule.
pub open spec fn spec_drop_reward_check(ctx: &DropReward, program_id: Pubkey, kind: RewardVendorKind, total: u64, expiry_ts: i64, nonce: u8, schedule_valid: bool) -> Result<(), Error> {
    let registrar = ctx.registrar.info.key;
    let vault_mint = ctx.vendor_vault.data.mint;
    let kind_check = match kind {
        RewardVendorKind::Locked { .. } => if !schedule_valid {
            Err(Error::ErrorCode(ErrorCode::InvalidVestingSchedule))
        } else {
            Ok(())
        },
        RewardVendorKind::Unlocked => Ok(()),
    };
    match crate::pubkey::spec_create_program_address(crate::seeds::spec_owned_seeds(registrar, ctx.vendor.info.key, nonce), program_id.bytes()) {
        None => Err(Error::ErrorCode(ErrorCode::InvalidNonce)),
        Some(k) => if k != ctx.vendor_vault.data.owner.bytes() {
            Err(Error::ErrorCode(ErrorCode::InvalidVaultOwner))
        } else if total < ctx.pool_mint.data.supply {
            Err(Error::ErrorCode(ErrorCode::InsufficientReward))
        } else if ctx.clock >= expiry_ts {
            Err(Error::ErrorCode(ErrorCode::InvalidExpiry))
        } else if registrar == crate::dxl_registrar::spec_id() {
            if vault_mint != crate::dxl_mint::spec_id() {
                Err(Error::ErrorCode(ErrorCode::InvalidMint))
            } else if total < crate::DXL_MIN_REWARD {
                Err(Error::ErrorCode(ErrorCode::InsufficientReward))
            } else {
                kind_check
            }
        } else if registrar == crate::fida_registrar::spec_id() {
            if vault_mint != crate::fida_mint::spec_id() {
                Err(Error::ErrorCode(ErrorCode::InvalidMint))
            } else if total < crate::FIDA_MIN_REWARD {
                Err(Error::ErrorCode(ErrorCode::InsufficientReward))
            } else {
                kind_check
            }
        } else if registrar == crate::srm_registrar::spec_id() || registrar == crate::msrm_registrar::spec_id() {
            if vault_mint != crate::srm_mint::spec_id() {
                Err(Error::ErrorCode(ErrorCode::InvalidMint))
            } else if total < crate::SRM_MIN_REWARD {
                Err(Error::ErrorCode(ErrorCode::InsufficientReward))
            } else {
                kind_check
            }
        } else {
            kind_check
        },
    }
}

/// The event `drop_reward` appends to the reward queue.
pub open spec fn spec_drop_event(ctx: &DropReward, kind: RewardVendorKind) -> RewardEvent {
    RewardEvent { vendor: ctx.vendor.info.key, ts: ctx.clock, locked: kind != RewardVendorKind::Unlocked }
}

/// The vendor `drop_reward` writes.
pub open spec fn spec_dropped_vendor(ctx: &DropReward, kind: RewardVendorKind, total: u64, expiry_ts: i64, expiry_receiver: Pubkey, nonce: u8) -> RewardVendor {
    RewardVendor {
        registrar: ctx.registrar.info.key,
        vault: ctx.vendor_vault.info.key,
        mint: ctx.vendor_vault.data.mint,
        nonce,
        pool_token_supply: ctx.pool_mint.data.supply,
        reward_event_q_cursor: ctx.reward_event_q.data.spec_head(),
        start_ts: ctx.clock,
        expiry_ts,
        expiry_receiver,
        from: ctx.depositor_authority.key,
        total,
        expired: false,
        kind,
    }
}

/// The transfer of the reward into the vendor's vault.
pub open spec fn spec_drop_transfer(ctx: &DropReward, total: u64) -> Cpi {
    Cpi {
        call: Call::Transfer {
            from: ctx.depositor.key,
            to: ctx.vendor_vault.info.key,
            authority: ctx.depositor_authority.key,
            amount: total,
        },
        signer: Signer::Unsigned,
    }
}

fn check_registrar_reward(registrar: &Pubkey, vault_mint: &Pubkey, total: u64, kind: &RewardVendorKind, schedule_valid: bool) -> (r: Result<(), Error>)
    ensures
        r == ({
            let kind_check = match *kind {
                RewardVendorKind::Locked { .. } => if !schedule_valid {
                    Err(Error::ErrorCode(ErrorCode::InvalidVestingSchedule))
                } else {
                    Ok(())
                },
                RewardVendorKind::Unlocked => Ok(()),
            };
            if *registrar == crate::dxl_registrar::spec_id() {
                if *vault_mint != crate::dxl_mint::spec_id() {
                    Err(Error::ErrorCode(ErrorCode::InvalidMint))
                } else if total < crate::DXL_MIN_REWARD {
                    Err(Error::ErrorCode(ErrorCode::InsufficientReward))
                } else {
                    kind_check
                }
            } else if *registrar == crate::fida_registrar::spec_id() {
                if *vault_mint != crate::fida_mint::spec_id() {
                    Err(Error::ErrorCode(ErrorCode::InvalidMint))
                } else if total < crate::FIDA_MIN_REWARD {
                    Err(Error::ErrorCode(ErrorCode::InsufficientReward))
                } else {
                    kind_check
                }
            } else if *registrar == crate::srm_registrar::spec_id() || *registrar
                == crate::msrm_registrar::spec_id() {
                if *vault_mint != crate::srm_mint::spec_id() {
                    Err(Error::ErrorCode(ErrorCode::InvalidMint))
                } else if total < crate::SRM_MIN_REWARD {
                    Err(Error::ErrorCode(ErrorCode::InsufficientReward))
                } else {
                    kind_check
                }
            } else {
                kind_check
            }
        }),
{
    if crate::dxl_registrar::check_id(registrar) {
        if !crate::dxl_mint::check_id(vault_mint) {
            return Err(Error::ErrorCode(ErrorCode::InvalidMint));
        }
        if total < crate::DXL_MIN_REWARD {
            return Err(Error::ErrorCode(ErrorCode::InsufficientReward));
        }
    } else if crate::fida_registrar::check_id(registrar) {
        if !crate::fida_mint::check_id(vault_mint) {
            return Err(Error::ErrorCode(ErrorCode::InvalidMint));
        }
        if total < crate::FIDA_MIN_REWARD {
            return Err(Error::ErrorCode(ErrorCode::InsufficientReward));
        }
    } else if crate::srm_registrar::check_id(registrar) || crate::msrm_registrar::check_id(registrar) {
        if !crate::srm_mint::check_id(vault_mint) {
            return Err(Error::ErrorCode(ErrorCode::InvalidMint));
        }
        if total < crate::SRM_MIN_REWARD {
            return Err(Error::ErrorCode(ErrorCode::InsufficientReward));
        }
    }
    match kind {
        RewardVendorKind::Locked { .. } => if !schedule_valid {
            Err(Error::ErrorCode(ErrorCode::InvalidVestingSchedule))
        } else {
            Ok(())
        },
        RewardVendorKind::Unlocked => Ok(()),
    }
}

/// The checks of `drop_reward` before it moves any tokens: the vendor's
/// vault signer, the amount, the expiry and a locked kind's schedule.
pub fn drop_reward_check(
    ctx: &DropReward,
    program_id: &Pubkey,
    kind: &RewardVendorKind,
    total: u64,
    expiry_ts: i64,
    nonce: u8,
    schedule_valid: bool,
) -> (r: Result<(), Error>)
    ensures
        r == spec_drop_reward_check(ctx, *program_id, *kind, total, expiry_ts, nonce, schedule_valid),
{
    let vendor_signer = match crate::pubkey::create_program_address(
        &crate::seeds::owned_seeds(&ctx.registrar.info.key, &ctx.vendor.info.key, nonce),
        program_id,
    ) {
        None => { return Err(Error::ErrorCode(ErrorCode::InvalidNonce)); },
        Some(k) => k,
    };
    proof { vendor_signer.lemma_bytes_injective(ctx.vendor_vault.data.owner); }
    if !vendor_signer.equals(&ctx.vendor_vault.data.owner) {
        return Err(Error::ErrorCode(ErrorCode::InvalidVaultOwner));
    }
    if total < ctx.pool_mint.data.supply {
        return Err(Error::ErrorCode(ErrorCode::InsufficientReward));
    }
    if ctx.clock >= expiry_ts {
        return Err(Error::ErrorCode(ErrorCode::InvalidExpiry));
    }
    let c = check_registrar_reward(&ctx.registrar.info.key, &ctx.vendor_vault.data.mint, total, kind, schedule_valid);
    if let Err(e) = c {
        return Err(e);
    }
    Ok(())
}

/// The reward queue can take one more event: it has a slot, its head cursor
/// can move on, and so can its tail cursor when the ring is full.
pub open spec fn spec_drop_queue_ok(q: RewardQueue) -> bool {
    &&& q.spec_capacity() > 0
    &&& q.spec_head() < u32::MAX
    &&& (q.spec_head() + 1) % (q.spec_capacity() as int) == (q.spec_tail() as int) % (q.spec_capacity() as int)
        ==> q.spec_tail() < u32::MAX
}

fn drop_queue_ok(q: &RewardQueue) -> (b: bool)
    ensures
        b == spec_drop_queue_ok(*q),
{
    if q.capacity() == 0 {
        return false;
    }
    if q.head() == u32::MAX {
        return false;
    }
    if q.index_of(q.head() + 1) == q.index_of(q.tail()) {
        q.tail() < u32::MAX
    } else {
        true
    }
}

/// What `drop_reward` gives back: on success the queue with the drop's event
/// appended, the vendor it writes and the transfer of the reward; on failure
/// the error of its checks.
pub open spec fn spec_drop_reward_outcome(
    ctx: &DropReward,
    program_id: Pubkey,
    kind: RewardVendorKind,
    total: u64,
    expiry_ts: i64,
    expiry_receiver: Pubkey,
    nonce: u8,
    schedule_valid: bool,
    r: Result<(RewardQueue, RewardVendor, Seq<Cpi>), Error>,
) -> bool {
    match r {
        Ok((q, vendor, calls)) => {
            &&& spec_drop_reward_check(ctx, program_id, kind, total, expiry_ts, nonce, schedule_valid) is Ok
            &&& RewardQueue::appended(ctx.reward_event_q.data, q, spec_drop_event(ctx, kind))
            &&& vendor == spec_dropped_vendor(ctx, kind, total, expiry_ts, expiry_receiver, nonce)
            &&& calls == seq![spec_drop_transfer(ctx, total)]
        },
        Err(e) => spec_drop_reward_check(ctx, program_id, kind, total, expiry_ts, nonce, schedule_valid) == Err::<(), Error>(e),
    }
}

/// Drops a reward of `total` tokens: checks the vendor's vault signer, the
/// amount (at least one token per pool token, and the pool's minimum for
/// known pools), the expiry and a locked kind's schedule; moves the tokens
/// into the vendor's vault, appends the drop to the reward queue and writes
/// the vendor. `schedule_valid` is the lockup program's verdict on the
/// schedule of a locked kind, and is not read for an unlocked one.
pub fn drop_reward(
    ctx: DropReward,
    program_id: &Pubkey,
    kind: RewardVendorKind,
    total: u64,
    expiry_ts: i64,
    expiry_receiver: Pubkey,
    nonce: u8,
    schedule_valid: bool,
) -> (r: Result<(RewardQueue, RewardVendor, Vec<Cpi>), Error>)
    requires
        spec_drop_reward_check(&ctx, *program_id, kind, total, expiry_ts, nonce, schedule_valid) is Ok
            ==> spec_drop_queue_ok(ctx.reward_event_q.data),
    ensures
        spec_drop_reward_outcome(
            &ctx,
            *program_id,
            kind,
            total,
            expiry_ts,
            expiry_receiver,
            nonce,
            schedule_valid,
            match r {
                Ok((q, vendor, calls)) => Ok((q, vendor, calls@)),
                Err(e) => Err(e),
            },
        ),
{
    let c = drop_reward_check(&ctx, program_id, &kind, total, expiry_ts, nonce, schedule_valid);
    if let Err(e) = c {
        return Err(e);
    }
    let mut calls: Vec<Cpi> = Vec::new();
    calls.push(Cpi {
        call: Call::Transfer {
            from: ctx.depositor.key,
            to: ctx.vendor_vault.info.key,
            authority: ctx.depositor_authority.key,
            amount: total,
        },
        signer: Signer::Unsigned,
    });
    let locked = match kind {
        RewardVendorKind::Unlocked => false,
        RewardVendorKind::Locked { .. } => true,
    };
    let event = RewardEvent { vendor: ctx.vendor.info.key, ts: ctx.clock, locked };
    let ghost q0 = ctx.reward_event_q.data;
    let mut q = ctx.reward_event_q.data;
    let cursor = match q.append(event) {
        Ok(c) => c,
        Err(e) => { return Err(e); },
    };
    let vendor = RewardVendor {
        registrar: ctx.registrar.info.key,
        vault: ctx.vendor_vault.info.key,
        mint: ctx.vendor_vault.data.mint,
        nonce,
        pool_token_supply: ctx.pool_mint.data.supply,
        reward_event_q_cursor: cursor,
        start_ts: ctx.clock,
        expiry_ts,
        expiry_receiver,
        from: ctx.depositor_authority.key,
        total,
        expired: false,
        kind,
    };
    assert(calls@ =~= seq![spec_drop_transfer(&ctx, total)]);
    Ok((q, vendor, calls))
}

/// `drop_reward` as the program runs it: `None` where the program stops
/// because the checks pass but the reward queue cannot take the event (no
/// slot, or a cursor at its largest value), otherwise the outcome of
/// `drop_reward`.
pub fn drop_reward_checked(
    ctx: DropReward,
    program_id: &Pubkey,
    kind: RewardVendorKind,
    total: u64,
    expiry_ts: i64,
    expiry_receiver: Pubkey,
    nonce: u8,
    schedule_valid: bool,
) -> (r: Option<Result<(RewardQueue, RewardVendor, Vec<Cpi>), Error>>)
    ensures
        r is None <==> (spec_drop_reward_check(&ctx, *program_id, kind, total, expiry_ts, nonce, schedule_valid) is Ok
            && !spec_drop_queue_ok(ctx.reward_event_q.data)),
        r matches Some(res) ==> spec_drop_reward_outcome(
            &ctx,
            *program_id,
            kind,
            total,
            expiry_ts,
            expiry_receiver,
            nonce,
            schedule_valid,
            match res {
                Ok((q, vendor, calls)) => Ok((q, vendor, calls@)),
                Err(e) => Err(e),
            },
        ),
{
    if drop_reward_check(&ctx, program_id, &kind, total, expiry_ts, nonce, schedule_valid).is_ok()
        && !drop_queue_ok(&ctx.reward_event_q.data) {
        return None;
    }
    Some(drop_reward(ctx, program_id, kind, total, expiry_ts, expiry_receiver, nonce, schedule_valid))
}

/// The reward a member's pool tokens earn from the vendor.
pub open spec fn spec_claim_amount(cmn: &ClaimRewardCommon) -> int {
    spec_reward_amount(
        cmn.balances_spt.data.amount + cmn.balances_locked_spt.data.amount,
        cmn.vendor.data.total as int,
        cmn.vendor.data.pool_token_supply as int,
    )
}

/// The arithmetic of a claim neither overflows nor divides by zero, the
/// reward is positive, and the member's cursor can move past the vendor.
pub open spec fn spec_claim_arithmetic_ok(cmn: &ClaimRewardCommon) -> bool {
    let spt_total = cmn.balances_spt.data.amount + cmn.balances_locked_spt.data.amount;
    &&& spt_total <= u64::MAX
    &&& spt_total * cmn.vendor.data.total <= u64::MAX
    &&& cmn.vendor.data.pool_token_supply > 0
    &&& spec_claim_amount(cmn) > 0
    &&& cmn.vendor.data.reward_event_q_cursor < u32::MAX
}

/// The member after a claim: its cursor moves past the vendor's event.
pub open spec fn spec_claimed_member(cmn: &ClaimRewardCommon) -> Member {
    Member { rewards_cursor: (cmn.vendor.data.reward_event_q_cursor + 1) as u32, ..cmn.member.data }
}

/// The outcome of `claim_reward`.
pub open spec fn spec_claim_reward(ctx: &ClaimReward) -> Result<(Member, Seq<Cpi>), Error> {
    let cmn = &ctx.cmn;
    match spec_reward_eligible(cmn.vendor.data, cmn.member.data) {
        Err(e) => Err(e),
        Ok(_) => if cmn.vendor.data.kind != RewardVendorKind::Unlocked {
            Err(Error::ErrorCode(ErrorCode::ExpectedUnlockedVendor))
        } else {
            Ok((
                spec_claimed_member(cmn),
                seq![Cpi {
                    call: Call::Transfer {
                        from: cmn.vault.key,
                        to: ctx.to.key,
                        authority: cmn.vendor_signer.key,
                        amount: spec_claim_amount(cmn) as u64,
                    },
                    signer: Signer::Owned {
                        registrar: cmn.registrar.info.key,
                        owner: cmn.vendor.info.key,
                        nonce: cmn.vendor.data.nonce,
                    },
                }],
            ))
        },
    }
}

/// Pays an eligible member its share of an unlocked reward: its free and
/// locked pool tokens times the drop, over the pool supply at the drop.
pub fn claim_reward(ctx: &ClaimReward) -> (r: Result<(Member, Vec<Cpi>), Error>)
    requires
        spec_reward_eligible(ctx.cmn.vendor.data, ctx.cmn.member.data) is Ok
            && ctx.cmn.vendor.data.kind == RewardVendorKind::Unlocked ==> spec_claim_arithmetic_ok(&ctx.cmn),
    ensures
        spec_claim_reward(ctx) == match r {
            Ok((m, calls)) => Ok::<(Member, Seq<Cpi>), Error>((m, calls@)),
            Err(e) => Err(e),
        },
{
    let cmn = &ctx.cmn;
    let e = reward_eligible(cmn);
    if let Err(e) = e {
        return Err(e);
    }
    if cmn.vendor.data.kind != RewardVendorKind::Unlocked {
        return Err(Error::ErrorCode(ErrorCode::ExpectedUnlockedVendor));
    }
    let spt_total = cmn.balances_spt.data.amount + cmn.balances_locked_spt.data.amount;
    let reward = spt_total * cmn.vendor.data.total / cmn.vendor.data.pool_token_supply;
    let mut calls: Vec<Cpi> = Vec::new();
    calls.push(Cpi {
        call: Call::Transfer {
            from: cmn.vault.key,
            to: ctx.to.key,
            authority: cmn.vendor_signer.key,
            amount: reward,
        },
        signer: Signer::Owned {
            registrar: cmn.registrar.info.key,
            owner: cmn.vendor.info.key,
            nonce: cmn.vendor.data.nonce,
        },
    });
    let member = Member { rewards_cursor: cmn.vendor.data.reward_event_q_cursor + 1, ..cmn.member.data };
    assert(calls@ =~= spec_claim_reward(ctx).unwrap().1);
    Ok((member, calls))
}

/// The outcome of `claim_reward_locked`.
pub open spec fn spec_claim_reward_locked(ctx: &ClaimRewardLocked, program_id: Pubkey, nonce: u8) -> Result<(Member, Seq<Cpi>), Error> {
    let cmn = &ctx.cmn;
    match spec_reward_eligible(cmn.vendor.data, cmn.member.data) {
        Err(e) => Err(e),
        Ok(_) => match cmn.vendor.data.kind {
            RewardVendorKind::Unlocked => Err(Error::ErrorCode(ErrorCode::ExpectedLockedVendor)),
            RewardVendorKind::Locked { start_ts, end_ts, period_count } => Ok((
                spec_claimed_member(cmn),
                seq![Cpi {
                    call: Call::CreateVesting {
                        beneficiary: cmn.member.data.beneficiary,
                        deposit_amount: spec_claim_amount(cmn) as u64,
                        nonce,
                        start_ts,
                        end_ts,
                        period_count,
                        realizor: Some(Realizor { program: program_id, metadata: cmn.member.info.key }),
                    },
                    signer: Signer::Owned {
                        registrar: cmn.registrar.info.key,
                        owner: cmn.vendor.info.key,
                        nonce: cmn.vendor.data.nonce,
                    },
                }],
            )),
        },
    }
}

/// Pays an eligible member its share of a locked reward into a new vesting
/// account of the lockup program on the vendor's schedule; the vesting is
/// realized only once the member holds no pool tokens.
pub fn claim_reward_locked(ctx: &ClaimRewardLocked, program_id: &Pubkey, nonce: u8) -> (r: Result<(Member, Vec<Cpi>), Error>)
    requires
        spec_reward_eligible(ctx.cmn.vendor.data, ctx.cmn.member.data) is Ok
            && ctx.cmn.vendor.data.kind != RewardVendorKind::Unlocked ==> spec_claim_arithmetic_ok(&ctx.cmn),
    ensures
        spec_claim_reward_locked(ctx, *program_id, nonce) == match r {
            Ok((m, calls)) => Ok::<(Member, Seq<Cpi>), Error>((m, calls@)),
            Err(e) => Err(e),
        },
{
    let cmn = &ctx.cmn;
    let e = reward_eligible(cmn);
    if let Err(e) = e {
        return Err(e);
    }
    let (start_ts, end_ts, period_count) = match cmn.vendor.data.kind {
        RewardVendorKind::Unlocked => { return Err(Error::ErrorCode(ErrorCode::ExpectedLockedVendor)); },
        RewardVendorKind::Locked { start_ts, end_ts, period_count } => (start_ts, end_ts, period_count),
    };
    let spt_total = cmn.balances_spt.data.amount + cmn.balances_locked_spt.data.amount;
    let reward = spt_total * cmn.vendor.data.total / cmn.vendor.data.pool_token_supply;
    let mut calls: Vec<Cpi> = Vec::new();
    calls.push(Cpi {
        call: Call::CreateVesting {
            beneficiary: cmn.member.data.beneficiary,
            deposit_amount: reward,
            nonce,
            start_ts,
            end_ts,
            period_count,
            realizor: Some(Realizor { program: *program_id, metadata: cmn.member.info.key }),
        },
        signer: Signer::Owned {
            registrar: cmn.registrar.info.key,
            owner: cmn.vendor.info.key,
            nonce: cmn.vendor.data.nonce,
        },
    });
    let member = Member { rewards_cursor: cmn.vendor.data.reward_event_q_cursor + 1, ..cmn.member.data };
    assert(calls@ =~= spec_claim_reward_locked(ctx, *program_id, nonce).unwrap().1);
    Ok((member, calls))
}

/// The outcome of `expire_reward`.
pub open spec fn spec_expire_reward(ctx: &ExpireReward) -> Result<(RewardVendor, Seq<Cpi>), Error> {
    if ctx.clock < ctx.vendor.data.expiry_ts {
        Err(Error::ErrorCode(ErrorCode::VendorNotYetExpired))
    } else {
        Ok((
            RewardVendor { expired: true, ..ctx.vendor.data },
            seq![Cpi {
                call: Call::Transfer {
                    from: ctx.vault.info.key,
                    to: ctx.expiry_receiver_token.key,
                    authority: ctx.vendor_signer.key,
                    amount: ctx.vault.data.amount,
                },
                signer: Signer::Owned {
                    registrar: ctx.registrar.info.key,
                    owner: ctx.vendor.info.key,
                    nonce: ctx.vendor.data.nonce,
                },
            }],
        ))
    }
}

/// After its expiry, sends what is left in a vendor's vault to the expiry
/// receiver and marks the vendor expired.
pub fn expire_reward(ctx: &ExpireReward) -> (r: Result<(RewardVendor, Vec<Cpi>), Error>)
    ensures
        spec_expire_reward(ctx) == match r {
            Ok((v, calls)) => Ok::<(RewardVendor, Seq<Cpi>), Error>((v, calls@)),
            Err(e) => Err(e),
        },
{
    if ctx.clock < ctx.vendor.data.expiry_ts {
        return Err(Error::ErrorCode(ErrorCode::VendorNotYetExpired));
    }
    let mut calls: Vec<Cpi> = Vec::new();
    calls.push(Cpi {
        call: Call::Transfer {
            from: ctx.vault.info.key,
            to: ctx.expiry_receiver_token.key,
            authority: ctx.vendor_signer.key,
            amount: ctx.vault.data.amount,
        },
        signer: Signer::Owned {
            registrar: ctx.registrar.info.key,
            owner: ctx.vendor.info.key,
            nonce: ctx.vendor.data.nonce,
        },
    });
    assert(calls@ =~= spec_expire_reward(ctx).unwrap().1);
    Ok((RewardVendor { expired: true, ..ctx.vendor.data }, calls))
}

// ---------------------------------------------------------------- realization

/// The outcome of the registry's realization check of a vesting account: a
/// vesting with a realizor is realized once the member it names holds no
/// pool tokens.
pub open spec fn spec_is_realized(ctx: &IsRealized, v: Vesting) -> Result<(), Error> {
    match v.realizor {
        None => Ok(()),
        Some(realizor) => if realizor.metadata != ctx.member.info.key {
            Err(Error::ErrorCode(ErrorCode::InvalidRealizorMetadata))
        } else if ctx.member_spt.data.amount + ctx.member_spt_locked.data.amount != 0 {
            Err(Error::ErrorCode(ErrorCode::UnrealizedReward))
        } else {
            Ok(())
        },
    }
}

/// Decides whether the tokens of a vesting account created for a locked
/// reward may be withdrawn: only once the member has unstaked everything.
pub fn is_realized(ctx: &IsRealized, v: &Vesting) -> (r: Result<(), Error>)
    requires
        v.realizor matches Some(realizor) && realizor.metadata == ctx.member.info.key ==> {
            &&& ctx.member.data.beneficiary == v.beneficiary
            &&& ctx.member_spt.data.amount + ctx.member_spt_locked.data.amount <= u64::MAX
        },
    ensures
        r == spec_is_realized(ctx, *v),
{
    if let Some(realizor) = &v.realizor {
        if !realizor.metadata.equals(&ctx.member.info.key) {
            return Err(Error::ErrorCode(ErrorCode::InvalidRealizorMetadata));
        }
        let total_staked = ctx.member_spt.data.amount + ctx.member_spt_locked.data.amount;
        if total_staked != 0 {
            return Err(Error::ErrorCode(ErrorCode::UnrealizedReward));
        }
    }
    Ok(())
}

} // verus!

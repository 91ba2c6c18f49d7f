use registry::accounts::{
    Account, AccountRef, BalanceSandboxAccounts, CreateMember, Deposit, EndUnstake, FreshAccount,
    StartUnstake, Stake, UpdateMember, UpdateMemberBalances, UpdateRegistrar, Withdraw,
};
use registry::calls::{Call, Cpi, Signer};
use registry::error::{Error, ErrorCode, FrameworkError};
use registry::handlers::{
    create_member, deposit, end_unstake, member_signer_check, stake, start_unstake,
    update_member, update_member_balances, update_registrar, withdraw,
};
use registry::pubkey::{create_program_address, Pubkey};
use registry::reward_queue::RewardQueue;
use registry::seeds::owned_seeds;
use registry::state::{
    BalanceSandbox, Member, Mint, PendingWithdrawal, Registrar, RewardEvent, TokenAccount,
};

fn key(n: u64) -> Pubkey {
    Pubkey { w0: n, w1: 0, w2: 0, w3: 0 }
}

fn acct(k: Pubkey) -> AccountRef {
    AccountRef { key: k, owner: key(0), is_signer: false, is_writable: true }
}

fn signer(k: Pubkey) -> AccountRef {
    AccountRef { key: k, owner: key(0), is_signer: true, is_writable: false }
}

fn token(k: u64, mint: u64, owner: u64, amount: u64) -> Account<TokenAccount> {
    Account { info: acct(key(k)), data: TokenAccount { mint: key(mint), owner: key(owner), amount } }
}

fn registrar() -> Registrar {
    Registrar {
        authority: key(1),
        nonce: 4,
        withdrawal_timelock: 100,
        reward_event_q: key(2),
        mint: key(3),
        pool_mint: key(5),
        stake_rate: 10,
    }
}

fn sandbox(base: u64) -> BalanceSandbox {
    BalanceSandbox { spt: key(base), vault: key(base + 1), vault_stake: key(base + 2), vault_pw: key(base + 3) }
}

fn sandbox_accounts(base: u64, spt_amount: u64) -> BalanceSandboxAccounts {
    BalanceSandboxAccounts {
        spt: token(base, 5, 60, spt_amount),
        vault: token(base + 1, 3, 60, 1000),
        vault_stake: token(base + 2, 3, 60, 0),
        vault_pw: token(base + 3, 3, 60, 0),
    }
}

fn member(last_stake_ts: i64, rewards_cursor: u32) -> Member {
    Member {
        registrar: key(10),
        beneficiary: key(11),
        metadata: key(0),
        balances: sandbox(20),
        balances_locked: sandbox(30),
        rewards_cursor,
        last_stake_ts,
        nonce: 7,
    }
}

fn queue(events: &[(u64, i64)]) -> RewardQueue {
    let mut q = RewardQueue::new(0, 0, vec![RewardEvent::default(); 4]);
    for (v, ts) in events {
        q.append(RewardEvent { vendor: key(*v), ts: *ts, locked: false }).unwrap();
    }
    q
}

fn stake_ctx(q: RewardQueue, m: Member, spt_amount: u64, clock: i64) -> Stake {
    Stake {
        registrar: Account { info: acct(key(10)), data: registrar() },
        reward_event_q: Account { info: acct(key(2)), data: q },
        pool_mint: Account { info: acct(key(5)), data: Mint { mint_authority: None, supply: 0, decimals: 0 } },
        member: Account { info: acct(key(12)), data: m },
        beneficiary: signer(key(11)),
        balances: sandbox_accounts(20, spt_amount),
        member_signer: acct(key(13)),
        registrar_signer: acct(key(14)),
        token_program: acct(registry::token_program_id()),
        clock,
    }
}

fn unstake_ctx(q: RewardQueue, m: Member, spt_amount: u64, clock: i64) -> StartUnstake {
    StartUnstake {
        registrar: Account { info: acct(key(10)), data: registrar() },
        reward_event_q: Account { info: acct(key(2)), data: q },
        pool_mint: acct(key(5)),
        pending_withdrawal: FreshAccount {
            info: acct(key(40)),
            discriminator: 0,
            rent_exempt: true,
            data: PendingWithdrawal {
                registrar: key(0),
                member: key(0),
                burned: false,
                pool: key(0),
                start_ts: 0,
                end_ts: 0,
                amount: 0,
                locked: false,
            },
        },
        member: Account { info: acct(key(12)), data: m },
        beneficiary: signer(key(11)),
        balances: sandbox_accounts(20, spt_amount),
        member_signer: acct(key(13)),
        token_program: acct(registry::token_program_id()),
        clock,
    }
}

fn member_signed(nonce: u8) -> Signer {
    Signer::Owned { registrar: key(10), owner: key(12), nonce }
}

#[test]
fn stake_moves_tokens_and_mints_pool_tokens() {
    let ctx = stake_ctx(queue(&[]), member(0, 0), 0, 500);
    let (m, calls) = stake(&ctx, 5).unwrap();
    assert_eq!(m, Member { last_stake_ts: 500, ..member(0, 0) });
    assert_eq!(
        calls,
        vec![
            Cpi {
                call: Call::Transfer { from: key(21), to: key(22), authority: key(13), amount: 50 },
                signer: member_signed(7),
            },
            Cpi {
                call: Call::MintTo { mint: key(5), to: key(20), authority: key(14), amount: 5 },
                signer: Signer::Registrar { registrar: key(10), nonce: 4 },
            },
        ]
    );
}

#[test]
fn stake_refused_while_reward_pending() {
    let ctx = stake_ctx(queue(&[(50, 200)]), member(100, 0), 1, 500);
    assert_eq!(stake(&ctx, 5), Err(Error::ErrorCode(ErrorCode::RewardsNeedsProcessing)));
}

#[test]
fn stake_allowed_without_pool_tokens_or_new_rewards() {
    let ctx = stake_ctx(queue(&[(50, 200)]), member(100, 0), 0, 500);
    assert!(stake(&ctx, 5).is_ok());
    let ctx = stake_ctx(queue(&[(50, 100)]), member(100, 0), 3, 500);
    assert!(stake(&ctx, 5).is_ok());
    let ctx = stake_ctx(queue(&[(50, 200)]), member(100, 1), 3, 500);
    assert!(stake(&ctx, 5).is_ok());
}

#[test]
fn stake_accounts_checked_in_order() {
    let ctx = stake_ctx(queue(&[]), member(0, 0), 0, 500);
    let mut bad = stake_ctx(queue(&[]), member(0, 0), 0, 500);
    bad.balances.spt.info.is_writable = false;
    assert_eq!(bad.try_accounts(&registry::id()), Err(Error::ProgramError(FrameworkError::ConstraintMut)));
    let mut bad = stake_ctx(queue(&[]), member(0, 0), 0, 500);
    bad.pool_mint.info.key = key(99);
    assert_eq!(bad.try_accounts(&registry::id()), Err(Error::ProgramError(FrameworkError::ConstraintHasOne)));
    let mut bad = stake_ctx(queue(&[]), member(0, 0), 0, 500);
    bad.beneficiary.is_signer = false;
    assert_eq!(bad.try_accounts(&registry::id()), Err(Error::ProgramError(FrameworkError::ConstraintSigner)));
    let mut bad = stake_ctx(queue(&[]), member(0, 0), 0, 500);
    bad.balances.vault.data.owner = key(61);
    assert_eq!(bad.try_accounts(&registry::id()), Err(Error::ProgramError(FrameworkError::Deprecated)));
    // Every account check passes up to the member signer, which is no derived address here.
    assert_eq!(ctx.try_accounts(&registry::id()), Err(Error::ProgramError(FrameworkError::ConstraintSeeds)));
}

#[test]
fn start_unstake_opens_pending_withdrawal() {
    let ctx = unstake_ctx(queue(&[]), member(0, 0), 5, 1000);
    let (pw, calls) = start_unstake(&ctx, 5, false).unwrap();
    assert_eq!(
        pw,
        PendingWithdrawal {
            registrar: key(10),
            member: key(12),
            burned: false,
            pool: key(5),
            start_ts: 1000,
            end_ts: 1100,
            amount: 50,
            locked: false,
        }
    );
    assert_eq!(
        calls,
        vec![
            Cpi {
                call: Call::Burn { mint: key(5), from: key(20), authority: key(13), amount: 5 },
                signer: member_signed(7),
            },
            Cpi {
                call: Call::Transfer { from: key(22), to: key(23), authority: key(13), amount: 50 },
                signer: member_signed(7),
            },
        ]
    );
}

#[test]
fn start_unstake_refused_while_reward_pending() {
    let ctx = unstake_ctx(queue(&[(50, 200)]), member(100, 0), 1, 1000);
    assert_eq!(start_unstake(&ctx, 1, true), Err(Error::ErrorCode(ErrorCode::RewardsNeedsProcessing)));
}

#[test]
fn stake_and_unstake_move_the_same_tokens() {
    let s = stake_ctx(queue(&[]), member(0, 0), 0, 10);
    let (_, calls) = stake(&s, 8).unwrap();
    let u = unstake_ctx(queue(&[]), member(0, 0), 8, 20);
    let (pw, _) = start_unstake(&u, 8, false).unwrap();
    match calls[0].call {
        Call::Transfer { amount, .. } => assert_eq!(amount, pw.amount),
        _ => panic!("expected a transfer"),
    }
}

fn end_ctx(pw: PendingWithdrawal, clock: i64, vault: u64, vault_pw: u64) -> EndUnstake {
    EndUnstake {
        registrar: Account { info: acct(key(10)), data: registrar() },
        member: Account { info: acct(key(12)), data: member(0, 0) },
        beneficiary: signer(key(11)),
        pending_withdrawal: Account { info: acct(key(40)), data: pw },
        vault: acct(key(vault)),
        vault_pw: acct(key(vault_pw)),
        member_signer: acct(key(13)),
        token_program: acct(registry::token_program_id()),
        clock,
    }
}

fn pending(locked: bool) -> PendingWithdrawal {
    PendingWithdrawal {
        registrar: key(10),
        member: key(12),
        burned: false,
        pool: key(5),
        start_ts: 1000,
        end_ts: 1100,
        amount: 50,
        locked,
    }
}

#[test]
fn end_unstake_waits_for_timelock() {
    let ctx = end_ctx(pending(false), 1099, 21, 23);
    assert_eq!(end_unstake(&ctx), Err(Error::ErrorCode(ErrorCode::UnstakeTimelock)));
}

#[test]
fn end_unstake_pays_back_once_timelock_passed() {
    let ctx = end_ctx(pending(false), 1100, 21, 23);
    let (pw, calls) = end_unstake(&ctx).unwrap();
    assert!(pw.burned);
    assert_eq!(pw, PendingWithdrawal { burned: true, ..pending(false) });
    assert_eq!(
        calls,
        vec![Cpi {
            call: Call::Transfer { from: key(23), to: key(21), authority: key(13), amount: 50 },
            signer: member_signed(7),
        }]
    );
}

#[test]
fn end_unstake_uses_locked_vaults_for_locked_withdrawal() {
    assert_eq!(end_unstake(&end_ctx(pending(true), 2000, 21, 23)), Err(Error::ErrorCode(ErrorCode::InvalidVault)));
    assert!(end_unstake(&end_ctx(pending(true), 2000, 31, 33)).is_ok());
    assert_eq!(end_unstake(&end_ctx(pending(true), 2000, 31, 32)), Err(Error::ErrorCode(ErrorCode::InvalidVault)));
}

#[test]
fn end_unstake_refuses_spent_withdrawal_through_accounts() {
    let ctx = end_ctx(PendingWithdrawal { burned: true, ..pending(false) }, 2000, 21, 23);
    assert_eq!(ctx.try_accounts(&registry::id()), Err(Error::ProgramError(FrameworkError::Deprecated)));
}

#[test]
fn deposit_and_withdraw_transfer_the_amount() {
    let d = Deposit {
        member: Account { info: acct(key(12)), data: member(0, 0) },
        beneficiary: signer(key(11)),
        vault: token(21, 3, 13, 0),
        depositor: acct(key(70)),
        depositor_authority: signer(key(71)),
        token_program: acct(registry::token_program_id()),
    };
    assert_eq!(
        deposit(&d, 33).unwrap(),
        vec![Cpi {
            call: Call::Transfer { from: key(70), to: key(21), authority: key(71), amount: 33 },
            signer: Signer::Unsigned,
        }]
    );
    let w = Withdraw {
        registrar: Account { info: acct(key(10)), data: registrar() },
        member: Account { info: acct(key(12)), data: member(0, 0) },
        beneficiary: signer(key(11)),
        vault: token(21, 3, 13, 100),
        member_signer: acct(key(13)),
        depositor: acct(key(70)),
        token_program: acct(registry::token_program_id()),
    };
    assert_eq!(
        withdraw(&w, 33).unwrap(),
        vec![Cpi {
            call: Call::Transfer { from: key(21), to: key(70), authority: key(13), amount: 33 },
            signer: member_signed(7),
        }]
    );
}

#[test]
fn update_registrar_replaces_given_fields() {
    let ctx = UpdateRegistrar { registrar: Account { info: acct(key(10)), data: registrar() }, authority: signer(key(1)) };
    assert_eq!(ctx.try_accounts(), Ok(()));
    assert_eq!(update_registrar(&ctx, None, None), Ok(registrar()));
    assert_eq!(
        update_registrar(&ctx, Some(key(9)), Some(5)),
        Ok(Registrar { authority: key(9), withdrawal_timelock: 5, ..registrar() })
    );
    assert_eq!(
        update_registrar(&ctx, None, Some(-3)),
        Ok(Registrar { withdrawal_timelock: -3, ..registrar() })
    );
    let wrong = UpdateRegistrar { registrar: Account { info: acct(key(10)), data: registrar() }, authority: signer(key(2)) };
    assert_eq!(wrong.try_accounts(), Err(Error::ProgramError(FrameworkError::ConstraintHasOne)));
}

#[test]
fn update_member_replaces_metadata_when_given() {
    let ctx = UpdateMember { member: Account { info: acct(key(12)), data: member(0, 0) }, beneficiary: signer(key(11)) };
    assert_eq!(update_member(&ctx, None), Ok(member(0, 0)));
    assert_eq!(update_member(&ctx, Some(key(77))), Ok(Member { metadata: key(77), ..member(0, 0) }));
}

fn member_signer_for(registrar: Pubkey, m: Pubkey) -> (u8, Pubkey) {
    let pid = registry::id();
    for nonce in (0..=255u8).rev() {
        if let Some(k) = create_program_address(&owned_seeds(&registrar, &m, nonce), &pid) {
            return (nonce, k);
        }
    }
    panic!("no nonce derives an address");
}

#[test]
fn create_member_checks_signer_nonce() {
    let pid = registry::id();
    let (nonce, ms) = member_signer_for(key(10), key(12));
    let ctx = CreateMember {
        registrar: Account { info: acct(key(10)), data: registrar() },
        member: FreshAccount { info: acct(key(12)), discriminator: 0, rent_exempt: true, data: member(0, 0) },
        beneficiary: signer(key(88)),
        member_signer: acct(ms),
        token_program: acct(registry::token_program_id()),
    };
    assert_eq!(ctx.try_accounts(), Ok(()));
    assert_eq!(
        create_member(&ctx, &pid, nonce),
        Ok(Member { registrar: key(10), beneficiary: key(88), nonce, ..member(0, 0) })
    );
    assert_eq!(member_signer_check(&key(10), &key(12), nonce, &pid, &ms), Ok(()));
    assert_eq!(
        member_signer_check(&key(10), &key(12), nonce, &pid, &key(1)),
        Err(Error::ErrorCode(ErrorCode::InvalidMemberSigner))
    );
    let mut none_nonce = None;
    for n in 0..=255u8 {
        if create_program_address(&owned_seeds(&key(10), &key(12), n), &pid).is_none() {
            none_nonce = Some(n);
            break;
        }
    }
    assert_eq!(create_member(&ctx, &pid, none_nonce.unwrap()), Err(Error::ErrorCode(ErrorCode::InvalidNonce)));
    let used = CreateMember {
        member: FreshAccount { info: acct(key(12)), discriminator: 1, rent_exempt: true, data: member(0, 0) },
        ..ctx
    };
    assert_eq!(used.try_accounts(), Err(Error::ProgramError(FrameworkError::ConstraintZero)));
}

#[test]
fn update_member_balances_records_the_accounts() {
    let pid = registry::id();
    let (nonce, ms) = member_signer_for(key(10), key(12));
    let ctx = UpdateMemberBalances {
        registrar: Account { info: acct(key(10)), data: registrar() },
        member: Account { info: acct(key(12)), data: member(0, 0) },
        balances: sandbox_accounts(50, 0),
        member_signer: acct(ms),
    };
    assert_eq!(
        update_member_balances(&ctx, &pid, nonce),
        Ok(Member { balances: sandbox(50), ..member(0, 0) })
    );
    assert_eq!(
        update_member_balances(&ctx, &pid, nonce.wrapping_add(1)).is_err(),
        true
    );
}

#[test]
fn locked_unstake_works_on_locked_balances() {
    // The free balance set does not pass the checks of a locked unstake.
    let free = unstake_ctx(queue(&[]), member(0, 0), 5, 1000);
    assert_eq!(
        free.try_accounts(&registry::id(), true),
        Err(Error::ProgramError(FrameworkError::Deprecated))
    );
    let mut locked = unstake_ctx(queue(&[]), member(0, 0), 5, 1000);
    locked.balances = sandbox_accounts(30, 5);
    assert_eq!(
        locked.try_accounts(&registry::id(), false),
        Err(Error::ProgramError(FrameworkError::Deprecated))
    );
    // Past the balance check, only the member signer (no derived address
    // here) stops the accounts.
    assert_eq!(
        locked.try_accounts(&registry::id(), true),
        Err(Error::ProgramError(FrameworkError::ConstraintSeeds))
    );
    let (pw, calls) = start_unstake(&locked, 5, true).unwrap();
    assert!(pw.locked);
    assert_eq!(
        calls,
        vec![
            Cpi {
                call: Call::Burn { mint: key(5), from: key(30), authority: key(13), amount: 5 },
                signer: member_signed(7),
            },
            Cpi {
                call: Call::Transfer { from: key(32), to: key(33), authority: key(13), amount: 50 },
                signer: member_signed(7),
            },
        ]
    );
}

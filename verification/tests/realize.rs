use registry::accounts::{Account, AccountRef, IsRealized};
use registry::error::{Error, ErrorCode};
use registry::handlers::is_realized;
use registry::pubkey::Pubkey;
use registry::codec::{put_member_data, put_vesting};
use registry::error::FrameworkError;

use registry::realizor::{self, MemberData, RealizorInstruction};
use registry::state::{BalanceSandbox, Member, Realizor, TokenAccount, Vesting};

fn key(n: u64) -> Pubkey {
    Pubkey { w0: n, w1: 0, w2: 0, w3: 0 }
}

fn acct(k: Pubkey) -> AccountRef {
    AccountRef { key: k, owner: key(0), is_signer: false, is_writable: false }
}

/// An account of the registry program.
fn stored(k: Pubkey) -> AccountRef {
    AccountRef { key: k, owner: registry::id(), is_signer: false, is_writable: false }
}

fn token(k: u64, amount: u64) -> Account<TokenAccount> {
    Account { info: acct(key(k)), data: TokenAccount { mint: key(5), owner: key(13), amount } }
}

fn vesting(realizor: Option<Realizor>) -> Vesting {
    Vesting {
        beneficiary: key(11),
        mint: key(3),
        vault: key(50),
        grantor: key(51),
        outstanding: 10,
        start_balance: 10,
        created_ts: 0,
        start_ts: 0,
        end_ts: 10,
        period_count: 1,
        whitelist_owned: 0,
        nonce: 1,
        realizor,
    }
}

fn member() -> Member {
    Member {
        registrar: key(10),
        beneficiary: key(11),
        metadata: key(0),
        balances: BalanceSandbox { spt: key(20), vault: key(21), vault_stake: key(22), vault_pw: key(23) },
        balances_locked: BalanceSandbox { spt: key(30), vault: key(31), vault_stake: key(32), vault_pw: key(33) },
        rewards_cursor: 0,
        last_stake_ts: 0,
        nonce: 7,
    }
}

fn ctx(spt: u64, spt_locked: u64) -> IsRealized {
    IsRealized {
        member: Account { info: acct(key(12)), data: member() },
        member_spt: token(20, spt),
        member_spt_locked: token(30, spt_locked),
    }
}

#[test]
fn realized_once_member_holds_no_pool_tokens() {
    let r = Some(Realizor { program: registry::id(), metadata: key(12) });
    assert_eq!(is_realized(&ctx(0, 0), &vesting(r)), Ok(()));
    assert_eq!(is_realized(&ctx(1, 0), &vesting(r)), Err(Error::ErrorCode(ErrorCode::UnrealizedReward)));
    assert_eq!(is_realized(&ctx(0, 4), &vesting(r)), Err(Error::ErrorCode(ErrorCode::UnrealizedReward)));
    assert_eq!(ctx(0, 0).try_accounts(), Ok(()));
}

#[test]
fn realization_needs_matching_member() {
    let r = Some(Realizor { program: registry::id(), metadata: key(99) });
    assert_eq!(is_realized(&ctx(0, 0), &vesting(r)), Err(Error::ErrorCode(ErrorCode::InvalidRealizorMetadata)));
    assert_eq!(is_realized(&ctx(5, 5), &vesting(None)), Ok(()));
}

#[test]
fn realizor_program_gives_the_same_verdicts() {
    let data = MemberData {
        registrar: key(10),
        beneficiary: key(11),
        metadata: key(0),
        balances_spt: key(20),
        balances_locked_spt: key(30),
    };
    let c = |spt: u64, locked: u64| realizor::IsRealized {
        member: Account { info: stored(key(12)), data: member() },
        member_spt: token(20, spt),
        member_spt_locked: token(30, locked),
    };
    let r = Some(Realizor { program: key(1), metadata: key(12) });
    assert_eq!(realizor::is_realized(&c(0, 0), &vesting(r), &data), Ok(()));
    assert_eq!(
        realizor::is_realized(&c(0, 1), &vesting(r), &data),
        Err(realizor::ErrorCode::UnrealizedReward)
    );
    let other = Some(Realizor { program: key(1), metadata: key(13) });
    assert_eq!(
        realizor::is_realized(&c(0, 0), &vesting(other), &data),
        Err(realizor::ErrorCode::InvalidRealizorMetadata)
    );
    assert_eq!(realizor::is_realized(&c(3, 3), &vesting(None), &data), Ok(()));
}

#[test]
fn realizor_instruction_data_decodes() {
    let data = MemberData {
        registrar: key(10),
        beneficiary: key(11),
        metadata: key(0),
        balances_spt: key(20),
        balances_locked_spt: key(30),
    };
    let v = vesting(Some(Realizor { program: key(1), metadata: key(12) }));
    let mut d = vec![212, 47, 227, 123, 230, 215, 100, 52];
    put_vesting(&mut d, &v);
    put_member_data(&mut d, &data);
    assert_eq!(realizor::decode(&d), Ok(RealizorInstruction::IsRealized(v, data)));
    d.push(0);
    assert_eq!(realizor::decode(&d), Ok(RealizorInstruction::IsRealized(v, data)));
    assert_eq!(realizor::decode(&d[..40]), Err(FrameworkError::InstructionDidNotDeserialize));
    assert_eq!(realizor::decode(&d[..4]), Err(FrameworkError::InstructionMissing));
    assert_eq!(realizor::decode(&[0; 9]), Err(FrameworkError::InstructionFallbackNotFound));
    assert_eq!(realizor::decode(&[64, 244, 188, 120, 167, 233, 105, 10]), Ok(RealizorInstruction::Idl));
}

#[test]
fn realizor_reads_the_stored_member() {
    let ok = realizor::IsRealized {
        member: Account { info: stored(key(12)), data: member() },
        member_spt: token(20, 0),
        member_spt_locked: token(30, 0),
    };
    assert_eq!(ok.try_accounts(), Ok(()));
    // Empty token accounts that are not the member's do not pass.
    let other_spt = realizor::IsRealized {
        member: Account { info: stored(key(12)), data: member() },
        member_spt: token(40, 0),
        member_spt_locked: token(30, 0),
    };
    assert_eq!(other_spt.try_accounts(), Err(FrameworkError::Deprecated));
    let other_locked = realizor::IsRealized {
        member: Account { info: stored(key(12)), data: member() },
        member_spt: token(20, 0),
        member_spt_locked: token(41, 0),
    };
    assert_eq!(other_locked.try_accounts(), Err(FrameworkError::Deprecated));
    // A member account not held by the registry does not pass.
    let forged = realizor::IsRealized {
        member: Account { info: acct(key(12)), data: member() },
        member_spt: token(20, 0),
        member_spt_locked: token(30, 0),
    };
    assert_eq!(forged.try_accounts(), Err(FrameworkError::AccountOwnedByWrongProgram));
}

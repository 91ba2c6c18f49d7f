use registry::codec::{deserialize_kind, KindReadError};
use registry::token::{mint_from_data, token_account_from_data};
use registry::error::{Error, FrameworkError};
use registry::instruction::{
    create_vesting_data, decode, ClaimRewardLocked, DropReward, EndUnstake, Initialize,
    Instruction, NewRegistry, SetLockupProgram, StartUnstake, UpdateMember, UpdateRegistrar,
};
use registry::pubkey::Pubkey;
use registry::state::{
    kinds_equal, Mint, TokenAccount, BalanceSandbox, Member, PendingWithdrawal, Realizor, Registrar, Registry, RewardVendor,
    RewardVendorKind, Vesting,
};

fn key(n: u64) -> Pubkey {
    Pubkey { w0: n, w1: n + 1, w2: n + 2, w3: n + 3 }
}

fn member() -> Member {
    Member {
        registrar: key(1),
        beneficiary: key(2),
        metadata: key(3),
        balances: BalanceSandbox { spt: key(4), vault: key(5), vault_stake: key(6), vault_pw: key(7) },
        balances_locked: BalanceSandbox { spt: key(8), vault: key(9), vault_stake: key(10), vault_pw: key(11) },
        rewards_cursor: 12,
        last_stake_ts: -13,
        nonce: 14,
    }
}

#[test]
fn member_account_data_layout_and_round_trip() {
    let m = member();
    let d = m.try_serialize();
    assert_eq!(&d[..8], &[54, 19, 162, 21, 29, 166, 17, 198]);
    assert_eq!(d.len(), 8 + 3 * 32 + 2 * 128 + 4 + 8 + 1);
    assert_eq!(&d[8..40], key(1).to_bytes().as_slice());
    assert_eq!(&d[360..364], &12u32.to_le_bytes());
    assert_eq!(&d[364..372], &(-13i64).to_le_bytes());
    assert_eq!(d[372], 14);
    assert_eq!(Member::try_deserialize(&d), Ok(m));
    let mut longer = d.clone();
    longer.extend_from_slice(&[1, 2, 3]);
    assert_eq!(Member::try_deserialize(&longer), Ok(m));
}

#[test]
fn account_data_errors() {
    let d = member().try_serialize();
    assert_eq!(
        Member::try_deserialize(&d[..5]),
        Err(Error::ProgramError(FrameworkError::AccountDiscriminatorNotFound))
    );
    assert_eq!(
        Registrar::try_deserialize(&d),
        Err(Error::ProgramError(FrameworkError::AccountDiscriminatorMismatch))
    );
    assert_eq!(
        Member::try_deserialize(&d[..100]),
        Err(Error::ProgramError(FrameworkError::AccountDidNotDeserialize))
    );
    let mut renamed = d.clone();
    renamed[..8].copy_from_slice(&[0; 8]);
    assert_eq!(Member::try_deserialize_unchecked(&renamed), Ok(member()));
}

#[test]
fn other_accounts_round_trip() {
    let registry = Registry { lockup_program: key(40) };
    let d = registry.try_serialize();
    assert_eq!(&d[..8], &[47, 174, 110, 246, 184, 182, 252, 218]);
    assert_eq!(d.len(), 40);
    assert_eq!(Registry::try_deserialize(&d), Ok(registry));

    let registrar = Registrar {
        authority: key(1),
        nonce: 2,
        withdrawal_timelock: 3,
        reward_event_q: key(4),
        mint: key(5),
        pool_mint: key(6),
        stake_rate: 7,
    };
    let d = registrar.try_serialize();
    assert_eq!(&d[..8], &[193, 202, 205, 51, 78, 168, 150, 128]);
    assert_eq!(d.len(), 8 + 32 + 1 + 8 + 32 + 32 + 32 + 8);
    assert_eq!(Registrar::try_deserialize(&d), Ok(registrar));

    let pw = PendingWithdrawal {
        registrar: key(1),
        member: key(2),
        burned: true,
        pool: key(3),
        start_ts: 4,
        end_ts: 5,
        amount: 6,
        locked: false,
    };
    let d = pw.try_serialize();
    assert_eq!(&d[..8], &[61, 103, 179, 177, 148, 199, 63, 171]);
    assert_eq!(d[8 + 64], 1);
    assert_eq!(PendingWithdrawal::try_deserialize(&d), Ok(pw));

    for kind in [
        RewardVendorKind::Unlocked,
        RewardVendorKind::Locked { start_ts: -1, end_ts: 2, period_count: 3 },
    ] {
        let v = RewardVendor {
            registrar: key(1),
            vault: key(2),
            mint: key(3),
            nonce: 4,
            pool_token_supply: 5,
            reward_event_q_cursor: 6,
            start_ts: 7,
            expiry_ts: 8,
            expiry_receiver: key(9),
            from: key(10),
            total: 11,
            expired: true,
            kind,
        };
        let d = v.try_serialize();
        assert_eq!(&d[..8], &[75, 104, 40, 211, 191, 255, 206, 162]);
        assert_eq!(RewardVendor::try_deserialize(&d), Ok(v));
    }

    for realizor in [None, Some(Realizor { program: key(20), metadata: key(21) })] {
        let v = Vesting {
            beneficiary: key(1),
            mint: key(2),
            vault: key(3),
            grantor: key(4),
            outstanding: 5,
            start_balance: 6,
            created_ts: 7,
            start_ts: 8,
            end_ts: 9,
            period_count: 10,
            whitelist_owned: 11,
            nonce: 12,
            realizor,
        };
        let d = v.try_serialize();
        assert_eq!(&d[..8], &[100, 149, 66, 138, 95, 200, 128, 241]);
        assert_eq!(Vesting::try_deserialize(&d), Ok(v));
    }
}

#[test]
fn instruction_data_is_sighash_then_arguments() {
    assert_eq!(NewRegistry { _bump: 9 }.data(), vec![237, 187, 50, 70, 74, 26, 144, 230, 9]);
    let mut expected = vec![223, 79, 250, 198, 20, 31, 79, 117];
    expected.extend_from_slice(&key(5).to_bytes());
    assert_eq!(SetLockupProgram { lockup_program: key(5) }.data(), expected);
    assert_eq!(EndUnstake.data(), vec![44, 65, 159, 108, 149, 89, 27, 203]);
    let mut expected = vec![116, 34, 168, 129, 238, 12, 90, 56, 0, 1];
    expected.extend_from_slice(&7i64.to_le_bytes());
    assert_eq!(UpdateRegistrar { new_authority: None, withdrawal_timelock: Some(7) }.data(), expected);
    let mut expected = vec![200, 243, 106, 111, 170, 72, 31, 117];
    expected.extend_from_slice(&5u64.to_le_bytes());
    expected.push(1);
    assert_eq!(StartUnstake { spt_amount: 5, locked: true }.data(), expected);
}

#[test]
fn decode_reads_back_every_method() {
    let init = Initialize {
        mint: key(1),
        authority: key(2),
        nonce: 3,
        withdrawal_timelock: -4,
        stake_rate: 5,
        reward_q_len: 6,
    };
    assert_eq!(decode(&init.data()), Ok(Instruction::Initialize(init)));
    let drop = DropReward {
        kind: RewardVendorKind::Locked { start_ts: 1, end_ts: 2, period_count: 3 },
        total: 4,
        expiry_ts: 5,
        expiry_receiver: key(6),
        nonce: 7,
    };
    let mut data = drop.data();
    data.extend_from_slice(&[9, 9, 9]);
    assert_eq!(decode(&data), Ok(Instruction::DropReward(drop)));
    let crl = ClaimRewardLocked { _bump: 1, nonce: 2 };
    assert_eq!(decode(&crl.data()), Ok(Instruction::ClaimRewardLocked(crl)));
    let um = UpdateMember { metadata: Some(key(3)) };
    assert_eq!(decode(&um.data()), Ok(Instruction::UpdateMember(um)));
    assert_eq!(decode(&EndUnstake.data()), Ok(Instruction::EndUnstake(EndUnstake)));
}

#[test]
fn decode_errors() {
    assert_eq!(decode(&[237, 187, 50]), Err(Error::ProgramError(FrameworkError::InstructionMissing)));
    assert_eq!(decode(&[]), Err(Error::ProgramError(FrameworkError::InstructionMissing)));
    assert_eq!(
        decode(&[1, 2, 3, 4, 5, 6, 7, 8]),
        Err(Error::ProgramError(FrameworkError::InstructionFallbackNotFound))
    );
    assert_eq!(
        decode(&[237, 187, 50, 70, 74, 26, 144, 230]),
        Err(Error::ProgramError(FrameworkError::InstructionDidNotDeserialize))
    );
    let mut bad_bool = vec![200, 243, 106, 111, 170, 72, 31, 117];
    bad_bool.extend_from_slice(&5u64.to_le_bytes());
    bad_bool.push(2);
    assert_eq!(decode(&bad_bool), Err(Error::ProgramError(FrameworkError::InstructionDidNotDeserialize)));
    assert_eq!(decode(&[64, 244, 188, 120, 167, 233, 105, 10, 0]), Ok(Instruction::Idl));
}

#[test]
fn create_vesting_data_layout() {
    let r = Some(Realizor { program: key(7), metadata: key(8) });
    let d = create_vesting_data(&key(1), 2, 3, 4, 5, 6, &r);
    assert_eq!(&d[..8], &[135, 184, 171, 156, 197, 162, 246, 44]);
    assert_eq!(d.len(), 8 + 32 + 8 + 1 + 8 + 8 + 8 + 1 + 64);
    assert_eq!(&d[8..40], key(1).to_bytes().as_slice());
    assert_eq!(&d[40..48], &2u64.to_le_bytes());
    assert_eq!(d[48], 3);
    assert_eq!(d[73], 1);
    assert_eq!(&d[74..106], key(7).to_bytes().as_slice());
    let d = create_vesting_data(&key(1), 2, 3, 4, 5, 6, &None);
    assert_eq!(d.len(), 8 + 32 + 8 + 1 + 8 + 8 + 8 + 1);
    assert_eq!(d[73], 0);
}

#[test]
fn reward_kind_read_errors_name_the_variant() {
    assert_eq!(deserialize_kind(&[2], 0), Err(KindReadError::UnexpectedVariant(2)));
    assert_eq!(deserialize_kind(&[7, 0, 0], 3), Err(KindReadError::UnexpectedEnd));
    assert_eq!(deserialize_kind(&[9, 255], 1), Err(KindReadError::UnexpectedVariant(255)));
    assert_eq!(deserialize_kind(&[], 0), Err(KindReadError::UnexpectedEnd));
    assert_eq!(deserialize_kind(&[1, 0, 0], 0), Err(KindReadError::UnexpectedEnd));
    assert_eq!(deserialize_kind(&[0], 0), Ok((RewardVendorKind::Unlocked, 1)));
    let mut d = vec![1u8];
    d.extend_from_slice(&(-1i64).to_le_bytes());
    d.extend_from_slice(&2i64.to_le_bytes());
    d.extend_from_slice(&3u64.to_le_bytes());
    assert_eq!(
        deserialize_kind(&d, 0),
        Ok((RewardVendorKind::Locked { start_ts: -1, end_ts: 2, period_count: 3 }, 25))
    );
}

#[test]
fn reward_kinds_compare_by_variant_and_schedule() {
    let a = RewardVendorKind::Locked { start_ts: 1, end_ts: 2, period_count: 3 };
    let b = RewardVendorKind::Locked { start_ts: 1, end_ts: 2, period_count: 4 };
    assert!(kinds_equal(&a, &a));
    assert!(!kinds_equal(&a, &b));
    assert!(!kinds_equal(&a, &RewardVendorKind::Unlocked));
    assert!(kinds_equal(&RewardVendorKind::Unlocked, &RewardVendorKind::Unlocked));
    assert_eq!(a == b, kinds_equal(&a, &b));
    assert_eq!(a != b, !kinds_equal(&a, &b));
}

#[test]
fn kind_read_error_messages() {
    let m = |e: KindReadError| String::from_utf8(e.message()).unwrap();
    assert_eq!(m(KindReadError::UnexpectedVariant(2)), "Unexpected variant index: 2");
    assert_eq!(m(KindReadError::UnexpectedVariant(0)), "Unexpected variant index: 0");
    assert_eq!(m(KindReadError::UnexpectedVariant(17)), "Unexpected variant index: 17");
    assert_eq!(m(KindReadError::UnexpectedVariant(255)), "Unexpected variant index: 255");
    assert_eq!(m(KindReadError::UnexpectedVariant(100)), "Unexpected variant index: 100");
    assert_eq!(m(KindReadError::UnexpectedEnd), "Unexpected length of input");
    let e = deserialize_kind(&[2], 0).unwrap_err();
    assert_eq!(m(e), "Unexpected variant index: 2");
}

fn token_data(state: u8) -> Vec<u8> {
    let mut d = Vec::new();
    d.extend_from_slice(&key(1).to_bytes());
    d.extend_from_slice(&key(2).to_bytes());
    d.extend_from_slice(&77u64.to_le_bytes());
    d.extend_from_slice(&[0u8; 36]);
    d.push(state);
    d.extend_from_slice(&[0u8; 12]);
    d.extend_from_slice(&0u64.to_le_bytes());
    d.extend_from_slice(&[0u8; 36]);
    d
}

#[test]
fn token_accounts_read_from_data() {
    let d = token_data(1);
    assert_eq!(d.len(), 165);
    assert_eq!(token_account_from_data(&d), Some(TokenAccount { mint: key(1), owner: key(2), amount: 77 }));
    assert!(token_account_from_data(&token_data(2)).is_some());
    assert_eq!(token_account_from_data(&token_data(0)), None);
    assert_eq!(token_account_from_data(&token_data(3)), None);
    assert_eq!(token_account_from_data(&d[..164]), None);
    let mut bad_tag = d.clone();
    bad_tag[72] = 2;
    assert_eq!(token_account_from_data(&bad_tag), None);
}

#[test]
fn mints_read_from_data() {
    let mut d = vec![1u8, 0, 0, 0];
    d.extend_from_slice(&key(9).to_bytes());
    d.extend_from_slice(&1234u64.to_le_bytes());
    d.push(6);
    d.push(1);
    d.extend_from_slice(&[0u8; 36]);
    assert_eq!(d.len(), 82);
    assert_eq!(mint_from_data(&d), Some(Mint { mint_authority: Some(key(9)), supply: 1234, decimals: 6 }));
    let mut no_authority = d.clone();
    no_authority[0] = 0;
    assert_eq!(mint_from_data(&no_authority), Some(Mint { mint_authority: None, supply: 1234, decimals: 6 }));
    let mut uninitialized = d.clone();
    uninitialized[45] = 0;
    assert_eq!(mint_from_data(&uninitialized), None);
    let mut bad_tag = d.clone();
    bad_tag[1] = 1;
    assert_eq!(mint_from_data(&bad_tag), None);
    assert_eq!(mint_from_data(&d[..81]), None);
}

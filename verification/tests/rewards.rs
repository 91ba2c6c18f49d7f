use registry::accounts::{
    Account, AccountRef, BalanceSandboxAccounts, ClaimReward, ClaimRewardCommon, ClaimRewardLocked,
    DropReward, ExpireReward, FreshAccount,
};
use registry::calls::{Call, Cpi, Signer};
use registry::error::{Error, ErrorCode};
use registry::handlers::{claim_reward, claim_reward_locked, drop_reward, drop_reward_checked, expire_reward};
use registry::pubkey::{create_program_address, Pubkey};
use registry::reward_queue::RewardQueue;
use registry::rewards::{no_available_rewards, reward_amount, reward_eligible};
use registry::seeds::owned_seeds;
use registry::state::{
    BalanceSandbox, Member, Mint, Realizor, Registrar, RewardEvent, RewardVendor,
    RewardVendorKind, TokenAccount,
};

fn key(n: u64) -> Pubkey {
    Pubkey { w0: n, w1: 0, w2: 0, w3: 0 }
}

fn acct(k: Pubkey) -> AccountRef {
    AccountRef { key: k, owner: key(0), is_signer: false, is_writable: true }
}

fn signer(k: Pubkey) -> AccountRef {
    AccountRef { key: k, owner: key(0), is_signer: true, is_writable: true }
}

fn token(k: Pubkey, mint: Pubkey, owner: Pubkey, amount: u64) -> Account<TokenAccount> {
    Account { info: acct(k), data: TokenAccount { mint, owner, amount } }
}

fn registrar() -> Registrar {
    Registrar {
        authority: key(1),
        nonce: 4,
        withdrawal_timelock: 100,
        reward_event_q: key(2),
        mint: key(3),
        pool_mint: key(5),
        stake_rate: 10,
    }
}

fn empty_vendor() -> RewardVendor {
    RewardVendor {
        registrar: key(0),
        vault: key(0),
        mint: key(0),
        nonce: 0,
        pool_token_supply: 0,
        reward_event_q_cursor: 0,
        start_ts: 0,
        expiry_ts: 0,
        expiry_receiver: key(0),
        from: key(0),
        total: 0,
        expired: false,
        kind: RewardVendorKind::Unlocked,
    }
}

/// A nonce that derives the vendor signer, and the signer, or a nonce that
/// derives nothing.
fn vendor_nonce(registrar: Pubkey, vendor: Pubkey, derives: bool) -> (u8, Option<Pubkey>) {
    let pid = registry::id();
    for nonce in (0..=255u8).rev() {
        let k = create_program_address(&owned_seeds(&registrar, &vendor, nonce), &pid);
        if k.is_some() == derives {
            return (nonce, k);
        }
    }
    panic!("no such nonce");
}

fn drop_ctx(registrar_key: Pubkey, vault_owner: Pubkey, vault_mint: Pubkey, supply: u64, clock: i64) -> DropReward {
    DropReward {
        registrar: Account { info: acct(registrar_key), data: registrar() },
        reward_event_q: Account { info: acct(key(2)), data: RewardQueue::new(0, 0, vec![RewardEvent::default(); 3]) },
        pool_mint: Account { info: acct(key(5)), data: Mint { mint_authority: None, supply, decimals: 0 } },
        vendor: FreshAccount { info: acct(key(80)), discriminator: 0, rent_exempt: true, data: empty_vendor() },
        vendor_vault: token(key(81), vault_mint, vault_owner, 0),
        depositor: acct(key(82)),
        depositor_authority: signer(key(83)),
        token_program: acct(registry::token_program_id()),
        clock,
    }
}

#[test]
fn drop_reward_appends_event_and_writes_vendor() {
    let pid = registry::id();
    let (nonce, vs) = vendor_nonce(key(10), key(80), true);
    let ctx = drop_ctx(key(10), vs.unwrap(), key(3), 1000, 50);
    assert_eq!(ctx.try_accounts(), Ok(()));
    let (q, vendor, calls) =
        drop_reward(ctx, &pid, RewardVendorKind::Unlocked, 2000, 60, key(84), nonce, false).unwrap();
    assert_eq!(q.head(), 1);
    assert_eq!(q.tail(), 0);
    assert_eq!(*q.get(vendor.reward_event_q_cursor), RewardEvent { vendor: key(80), ts: 50, locked: false });
    assert_eq!(
        vendor,
        RewardVendor {
            registrar: key(10),
            vault: key(81),
            mint: key(3),
            nonce,
            pool_token_supply: 1000,
            reward_event_q_cursor: 0,
            start_ts: 50,
            expiry_ts: 60,
            expiry_receiver: key(84),
            from: key(83),
            total: 2000,
            expired: false,
            kind: RewardVendorKind::Unlocked,
        }
    );
    assert_eq!(
        calls,
        vec![Cpi {
            call: Call::Transfer { from: key(82), to: key(81), authority: key(83), amount: 2000 },
            signer: Signer::Unsigned,
        }]
    );
}

#[test]
fn drop_reward_marks_locked_events() {
    let pid = registry::id();
    let (nonce, vs) = vendor_nonce(key(10), key(80), true);
    let kind = RewardVendorKind::Locked { start_ts: 1, end_ts: 2, period_count: 3 };
    let ctx = drop_ctx(key(10), vs.unwrap(), key(3), 0, 50);
    let (q, vendor, _) = drop_reward(ctx, &pid, kind, 5, 60, key(84), nonce, true).unwrap();
    assert!(q.get(vendor.reward_event_q_cursor).locked);
    assert_eq!(vendor.kind, kind);
    let ctx = drop_ctx(key(10), vs.unwrap(), key(3), 0, 50);
    assert_eq!(
        drop_reward(ctx, &pid, kind, 5, 60, key(84), nonce, false).unwrap_err(),
        Error::ErrorCode(ErrorCode::InvalidVestingSchedule)
    );
}

#[test]
fn drop_reward_errors_in_order() {
    let pid = registry::id();
    let (nonce, vs) = vendor_nonce(key(10), key(80), true);
    let vs = vs.unwrap();
    let (bad_nonce, _) = vendor_nonce(key(10), key(80), false);
    let u = RewardVendorKind::Unlocked;
    let r = drop_reward(drop_ctx(key(10), vs, key(3), 10, 50), &pid, u, 20, 60, key(84), bad_nonce, false);
    assert_eq!(r.unwrap_err(), Error::ErrorCode(ErrorCode::InvalidNonce));
    let r = drop_reward(drop_ctx(key(10), key(9), key(3), 10, 50), &pid, u, 20, 60, key(84), nonce, false);
    assert_eq!(r.unwrap_err(), Error::ErrorCode(ErrorCode::InvalidVaultOwner));
    let r = drop_reward(drop_ctx(key(10), vs, key(3), 30, 50), &pid, u, 20, 60, key(84), nonce, false);
    assert_eq!(r.unwrap_err(), Error::ErrorCode(ErrorCode::InsufficientReward));
    let r = drop_reward(drop_ctx(key(10), vs, key(3), 10, 60), &pid, u, 20, 60, key(84), nonce, false);
    assert_eq!(r.unwrap_err(), Error::ErrorCode(ErrorCode::InvalidExpiry));
}

#[test]
fn drop_reward_known_pools_need_their_mint_and_minimum() {
    let pid = registry::id();
    let srm = registry::srm_registrar::id();
    let (nonce, vs) = vendor_nonce(srm, key(80), true);
    let vs = vs.unwrap();
    let u = RewardVendorKind::Unlocked;
    let srm_mint = registry::srm_mint::id();
    let r = drop_reward(drop_ctx(srm, vs, key(3), 0, 50), &pid, u, 600_000_000, 60, key(84), nonce, false);
    assert_eq!(r.unwrap_err(), Error::ErrorCode(ErrorCode::InvalidMint));
    let r = drop_reward(drop_ctx(srm, vs, srm_mint, 0, 50), &pid, u, 499_999_999, 60, key(84), nonce, false);
    assert_eq!(r.unwrap_err(), Error::ErrorCode(ErrorCode::InsufficientReward));
    let r = drop_reward(drop_ctx(srm, vs, srm_mint, 0, 50), &pid, u, 500_000_000, 60, key(84), nonce, false);
    assert!(r.is_ok());

    let fida = registry::fida_registrar::id();
    let (nonce, vs) = vendor_nonce(fida, key(80), true);
    let fida_mint = registry::fida_mint::id();
    let r = drop_reward(drop_ctx(fida, vs.unwrap(), fida_mint, 0, 50), &pid, u, 899_999_999, 60, key(84), nonce, false);
    assert_eq!(r.unwrap_err(), Error::ErrorCode(ErrorCode::InsufficientReward));
    let r = drop_reward(drop_ctx(fida, vs.unwrap(), fida_mint, 0, 50), &pid, u, 900_000_000, 60, key(84), nonce, false);
    assert!(r.is_ok());

    let dxl = registry::dxl_registrar::id();
    let (nonce, vs) = vendor_nonce(dxl, key(80), true);
    let r = drop_reward(drop_ctx(dxl, vs.unwrap(), srm_mint, 0, 50), &pid, u, 900_000_000, 60, key(84), nonce, false);
    assert_eq!(r.unwrap_err(), Error::ErrorCode(ErrorCode::InvalidMint));
}

fn member(last_stake_ts: i64, rewards_cursor: u32) -> Member {
    Member {
        registrar: key(10),
        beneficiary: key(11),
        metadata: key(0),
        balances: BalanceSandbox { spt: key(20), vault: key(21), vault_stake: key(22), vault_pw: key(23) },
        balances_locked: BalanceSandbox { spt: key(30), vault: key(31), vault_stake: key(32), vault_pw: key(33) },
        rewards_cursor,
        last_stake_ts,
        nonce: 7,
    }
}

fn vendor(kind: RewardVendorKind, cursor: u32, start_ts: i64, expired: bool) -> RewardVendor {
    RewardVendor {
        registrar: key(10),
        vault: key(81),
        mint: key(3),
        nonce: 9,
        pool_token_supply: 10,
        reward_event_q_cursor: cursor,
        start_ts,
        expiry_ts: 1000,
        expiry_receiver: key(84),
        from: key(83),
        total: 100,
        expired,
        kind,
    }
}

fn common(m: Member, v: RewardVendor, spt: u64, spt_locked: u64) -> ClaimRewardCommon {
    ClaimRewardCommon {
        registrar: Account { info: acct(key(10)), data: registrar() },
        member: Account { info: acct(key(12)), data: m },
        beneficiary: signer(key(11)),
        balances_spt: token(key(20), key(5), key(13), spt),
        balances_locked_spt: token(key(30), key(5), key(13), spt_locked),
        vendor: Account { info: acct(key(80)), data: v },
        vault: acct(key(81)),
        vendor_signer: acct(key(85)),
        token_program: acct(registry::token_program_id()),
        clock: 500,
    }
}

fn vendor_signed() -> Signer {
    Signer::Owned { registrar: key(10), owner: key(80), nonce: 9 }
}

#[test]
fn claim_reward_pays_pro_rata_share() {
    let v = vendor(RewardVendorKind::Unlocked, 3, 100, false);
    let ctx = ClaimReward { cmn: common(member(50, 2), v, 2, 1), to: acct(key(90)) };
    let (m, calls) = claim_reward(&ctx).unwrap();
    assert_eq!(m, Member { rewards_cursor: 4, ..member(50, 2) });
    assert_eq!(
        calls,
        vec![Cpi {
            call: Call::Transfer { from: key(81), to: key(90), authority: key(85), amount: 30 },
            signer: vendor_signed(),
        }]
    );
}

#[test]
fn claim_reward_once_only() {
    let v = vendor(RewardVendorKind::Unlocked, 3, 100, false);
    let ctx = ClaimReward { cmn: common(member(50, 3), v, 2, 1), to: acct(key(90)) };
    let (m, _) = claim_reward(&ctx).unwrap();
    let again = ClaimReward { cmn: common(m, v, 2, 1), to: acct(key(90)) };
    assert_eq!(claim_reward(&again), Err(Error::ErrorCode(ErrorCode::CursorAlreadyProcessed)));
}

#[test]
fn claim_reward_rounds_down() {
    let v = RewardVendor { total: 7, pool_token_supply: 3, ..vendor(RewardVendorKind::Unlocked, 0, 100, false) };
    let ctx = ClaimReward { cmn: common(member(50, 0), v, 1, 0), to: acct(key(90)) };
    let (_, calls) = claim_reward(&ctx).unwrap();
    assert_eq!(calls[0].call, Call::Transfer { from: key(81), to: key(90), authority: key(85), amount: 2 });
    assert_eq!(reward_amount(1, 0, 7, 3), Some(2));
    assert_eq!(reward_amount(3, 0, 7, 3), Some(7));
}

#[test]
fn claim_reward_eligibility_errors() {
    let u = RewardVendorKind::Unlocked;
    let expired = ClaimReward { cmn: common(member(50, 0), vendor(u, 0, 100, true), 1, 0), to: acct(key(90)) };
    assert_eq!(claim_reward(&expired), Err(Error::ErrorCode(ErrorCode::VendorExpired)));
    let late = ClaimReward { cmn: common(member(150, 0), vendor(u, 0, 100, false), 1, 0), to: acct(key(90)) };
    assert_eq!(claim_reward(&late), Err(Error::ErrorCode(ErrorCode::NotStakedDuringDrop)));
    assert_eq!(reward_eligible(&late.cmn), Err(Error::ErrorCode(ErrorCode::NotStakedDuringDrop)));
    let on_time = common(member(100, 0), vendor(u, 0, 100, false), 1, 0);
    assert_eq!(reward_eligible(&on_time), Ok(()));
    let locked = RewardVendorKind::Locked { start_ts: 1, end_ts: 2, period_count: 3 };
    let wrong = ClaimReward { cmn: common(member(50, 0), vendor(locked, 0, 100, false), 1, 0), to: acct(key(90)) };
    assert_eq!(claim_reward(&wrong), Err(Error::ErrorCode(ErrorCode::ExpectedUnlockedVendor)));
}

fn locked_ctx(kind: RewardVendorKind, m: Member) -> ClaimRewardLocked {
    ClaimRewardLocked {
        cmn: common(m, vendor(kind, 3, 100, false), 2, 1),
        registry: Account { info: acct(key(95)), data: registry::state::Registry { lockup_program: key(96) } },
        lockup_program: acct(key(96)),
    }
}

#[test]
fn claim_reward_locked_creates_vesting() {
    let pid = registry::id();
    let kind = RewardVendorKind::Locked { start_ts: 11, end_ts: 22, period_count: 3 };
    let (m, calls) = claim_reward_locked(&locked_ctx(kind, member(50, 0)), &pid, 254).unwrap();
    assert_eq!(m.rewards_cursor, 4);
    assert_eq!(
        calls,
        vec![Cpi {
            call: Call::CreateVesting {
                beneficiary: key(11),
                deposit_amount: 30,
                nonce: 254,
                start_ts: 11,
                end_ts: 22,
                period_count: 3,
                realizor: Some(Realizor { program: pid, metadata: key(12) }),
            },
            signer: vendor_signed(),
        }]
    );
    assert_eq!(
        claim_reward_locked(&locked_ctx(RewardVendorKind::Unlocked, member(50, 0)), &pid, 254),
        Err(Error::ErrorCode(ErrorCode::ExpectedLockedVendor))
    );
    assert_eq!(
        claim_reward_locked(&locked_ctx(kind, member(50, 4)), &pid, 254),
        Err(Error::ErrorCode(ErrorCode::CursorAlreadyProcessed))
    );
}

fn expire_ctx(clock: i64, expired: bool) -> ExpireReward {
    ExpireReward {
        registrar: Account { info: acct(key(10)), data: registrar() },
        vendor: Account { info: acct(key(80)), data: vendor(RewardVendorKind::Unlocked, 0, 100, expired) },
        vault: token(key(81), key(3), key(85), 77),
        vendor_signer: acct(key(85)),
        expiry_receiver: signer(key(84)),
        expiry_receiver_token: acct(key(86)),
        token_program: acct(registry::token_program_id()),
        clock,
    }
}

#[test]
fn expire_reward_only_after_expiry() {
    assert_eq!(expire_reward(&expire_ctx(999, false)), Err(Error::ErrorCode(ErrorCode::VendorNotYetExpired)));
    let (v, calls) = expire_reward(&expire_ctx(1000, false)).unwrap();
    assert!(v.expired);
    assert_eq!(v, RewardVendor { expired: true, ..vendor(RewardVendorKind::Unlocked, 0, 100, false) });
    assert_eq!(
        calls,
        vec![Cpi {
            call: Call::Transfer { from: key(81), to: key(86), authority: key(85), amount: 77 },
            signer: vendor_signed(),
        }]
    );
}

#[test]
fn expired_vendor_pays_nothing() {
    let (v, _) = expire_reward(&expire_ctx(1000, false)).unwrap();
    let ctx = ClaimReward { cmn: common(member(50, 0), v, 5, 5), to: acct(key(90)) };
    assert_eq!(claim_reward(&ctx), Err(Error::ErrorCode(ErrorCode::VendorExpired)));
}

#[test]
fn split_pool_tokens_never_earn_more() {
    let together = reward_amount(2, 3, 10, 7).unwrap();
    let apart = reward_amount(2, 0, 10, 7).unwrap() + reward_amount(3, 0, 10, 7).unwrap();
    assert!(apart <= together);
    assert_eq!(together, 7);
    assert_eq!(apart, 6);
    assert!(reward_amount(1, 0, 10, 7).unwrap() <= reward_amount(2, 0, 10, 7).unwrap());
}

#[test]
fn reward_amount_refuses_overflow_and_zero_supply() {
    assert_eq!(reward_amount(u64::MAX, 1, 1, 1), None);
    assert_eq!(reward_amount(u64::MAX, 0, 2, 1), None);
    assert_eq!(reward_amount(1, 1, 1, 0), None);
    assert_eq!(reward_amount(0, 0, 5, 0), None);
    assert_eq!(reward_amount(4, 0, 0, 3), Some(0));
}

fn balances(spt_amount: u64) -> BalanceSandboxAccounts {
    BalanceSandboxAccounts {
        spt: token(key(20), key(5), key(13), spt_amount),
        vault: token(key(21), key(3), key(13), 0),
        vault_stake: token(key(22), key(3), key(13), 0),
        vault_pw: token(key(23), key(3), key(13), 0),
    }
}

#[test]
fn pending_rewards_only_count_held_events_after_last_stake() {
    let mut q = RewardQueue::new(0, 0, vec![RewardEvent::default(); 2]);
    q.append(RewardEvent { vendor: key(1), ts: 300, locked: false }).unwrap();
    q.append(RewardEvent { vendor: key(2), ts: 100, locked: false }).unwrap();
    q.append(RewardEvent { vendor: key(3), ts: 100, locked: false }).unwrap();
    // The event at cursor 0 (ts 300) has been dropped from the ring.
    assert_eq!(q.tail(), 2);
    assert_eq!(no_available_rewards(&q, &member(200, 0), &balances(1)), Ok(()));
    q.append(RewardEvent { vendor: key(4), ts: 250, locked: false }).unwrap();
    assert_eq!(
        no_available_rewards(&q, &member(200, 0), &balances(1)),
        Err(Error::ErrorCode(ErrorCode::RewardsNeedsProcessing))
    );
    assert_eq!(no_available_rewards(&q, &member(200, 4), &balances(1)), Ok(()));
    assert_eq!(no_available_rewards(&q, &member(200, 0), &balances(0)), Ok(()));
}

#[test]
fn each_pool_token_earns_at_least_one_unit() {
    for s in 0..20u64 {
        assert!(reward_amount(s, 0, 10, 10).unwrap() >= s);
        assert!(reward_amount(s, 0, 17, 10).unwrap() >= s);
    }
    assert_eq!(reward_amount(3, 0, 10, 10), Some(3));
}

#[test]
fn claims_of_one_drop_never_overdraw_its_vault() {
    let shares = [3u64, 3, 4];
    let paid: Vec<u64> = shares.iter().map(|s| reward_amount(*s, 0, 17, 10).unwrap()).collect();
    assert_eq!(paid, vec![5, 5, 6]);
    assert!(paid.iter().sum::<u64>() <= 17);
    for (s, a) in shares.iter().zip(paid.iter()) {
        assert!(a >= s);
    }
}

#[test]
fn drop_reward_stops_when_queue_cannot_take_the_event() {
    let pid = registry::id();
    let (nonce, vs) = vendor_nonce(key(10), key(80), true);
    let u = RewardVendorKind::Unlocked;
    let mut ctx = drop_ctx(key(10), vs.unwrap(), key(3), 10, 50);
    ctx.reward_event_q.data = RewardQueue::new(0, 0, vec![]);
    assert!(drop_reward_checked(ctx, &pid, u, 20, 60, key(84), nonce, false).is_none());
    let mut ctx = drop_ctx(key(10), vs.unwrap(), key(3), 10, 50);
    ctx.reward_event_q.data = RewardQueue::new(u32::MAX, 0, vec![RewardEvent::default(); 3]);
    assert!(drop_reward_checked(ctx, &pid, u, 20, 60, key(84), nonce, false).is_none());
    // A failing check is reported even with an empty ring.
    let mut ctx = drop_ctx(key(10), vs.unwrap(), key(3), 30, 50);
    ctx.reward_event_q.data = RewardQueue::new(0, 0, vec![]);
    assert_eq!(
        drop_reward_checked(ctx, &pid, u, 20, 60, key(84), nonce, false).map(|r| r.map(|x| x.1)),
        Some(Err(Error::ErrorCode(ErrorCode::InsufficientReward)))
    );
    let ctx = drop_ctx(key(10), vs.unwrap(), key(3), 10, 50);
    let (q, vendor, _) = drop_reward_checked(ctx, &pid, u, 20, 60, key(84), nonce, false).unwrap().unwrap();
    assert_eq!(q.head(), 1);
    assert_eq!(vendor.total, 20);
}

#[test]
fn member_cursor_only_grows_across_claims() {
    let u = RewardVendorKind::Unlocked;
    let v1 = vendor(u, 1, 100, false);
    let v2 = vendor(u, 4, 100, false);
    let (m1, _) = claim_reward(&ClaimReward { cmn: common(member(50, 0), v1, 2, 1), to: acct(key(90)) }).unwrap();
    assert_eq!(m1.rewards_cursor, 2);
    let (m2, _) = claim_reward(&ClaimReward { cmn: common(m1, v2, 2, 1), to: acct(key(90)) }).unwrap();
    assert_eq!(m2.rewards_cursor, 5);
    for v in [v1, v2] {
        assert_eq!(
            claim_reward(&ClaimReward { cmn: common(m2, v, 2, 1), to: acct(key(90)) }),
            Err(Error::ErrorCode(ErrorCode::CursorAlreadyProcessed))
        );
    }
    // An earlier vendor cannot be claimed after a later one.
    let v0 = vendor(u, 0, 100, false);
    assert_eq!(
        claim_reward(&ClaimReward { cmn: common(m1, v0, 2, 1), to: acct(key(90)) }),
        Err(Error::ErrorCode(ErrorCode::CursorAlreadyProcessed))
    );
}

use registry::accounts::{registry_address, Account, AccountRef, FreshAccount, Initialize, NewRegistry, SetLockupProgram};
use registry::calls::{Call, Cpi, Signer};
use registry::error::{Error, ErrorCode, FrameworkError};
use registry::handlers::{
    initialize, initialize_checked, new_registry, program_authority, set_lockup_program,
    set_lockup_program_checked,
};
use registry::pubkey::{create_program_address, Pubkey};
use registry::reward_queue::RewardQueue;
use registry::seeds::registrar_seeds;
use registry::state::{Mint, Registrar, Registry, RewardEvent};

fn key(n: u64) -> Pubkey {
    Pubkey { w0: n, w1: 0, w2: 0, w3: 0 }
}

fn acct(k: Pubkey) -> AccountRef {
    AccountRef { key: k, owner: key(0), is_signer: false, is_writable: true }
}

fn blank_registrar() -> Registrar {
    Registrar {
        authority: key(0),
        nonce: 0,
        withdrawal_timelock: 0,
        reward_event_q: key(0),
        mint: key(0),
        pool_mint: key(0),
        stake_rate: 0,
    }
}

fn registrar_nonce(registrar: Pubkey, derives: bool) -> (u8, Option<Pubkey>) {
    let pid = registry::id();
    for nonce in (0..=255u8).rev() {
        let k = create_program_address(&registrar_seeds(&registrar, nonce), &pid);
        if k.is_some() == derives {
            return (nonce, k);
        }
    }
    panic!("no such nonce");
}

fn init_ctx(authority: Option<Pubkey>, events: Vec<RewardEvent>) -> Initialize {
    Initialize {
        registrar: FreshAccount { info: acct(key(10)), discriminator: 0, rent_exempt: true, data: blank_registrar() },
        reward_event_q: FreshAccount { info: acct(key(2)), discriminator: 0, rent_exempt: true, data: RewardQueue::new(0, 0, events) },
        pool_mint: Account { info: acct(key(5)), data: Mint { mint_authority: authority, supply: 0, decimals: 0 } },
    }
}

#[test]
fn initialize_writes_registrar_and_sizes_queue() {
    let pid = registry::id();
    let (nonce, signer) = registrar_nonce(key(10), true);
    let ctx = init_ctx(signer, vec![]);
    assert_eq!(ctx.try_accounts(), Ok(()));
    let (r, q) = initialize(ctx, &pid, key(3), key(1), nonce, 100, 10, 4).unwrap();
    assert_eq!(
        r,
        Registrar {
            authority: key(1),
            nonce,
            withdrawal_timelock: 100,
            reward_event_q: key(2),
            mint: key(3),
            pool_mint: key(5),
            stake_rate: 10,
        }
    );
    assert_eq!(q.capacity(), 4);
    assert_eq!(q.head(), 0);
    assert_eq!(q.events(), &vec![RewardEvent::default(); 4]);
}

#[test]
fn initialize_checks_pool_mint_authority() {
    let pid = registry::id();
    let (nonce, _) = registrar_nonce(key(10), true);
    let r = initialize(init_ctx(Some(key(77)), vec![]), &pid, key(3), key(1), nonce, 100, 10, 4);
    assert_eq!(r.map(|x| x.0), Err(Error::ErrorCode(ErrorCode::InvalidPoolMintAuthority)));
    let r = initialize(init_ctx(None, vec![]), &pid, key(3), key(1), nonce, 100, 10, 4);
    assert_eq!(r.map(|x| x.0), Err(Error::ErrorCode(ErrorCode::InvalidPoolMintAuthority)));
    let (bad, _) = registrar_nonce(key(10), false);
    let r = initialize(init_ctx(Some(key(77)), vec![]), &pid, key(3), key(1), bad, 100, 10, 4);
    assert_eq!(r.map(|x| x.0), Err(Error::ErrorCode(ErrorCode::InvalidNonce)));
}

#[test]
fn initialize_accounts_must_be_fresh_and_mint_whole() {
    let mut ctx = init_ctx(None, vec![]);
    ctx.registrar.discriminator = 5;
    assert_eq!(ctx.try_accounts(), Err(Error::ProgramError(FrameworkError::ConstraintZero)));
    let mut ctx = init_ctx(None, vec![]);
    ctx.reward_event_q.rent_exempt = false;
    assert_eq!(ctx.try_accounts(), Err(Error::ProgramError(FrameworkError::ConstraintRentExempt)));
    let mut ctx = init_ctx(None, vec![]);
    ctx.pool_mint.data.decimals = 6;
    assert_eq!(ctx.try_accounts(), Err(Error::ProgramError(FrameworkError::Deprecated)));
}

#[test]
fn new_registry_records_lockup_program() {
    let pid = registry::id();
    let (addr, bump) = registry_address(&pid).unwrap();
    let ctx = NewRegistry {
        authority: AccountRef { key: key(1), owner: key(0), is_signer: true, is_writable: false },
        lockup_program: acct(key(66)),
        registry: FreshAccount { info: acct(addr), discriminator: 0, rent_exempt: true, data: Registry { lockup_program: key(0) } },
        system_program: acct(key(0)),
    };
    assert_eq!(ctx.try_accounts(&[bump], (addr, bump)), Ok(()));
    assert_eq!(ctx.try_accounts(&[bump.wrapping_sub(1)], (addr, bump)), Err(Error::ProgramError(FrameworkError::ConstraintSeeds)));
    assert_eq!(ctx.try_accounts(&[], (addr, bump)), Err(Error::ProgramError(FrameworkError::InstructionDidNotDeserialize)));
    assert_eq!(new_registry(&ctx), Ok(Registry { lockup_program: key(66) }));
}

#[test]
fn only_program_authority_sets_lockup_program() {
    let pid = registry::id();
    let authority = program_authority().unwrap();
    let (addr, bump) = registry_address(&pid).unwrap();
    let ctx = SetLockupProgram {
        authority: AccountRef { key: authority, owner: key(0), is_signer: true, is_writable: false },
        registry: Account { info: acct(addr), data: Registry { lockup_program: key(66) } },
    };
    assert_eq!(ctx.try_accounts(&pid, &[bump]), Ok(()));
    assert_eq!(set_lockup_program(&ctx, key(67), authority), Ok(Registry { lockup_program: key(67) }));
    let other = SetLockupProgram {
        authority: AccountRef { key: key(1), owner: key(0), is_signer: true, is_writable: false },
        registry: Account { info: acct(addr), data: Registry { lockup_program: key(66) } },
    };
    assert_eq!(set_lockup_program(&other, key(67), authority), Err(Error::ErrorCode(ErrorCode::InvalidProgramAuthority)));
    let unsigned = SetLockupProgram {
        authority: AccountRef { key: authority, owner: key(0), is_signer: false, is_writable: false },
        registry: Account { info: acct(addr), data: Registry { lockup_program: key(66) } },
    };
    assert_eq!(unsigned.try_accounts(&pid, &[bump]), Err(Error::ProgramError(FrameworkError::ConstraintSigner)));
}

fn new_registry_ctx() -> NewRegistry {
    NewRegistry {
        authority: AccountRef { key: key(1), owner: key(0), is_signer: true, is_writable: true },
        lockup_program: acct(key(66)),
        registry: FreshAccount { info: acct(key(20)), discriminator: 0, rent_exempt: false, data: Registry { lockup_program: key(0) } },
        system_program: acct(key(0)),
    }
}

#[test]
fn registry_singleton_created_when_empty() {
    let pid = registry::id();
    let calls = new_registry_ctx().init_calls(&pid, 251, 0, 7_850_880);
    assert_eq!(
        calls,
        vec![Cpi {
            call: Call::CreateAccount { from: key(1), to: key(20), lamports: 7_850_880, space: 1000, owner: pid },
            signer: Signer::Registry { bump: 251 },
        }]
    );
}

#[test]
fn registry_singleton_topped_up_when_funded() {
    let pid = registry::id();
    let signed = Signer::Registry { bump: 9 };
    let tail = vec![
        Cpi { call: Call::Allocate { account: key(20), space: 1000 }, signer: signed },
        Cpi { call: Call::Assign { account: key(20), owner: pid }, signer: signed },
    ];
    let calls = new_registry_ctx().init_calls(&pid, 9, 100, 1000);
    let mut expected = vec![Cpi {
        call: Call::SystemTransfer { from: key(1), to: key(20), lamports: 900 },
        signer: Signer::Unsigned,
    }];
    expected.extend(tail.clone());
    assert_eq!(calls, expected);
    assert_eq!(new_registry_ctx().init_calls(&pid, 9, 1000, 1000), tail);
    assert_eq!(new_registry_ctx().init_calls(&pid, 9, 5000, 1000), tail);
    assert_eq!(new_registry_ctx().init_calls(&pid, 9, 1, 0), tail);
}

#[test]
fn initialize_stops_when_pool_mint_has_supply() {
    let pid = registry::id();
    let (nonce, signer) = registrar_nonce(key(10), true);
    let mut ctx = init_ctx(signer, vec![]);
    ctx.pool_mint.data.supply = 5;
    assert!(initialize_checked(ctx, &pid, key(3), key(1), nonce, 100, 10, 4).is_none());
    // A failing check is reported before the supply is looked at.
    let mut ctx = init_ctx(Some(key(77)), vec![]);
    ctx.pool_mint.data.supply = 5;
    let r = initialize_checked(ctx, &pid, key(3), key(1), nonce, 100, 10, 4).unwrap();
    assert_eq!(r.map(|x| x.0), Err(Error::ErrorCode(ErrorCode::InvalidPoolMintAuthority)));
    let (registrar, q) = initialize_checked(init_ctx(signer, vec![]), &pid, key(3), key(1), nonce, 100, 10, 4)
        .unwrap()
        .unwrap();
    assert_eq!(registrar.nonce, nonce);
    assert_eq!(q.capacity(), 4);
}

#[test]
fn checked_registry_calls_find_the_canonical_address() {
    let pid = registry::id();
    let (addr, bump) = registry_address(&pid).unwrap();
    let ctx = NewRegistry {
        authority: AccountRef { key: key(1), owner: key(0), is_signer: true, is_writable: false },
        lockup_program: acct(key(66)),
        registry: FreshAccount { info: acct(addr), discriminator: 0, rent_exempt: true, data: Registry { lockup_program: key(0) } },
        system_program: acct(key(0)),
    };
    assert_eq!(ctx.try_accounts_found(&pid, &[bump]), Some(Ok(())));
    assert_eq!(
        ctx.try_accounts_found(&pid, &[bump.wrapping_add(1)]),
        Some(Err(Error::ProgramError(FrameworkError::ConstraintSeeds)))
    );
    let authority = program_authority().unwrap();
    let set = SetLockupProgram {
        authority: AccountRef { key: authority, owner: key(0), is_signer: true, is_writable: false },
        registry: Account { info: acct(addr), data: Registry { lockup_program: key(66) } },
    };
    assert_eq!(set_lockup_program_checked(&set, key(68)), Some(Ok(Registry { lockup_program: key(68) })));
    let other = SetLockupProgram {
        authority: AccountRef { key: key(2), owner: key(0), is_signer: true, is_writable: false },
        registry: Account { info: acct(addr), data: Registry { lockup_program: key(66) } },
    };
    assert_eq!(
        set_lockup_program_checked(&other, key(68)),
        Some(Err(Error::ErrorCode(ErrorCode::InvalidProgramAuthority)))
    );
}

use registry::client::{AccountMeta, BalanceSandboxAccounts, ClaimReward, ClaimRewardCommon, Stake, UpdateRegistrar};
use registry::pubkey::Pubkey;

fn key(n: u64) -> Pubkey {
    Pubkey { w0: n, w1: 0, w2: 0, w3: 0 }
}

fn m(n: u64, is_signer: bool, is_writable: bool) -> AccountMeta {
    AccountMeta { pubkey: key(n), is_signer, is_writable }
}

#[test]
fn update_registrar_account_list() {
    let a = UpdateRegistrar { registrar: key(1), authority: key(2) };
    assert_eq!(a.to_account_metas(None), vec![m(1, false, true), m(2, true, false)]);
    assert_eq!(a.to_account_metas(Some(false)), vec![m(1, false, true), m(2, true, false)]);
}

#[test]
fn stake_account_list_inlines_balances() {
    let a = Stake {
        registrar: key(1),
        reward_event_q: key(2),
        pool_mint: key(3),
        member: key(4),
        beneficiary: key(5),
        balances: BalanceSandboxAccounts { spt: key(6), vault: key(7), vault_stake: key(8), vault_pw: key(9) },
        member_signer: key(10),
        registrar_signer: key(11),
        clock: key(12),
        token_program: key(13),
    };
    assert_eq!(
        a.to_account_metas(None),
        vec![
            m(1, false, false),
            m(2, false, false),
            m(3, false, true),
            m(4, false, true),
            m(5, true, false),
            m(6, false, true),
            m(7, false, true),
            m(8, false, true),
            m(9, false, true),
            m(10, false, false),
            m(11, false, false),
            m(12, false, false),
            m(13, false, false),
        ]
    );
}

#[test]
fn claim_reward_account_list_starts_with_common_accounts() {
    let cmn = ClaimRewardCommon {
        registrar: key(1),
        member: key(2),
        beneficiary: key(3),
        balances_spt: key(4),
        balances_locked_spt: key(5),
        vendor: key(6),
        vault: key(7),
        vendor_signer: key(8),
        token_program: key(9),
        clock: key(10),
    };
    let metas = ClaimReward { cmn, to: key(11) }.to_account_metas(None);
    assert_eq!(metas.len(), 11);
    assert_eq!(&metas[..10], cmn.to_account_metas(None).as_slice());
    assert_eq!(metas[1], m(2, false, true));
    assert_eq!(metas[2], m(3, true, false));
    assert_eq!(metas[10], m(11, false, true));
}

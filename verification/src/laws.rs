//! Properties of the registry that span its instructions.
use vstd::prelude::*;
use crate::accounts::{
    ClaimReward, ClaimRewardLocked, DropReward, EndUnstake, ExpireReward, IsRealized, Stake,
    StartUnstake, UpdateMemberBalances, UpdateMemberBalancesLock,
};
use crate::calls::{Call, Cpi, spec_token_effects};
use crate::error::{Error, ErrorCode};
use crate::handlers::{
    spec_drop_reward_outcome, spec_update_member_balances, spec_update_member_balances_lock, spec_drop_reward_check, spec_claim_amount, spec_claim_reward, spec_claim_reward_locked, spec_drop_event,
    spec_dropped_vendor, spec_end_unstake, spec_expire_reward, spec_stake, spec_start_unstake,
};
use crate::pubkey::Pubkey;
use crate::reward_queue::{RewardQueue, lemma_append_keeps_window, lemma_get_after_append};
use crate::rewards::{
    lemma_reward_at_least_share, lemma_reward_bounded_by_total, lemma_rewards_within_total,
    spec_reward_amount, spec_reward_eligible, spec_sum, spec_sum_rewards,
};
use crate::state::{Member, PendingWithdrawal, RewardVendor, RewardVendorKind, Vesting};

verus! {

/// A reward is paid once: after a member claims from a vendor, the same
/// vendor refuses the member.
pub proof fn lemma_claim_once(ctx: &ClaimReward, member: Member, calls: Seq<Cpi>)
    requires
        spec_claim_reward(ctx) == Ok::<(Member, Seq<Cpi>), Error>((member, calls)),
        ctx.cmn.vendor.data.reward_event_q_cursor < u32::MAX,
    ensures
        spec_reward_eligible(ctx.cmn.vendor.data, member) is Err,
{
}

/// A locked reward is paid once: after a member claims from a locked
/// vendor, the same vendor refuses the member.
pub proof fn lemma_claim_locked_once(ctx: &ClaimRewardLocked, program_id: Pubkey, nonce: u8, member: Member, calls: Seq<Cpi>)
    requires
        spec_claim_reward_locked(ctx, program_id, nonce) == Ok::<(Member, Seq<Cpi>), Error>((member, calls)),
        ctx.cmn.vendor.data.reward_event_q_cursor < u32::MAX,
    ensures
        spec_reward_eligible(ctx.cmn.vendor.data, member) is Err,
{
}

/// A claim pays at most the vendor's total when the member's pool tokens do
/// not exceed the pool supply recorded at the drop.
pub proof fn lemma_claim_within_total(ctx: &ClaimReward, member: Member, calls: Seq<Cpi>)
    requires
        spec_claim_reward(ctx) == Ok::<(Member, Seq<Cpi>), Error>((member, calls)),
        ctx.cmn.balances_spt.data.amount + ctx.cmn.balances_locked_spt.data.amount
            <= ctx.cmn.vendor.data.pool_token_supply,
        ctx.cmn.vendor.data.pool_token_supply > 0,
    ensures
        calls.len() == 1,
        calls[0].call == (Call::Transfer {
            from: ctx.cmn.vault.key,
            to: ctx.to.key,
            authority: ctx.cmn.vendor_signer.key,
            amount: spec_claim_amount(&ctx.cmn) as u64,
        }),
        spec_claim_amount(&ctx.cmn) <= ctx.cmn.vendor.data.total,
{
    lemma_reward_bounded_by_total(
        ctx.cmn.balances_spt.data.amount + ctx.cmn.balances_locked_spt.data.amount,
        ctx.cmn.vendor.data.total as int,
        ctx.cmn.vendor.data.pool_token_supply as int,
    );
}

/// An expired vendor pays no one, and a vendor expires only after its
/// expiry.
pub proof fn lemma_expired_vendor_pays_nothing(ctx: &ExpireReward, vendor: RewardVendor, calls: Seq<Cpi>, member: Member)
    requires
        spec_expire_reward(ctx) == Ok::<(RewardVendor, Seq<Cpi>), Error>((vendor, calls)),
    ensures
        ctx.clock >= ctx.vendor.data.expiry_ts,
        spec_reward_eligible(vendor, member) == Err::<(), Error>(Error::ErrorCode(ErrorCode::VendorExpired)),
{
}

/// Staking after a drop forfeits it: a member that staked at a time later
/// than a vendor's drop is refused by that vendor.
pub proof fn lemma_stake_after_drop_forfeits(ctx: &Stake, spt_amount: u64, member: Member, calls: Seq<Cpi>, vendor: RewardVendor)
    requires
        spec_stake(ctx, spt_amount) == Ok::<(Member, Seq<Cpi>), Error>((member, calls)),
        vendor.start_ts < ctx.clock,
    ensures
        spec_reward_eligible(vendor, member) is Err,
{
}

/// A pending withdrawal completes once: once `end_unstake` has spent it, the
/// accounts of any further `end_unstake` on it are refused.
pub proof fn lemma_end_unstake_once(ctx: &EndUnstake, pw: PendingWithdrawal, calls: Seq<Cpi>, next: &EndUnstake, program_id: Pubkey)
    requires
        spec_end_unstake(ctx) == Ok::<(PendingWithdrawal, Seq<Cpi>), Error>((pw, calls)),
        next.pending_withdrawal.data == pw,
    ensures
        pw.burned,
        next.spec_try_accounts(program_id) is Err,
{
}

/// The timelock holds: a withdrawal started at some time completes only
/// once the registrar's timelock has passed since then.
pub proof fn lemma_unstake_timelock(
    start: &StartUnstake,
    spt_amount: u64,
    locked: bool,
    pw: PendingWithdrawal,
    start_calls: Seq<Cpi>,
    end: &EndUnstake,
    spent: PendingWithdrawal,
    end_calls: Seq<Cpi>,
)
    requires
        spec_start_unstake(start, spt_amount, locked) == Ok::<(PendingWithdrawal, Seq<Cpi>), Error>((pw, start_calls)),
        i64::MIN <= start.clock + start.registrar.data.withdrawal_timelock <= i64::MAX,
        end.pending_withdrawal.data == pw,
        spec_end_unstake(end) == Ok::<(PendingWithdrawal, Seq<Cpi>), Error>((spent, end_calls)),
    ensures
        end.clock >= start.clock + start.registrar.data.withdrawal_timelock,
{
}

/// Staking and unstaking the same number of pool tokens at the same rate
/// move the same number of tokens: into the stake vault, and out of it.
pub proof fn lemma_stake_unstake_same_amount(
    stake: &Stake,
    unstake: &StartUnstake,
    spt_amount: u64,
    locked: bool,
    staked: Member,
    stake_calls: Seq<Cpi>,
    pw: PendingWithdrawal,
    unstake_calls: Seq<Cpi>,
)
    requires
        spec_stake(stake, spt_amount) == Ok::<(Member, Seq<Cpi>), Error>((staked, stake_calls)),
        spec_start_unstake(unstake, spt_amount, locked) == Ok::<(PendingWithdrawal, Seq<Cpi>), Error>((pw, unstake_calls)),
        stake.registrar.data.stake_rate == unstake.registrar.data.stake_rate,
        stake.balances.vault_stake.info.key == unstake.balances.vault_stake.info.key,
    ensures
        ({
            let token_amount = (spt_amount * stake.registrar.data.stake_rate) as u64;
            &&& stake_calls[0].call == (Call::Transfer {
                from: stake.balances.vault.info.key,
                to: stake.balances.vault_stake.info.key,
                authority: stake.member_signer.key,
                amount: token_amount,
            })
            &&& unstake_calls[1].call == (Call::Transfer {
                from: unstake.balances.vault_stake.info.key,
                to: unstake.balances.vault_pw.info.key,
                authority: unstake.member_signer.key,
                amount: token_amount,
            })
            &&& pw.amount == token_amount
        }),
{
}

/// A dropped reward can be read back: the vendor's cursor is held in the
/// new queue and reads the drop's event.
pub proof fn lemma_drop_reward_read_back(ctx: &DropReward, kind: RewardVendorKind, total: u64, expiry_ts: i64, expiry_receiver: Pubkey, nonce: u8, q: RewardQueue)
    requires
        ctx.reward_event_q.data.wf(),
        ctx.reward_event_q.data.spec_capacity() > 1,
        ctx.reward_event_q.data.spec_head() < u32::MAX,
        RewardQueue::appended(ctx.reward_event_q.data, q, spec_drop_event(ctx, kind)),
    ensures
        ({
            let cursor = spec_dropped_vendor(ctx, kind, total, expiry_ts, expiry_receiver, nonce).reward_event_q_cursor;
            &&& q.wf()
            &&& q.spec_tail() <= cursor < q.spec_head()
            &&& q.spec_get(cursor) == spec_drop_event(ctx, kind)
        }),
{
    let cursor = ctx.reward_event_q.data.spec_head();
    lemma_append_keeps_window(ctx.reward_event_q.data, q, spec_drop_event(ctx, kind));
    lemma_get_after_append(ctx.reward_event_q.data, q, spec_drop_event(ctx, kind), cursor);
}

/// A reward that is dropped pays at least one token per pool token, expires
/// after the drop, and for the known pools is in the pool's mint and at least
/// the pool's minimum.
pub proof fn lemma_drop_reward_bounds(ctx: &DropReward, program_id: Pubkey, kind: RewardVendorKind, total: u64, expiry_ts: i64, nonce: u8, schedule_valid: bool)
    requires
        spec_drop_reward_check(ctx, program_id, kind, total, expiry_ts, nonce, schedule_valid) is Ok,
    ensures
        total >= ctx.pool_mint.data.supply,
        ctx.clock < expiry_ts,
        kind != RewardVendorKind::Unlocked ==> schedule_valid,
        ctx.registrar.info.key == crate::srm_registrar::spec_id() || ctx.registrar.info.key == crate::msrm_registrar::spec_id()
            ==> ctx.vendor_vault.data.mint == crate::srm_mint::spec_id() && total >= crate::SRM_MIN_REWARD,
        ctx.registrar.info.key == crate::fida_registrar::spec_id()
            ==> ctx.vendor_vault.data.mint == crate::fida_mint::spec_id() && total >= crate::FIDA_MIN_REWARD,
        ctx.registrar.info.key == crate::dxl_registrar::spec_id()
            ==> ctx.vendor_vault.data.mint == crate::dxl_mint::spec_id() && total >= crate::DXL_MIN_REWARD,
{
}

/// The realizor program and the registry's own realization check give the
/// same verdict on the same member and pool token balances.
pub proof fn lemma_realizors_agree(ctx: &IsRealized, rctx: &crate::realizor::IsRealized, v: Vesting)
    requires
        rctx.member.info.key == ctx.member.info.key,
        rctx.member_spt.data.amount == ctx.member_spt.data.amount,
        rctx.member_spt_locked.data.amount == ctx.member_spt_locked.data.amount,
    ensures
        (crate::handlers::spec_is_realized(ctx, v) is Ok) == (crate::realizor::spec_is_realized(rctx, v) is Ok),
{
}

/// An unstake works on the balances it is for: once its accounts pass the
/// checks, a locked unstake burns from the member's locked pool token
/// account and moves tokens between its locked stake and pending vaults, an
/// unlocked one does so within its free balances; the pending withdrawal
/// records which.
pub proof fn lemma_unstake_uses_its_balances(
    ctx: &StartUnstake,
    program_id: Pubkey,
    spt_amount: u64,
    locked: bool,
    pw: PendingWithdrawal,
    calls: Seq<Cpi>,
)
    requires
        ctx.spec_try_accounts(program_id, locked) is Ok,
        spec_start_unstake(ctx, spt_amount, locked) == Ok::<(PendingWithdrawal, Seq<Cpi>), Error>((pw, calls)),
    ensures
        ({
            let b = if locked { ctx.member.data.balances_locked } else { ctx.member.data.balances };
            &&& pw.locked == locked
            &&& calls.len() == 2
            &&& calls[0].call matches Call::Burn { from, .. } && from == b.spt
            &&& calls[1].call matches Call::Transfer { from, to, .. } && from == b.vault_stake && to == b.vault_pw
        }),
{
}

/// The pool tokens a claim counts: the member's free and locked pool tokens.
pub open spec fn spec_claim_share(ctx: &ClaimReward) -> int {
    ctx.cmn.balances_spt.data.amount + ctx.cmn.balances_locked_spt.data.amount
}

/// A dropped reward holds at least one token unit for each pool token of
/// the supply it records.
pub proof fn lemma_dropped_vendor_funds_each_token(
    ctx: &DropReward,
    program_id: Pubkey,
    kind: RewardVendorKind,
    total: u64,
    expiry_ts: i64,
    expiry_receiver: Pubkey,
    nonce: u8,
    schedule_valid: bool,
)
    requires
        spec_drop_reward_check(ctx, program_id, kind, total, expiry_ts, nonce, schedule_valid) is Ok,
    ensures
        ({
            let vendor = spec_dropped_vendor(ctx, kind, total, expiry_ts, expiry_receiver, nonce);
            vendor.total >= vendor.pool_token_supply
        }),
{
}

/// A vendor's vault is never over-drawn and each pool token earns at least
/// one unit: when members claim from one vendor that holds at least one unit
/// per pool token, each is paid at least its pool tokens, and while their
/// pool tokens together do not exceed the supply the vendor recorded, their
/// payments together do not exceed its total.
pub proof fn lemma_claims_never_overdraw(ctxs: Seq<ClaimReward>, vendor: RewardVendor)
    requires
        forall|i: int| 0 <= i < ctxs.len() ==> #[trigger] ctxs[i].cmn.vendor.data == vendor,
        vendor.pool_token_supply > 0,
        vendor.total >= vendor.pool_token_supply,
    ensures
        ({
            let shares = Seq::new(ctxs.len(), |i: int| spec_claim_share(&ctxs[i]));
            &&& forall|i: int| 0 <= i < ctxs.len() ==> spec_claim_amount(&#[trigger] ctxs[i].cmn)
                == spec_reward_amount(shares[i], vendor.total as int, vendor.pool_token_supply as int)
            &&& forall|i: int| 0 <= i < ctxs.len() ==> spec_claim_amount(&#[trigger] ctxs[i].cmn) >= spec_claim_share(&ctxs[i])
            &&& spec_sum(shares) <= vendor.pool_token_supply ==> spec_sum_rewards(
                shares,
                vendor.total as int,
                vendor.pool_token_supply as int,
            ) <= vendor.total
        }),
{
    let shares = Seq::new(ctxs.len(), |i: int| spec_claim_share(&ctxs[i]));
    assert forall|i: int| 0 <= i < ctxs.len() implies spec_claim_amount(&#[trigger] ctxs[i].cmn) >= spec_claim_share(&ctxs[i]) by {
        lemma_reward_at_least_share(spec_claim_share(&ctxs[i]), vendor.total as int, vendor.pool_token_supply as int);
    }
    lemma_rewards_within_total(shares, vendor.total as int, vendor.pool_token_supply as int);
}

/// Staking pool tokens and then starting to unstake the same number, on the
/// same balances at the same rate, leaves the member's pool tokens, the
/// pool's supply and the stake vault as they were, and moves
/// `spt_amount * stake_rate` tokens out of the free vault into the pending
/// withdrawal vault, the amount the pending withdrawal records.
pub proof fn lemma_stake_then_unstake_balances(
    stake: &Stake,
    unstake: &StartUnstake,
    spt_amount: u64,
    staked: Member,
    stake_calls: Seq<Cpi>,
    pw: PendingWithdrawal,
    unstake_calls: Seq<Cpi>,
    before: spec_fn(Pubkey) -> int,
)
    requires
        spec_stake(stake, spt_amount) == Ok::<(Member, Seq<Cpi>), Error>((staked, stake_calls)),
        spec_start_unstake(unstake, spt_amount, false) == Ok::<(PendingWithdrawal, Seq<Cpi>), Error>((pw, unstake_calls)),
        stake.registrar.data.stake_rate == unstake.registrar.data.stake_rate,
        spt_amount * stake.registrar.data.stake_rate <= u64::MAX,
        stake.balances.spec_sandbox() == unstake.balances.spec_sandbox(),
        stake.pool_mint.info.key == unstake.pool_mint.key,
        ({
            let b = stake.balances.spec_sandbox();
            let m = stake.pool_mint.info.key;
            &&& m != b.spt && m != b.vault && m != b.vault_stake && m != b.vault_pw
            &&& b.spt != b.vault && b.spt != b.vault_stake && b.spt != b.vault_pw
            &&& b.vault != b.vault_stake && b.vault != b.vault_pw && b.vault_stake != b.vault_pw
        }),
    ensures
        ({
            let b = stake.balances.spec_sandbox();
            let m = stake.pool_mint.info.key;
            let after = spec_token_effects(unstake_calls, spec_token_effects(stake_calls, before));
            let moved = spt_amount * stake.registrar.data.stake_rate;
            &&& after(b.spt) == before(b.spt)
            &&& after(m) == before(m)
            &&& after(b.vault_stake) == before(b.vault_stake)
            &&& after(b.vault) == before(b.vault) - moved
            &&& after(b.vault_pw) == before(b.vault_pw) + moved
            &&& pw.amount == moved
        }),
{
    reveal_with_fuel(spec_token_effects, 3);
    assert(stake_calls.drop_first().drop_first() =~= Seq::<Cpi>::empty());
    assert(unstake_calls.drop_first().drop_first() =~= Seq::<Cpi>::empty());
}

/// The member a successful claim from `vendor` leaves: its cursor moves past
/// the vendor's event.
pub open spec fn spec_after_claim(vendor: RewardVendor, member: Member) -> Member {
    Member { rewards_cursor: (vendor.reward_event_q_cursor + 1) as u32, ..member }
}

/// A successful claim of an unlocked reward is a claim the member was
/// eligible for, and leaves the member `spec_after_claim` gives.
pub proof fn lemma_claim_moves_cursor(ctx: &ClaimReward, member: Member, calls: Seq<Cpi>)
    requires
        spec_claim_reward(ctx) == Ok::<(Member, Seq<Cpi>), Error>((member, calls)),
    ensures
        spec_reward_eligible(ctx.cmn.vendor.data, ctx.cmn.member.data) is Ok,
        member == spec_after_claim(ctx.cmn.vendor.data, ctx.cmn.member.data),
{
}

/// A successful claim of a locked reward is a claim the member was eligible
/// for, and leaves the member `spec_after_claim` gives.
pub proof fn lemma_claim_locked_moves_cursor(ctx: &ClaimRewardLocked, program_id: Pubkey, nonce: u8, member: Member, calls: Seq<Cpi>)
    requires
        spec_claim_reward_locked(ctx, program_id, nonce) == Ok::<(Member, Seq<Cpi>), Error>((member, calls)),
    ensures
        spec_reward_eligible(ctx.cmn.vendor.data, ctx.cmn.member.data) is Ok,
        member == spec_after_claim(ctx.cmn.vendor.data, ctx.cmn.member.data),
{
}

/// The member's other instructions leave its reward cursor where it was.
pub proof fn lemma_other_instructions_keep_cursor(
    stake: &Stake,
    spt_amount: u64,
    staked: Member,
    stake_calls: Seq<Cpi>,
    balances: &UpdateMemberBalances,
    balances_locked: &UpdateMemberBalancesLock,
    program_id: Pubkey,
    nonce: u8,
)
    ensures
        spec_stake(stake, spt_amount) == Ok::<(Member, Seq<Cpi>), Error>((staked, stake_calls))
            ==> staked.rewards_cursor == stake.member.data.rewards_cursor,
        spec_update_member_balances(balances, program_id, nonce) matches Ok(m)
            ==> m.rewards_cursor == balances.member.data.rewards_cursor,
        spec_update_member_balances_lock(balances_locked, program_id, nonce) matches Ok(m)
            ==> m.rewards_cursor == balances_locked.member.data.rewards_cursor,
{
}

/// The member after claiming from each vendor in turn, or `None` once a
/// claim is refused.
pub open spec fn spec_claims(member: Member, vendors: Seq<RewardVendor>) -> Option<Member>
    decreases vendors.len(),
{
    if vendors.len() == 0 {
        Some(member)
    } else {
        match spec_claims(member, vendors.drop_last()) {
            None => None,
            Some(m) => if spec_reward_eligible(vendors.last(), m) is Ok {
                Some(spec_after_claim(vendors.last(), m))
            } else {
                None
            },
        }
    }
}

/// A member collects each reward at most once, across any number of claims:
/// along claims that all succeed the member's cursor only grows, the vendors'
/// events come in strictly increasing order (so no event is claimed twice),
/// and afterwards every vendor claimed from refuses the member.
pub proof fn lemma_claims_collect_once(member: Member, vendors: Seq<RewardVendor>, after: Member)
    requires
        spec_claims(member, vendors) == Some(after),
        forall|i: int| 0 <= i < vendors.len() ==> #[trigger] vendors[i].reward_event_q_cursor < u32::MAX,
    ensures
        after.rewards_cursor >= member.rewards_cursor,
        forall|i: int| 0 <= i < vendors.len() ==> #[trigger] vendors[i].reward_event_q_cursor < after.rewards_cursor,
        forall|i: int| 0 <= i < vendors.len() ==> spec_reward_eligible(#[trigger] vendors[i], after) is Err,
        forall|i: int, j: int| 0 <= i < j < vendors.len()
            ==> #[trigger] vendors[i].reward_event_q_cursor < #[trigger] vendors[j].reward_event_q_cursor,
    decreases vendors.len(),
{
    if vendors.len() > 0 {
        let init = vendors.drop_last();
        let m = spec_claims(member, init).unwrap();
        assert forall|i: int| 0 <= i < init.len() implies #[trigger] init[i].reward_event_q_cursor < u32::MAX by {
            assert(init[i] == vendors[i]);
        }
        lemma_claims_collect_once(member, init, m);
        assert forall|i: int| 0 <= i < vendors.len() implies #[trigger] vendors[i].reward_event_q_cursor < after.rewards_cursor by {
            if i < init.len() {
                assert(init[i] == vendors[i]);
            }
        }
        assert forall|i: int, j: int| 0 <= i < j < vendors.len()
            implies #[trigger] vendors[i].reward_event_q_cursor < #[trigger] vendors[j].reward_event_q_cursor by {
            assert(init[i] == vendors[i]);
            if j < init.len() {
                assert(init[j] == vendors[j]);
            }
        }
    }
}

/// Ending an unstake pays the pending tokens back where the withdrawal
/// belongs: it makes exactly one call, a transfer of the withdrawal's amount
/// from the pending vault passed to the vault passed, signed by the member's
/// vault signer; those two are the member's locked pending vault and locked
/// vault for a locked withdrawal, and its free ones otherwise.
pub proof fn lemma_end_unstake_pays_back_its_balances(ctx: &EndUnstake, pw: PendingWithdrawal, calls: Seq<Cpi>)
    requires
        spec_end_unstake(ctx) == Ok::<(PendingWithdrawal, Seq<Cpi>), Error>((pw, calls)),
    ensures
        calls.len() == 1,
        calls[0].call matches Call::Transfer { from, to, authority, amount } && {
            &&& from == ctx.vault_pw.key
            &&& to == ctx.vault.key
            &&& authority == ctx.member_signer.key
            &&& amount == ctx.pending_withdrawal.data.amount
        },
        calls[0].signer == (crate::calls::Signer::Owned {
            registrar: ctx.registrar.info.key,
            owner: ctx.member.info.key,
            nonce: ctx.member.data.nonce,
        }),
        ctx.pending_withdrawal.data.locked ==> ctx.vault_pw.key == ctx.member.data.balances_locked.vault_pw
            && ctx.vault.key == ctx.member.data.balances_locked.vault,
        !ctx.pending_withdrawal.data.locked ==> ctx.vault_pw.key == ctx.member.data.balances.vault_pw
            && ctx.vault.key == ctx.member.data.balances.vault,
        pw.burned,
        pw.amount == ctx.pending_withdrawal.data.amount,
        pw.locked == ctx.pending_withdrawal.data.locked,
{
}

/// The vendor a drop writes describes the drop: the registrar and vault it
/// was made on, the mint of that vault (the token the reward is paid in),
/// the nonce, total, expiry and kind it was given, the pool supply and clock
/// at the drop, the depositor authority it came from, and the queue cursor at
/// which its event now stands; it is not expired. The one call moves the
/// total from the depositor into that vault.
pub proof fn lemma_drop_reward_writes_its_vendor(
    ctx: &DropReward,
    program_id: Pubkey,
    kind: RewardVendorKind,
    total: u64,
    expiry_ts: i64,
    expiry_receiver: Pubkey,
    nonce: u8,
    schedule_valid: bool,
    q: RewardQueue,
    vendor: RewardVendor,
    calls: Seq<Cpi>,
)
    requires
        spec_drop_reward_outcome(
            ctx,
            program_id,
            kind,
            total,
            expiry_ts,
            expiry_receiver,
            nonce,
            schedule_valid,
            Ok((q, vendor, calls)),
        ),
        ctx.reward_event_q.data.spec_capacity() > 0,
    ensures
        vendor.mint == ctx.vendor_vault.data.mint,
        vendor.vault == ctx.vendor_vault.info.key,
        vendor.registrar == ctx.registrar.info.key,
        vendor.nonce == nonce,
        vendor.total == total,
        vendor.expiry_ts == expiry_ts,
        vendor.expiry_receiver == expiry_receiver,
        vendor.kind == kind,
        vendor.pool_token_supply == ctx.pool_mint.data.supply,
        vendor.start_ts == ctx.clock,
        vendor.from == ctx.depositor_authority.key,
        !vendor.expired,
        vendor.reward_event_q_cursor == ctx.reward_event_q.data.spec_head(),
        q.spec_head() == ctx.reward_event_q.data.spec_head() + 1,
        q.spec_events()[ctx.reward_event_q.data.spec_index_of(vendor.reward_event_q_cursor)].vendor == ctx.vendor.info.key,
        q.spec_events()[ctx.reward_event_q.data.spec_index_of(vendor.reward_event_q_cursor)].ts == ctx.clock,
        calls.len() == 1,
        calls[0].call matches Call::Transfer { from, to, amount, .. } && from == ctx.depositor.key
            && to == ctx.vendor_vault.info.key && amount == total,
{
}

} // verus!

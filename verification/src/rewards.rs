//! Who may claim a reward, how much, and when a member must claim first.
use vstd::prelude::*;
use crate::accounts::{BalanceSandboxAccounts, ClaimRewardCommon};
use crate::error::{Error, ErrorCode};
use crate::reward_queue::RewardQueue;
use crate::state::{Member, RewardVendor};

verus! {

/// The first cursor of the reward queue the member has not processed yet.
pub open spec fn spec_first_unprocessed(reward_q: &RewardQueue, member: Member) -> u32 {
    if member.rewards_cursor < reward_q.spec_tail() {
        reward_q.spec_tail()
    } else {
        member.rewards_cursor
    }
}

/// A reward was dropped after the member last staked, and is still held in
/// the queue at a cursor the member has not processed.
pub open spec fn spec_reward_pending(reward_q: &RewardQueue, member: Member) -> bool {
    exists|c: u32|
        spec_first_unprocessed(reward_q, member) <= c < reward_q.spec_head()
            && member.last_stake_ts < #[trigger] reward_q.spec_get(c).ts
}

/// A member holding pool tokens must collect pending rewards before it
/// stakes or unstakes again.
pub open spec fn spec_no_available_rewards(reward_q: &RewardQueue, member: Member, spt_amount: u64) -> Result<(), Error> {
    if spt_amount > 0 && spec_reward_pending(reward_q, member) {
        Err(Error::ErrorCode(ErrorCode::RewardsNeedsProcessing))
    } else {
        Ok(())
    }
}

/// Fails with `RewardsNeedsProcessing` when the member holds pool tokens
/// and a reward dropped after its last stake is still unprocessed.
pub fn no_available_rewards(reward_q: &RewardQueue, member: &Member, balances: &BalanceSandboxAccounts) -> (r: Result<(), Error>)
    requires
        spec_first_unprocessed(reward_q, *member) < reward_q.spec_head() ==> reward_q.spec_capacity() > 0,
    ensures
        r == spec_no_available_rewards(reward_q, *member, balances.spt.data.amount),
{
    let mut cursor = member.rewards_cursor;
    let tail = reward_q.tail();
    if cursor < tail {
        cursor = tail;
    }
    let ghost start = cursor;
    while cursor < reward_q.head()
        invariant
            start == spec_first_unprocessed(reward_q, *member),
            start <= cursor,
            start < reward_q.spec_head() ==> reward_q.spec_capacity() > 0,
            cursor <= reward_q.spec_head() || cursor == start,
            balances.spt.data.amount > 0 ==> forall|c: u32|
                start <= c < cursor ==> !(member.last_stake_ts < #[trigger] reward_q.spec_get(c).ts),
        decreases reward_q.spec_head() - cursor,
    {
        let r_event = reward_q.get(cursor);
        if member.last_stake_ts < r_event.ts {
            if balances.spt.data.amount > 0 {
                return Err(Error::ErrorCode(ErrorCode::RewardsNeedsProcessing));
            }
        }
        cursor += 1;
    }
    proof {
        if balances.spt.data.amount > 0 && spec_reward_pending(reward_q, *member) {
            let c = choose|c: u32|
                spec_first_unprocessed(reward_q, *member) <= c < reward_q.spec_head()
                    && member.last_stake_ts < #[trigger] reward_q.spec_get(c).ts;
            assert(!(member.last_stake_ts < reward_q.spec_get(c).ts));
        }
    }
    Ok(())
}

/// A member may claim from a vendor that has not expired, that it has not
/// processed yet, and that was dropped while it was staked.
pub open spec fn spec_reward_eligible(vendor: RewardVendor, member: Member) -> Result<(), Error> {
    if vendor.expired {
        Err(Error::ErrorCode(ErrorCode::VendorExpired))
    } else if member.rewards_cursor > vendor.reward_event_q_cursor {
        Err(Error::ErrorCode(ErrorCode::CursorAlreadyProcessed))
    } else if member.last_stake_ts > vendor.start_ts {
        Err(Error::ErrorCode(ErrorCode::NotStakedDuringDrop))
    } else {
        Ok(())
    }
}

/// Checks that the member of `cmn` may claim from its vendor.
pub fn reward_eligible(cmn: &ClaimRewardCommon) -> (r: Result<(), Error>)
    ensures
        r == spec_reward_eligible(cmn.vendor.data, cmn.member.data),
{
    let vendor = &cmn.vendor.data;
    let member = &cmn.member.data;
    if vendor.expired {
        return Err(Error::ErrorCode(ErrorCode::VendorExpired));
    }
    if member.rewards_cursor > vendor.reward_event_q_cursor {
        return Err(Error::ErrorCode(ErrorCode::CursorAlreadyProcessed));
    }
    if member.last_stake_ts > vendor.start_ts {
        return Err(Error::ErrorCode(ErrorCode::NotStakedDuringDrop));
    }
    Ok(())
}

/// The share of a drop of `total` tokens that `spt_total` pool tokens earn
/// out of a supply of `pool_token_supply`, rounded down.
pub open spec fn spec_reward_amount(spt_total: int, total: int, pool_token_supply: int) -> int {
    (spt_total * total) / pool_token_supply
}

/// The reward for a member's free and locked pool tokens, or `None` where
/// the arithmetic overflows or the supply is zero.
pub fn reward_amount(spt: u64, spt_locked: u64, total: u64, pool_token_supply: u64) -> (r: Option<u64>)
    ensures
        r is Some <==> (spt + spt_locked <= u64::MAX && (spt + spt_locked) * total <= u64::MAX
            && pool_token_supply > 0),
        r matches Some(a) ==> a == spec_reward_amount(spt + spt_locked, total as int, pool_token_supply as int),
{
    let spt_total = match spt.checked_add(spt_locked) {
        Some(t) => t,
        None => { return None; },
    };
    let product = match spt_total.checked_mul(total) {
        Some(p) => p,
        None => { return None; },
    };
    match product.checked_div(pool_token_supply) {
        Some(a) => Some(a),
        None => None,
    }
}

/// Rewards are pro rata: splitting pool tokens between two holders never
/// pays out more than the tokens would earn together.
pub proof fn lemma_reward_superadditive(x: int, y: int, total: int, supply: int)
    requires
        x >= 0,
        y >= 0,
        total >= 0,
        supply > 0,
    ensures
        spec_reward_amount(x, total, supply) + spec_reward_amount(y, total, supply)
            <= spec_reward_amount(x + y, total, supply),
{
    let a = x * total;
    let b = y * total;
    assert((x + y) * total == a + b) by (nonlinear_arith)
        requires
            a == x * total,
            b == y * total,
    ;
    assert(a >= 0 && b >= 0) by (nonlinear_arith)
        requires
            a == x * total,
            b == y * total,
            x >= 0,
            y >= 0,
            total >= 0,
    ;
    vstd::arithmetic::div_mod::lemma_fundamental_div_mod(a, supply);
    vstd::arithmetic::div_mod::lemma_fundamental_div_mod(b, supply);
    vstd::arithmetic::div_mod::lemma_mod_pos_bound(a, supply);
    vstd::arithmetic::div_mod::lemma_mod_pos_bound(b, supply);
    let q = a / supply + b / supply;
    assert(supply * q <= a + b) by (nonlinear_arith)
        requires
            a == supply * (a / supply) + a % supply,
            b == supply * (b / supply) + b % supply,
            a % supply >= 0,
            b % supply >= 0,
            q == a / supply + b / supply,
    ;
    vstd::arithmetic::div_mod::lemma_div_is_ordered(supply * q, a + b, supply);
    vstd::arithmetic::div_mod::lemma_div_multiples_vanish(q, supply);
}

/// A drop never pays a holder more than its total: pool tokens no more than
/// the supply earn at most the total, and the whole supply earns exactly it.
pub proof fn lemma_reward_bounded_by_total(x: int, total: int, supply: int)
    requires
        0 <= x <= supply,
        total >= 0,
        supply > 0,
    ensures
        spec_reward_amount(x, total, supply) <= total,
        spec_reward_amount(supply, total, supply) == total,
{
    assert(x * total <= supply * total) by (nonlinear_arith)
        requires
            0 <= x <= supply,
            total >= 0,
    ;
    vstd::arithmetic::div_mod::lemma_div_is_ordered(x * total, supply * total, supply);
    vstd::arithmetic::mul::lemma_mul_is_commutative(supply, total);
    vstd::arithmetic::div_mod::lemma_div_multiples_vanish(total, supply);
}

/// More pool tokens never earn less.
pub proof fn lemma_reward_monotonic(x: int, y: int, total: int, supply: int)
    requires
        0 <= x <= y,
        total >= 0,
        supply > 0,
    ensures
        spec_reward_amount(x, total, supply) <= spec_reward_amount(y, total, supply),
{
    assert(x * total <= y * total) by (nonlinear_arith)
        requires
            0 <= x <= y,
            total >= 0,
    ;
    vstd::arithmetic::div_mod::lemma_div_is_ordered(x * total, y * total, supply);
}

/// A drop of at least one token unit per pool token pays each pool token at
/// least one unit.
pub proof fn lemma_reward_at_least_share(x: int, total: int, supply: int)
    requires
        x >= 0,
        supply > 0,
        total >= supply,
    ensures
        spec_reward_amount(x, total, supply) >= x,
{
    assert(x * supply <= x * total) by (nonlinear_arith)
        requires
            x >= 0,
            total >= supply,
    ;
    vstd::arithmetic::div_mod::lemma_div_is_ordered(x * supply, x * total, supply);
    vstd::arithmetic::div_mod::lemma_div_multiples_vanish(x, supply);
    vstd::arithmetic::mul::lemma_mul_is_commutative(x, supply);
}

/// The sum of a sequence of numbers.
pub open spec fn spec_sum(s: Seq<int>) -> int
    decreases s.len(),
{
    if s.len() == 0 {
        0
    } else {
        spec_sum(s.drop_last()) + s.last()
    }
}

/// The sum of the rewards that the given pool token holdings earn from one
/// drop.
pub open spec fn spec_sum_rewards(shares: Seq<int>, total: int, supply: int) -> int
    decreases shares.len(),
{
    if shares.len() == 0 {
        0
    } else {
        spec_sum_rewards(shares.drop_last(), total, supply) + spec_reward_amount(shares.last(), total, supply)
    }
}

/// Several holders claiming one drop are paid no more than the whole of
/// their holdings earns, and, when their holdings do not exceed the supply,
/// no more than the drop's total.
pub proof fn lemma_rewards_within_total(shares: Seq<int>, total: int, supply: int)
    requires
        forall|i: int| 0 <= i < shares.len() ==> shares[i] >= 0,
        total >= 0,
        supply > 0,
    ensures
        spec_sum(shares) >= 0,
        spec_sum_rewards(shares, total, supply) <= spec_reward_amount(spec_sum(shares), total, supply),
        spec_sum(shares) <= supply ==> spec_sum_rewards(shares, total, supply) <= total,
    decreases shares.len(),
{
    if shares.len() > 0 {
        let init = shares.drop_last();
        lemma_rewards_within_total(init, total, supply);
        lemma_reward_superadditive(spec_sum(init), shares.last(), total, supply);
    } else {
        assert(spec_reward_amount(0, total, supply) == 0) by {
            vstd::arithmetic::div_mod::lemma_div_multiples_vanish(0, supply);
        }
    }
    if spec_sum(shares) <= supply {
        lemma_reward_bounded_by_total(spec_sum(shares), total, supply);
    }
}

} // verus!

//! The realizor program: it tells the lockup program whether a vesting
//! account created for a locked staking reward may be withdrawn yet.
use vstd::prelude::*;
use crate::accounts::Account;
use crate::borsh::lemma_lies_at_split;
use crate::codec::{
    enc_member_data, enc_vesting, get_member_data, get_vesting, lemma_read_member_data,
    lemma_read_vesting, read_member_data, read_vesting, starts_with8,
};
use crate::error::FrameworkError;
use crate::instruction::{idl_tag, spec_idl_tag};
use crate::pubkey::Pubkey;
pub use crate::state::{BalanceSandbox, Member, Realizor, TokenAccount, Vesting};

verus! {

/// Errors of the realizor program.
#[derive(Clone, Copy, Debug, PartialEq, Eq, Structural)]
pub enum ErrorCode {
    UnrealizedReward,
    InvalidRealizorMetadata,
}

impl ErrorCode {
    /// The error number, counted from the first variant.
    pub open spec fn spec_code(self) -> u32 {
        match self {
            ErrorCode::UnrealizedReward => 0,
            ErrorCode::InvalidRealizorMetadata => 1,
        }
    }

    /// The error number, counted from the first variant.
    pub fn code(&self) -> (c: u32)
        ensures
            c == self.spec_code(),
    {
        match self {
            ErrorCode::UnrealizedReward => 0,
            ErrorCode::InvalidRealizorMetadata => 1,
        }
    }

    /// The message shown for the error.
    pub open spec fn spec_message(self) -> Seq<char> {
        match self {
            ErrorCode::UnrealizedReward => "Locked rewards cannot be realized until one unstaked all tokens."@,
            ErrorCode::InvalidRealizorMetadata => "The given member account does not match the realizor metadata."@,
        }
    }

    /// The message shown for the error.
    pub fn message(&self) -> (s: &'static str)
        ensures
            s@ == self.spec_message(),
    {
        match self {
            ErrorCode::UnrealizedReward => "Locked rewards cannot be realized until one unstaked all tokens.",
            ErrorCode::InvalidRealizorMetadata => "The given member account does not match the realizor metadata.",
        }
    }
}

/// The part of a member account that the realizor reads.
#[derive(Clone, Copy, Debug, PartialEq, Eq, Structural)]
pub struct MemberData {
    /// Registrar the member belongs to.
    pub registrar: Pubkey,
    /// The effective owner of the Member account.
    pub beneficiary: Pubkey,
    /// Arbitrary metadata account owned by any program.
    pub metadata: Pubkey,
    /// The member's pool token account.
    pub balances_spt: Pubkey,
    /// The member's locked pool token account.
    pub balances_locked_spt: Pubkey,
}

/// Accounts of `is_realized`: the registry's member account the realizor
/// metadata names, as stored, and its two pool token accounts.
#[derive(Debug)]
pub struct IsRealized {
    pub member: Account<Member>,
    pub member_spt: Account<TokenAccount>,
    pub member_spt_locked: Account<TokenAccount>,
}

impl IsRealized {
    /// The outcome of the checks on the accounts: the member account is the
    /// registry's, and the two token accounts passed are the pool token
    /// accounts it records.
    pub open spec fn spec_try_accounts(&self) -> Result<(), FrameworkError> {
        if self.member.info.owner != crate::spec_id() {
            Err(FrameworkError::AccountOwnedByWrongProgram)
        } else if self.member.data.balances.spt != self.member_spt.info.key {
            Err(FrameworkError::Deprecated)
        } else if self.member.data.balances_locked.spt != self.member_spt_locked.info.key {
            Err(FrameworkError::Deprecated)
        } else {
            Ok(())
        }
    }

    /// Checks the accounts, in the order of `spec_try_accounts`.
    pub fn try_accounts(&self) -> (r: Result<(), FrameworkError>)
        ensures
            r == self.spec_try_accounts(),
    {
        if !self.member.info.owner.equals(&crate::id()) {
            Err(FrameworkError::AccountOwnedByWrongProgram)
        } else if !self.member.data.balances.spt.equals(&self.member_spt.info.key) {
            Err(FrameworkError::Deprecated)
        } else if !self.member.data.balances_locked.spt.equals(&self.member_spt_locked.info.key) {
            Err(FrameworkError::Deprecated)
        } else {
            Ok(())
        }
    }
}

/// The outcome of `is_realized`.
pub open spec fn spec_is_realized(ctx: &IsRealized, v: Vesting) -> Result<(), ErrorCode> {
    match v.realizor {
        None => Ok(()),
        Some(realizor) => if realizor.metadata != ctx.member.info.key {
            Err(ErrorCode::InvalidRealizorMetadata)
        } else if ctx.member_spt.data.amount + ctx.member_spt_locked.data.amount != 0 {
            Err(ErrorCode::UnrealizedReward)
        } else {
            Ok(())
        },
    }
}

/// A vesting account with a realizor is realized once the member it names
/// holds no pool tokens, free or locked. The member data given must name the
/// two pool token accounts passed; `IsRealized::try_accounts` ties them to
/// the stored member account.
pub fn is_realized(ctx: &IsRealized, v: &Vesting, member_data: &MemberData) -> (r: Result<(), ErrorCode>)
    requires
        member_data.balances_spt == ctx.member_spt.info.key,
        member_data.balances_locked_spt == ctx.member_spt_locked.info.key,
        v.realizor matches Some(realizor) && realizor.metadata == ctx.member.info.key ==> {
            &&& member_data.beneficiary == v.beneficiary
            &&& ctx.member_spt.data.amount + ctx.member_spt_locked.data.amount <= u64::MAX
        },
    ensures
        r == spec_is_realized(ctx, *v),
{
    if let Some(realizor) = &v.realizor {
        if !realizor.metadata.equals(&ctx.member.info.key) {
            return Err(ErrorCode::InvalidRealizorMetadata);
        }
        let total_staked = ctx.member_spt.data.amount + ctx.member_spt_locked.data.amount;
        if total_staked != 0 {
            return Err(ErrorCode::UnrealizedReward);
        }
    }
    Ok(())
}

/// The method that instruction data for the realizor names.
#[derive(Clone, Copy, Debug, PartialEq, Eq, Structural)]
pub enum RealizorInstruction {
    /// One of the interface description instructions.
    Idl,
    /// `is_realized` with its vesting account and member data.
    IsRealized(Vesting, MemberData),
}

/// The identifier of `is_realized`.
pub open spec fn spec_is_realized_sighash() -> Seq<u8> {
    seq![212u8, 47u8, 227u8, 123u8, 230u8, 215u8, 100u8, 52u8]
}

/// The method that realizor instruction data names, or why none is called.
/// Bytes after the arguments are ignored.
pub open spec fn spec_decode(d: Seq<u8>) -> Result<RealizorInstruction, FrameworkError> {
    if d.len() < 8 {
        Err(FrameworkError::InstructionMissing)
    } else if d.subrange(0, 8) == spec_idl_tag() {
        Ok(RealizorInstruction::Idl)
    } else if d.subrange(0, 8) != spec_is_realized_sighash() {
        Err(FrameworkError::InstructionFallbackNotFound)
    } else {
        match read_vesting(d, 8) {
            None => Err(FrameworkError::InstructionDidNotDeserialize),
            Some((v, p)) => match read_member_data(d, p) {
                None => Err(FrameworkError::InstructionDidNotDeserialize),
                Some((m, _)) => Ok(RealizorInstruction::IsRealized(v, m)),
            },
        }
    }
}

/// Picks the method that realizor instruction data names and reads its
/// arguments.
pub fn decode(d: &[u8]) -> (r: Result<RealizorInstruction, FrameworkError>)
    ensures
        r == spec_decode(d@),
{
    if d.len() < 8 {
        return Err(FrameworkError::InstructionMissing);
    }
    if starts_with8(d, &idl_tag()) {
        return Ok(RealizorInstruction::Idl);
    }
    let tag: [u8; 8] = [212u8, 47u8, 227u8, 123u8, 230u8, 215u8, 100u8, 52u8];
    assert(tag@ =~= spec_is_realized_sighash());
    if !starts_with8(d, &tag) {
        return Err(FrameworkError::InstructionFallbackNotFound);
    }
    match get_vesting(d, 8) {
        None => Err(FrameworkError::InstructionDidNotDeserialize),
        Some((v, p)) => match get_member_data(d, p) {
            None => Err(FrameworkError::InstructionDidNotDeserialize),
            Some((m, _)) => Ok(RealizorInstruction::IsRealized(v, m)),
        },
    }
}

/// Instruction data written for `is_realized` reads back as that call,
/// whatever follows it.
pub proof fn lemma_decode_is_realized(v: Vesting, m: MemberData, rest: Seq<u8>)
    ensures
        spec_decode(spec_is_realized_sighash() + enc_vesting(v) + enc_member_data(m) + rest)
            == Ok::<RealizorInstruction, FrameworkError>(RealizorInstruction::IsRealized(v, m)),
{
    let args = enc_vesting(v) + enc_member_data(m);
    let d = spec_is_realized_sighash() + enc_vesting(v) + enc_member_data(m) + rest;
    assert(d.subrange(0, 8) =~= spec_is_realized_sighash());
    assert(d.subrange(0, 8)[0] != spec_idl_tag()[0]);
    assert(d.subrange(8, 8 + args.len() as int) =~= args);
    lemma_lies_at_split(d, 8, enc_vesting(v), enc_member_data(m));
    lemma_read_vesting(d, 8, v);
    lemma_read_member_data(d, 8 + enc_vesting(v).len() as int, m);
}

/// Realization is decided on the member the vesting names: when the
/// accounts pass their checks and the verdict is that a vesting with a
/// realizor is realized, the member account stored at the realizor's
/// metadata is the registry's, and both pool token accounts it records hold
/// no tokens.
pub proof fn lemma_realized_member_holds_nothing(ctx: &IsRealized, v: Vesting, realizor: Realizor)
    requires
        ctx.spec_try_accounts() is Ok,
        v.realizor == Some(realizor),
        spec_is_realized(ctx, v) is Ok,
    ensures
        ctx.member.info.key == realizor.metadata,
        ctx.member.info.owner == crate::spec_id(),
        ctx.member_spt.info.key == ctx.member.data.balances.spt,
        ctx.member_spt_locked.info.key == ctx.member.data.balances_locked.spt,
        ctx.member_spt.data.amount == 0,
        ctx.member_spt_locked.data.amount == 0,
{
}

} // verus!

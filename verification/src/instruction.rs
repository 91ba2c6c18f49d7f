//! Instruction data: an 8-byte method identifier followed by the method's
//! arguments in order, and the choice of the method it names.
use vstd::prelude::*;
use crate::borsh::{
    enc_bool, enc_i64, enc_opt_i64, enc_opt_pubkey, enc_pubkey, enc_u32, enc_u64, enc_u8,
    get_bool, get_i64, get_opt_i64, get_opt_pubkey, get_pubkey, get_u32, get_u64, get_u8,
    lemma_enc_lens, lemma_lies_at_split, lemma_read_bool, lemma_read_i64, lemma_read_opt_i64,
    lemma_read_opt_pubkey, lemma_read_pubkey, lemma_read_u32, lemma_read_u64, lemma_read_u8,
    lies_at, put_bool, put_i64, put_opt_i64, put_opt_pubkey, put_pubkey, put_u32, put_u64,
    put_u8, read_bool, read_i64, read_opt_i64, read_opt_pubkey, read_pubkey, read_u32, read_u64,
    read_u8,
};
use crate::codec::{
    enc_kind, enc_opt_realizor, get_kind, lemma_read_kind, put_kind, put_opt_realizor, read_kind,
    starts_with8,
};
use crate::error::{Error, FrameworkError};
use crate::pubkey::Pubkey;
use crate::state::{Realizor, RewardVendorKind};

verus! {

/// Appends the eight bytes of a method identifier.
fn put_tag(out: &mut Vec<u8>, tag: &[u8; 8])
    ensures
        final(out)@ == old(out)@ + tag@,
{
    let ghost start = out@;
    let mut i: usize = 0;
    while i < 8
        invariant
            i <= 8,
            tag@.len() == 8,
            out@ == start + tag@.subrange(0, i as int),
        decreases 8 - i,
    {
        out.push(tag[i]);
        assert(tag@.subrange(0, i + 1) =~= tag@.subrange(0, i as int).push(tag@[i as int]));
        i = i + 1;
    }
    assert(tag@.subrange(0, 8) =~= tag@);
}

/// The identifier of the interface description instructions that every
/// program of the framework answers.
pub open spec fn spec_idl_tag() -> Seq<u8> {
    seq![64u8, 244u8, 188u8, 120u8, 167u8, 233u8, 105u8, 10u8]
}

/// The identifier of the interface description instructions.
pub fn idl_tag() -> (t: [u8; 8])
    ensures
        t@ == spec_idl_tag(),
{
    let t: [u8; 8] = [64u8, 244u8, 188u8, 120u8, 167u8, 233u8, 105u8, 10u8];
    assert(t@ =~= spec_idl_tag());
    t
}

/// The arguments of `new_registry`.
#[derive(Clone, Copy, Debug, PartialEq, Eq, Structural)]
pub struct NewRegistry {
    pub _bump: u8,
}

/// The layout of the arguments of `new_registry`.
pub open spec fn enc_new_registry_args(x: NewRegistry) -> Seq<u8> {
    enc_u8(x._bump)
}

/// Reads the arguments of `new_registry` at position `p`.
pub open spec fn read_new_registry_args(d: Seq<u8>, p: int) -> Option<(NewRegistry, int)> {
    match read_u8(d, p) {
        None => None,
        Some((v1, p1)) =>
            Some((NewRegistry { _bump: v1 }, p1)),
    }
}

/// Reads the arguments of `new_registry` at position `p`.
pub fn get_new_registry_args(d: &[u8], p: usize) -> (r: Option<(NewRegistry, usize)>)
    ensures
        (match r {
            Some((x, q)) => Some((x, q as int)),
            None => None,
        }) == read_new_registry_args(d@, p as int),
{
    let (v1, p1) = match get_u8(d, p) {
        Some(v) => v,
        None => { return None; },
    };
    Some((NewRegistry { _bump: v1 }, p1))
}

/// Appends the bytes of the arguments of `new_registry`.
pub fn put_new_registry_args(out: &mut Vec<u8>, x: &NewRegistry)
    ensures
        final(out)@ == old(out)@ + enc_new_registry_args(*x),
{
    let ghost start = out@;
    put_u8(out, x._bump);
    assert(out@ =~= start + enc_new_registry_args(*x));
}

/// Reading the arguments of `new_registry` back gives what was written.
pub proof fn lemma_read_new_registry_args(d: Seq<u8>, p: int, x: NewRegistry)
    requires
        lies_at(d, p, enc_new_registry_args(x)),
    ensures
        read_new_registry_args(d, p) == Some((x, p + enc_new_registry_args(x).len())),
{
    lemma_enc_lens();
    lemma_read_u8(d, p, x._bump);
}

impl NewRegistry {
    /// The identifier of `new_registry`.
    pub open spec fn spec_sighash() -> Seq<u8> {
        seq![237u8, 187u8, 50u8, 70u8, 74u8, 26u8, 144u8, 230u8]
    }

    /// The identifier of `new_registry`.
    pub fn sighash() -> (t: [u8; 8])
        ensures
            t@ == Self::spec_sighash(),
    {
        let t: [u8; 8] = [237u8, 187u8, 50u8, 70u8, 74u8, 26u8, 144u8, 230u8];
        assert(t@ =~= Self::spec_sighash());
        t
    }

    /// The instruction data calling `new_registry` with these arguments.
    pub open spec fn spec_data(self) -> Seq<u8> {
        Self::spec_sighash() + enc_new_registry_args(self)
    }

    /// The instruction data calling `new_registry` with these arguments.
    pub fn data(&self) -> (v: Vec<u8>)
        ensures
            v@ == self.spec_data(),
    {
        let mut v: Vec<u8> = Vec::new();
        put_tag(&mut v, &Self::sighash());
        put_new_registry_args(&mut v, self);
        v
    }
}

/// The arguments of `set_lockup_program`.
#[derive(Clone, Copy, Debug, PartialEq, Eq, Structural)]
pub struct SetLockupProgram {
    pub lockup_program: Pubkey,
}

/// The layout of the arguments of `set_lockup_program`.
pub open spec fn enc_set_lockup_program_args(x: SetLockupProgram) -> Seq<u8> {
    enc_pubkey(x.lockup_program)
}

/// Reads the arguments of `set_lockup_program` at position `p`.
pub open spec fn read_set_lockup_program_args(d: Seq<u8>, p: int) -> Option<(SetLockupProgram, int)> {
    match read_pubkey(d, p) {
        None => None,
        Some((v1, p1)) =>
            Some((SetLockupProgram { lockup_program: v1 }, p1)),
    }
}

/// Reads the arguments of `set_lockup_program` at position `p`.
pub fn get_set_lockup_program_args(d: &[u8], p: usize) -> (r: Option<(SetLockupProgram, usize)>)
    ensures
        (match r {
            Some((x, q)) => Some((x, q as int)),
            None => None,
        }) == read_set_lockup_program_args(d@, p as int),
{
    let (v1, p1) = match get_pubkey(d, p) {
        Some(v) => v,
        None => { return None; },
    };
    Some((SetLockupProgram { lockup_program: v1 }, p1))
}

/// Appends the bytes of the arguments of `set_lockup_program`.
pub fn put_set_lockup_program_args(out: &mut Vec<u8>, x: &SetLockupProgram)
    ensures
        final(out)@ == old(out)@ + enc_set_lockup_program_args(*x),
{
    let ghost start = out@;
    put_pubkey(out, &x.lockup_program);
    assert(out@ =~= start + enc_set_lockup_program_args(*x));
}

/// Reading the arguments of `set_lockup_program` back gives what was written.
pub proof fn lemma_read_set_lockup_program_args(d: Seq<u8>, p: int, x: SetLockupProgram)
    requires
        lies_at(d, p, enc_set_lockup_program_args(x)),
    ensures
        read_set_lockup_program_args(d, p) == Some((x, p + enc_set_lockup_program_args(x).len())),
{
    lemma_enc_lens();
    lemma_read_pubkey(d, p, x.lockup_program);
}

impl SetLockupProgram {
    /// The identifier of `set_lockup_program`.
    pub open spec fn spec_sighash() -> Seq<u8> {
        seq![223u8, 79u8, 250u8, 198u8, 20u8, 31u8, 79u8, 117u8]
    }

    /// The identifier of `set_lockup_program`.
    pub fn sighash() -> (t: [u8; 8])
        ensures
            t@ == Self::spec_sighash(),
    {
        let t: [u8; 8] = [223u8, 79u8, 250u8, 198u8, 20u8, 31u8, 79u8, 117u8];
        assert(t@ =~= Self::spec_sighash());
        t
    }

    /// The instruction data calling `set_lockup_program` with these arguments.
    pub open spec fn spec_data(self) -> Seq<u8> {
        Self::spec_sighash() + enc_set_lockup_program_args(self)
    }

    /// The instruction data calling `set_lockup_program` with these arguments.
    pub fn data(&self) -> (v: Vec<u8>)
        ensures
            v@ == self.spec_data(),
    {
        let mut v: Vec<u8> = Vec::new();
        put_tag(&mut v, &Self::sighash());
        put_set_lockup_program_args(&mut v, self);
        v
    }
}

/// The arguments of `initialize`.
#[derive(Clone, Copy, Debug, PartialEq, Eq, Structural)]
pub struct Initialize {
    pub mint: Pubkey,
    pub authority: Pubkey,
    pub nonce: u8,
    pub withdrawal_timelock: i64,
    pub stake_rate: u64,
    pub reward_q_len: u32,
}

/// The layout of the arguments of `initialize`.
pub open spec fn enc_initialize_args(x: Initialize) -> Seq<u8> {
    enc_pubkey(x.mint) + enc_pubkey(x.authority) + enc_u8(x.nonce) + enc_i64(x.withdrawal_timelock) + enc_u64(x.stake_rate) + enc_u32(x.reward_q_len)
}

/// Reads the arguments of `initialize` at position `p`.
pub open spec fn read_initialize_args(d: Seq<u8>, p: int) -> Option<(Initialize, int)> {
    match read_pubkey(d, p) {
        None => None,
        Some((v1, p1)) =>
        match read_pubkey(d, p1) {
            None => None,
            Some((v2, p2)) =>
            match read_u8(d, p2) {
                None => None,
                Some((v3, p3)) =>
                match read_i64(d, p3) {
                    None => None,
                    Some((v4, p4)) =>
                    match read_u64(d, p4) {
                        None => None,
                        Some((v5, p5)) =>
                        match read_u32(d, p5) {
                            None => None,
                            Some((v6, p6)) =>
                                Some((Initialize { mint: v1, authority: v2, nonce: v3, withdrawal_timelock: v4, stake_rate: v5, reward_q_len: v6 }, p6)),
                        }
                    }
                }
            }
        }
    }
}

/// Reads the arguments of `initialize` at position `p`.
pub fn get_initialize_args(d: &[u8], p: usize) -> (r: Option<(Initialize, usize)>)
    ensures
        (match r {
            Some((x, q)) => Some((x, q as int)),
            None => None,
        }) == read_initialize_args(d@, p as int),
{
    let (v1, p1) = match get_pubkey(d, p) {
        Some(v) => v,
        None => { return None; },
    };
    let (v2, p2) = match get_pubkey(d, p1) {
        Some(v) => v,
        None => { return None; },
    };
    let (v3, p3) = match get_u8(d, p2) {
        Some(v) => v,
        None => { return None; },
    };
    let (v4, p4) = match get_i64(d, p3) {
        Some(v) => v,
        None => { return None; },
    };
    let (v5, p5) = match get_u64(d, p4) {
        Some(v) => v,
        None => { return None; },
    };
    let (v6, p6) = match get_u32(d, p5) {
        Some(v) => v,
        None => { return None; },
    };
    Some((Initialize { mint: v1, authority: v2, nonce: v3, withdrawal_timelock: v4, stake_rate: v5, reward_q_len: v6 }, p6))
}

/// Appends the bytes of the arguments of `initialize`.
pub fn put_initialize_args(out: &mut Vec<u8>, x: &Initialize)
    ensures
        final(out)@ == old(out)@ + enc_initialize_args(*x),
{
    let ghost start = out@;
    put_pubkey(out, &x.mint);
    put_pubkey(out, &x.authority);
    put_u8(out, x.nonce);
    put_i64(out, x.withdrawal_timelock);
    put_u64(out, x.stake_rate);
    put_u32(out, x.reward_q_len);
    assert(out@ =~= start + enc_initialize_args(*x));
}

/// Reading the arguments of `initialize` back gives what was written.
pub proof fn lemma_read_initialize_args(d: Seq<u8>, p: int, x: Initialize)
    requires
        lies_at(d, p, enc_initialize_args(x)),
    ensures
        read_initialize_args(d, p) == Some((x, p + enc_initialize_args(x).len())),
{
    lemma_enc_lens();
    lemma_lies_at_split(d, p, enc_pubkey(x.mint) + enc_pubkey(x.authority) + enc_u8(x.nonce) + enc_i64(x.withdrawal_timelock) + enc_u64(x.stake_rate), enc_u32(x.reward_q_len));
    lemma_lies_at_split(d, p, enc_pubkey(x.mint) + enc_pubkey(x.authority) + enc_u8(x.nonce) + enc_i64(x.withdrawal_timelock), enc_u64(x.stake_rate));
    lemma_lies_at_split(d, p, enc_pubkey(x.mint) + enc_pubkey(x.authority) + enc_u8(x.nonce), enc_i64(x.withdrawal_timelock));
    lemma_lies_at_split(d, p, enc_pubkey(x.mint) + enc_pubkey(x.authority), enc_u8(x.nonce));
    lemma_lies_at_split(d, p, enc_pubkey(x.mint), enc_pubkey(x.authority));
    lemma_read_pubkey(d, p, x.mint);
    lemma_read_pubkey(d, p + (enc_pubkey(x.mint)).len(), x.authority);
    lemma_read_u8(d, p + (enc_pubkey(x.mint) + enc_pubkey(x.authority)).len(), x.nonce);
    lemma_read_i64(d, p + (enc_pubkey(x.mint) + enc_pubkey(x.authority) + enc_u8(x.nonce)).len(), x.withdrawal_timelock);
    lemma_read_u64(d, p + (enc_pubkey(x.mint) + enc_pubkey(x.authority) + enc_u8(x.nonce) + enc_i64(x.withdrawal_timelock)).len(), x.stake_rate);
    lemma_read_u32(d, p + (enc_pubkey(x.mint) + enc_pubkey(x.authority) + enc_u8(x.nonce) + enc_i64(x.withdrawal_timelock) + enc_u64(x.stake_rate)).len(), x.reward_q_len);
}

impl Initialize {
    /// The identifier of `initialize`.
    pub open spec fn spec_sighash() -> Seq<u8> {
        seq![175u8, 175u8, 109u8, 31u8, 13u8, 152u8, 155u8, 237u8]
    }

    /// The identifier of `initialize`.
    pub fn sighash() -> (t: [u8; 8])
        ensures
            t@ == Self::spec_sighash(),
    {
        let t: [u8; 8] = [175u8, 175u8, 109u8, 31u8, 13u8, 152u8, 155u8, 237u8];
        assert(t@ =~= Self::spec_sighash());
        t
    }

    /// The instruction data calling `initialize` with these arguments.
    pub open spec fn spec_data(self) -> Seq<u8> {
        Self::spec_sighash() + enc_initialize_args(self)
    }

    /// The instruction data calling `initialize` with these arguments.
    pub fn data(&self) -> (v: Vec<u8>)
        ensures
            v@ == self.spec_data(),
    {
        let mut v: Vec<u8> = Vec::new();
        put_tag(&mut v, &Self::sighash());
        put_initialize_args(&mut v, self);
        v
    }
}

/// The arguments of `update_registrar`.
#[derive(Clone, Copy, Debug, PartialEq, Eq, Structural)]
pub struct UpdateRegistrar {
    pub new_authority: Option<Pubkey>,
    pub withdrawal_timelock: Option<i64>,
}

/// The layout of the arguments of `update_registrar`.
pub open spec fn enc_update_registrar_args(x: UpdateRegistrar) -> Seq<u8> {
    enc_opt_pubkey(x.new_authority) + enc_opt_i64(x.withdrawal_timelock)
}

/// Reads the arguments of `update_registrar` at position `p`.
pub open spec fn read_update_registrar_args(d: Seq<u8>, p: int) -> Option<(UpdateRegistrar, int)> {
    match read_opt_pubkey(d, p) {
        None => None,
        Some((v1, p1)) =>
        match read_opt_i64(d, p1) {
            None => None,
            Some((v2, p2)) =>
                Some((UpdateRegistrar { new_authority: v1, withdrawal_timelock: v2 }, p2)),
        }
    }
}

/// Reads the arguments of `update_registrar` at position `p`.
pub fn get_update_registrar_args(d: &[u8], p: usize) -> (r: Option<(UpdateRegistrar, usize)>)
    ensures
        (match r {
            Some((x, q)) => Some((x, q as int)),
            None => None,
        }) == read_update_registrar_args(d@, p as int),
{
    let (v1, p1) = match get_opt_pubkey(d, p) {
        Some(v) => v,
        None => { return None; },
    };
    let (v2, p2) = match get_opt_i64(d, p1) {
        Some(v) => v,
        None => { return None; },
    };
    Some((UpdateRegistrar { new_authority: v1, withdrawal_timelock: v2 }, p2))
}

/// Appends the bytes of the arguments of `update_registrar`.
pub fn put_update_registrar_args(out: &mut Vec<u8>, x: &UpdateRegistrar)
    ensures
        final(out)@ == old(out)@ + enc_update_registrar_args(*x),
{
    let ghost start = out@;
    put_opt_pubkey(out, &x.new_authority);
    put_opt_i64(out, &x.withdrawal_timelock);
    assert(out@ =~= start + enc_update_registrar_args(*x));
}

/// Reading the arguments of `update_registrar` back gives what was written.
pub proof fn lemma_read_update_registrar_args(d: Seq<u8>, p: int, x: UpdateRegistrar)
    requires
        lies_at(d, p, enc_update_registrar_args(x)),
    ensures
        read_update_registrar_args(d, p) == Some((x, p + enc_update_registrar_args(x).len())),
{
    lemma_enc_lens();
    lemma_lies_at_split(d, p, enc_opt_pubkey(x.new_authority), enc_opt_i64(x.withdrawal_timelock));
    lemma_read_opt_pubkey(d, p, x.new_authority);
    lemma_read_opt_i64(d, p + (enc_opt_pubkey(x.new_authority)).len(), x.withdrawal_timelock);
}

impl UpdateRegistrar {
    /// The identifier of `update_registrar`.
    pub open spec fn spec_sighash() -> Seq<u8> {
        seq![116u8, 34u8, 168u8, 129u8, 238u8, 12u8, 90u8, 56u8]
    }

    /// The identifier of `update_registrar`.
    pub fn sighash() -> (t: [u8; 8])
        ensures
            t@ == Self::spec_sighash(),
    {
        let t: [u8; 8] = [116u8, 34u8, 168u8, 129u8, 238u8, 12u8, 90u8, 56u8];
        assert(t@ =~= Self::spec_sighash());
        t
    }

    /// The instruction data calling `update_registrar` with these arguments.
    pub open spec fn spec_data(self) -> Seq<u8> {
        Self::spec_sighash() + enc_update_registrar_args(self)
    }

    /// The instruction data calling `update_registrar` with these arguments.
    pub fn data(&self) -> (v: Vec<u8>)
        ensures
            v@ == self.spec_data(),
    {
        let mut v: Vec<u8> = Vec::new();
        put_tag(&mut v, &Self::sighash());
        put_update_registrar_args(&mut v, self);
        v
    }
}

/// The arguments of `create_member`.
#[derive(Clone, Copy, Debug, PartialEq, Eq, Structural)]
pub struct CreateMember {
    pub nonce: u8,
}

/// The layout of the arguments of `create_member`.
pub open spec fn enc_create_member_args(x: CreateMember) -> Seq<u8> {
    enc_u8(x.nonce)
}

/// Reads the arguments of `create_member` at position `p`.
pub open spec fn read_create_member_args(d: Seq<u8>, p: int) -> Option<(CreateMember, int)> {
    match read_u8(d, p) {
        None => None,
        Some((v1, p1)) =>
            Some((CreateMember { nonce: v1 }, p1)),
    }
}

/// Reads the arguments of `create_member` at position `p`.
pub fn get_create_member_args(d: &[u8], p: usize) -> (r: Option<(CreateMember, usize)>)
    ensures
        (match r {
            Some((x, q)) => Some((x, q as int)),
            None => None,
        }) == read_create_member_args(d@, p as int),
{
    let (v1, p1) = match get_u8(d, p) {
        Some(v) => v,
        None => { return None; },
    };
    Some((CreateMember { nonce: v1 }, p1))
}

/// Appends the bytes of the arguments of `create_member`.
pub fn put_create_member_args(out: &mut Vec<u8>, x: &CreateMember)
    ensures
        final(out)@ == old(out)@ + enc_create_member_args(*x),
{
    let ghost start = out@;
    put_u8(out, x.nonce);
    assert(out@ =~= start + enc_create_member_args(*x));
}

/// Reading the arguments of `create_member` back gives what was written.
pub proof fn lemma_read_create_member_args(d: Seq<u8>, p: int, x: CreateMember)
    requires
        lies_at(d, p, enc_create_member_args(x)),
    ensures
        read_create_member_args(d, p) == Some((x, p + enc_create_member_args(x).len())),
{
    lemma_enc_lens();
    lemma_read_u8(d, p, x.nonce);
}

impl CreateMember {
    /// The identifier of `create_member`.
    pub open spec fn spec_sighash() -> Seq<u8> {
        seq![49u8, 46u8, 45u8, 241u8, 122u8, 143u8, 136u8, 73u8]
    }

    /// The identifier of `create_member`.
    pub fn sighash() -> (t: [u8; 8])
        ensures
            t@ == Self::spec_sighash(),
    {
        let t: [u8; 8] = [49u8, 46u8, 45u8, 241u8, 122u8, 143u8, 136u8, 73u8];
        assert(t@ =~= Self::spec_sighash());
        t
    }

    /// The instruction data calling `create_member` with these arguments.
    pub open spec fn spec_data(self) -> Seq<u8> {
        Self::spec_sighash() + enc_create_member_args(self)
    }

    /// The instruction data calling `create_member` with these arguments.
    pub fn data(&self) -> (v: Vec<u8>)
        ensures
            v@ == self.spec_data(),
    {
        let mut v: Vec<u8> = Vec::new();
        put_tag(&mut v, &Self::sighash());
        put_create_member_args(&mut v, self);
        v
    }
}

/// The arguments of `update_member_balances`.
#[derive(Clone, Copy, Debug, PartialEq, Eq, Structural)]
pub struct UpdateMemberBalances {
    pub nonce: u8,
}

/// The layout of the arguments of `update_member_balances`.
pub open spec fn enc_update_member_balances_args(x: UpdateMemberBalances) -> Seq<u8> {
    enc_u8(x.nonce)
}

/// Reads the arguments of `update_member_balances` at position `p`.
pub open spec fn read_update_member_balances_args(d: Seq<u8>, p: int) -> Option<(UpdateMemberBalances, int)> {
    match read_u8(d, p) {
        None => None,
        Some((v1, p1)) =>
            Some((UpdateMemberBalances { nonce: v1 }, p1)),
    }
}

/// Reads the arguments of `update_member_balances` at position `p`.
pub fn get_update_member_balances_args(d: &[u8], p: usize) -> (r: Option<(UpdateMemberBalances, usize)>)
    ensures
        (match r {
            Some((x, q)) => Some((x, q as int)),
            None => None,
        }) == read_update_member_balances_args(d@, p as int),
{
    let (v1, p1) = match get_u8(d, p) {
        Some(v) => v,
        None => { return None; },
    };
    Some((UpdateMemberBalances { nonce: v1 }, p1))
}

/// Appends the bytes of the arguments of `update_member_balances`.
pub fn put_update_member_balances_args(out: &mut Vec<u8>, x: &UpdateMemberBalances)
    ensures
        final(out)@ == old(out)@ + enc_update_member_balances_args(*x),
{
    let ghost start = out@;
    put_u8(out, x.nonce);
    assert(out@ =~= start + enc_update_member_balances_args(*x));
}

/// Reading the arguments of `update_member_balances` back gives what was written.
pub proof fn lemma_read_update_member_balances_args(d: Seq<u8>, p: int, x: UpdateMemberBalances)
    requires
        lies_at(d, p, enc_update_member_balances_args(x)),
    ensures
        read_update_member_balances_args(d, p) == Some((x, p + enc_update_member_balances_args(x).len())),
{
    lemma_enc_lens();
    lemma_read_u8(d, p, x.nonce);
}

impl UpdateMemberBalances {
    /// The identifier of `update_member_balances`.
    pub open spec fn spec_sighash() -> Seq<u8> {
        seq![106u8, 188u8, 198u8, 184u8, 221u8, 120u8, 117u8, 103u8]
    }

    /// The identifier of `update_member_balances`.
    pub fn sighash() -> (t: [u8; 8])
        ensures
            t@ == Self::spec_sighash(),
    {
        let t: [u8; 8] = [106u8, 188u8, 198u8, 184u8, 221u8, 120u8, 117u8, 103u8];
        assert(t@ =~= Self::spec_sighash());
        t
    }

    /// The instruction data calling `update_member_balances` with these arguments.
    pub open spec fn spec_data(self) -> Seq<u8> {
        Self::spec_sighash() + enc_update_member_balances_args(self)
    }

    /// The instruction data calling `update_member_balances` with these arguments.
    pub fn data(&self) -> (v: Vec<u8>)
        ensures
            v@ == self.spec_data(),
    {
        let mut v: Vec<u8> = Vec::new();
        put_tag(&mut v, &Self::sighash());
        put_update_member_balances_args(&mut v, self);
        v
    }
}

/// The arguments of `update_member_balances_lock`.
#[derive(Clone, Copy, Debug, PartialEq, Eq, Structural)]
pub struct UpdateMemberBalancesLock {
    pub nonce: u8,
}

/// The layout of the arguments of `update_member_balances_lock`.
pub open spec fn enc_update_member_balances_lock_args(x: UpdateMemberBalancesLock) -> Seq<u8> {
    enc_u8(x.nonce)
}

/// Reads the arguments of `update_member_balances_lock` at position `p`.
pub open spec fn read_update_member_balances_lock_args(d: Seq<u8>, p: int) -> Option<(UpdateMemberBalancesLock, int)> {
    match read_u8(d, p) {
        None => None,
        Some((v1, p1)) =>
            Some((UpdateMemberBalancesLock { nonce: v1 }, p1)),
    }
}

/// Reads the arguments of `update_member_balances_lock` at position `p`.
pub fn get_update_member_balances_lock_args(d: &[u8], p: usize) -> (r: Option<(UpdateMemberBalancesLock, usize)>)
    ensures
        (match r {
            Some((x, q)) => Some((x, q as int)),
            None => None,
        }) == read_update_member_balances_lock_args(d@, p as int),
{
    let (v1, p1) = match get_u8(d, p) {
        Some(v) => v,
        None => { return None; },
    };
    Some((UpdateMemberBalancesLock { nonce: v1 }, p1))
}

/// Appends the bytes of the arguments of `update_member_balances_lock`.
pub fn put_update_member_balances_lock_args(out: &mut Vec<u8>, x: &UpdateMemberBalancesLock)
    ensures
        final(out)@ == old(out)@ + enc_update_member_balances_lock_args(*x),
{
    let ghost start = out@;
    put_u8(out, x.nonce);
    assert(out@ =~= start + enc_update_member_balances_lock_args(*x));
}

/// Reading the arguments of `update_member_balances_lock` back gives what was written.
pub proof fn lemma_read_update_member_balances_lock_args(d: Seq<u8>, p: int, x: UpdateMemberBalancesLock)
    requires
        lies_at(d, p, enc_update_member_balances_lock_args(x)),
    ensures
        read_update_member_balances_lock_args(d, p) == Some((x, p + enc_update_member_balances_lock_args(x).len())),
{
    lemma_enc_lens();
    lemma_read_u8(d, p, x.nonce);
}

impl UpdateMemberBalancesLock {
    /// The identifier of `update_member_balances_lock`.
    pub open spec fn spec_sighash() -> Seq<u8> {
        seq![255u8, 3u8, 165u8, 86u8, 185u8, 28u8, 102u8, 93u8]
    }

    /// The identifier of `update_member_balances_lock`.
    pub fn sighash() -> (t: [u8; 8])
        ensures
            t@ == Self::spec_sighash(),
    {
        let t: [u8; 8] = [255u8, 3u8, 165u8, 86u8, 185u8, 28u8, 102u8, 93u8];
        assert(t@ =~= Self::spec_sighash());
        t
    }

    /// The instruction data calling `update_member_balances_lock` with these arguments.
    pub open spec fn spec_data(self) -> Seq<u8> {
        Self::spec_sighash() + enc_update_member_balances_lock_args(self)
    }

    /// The instruction data calling `update_member_balances_lock` with these arguments.
    pub fn data(&self) -> (v: Vec<u8>)
        ensures
            v@ == self.spec_data(),
    {
        let mut v: Vec<u8> = Vec::new();
        put_tag(&mut v, &Self::sighash());
        put_update_member_balances_lock_args(&mut v, self);
        v
    }
}

/// The arguments of `update_member`.
#[derive(Clone, Copy, Debug, PartialEq, Eq, Structural)]
pub struct UpdateMember {
    pub metadata: Option<Pubkey>,
}

/// The layout of the arguments of `update_member`.
pub open spec fn enc_update_member_args(x: UpdateMember) -> Seq<u8> {
    enc_opt_pubkey(x.metadata)
}

/// Reads the arguments of `update_member` at position `p`.
pub open spec fn read_update_member_args(d: Seq<u8>, p: int) -> Option<(UpdateMember, int)> {
    match read_opt_pubkey(d, p) {
        None => None,
        Some((v1, p1)) =>
            Some((UpdateMember { metadata: v1 }, p1)),
    }
}

/// Reads the arguments of `update_member` at position `p`.
pub fn get_update_member_args(d: &[u8], p: usize) -> (r: Option<(UpdateMember, usize)>)
    ensures
        (match r {
            Some((x, q)) => Some((x, q as int)),
            None => None,
        }) == read_update_member_args(d@, p as int),
{
    let (v1, p1) = match get_opt_pubkey(d, p) {
        Some(v) => v,
        None => { return None; },
    };
    Some((UpdateMember { metadata: v1 }, p1))
}

/// Appends the bytes of the arguments of `update_member`.
pub fn put_update_member_args(out: &mut Vec<u8>, x: &UpdateMember)
    ensures
        final(out)@ == old(out)@ + enc_update_member_args(*x),
{
    let ghost start = out@;
    put_opt_pubkey(out, &x.metadata);
    assert(out@ =~= start + enc_update_member_args(*x));
}

/// Reading the arguments of `update_member` back gives what was written.
pub proof fn lemma_read_update_member_args(d: Seq<u8>, p: int, x: UpdateMember)
    requires
        lies_at(d, p, enc_update_member_args(x)),
    ensures
        read_update_member_args(d, p) == Some((x, p + enc_update_member_args(x).len())),
{
    lemma_enc_lens();
    lemma_read_opt_pubkey(d, p, x.metadata);
}

impl UpdateMember {
    /// The identifier of `update_member`.
    pub open spec fn spec_sighash() -> Seq<u8> {
        seq![46u8, 229u8, 3u8, 194u8, 47u8, 105u8, 211u8, 28u8]
    }

    /// The identifier of `update_member`.
    pub fn sighash() -> (t: [u8; 8])
        ensures
            t@ == Self::spec_sighash(),
    {
        let t: [u8; 8] = [46u8, 229u8, 3u8, 194u8, 47u8, 105u8, 211u8, 28u8];
        assert(t@ =~= Self::spec_sighash());
        t
    }

    /// The instruction data calling `update_member` with these arguments.
    pub open spec fn spec_data(self) -> Seq<u8> {
        Self::spec_sighash() + enc_update_member_args(self)
    }

    /// The instruction data calling `update_member` with these arguments.
    pub fn data(&self) -> (v: Vec<u8>)
        ensures
            v@ == self.spec_data(),
    {
        let mut v: Vec<u8> = Vec::new();
        put_tag(&mut v, &Self::sighash());
        put_update_member_args(&mut v, self);
        v
    }
}

/// The arguments of `deposit`.
#[derive(Clone, Copy, Debug, PartialEq, Eq, Structural)]
pub struct Deposit {
    pub amount: u64,
}

/// The layout of the arguments of `deposit`.
pub open spec fn enc_deposit_args(x: Deposit) -> Seq<u8> {
    enc_u64(x.amount)
}

/// Reads the arguments of `deposit` at position `p`.
pub open spec fn read_deposit_args(d: Seq<u8>, p: int) -> Option<(Deposit, int)> {
    match read_u64(d, p) {
        None => None,
        Some((v1, p1)) =>
            Some((Deposit { amount: v1 }, p1)),
    }
}

/// Reads the arguments of `deposit` at position `p`.
pub fn get_deposit_args(d: &[u8], p: usize) -> (r: Option<(Deposit, usize)>)
    ensures
        (match r {
            Some((x, q)) => Some((x, q as int)),
            None => None,
        }) == read_deposit_args(d@, p as int),
{
    let (v1, p1) = match get_u64(d, p) {
        Some(v) => v,
        None => { return None; },
    };
    Some((Deposit { amount: v1 }, p1))
}

/// Appends the bytes of the arguments of `deposit`.
pub fn put_deposit_args(out: &mut Vec<u8>, x: &Deposit)
    ensures
        final(out)@ == old(out)@ + enc_deposit_args(*x),
{
    let ghost start = out@;
    put_u64(out, x.amount);
    assert(out@ =~= start + enc_deposit_args(*x));
}

/// Reading the arguments of `deposit` back gives what was written.
pub proof fn lemma_read_deposit_args(d: Seq<u8>, p: int, x: Deposit)
    requires
        lies_at(d, p, enc_deposit_args(x)),
    ensures
        read_deposit_args(d, p) == Some((x, p + enc_deposit_args(x).len())),
{
    lemma_enc_lens();
    lemma_read_u64(d, p, x.amount);
}

impl Deposit {
    /// The identifier of `deposit`.
    pub open spec fn spec_sighash() -> Seq<u8> {
        seq![242u8, 35u8, 198u8, 137u8, 82u8, 225u8, 242u8, 182u8]
    }

    /// The identifier of `deposit`.
    pub fn sighash() -> (t: [u8; 8])
        ensures
            t@ == Self::spec_sighash(),
    {
        let t: [u8; 8] = [242u8, 35u8, 198u8, 137u8, 82u8, 225u8, 242u8, 182u8];
        assert(t@ =~= Self::spec_sighash());
        t
    }

    /// The instruction data calling `deposit` with these arguments.
    pub open spec fn spec_data(self) -> Seq<u8> {
        Self::spec_sighash() + enc_deposit_args(self)
    }

    /// The instruction data calling `deposit` with these arguments.
    pub fn data(&self) -> (v: Vec<u8>)
        ensures
            v@ == self.spec_data(),
    {
        let mut v: Vec<u8> = Vec::new();
        put_tag(&mut v, &Self::sighash());
        put_deposit_args(&mut v, self);
        v
    }
}

/// The arguments of `deposit_locked`.
#[derive(Clone, Copy, Debug, PartialEq, Eq, Structural)]
pub struct DepositLocked {
    pub amount: u64,
}

/// The layout of the arguments of `deposit_locked`.
pub open spec fn enc_deposit_locked_args(x: DepositLocked) -> Seq<u8> {
    enc_u64(x.amount)
}

/// Reads the arguments of `deposit_locked` at position `p`.
pub open spec fn read_deposit_locked_args(d: Seq<u8>, p: int) -> Option<(DepositLocked, int)> {
    match read_u64(d, p) {
        None => None,
        Some((v1, p1)) =>
            Some((DepositLocked { amount: v1 }, p1)),
    }
}

/// Reads the arguments of `deposit_locked` at position `p`.
pub fn get_deposit_locked_args(d: &[u8], p: usize) -> (r: Option<(DepositLocked, usize)>)
    ensures
        (match r {
            Some((x, q)) => Some((x, q as int)),
            None => None,
        }) == read_deposit_locked_args(d@, p as int),
{
    let (v1, p1) = match get_u64(d, p) {
        Some(v) => v,
        None => { return None; },
    };
    Some((DepositLocked { amount: v1 }, p1))
}

/// Appends the bytes of the arguments of `deposit_locked`.
pub fn put_deposit_locked_args(out: &mut Vec<u8>, x: &DepositLocked)
    ensures
        final(out)@ == old(out)@ + enc_deposit_locked_args(*x),
{
    let ghost start = out@;
    put_u64(out, x.amount);
    assert(out@ =~= start + enc_deposit_locked_args(*x));
}

/// Reading the arguments of `deposit_locked` back gives what was written.
pub proof fn lemma_read_deposit_locked_args(d: Seq<u8>, p: int, x: DepositLocked)
    requires
        lies_at(d, p, enc_deposit_locked_args(x)),
    ensures
        read_deposit_locked_args(d, p) == Some((x, p + enc_deposit_locked_args(x).len())),
{
    lemma_enc_lens();
    lemma_read_u64(d, p, x.amount);
}

impl DepositLocked {
    /// The identifier of `deposit_locked`.
    pub open spec fn spec_sighash() -> Seq<u8> {
        seq![88u8, 91u8, 135u8, 52u8, 79u8, 190u8, 164u8, 141u8]
    }

    /// The identifier of `deposit_locked`.
    pub fn sighash() -> (t: [u8; 8])
        ensures
            t@ == Self::spec_sighash(),
    {
        let t: [u8; 8] = [88u8, 91u8, 135u8, 52u8, 79u8, 190u8, 164u8, 141u8];
        assert(t@ =~= Self::spec_sighash());
        t
    }

    /// The instruction data calling `deposit_locked` with these arguments.
    pub open spec fn spec_data(self) -> Seq<u8> {
        Self::spec_sighash() + enc_deposit_locked_args(self)
    }

    /// The instruction data calling `deposit_locked` with these arguments.
    pub fn data(&self) -> (v: Vec<u8>)
        ensures
            v@ == self.spec_data(),
    {
        let mut v: Vec<u8> = Vec::new();
        put_tag(&mut v, &Self::sighash());
        put_deposit_locked_args(&mut v, self);
        v
    }
}

/// The arguments of `stake`.
#[derive(Clone, Copy, Debug, PartialEq, Eq, Structural)]
pub struct Stake {
    pub spt_amount: u64,
}

/// The layout of the arguments of `stake`.
pub open spec fn enc_stake_args(x: Stake) -> Seq<u8> {
    enc_u64(x.spt_amount)
}

/// Reads the arguments of `stake` at position `p`.
pub open spec fn read_stake_args(d: Seq<u8>, p: int) -> Option<(Stake, int)> {
    match read_u64(d, p) {
        None => None,
        Some((v1, p1)) =>
            Some((Stake { spt_amount: v1 }, p1)),
    }
}

/// Reads the arguments of `stake` at position `p`.
pub fn get_stake_args(d: &[u8], p: usize) -> (r: Option<(Stake, usize)>)
    ensures
        (match r {
            Some((x, q)) => Some((x, q as int)),
            None => None,
        }) == read_stake_args(d@, p as int),
{
    let (v1, p1) = match get_u64(d, p) {
        Some(v) => v,
        None => { return None; },
    };
    Some((Stake { spt_amount: v1 }, p1))
}

/// Appends the bytes of the arguments of `stake`.
pub fn put_stake_args(out: &mut Vec<u8>, x: &Stake)
    ensures
        final(out)@ == old(out)@ + enc_stake_args(*x),
{
    let ghost start = out@;
    put_u64(out, x.spt_amount);
    assert(out@ =~= start + enc_stake_args(*x));
}

/// Reading the arguments of `stake` back gives what was written.
pub proof fn lemma_read_stake_args(d: Seq<u8>, p: int, x: Stake)
    requires
        lies_at(d, p, enc_stake_args(x)),
    ensures
        read_stake_args(d, p) == Some((x, p + enc_stake_args(x).len())),
{
    lemma_enc_lens();
    lemma_read_u64(d, p, x.spt_amount);
}

impl Stake {
    /// The identifier of `stake`.
    pub open spec fn spec_sighash() -> Seq<u8> {
        seq![206u8, 176u8, 202u8, 18u8, 200u8, 209u8, 179u8, 108u8]
    }

    /// The identifier of `stake`.
    pub fn sighash() -> (t: [u8; 8])
        ensures
            t@ == Self::spec_sighash(),
    {
        let t: [u8; 8] = [206u8, 176u8, 202u8, 18u8, 200u8, 209u8, 179u8, 108u8];
        assert(t@ =~= Self::spec_sighash());
        t
    }

    /// The instruction data calling `stake` with these arguments.
    pub open spec fn spec_data(self) -> Seq<u8> {
        Self::spec_sighash() + enc_stake_args(self)
    }

    /// The instruction data calling `stake` with these arguments.
    pub fn data(&self) -> (v: Vec<u8>)
        ensures
            v@ == self.spec_data(),
    {
        let mut v: Vec<u8> = Vec::new();
        put_tag(&mut v, &Self::sighash());
        put_stake_args(&mut v, self);
        v
    }
}

/// The arguments of `start_unstake`.
#[derive(Clone, Copy, Debug, PartialEq, Eq, Structural)]
pub struct StartUnstake {
    pub spt_amount: u64,
    pub locked: bool,
}

/// The layout of the arguments of `start_unstake`.
pub open spec fn enc_start_unstake_args(x: StartUnstake) -> Seq<u8> {
    enc_u64(x.spt_amount) + enc_bool(x.locked)
}

/// Reads the arguments of `start_unstake` at position `p`.
pub open spec fn read_start_unstake_args(d: Seq<u8>, p: int) -> Option<(StartUnstake, int)> {
    match read_u64(d, p) {
        None => None,
        Some((v1, p1)) =>
        match read_bool(d, p1) {
            None => None,
            Some((v2, p2)) =>
                Some((StartUnstake { spt_amount: v1, locked: v2 }, p2)),
        }
    }
}

/// Reads the arguments of `start_unstake` at position `p`.
pub fn get_start_unstake_args(d: &[u8], p: usize) -> (r: Option<(StartUnstake, usize)>)
    ensures
        (match r {
            Some((x, q)) => Some((x, q as int)),
            None => None,
        }) == read_start_unstake_args(d@, p as int),
{
    let (v1, p1) = match get_u64(d, p) {
        Some(v) => v,
        None => { return None; },
    };
    let (v2, p2) = match get_bool(d, p1) {
        Some(v) => v,
        None => { return None; },
    };
    Some((StartUnstake { spt_amount: v1, locked: v2 }, p2))
}

/// Appends the bytes of the arguments of `start_unstake`.
pub fn put_start_unstake_args(out: &mut Vec<u8>, x: &StartUnstake)
    ensures
        final(out)@ == old(out)@ + enc_start_unstake_args(*x),
{
    let ghost start = out@;
    put_u64(out, x.spt_amount);
    put_bool(out, x.locked);
    assert(out@ =~= start + enc_start_unstake_args(*x));
}

/// Reading the arguments of `start_unstake` back gives what was written.
pub proof fn lemma_read_start_unstake_args(d: Seq<u8>, p: int, x: StartUnstake)
    requires
        lies_at(d, p, enc_start_unstake_args(x)),
    ensures
        read_start_unstake_args(d, p) == Some((x, p + enc_start_unstake_args(x).len())),
{
    lemma_enc_lens();
    lemma_lies_at_split(d, p, enc_u64(x.spt_amount), enc_bool(x.locked));
    lemma_read_u64(d, p, x.spt_amount);
    lemma_read_bool(d, p + (enc_u64(x.spt_amount)).len(), x.locked);
}

impl StartUnstake {
    /// The identifier of `start_unstake`.
    pub open spec fn spec_sighash() -> Seq<u8> {
        seq![200u8, 243u8, 106u8, 111u8, 170u8, 72u8, 31u8, 117u8]
    }

    /// The identifier of `start_unstake`.
    pub fn sighash() -> (t: [u8; 8])
        ensures
            t@ == Self::spec_sighash(),
    {
        let t: [u8; 8] = [200u8, 243u8, 106u8, 111u8, 170u8, 72u8, 31u8, 117u8];
        assert(t@ =~= Self::spec_sighash());
        t
    }

    /// The instruction data calling `start_unstake` with these arguments.
    pub open spec fn spec_data(self) -> Seq<u8> {
        Self::spec_sighash() + enc_start_unstake_args(self)
    }

    /// The instruction data calling `start_unstake` with these arguments.
    pub fn data(&self) -> (v: Vec<u8>)
        ensures
            v@ == self.spec_data(),
    {
        let mut v: Vec<u8> = Vec::new();
        put_tag(&mut v, &Self::sighash());
        put_start_unstake_args(&mut v, self);
        v
    }
}

/// The arguments of `end_unstake`: there are none.
#[derive(Clone, Copy, Debug, PartialEq, Eq, Structural)]
pub struct EndUnstake;

/// The layout of the arguments of `end_unstake`: no bytes.
pub open spec fn enc_end_unstake_args(x: EndUnstake) -> Seq<u8> {
    Seq::empty()
}

/// Reads the arguments of `end_unstake` at position `p`: nothing to read.
pub open spec fn read_end_unstake_args(d: Seq<u8>, p: int) -> Option<(EndUnstake, int)> {
    Some((EndUnstake, p))
}

/// Reads the arguments of `end_unstake` at position `p`: nothing to read.
pub fn get_end_unstake_args(d: &[u8], p: usize) -> (r: Option<(EndUnstake, usize)>)
    ensures
        (match r {
            Some((x, q)) => Some((x, q as int)),
            None => None,
        }) == read_end_unstake_args(d@, p as int),
{
    Some((EndUnstake, p))
}

/// Appends the bytes of the arguments of `end_unstake`: none.
pub fn put_end_unstake_args(out: &mut Vec<u8>, x: &EndUnstake)
    ensures
        final(out)@ == old(out)@ + enc_end_unstake_args(*x),
{
    assert(out@ =~= out@ + enc_end_unstake_args(*x));
}

/// Reading the arguments of `end_unstake` back gives what was written.
pub proof fn lemma_read_end_unstake_args(d: Seq<u8>, p: int, x: EndUnstake)
    requires
        lies_at(d, p, enc_end_unstake_args(x)),
    ensures
        read_end_unstake_args(d, p) == Some((x, p + enc_end_unstake_args(x).len())),
{
}

impl EndUnstake {
    /// The identifier of `end_unstake`.
    pub open spec fn spec_sighash() -> Seq<u8> {
        seq![44u8, 65u8, 159u8, 108u8, 149u8, 89u8, 27u8, 203u8]
    }

    /// The identifier of `end_unstake`.
    pub fn sighash() -> (t: [u8; 8])
        ensures
            t@ == Self::spec_sighash(),
    {
        let t: [u8; 8] = [44u8, 65u8, 159u8, 108u8, 149u8, 89u8, 27u8, 203u8];
        assert(t@ =~= Self::spec_sighash());
        t
    }

    /// The instruction data calling `end_unstake` with these arguments.
    pub open spec fn spec_data(self) -> Seq<u8> {
        Self::spec_sighash() + enc_end_unstake_args(self)
    }

    /// The instruction data calling `end_unstake` with these arguments.
    pub fn data(&self) -> (v: Vec<u8>)
        ensures
            v@ == self.spec_data(),
    {
        let mut v: Vec<u8> = Vec::new();
        put_tag(&mut v, &Self::sighash());
        put_end_unstake_args(&mut v, self);
        v
    }
}

/// The arguments of `withdraw`.
#[derive(Clone, Copy, Debug, PartialEq, Eq, Structural)]
pub struct Withdraw {
    pub amount: u64,
}

/// The layout of the arguments of `withdraw`.
pub open spec fn enc_withdraw_args(x: Withdraw) -> Seq<u8> {
    enc_u64(x.amount)
}

/// Reads the arguments of `withdraw` at position `p`.
pub open spec fn read_withdraw_args(d: Seq<u8>, p: int) -> Option<(Withdraw, int)> {
    match read_u64(d, p) {
        None => None,
        Some((v1, p1)) =>
            Some((Withdraw { amount: v1 }, p1)),
    }
}

/// Reads the arguments of `withdraw` at position `p`.
pub fn get_withdraw_args(d: &[u8], p: usize) -> (r: Option<(Withdraw, usize)>)
    ensures
        (match r {
            Some((x, q)) => Some((x, q as int)),
            None => None,
        }) == read_withdraw_args(d@, p as int),
{
    let (v1, p1) = match get_u64(d, p) {
        Some(v) => v,
        None => { return None; },
    };
    Some((Withdraw { amount: v1 }, p1))
}

/// Appends the bytes of the arguments of `withdraw`.
pub fn put_withdraw_args(out: &mut Vec<u8>, x: &Withdraw)
    ensures
        final(out)@ == old(out)@ + enc_withdraw_args(*x),
{
    let ghost start = out@;
    put_u64(out, x.amount);
    assert(out@ =~= start + enc_withdraw_args(*x));
}

/// Reading the arguments of `withdraw` back gives what was written.
pub proof fn lemma_read_withdraw_args(d: Seq<u8>, p: int, x: Withdraw)
    requires
        lies_at(d, p, enc_withdraw_args(x)),
    ensures
        read_withdraw_args(d, p) == Some((x, p + enc_withdraw_args(x).len())),
{
    lemma_enc_lens();
    lemma_read_u64(d, p, x.amount);
}

impl Withdraw {
    /// The identifier of `withdraw`.
    pub open spec fn spec_sighash() -> Seq<u8> {
        seq![183u8, 18u8, 70u8, 156u8, 148u8, 109u8, 161u8, 34u8]
    }

    /// The identifier of `withdraw`.
    pub fn sighash() -> (t: [u8; 8])
        ensures
            t@ == Self::spec_sighash(),
    {
        let t: [u8; 8] = [183u8, 18u8, 70u8, 156u8, 148u8, 109u8, 161u8, 34u8];
        assert(t@ =~= Self::spec_sighash());
        t
    }

    /// The instruction data calling `withdraw` with these arguments.
    pub open spec fn spec_data(self) -> Seq<u8> {
        Self::spec_sighash() + enc_withdraw_args(self)
    }

    /// The instruction data calling `withdraw` with these arguments.
    pub fn data(&self) -> (v: Vec<u8>)
        ensures
            v@ == self.spec_data(),
    {
        let mut v: Vec<u8> = Vec::new();
        put_tag(&mut v, &Self::sighash());
        put_withdraw_args(&mut v, self);
        v
    }
}

/// The arguments of `withdraw_locked`.
#[derive(Clone, Copy, Debug, PartialEq, Eq, Structural)]
pub struct WithdrawLocked {
    pub amount: u64,
}

/// The layout of the arguments of `withdraw_locked`.
pub open spec fn enc_withdraw_locked_args(x: WithdrawLocked) -> Seq<u8> {
    enc_u64(x.amount)
}

/// Reads the arguments of `withdraw_locked` at position `p`.
pub open spec fn read_withdraw_locked_args(d: Seq<u8>, p: int) -> Option<(WithdrawLocked, int)> {
    match read_u64(d, p) {
        None => None,
        Some((v1, p1)) =>
            Some((WithdrawLocked { amount: v1 }, p1)),
    }
}

/// Reads the arguments of `withdraw_locked` at position `p`.
pub fn get_withdraw_locked_args(d: &[u8], p: usize) -> (r: Option<(WithdrawLocked, usize)>)
    ensures
        (match r {
            Some((x, q)) => Some((x, q as int)),
            None => None,
        }) == read_withdraw_locked_args(d@, p as int),
{
    let (v1, p1) = match get_u64(d, p) {
        Some(v) => v,
        None => { return None; },
    };
    Some((WithdrawLocked { amount: v1 }, p1))
}

/// Appends the bytes of the arguments of `withdraw_locked`.
pub fn put_withdraw_locked_args(out: &mut Vec<u8>, x: &WithdrawLocked)
    ensures
        final(out)@ == old(out)@ + enc_withdraw_locked_args(*x),
{
    let ghost start = out@;
    put_u64(out, x.amount);
    assert(out@ =~= start + enc_withdraw_locked_args(*x));
}

/// Reading the arguments of `withdraw_locked` back gives what was written.
pub proof fn lemma_read_withdraw_locked_args(d: Seq<u8>, p: int, x: WithdrawLocked)
    requires
        lies_at(d, p, enc_withdraw_locked_args(x)),
    ensures
        read_withdraw_locked_args(d, p) == Some((x, p + enc_withdraw_locked_args(x).len())),
{
    lemma_enc_lens();
    lemma_read_u64(d, p, x.amount);
}

impl WithdrawLocked {
    /// The identifier of `withdraw_locked`.
    pub open spec fn spec_sighash() -> Seq<u8> {
        seq![96u8, 224u8, 88u8, 102u8, 223u8, 189u8, 8u8, 228u8]
    }

    /// The identifier of `withdraw_locked`.
    pub fn sighash() -> (t: [u8; 8])
        ensures
            t@ == Self::spec_sighash(),
    {
        let t: [u8; 8] = [96u8, 224u8, 88u8, 102u8, 223u8, 189u8, 8u8, 228u8];
        assert(t@ =~= Self::spec_sighash());
        t
    }

    /// The instruction data calling `withdraw_locked` with these arguments.
    pub open spec fn spec_data(self) -> Seq<u8> {
        Self::spec_sighash() + enc_withdraw_locked_args(self)
    }

    /// The instruction data calling `withdraw_locked` with these arguments.
    pub fn data(&self) -> (v: Vec<u8>)
        ensures
            v@ == self.spec_data(),
    {
        let mut v: Vec<u8> = Vec::new();
        put_tag(&mut v, &Self::sighash());
        put_withdraw_locked_args(&mut v, self);
        v
    }
}

/// The arguments of `drop_reward`.
#[derive(Clone, Copy, Debug, PartialEq, Eq, Structural)]
pub struct DropReward {
    pub kind: RewardVendorKind,
    pub total: u64,
    pub expiry_ts: i64,
    pub expiry_receiver: Pubkey,
    pub nonce: u8,
}

/// The layout of the arguments of `drop_reward`.
pub open spec fn enc_drop_reward_args(x: DropReward) -> Seq<u8> {
    enc_kind(x.kind) + enc_u64(x.total) + enc_i64(x.expiry_ts) + enc_pubkey(x.expiry_receiver) + enc_u8(x.nonce)
}

/// Reads the arguments of `drop_reward` at position `p`.
pub open spec fn read_drop_reward_args(d: Seq<u8>, p: int) -> Option<(DropReward, int)> {
    match read_kind(d, p) {
        None => None,
        Some((v1, p1)) =>
        match read_u64(d, p1) {
            None => None,
            Some((v2, p2)) =>
            match read_i64(d, p2) {
                None => None,
                Some((v3, p3)) =>
                match read_pubkey(d, p3) {
                    None => None,
                    Some((v4, p4)) =>
                    match read_u8(d, p4) {
                        None => None,
                        Some((v5, p5)) =>
                            Some((DropReward { kind: v1, total: v2, expiry_ts: v3, expiry_receiver: v4, nonce: v5 }, p5)),
                    }
                }
            }
        }
    }
}

/// Reads the arguments of `drop_reward` at position `p`.
pub fn get_drop_reward_args(d: &[u8], p: usize) -> (r: Option<(DropReward, usize)>)
    ensures
        (match r {
            Some((x, q)) => Some((x, q as int)),
            None => None,
        }) == read_drop_reward_args(d@, p as int),
{
    let (v1, p1) = match get_kind(d, p) {
        Some(v) => v,
        None => { return None; },
    };
    let (v2, p2) = match get_u64(d, p1) {
        Some(v) => v,
        None => { return None; },
    };
    let (v3, p3) = match get_i64(d, p2) {
        Some(v) => v,
        None => { return None; },
    };
    let (v4, p4) = match get_pubkey(d, p3) {
        Some(v) => v,
        None => { return None; },
    };
    let (v5, p5) = match get_u8(d, p4) {
        Some(v) => v,
        None => { return None; },
    };
    Some((DropReward { kind: v1, total: v2, expiry_ts: v3, expiry_receiver: v4, nonce: v5 }, p5))
}

/// Appends the bytes of the arguments of `drop_reward`.
pub fn put_drop_reward_args(out: &mut Vec<u8>, x: &DropReward)
    ensures
        final(out)@ == old(out)@ + enc_drop_reward_args(*x),
{
    let ghost start = out@;
    put_kind(out, &x.kind);
    put_u64(out, x.total);
    put_i64(out, x.expiry_ts);
    put_pubkey(out, &x.expiry_receiver);
    put_u8(out, x.nonce);
    assert(out@ =~= start + enc_drop_reward_args(*x));
}

/// Reading the arguments of `drop_reward` back gives what was written.
pub proof fn lemma_read_drop_reward_args(d: Seq<u8>, p: int, x: DropReward)
    requires
        lies_at(d, p, enc_drop_reward_args(x)),
    ensures
        read_drop_reward_args(d, p) == Some((x, p + enc_drop_reward_args(x).len())),
{
    lemma_enc_lens();
    lemma_lies_at_split(d, p, enc_kind(x.kind) + enc_u64(x.total) + enc_i64(x.expiry_ts) + enc_pubkey(x.expiry_receiver), enc_u8(x.nonce));
    lemma_lies_at_split(d, p, enc_kind(x.kind) + enc_u64(x.total) + enc_i64(x.expiry_ts), enc_pubkey(x.expiry_receiver));
    lemma_lies_at_split(d, p, enc_kind(x.kind) + enc_u64(x.total), enc_i64(x.expiry_ts));
    lemma_lies_at_split(d, p, enc_kind(x.kind), enc_u64(x.total));
    lemma_read_kind(d, p, x.kind);
    lemma_read_u64(d, p + (enc_kind(x.kind)).len(), x.total);
    lemma_read_i64(d, p + (enc_kind(x.kind) + enc_u64(x.total)).len(), x.expiry_ts);
    lemma_read_pubkey(d, p + (enc_kind(x.kind) + enc_u64(x.total) + enc_i64(x.expiry_ts)).len(), x.expiry_receiver);
    lemma_read_u8(d, p + (enc_kind(x.kind) + enc_u64(x.total) + enc_i64(x.expiry_ts) + enc_pubkey(x.expiry_receiver)).len(), x.nonce);
}

impl DropReward {
    /// The identifier of `drop_reward`.
    pub open spec fn spec_sighash() -> Seq<u8> {
        seq![170u8, 77u8, 234u8, 93u8, 202u8, 35u8, 96u8, 101u8]
    }

    /// The identifier of `drop_reward`.
    pub fn sighash() -> (t: [u8; 8])
        ensures
            t@ == Self::spec_sighash(),
    {
        let t: [u8; 8] = [170u8, 77u8, 234u8, 93u8, 202u8, 35u8, 96u8, 101u8];
        assert(t@ =~= Self::spec_sighash());
        t
    }

    /// The instruction data calling `drop_reward` with these arguments.
    pub open spec fn spec_data(self) -> Seq<u8> {
        Self::spec_sighash() + enc_drop_reward_args(self)
    }

    /// The instruction data calling `drop_reward` with these arguments.
    pub fn data(&self) -> (v: Vec<u8>)
        ensures
            v@ == self.spec_data(),
    {
        let mut v: Vec<u8> = Vec::new();
        put_tag(&mut v, &Self::sighash());
        put_drop_reward_args(&mut v, self);
        v
    }
}

/// The arguments of `claim_reward`: there are none.
#[derive(Clone, Copy, Debug, PartialEq, Eq, Structural)]
pub struct ClaimReward;

/// The layout of the arguments of `claim_reward`: no bytes.
pub open spec fn enc_claim_reward_args(x: ClaimReward) -> Seq<u8> {
    Seq::empty()
}

/// Reads the arguments of `claim_reward` at position `p`: nothing to read.
pub open spec fn read_claim_reward_args(d: Seq<u8>, p: int) -> Option<(ClaimReward, int)> {
    Some((ClaimReward, p))
}

/// Reads the arguments of `claim_reward` at position `p`: nothing to read.
pub fn get_claim_reward_args(d: &[u8], p: usize) -> (r: Option<(ClaimReward, usize)>)
    ensures
        (match r {
            Some((x, q)) => Some((x, q as int)),
            None => None,
        }) == read_claim_reward_args(d@, p as int),
{
    Some((ClaimReward, p))
}

/// Appends the bytes of the arguments of `claim_reward`: none.
pub fn put_claim_reward_args(out: &mut Vec<u8>, x: &ClaimReward)
    ensures
        final(out)@ == old(out)@ + enc_claim_reward_args(*x),
{
    assert(out@ =~= out@ + enc_claim_reward_args(*x));
}

/// Reading the arguments of `claim_reward` back gives what was written.
pub proof fn lemma_read_claim_reward_args(d: Seq<u8>, p: int, x: ClaimReward)
    requires
        lies_at(d, p, enc_claim_reward_args(x)),
    ensures
        read_claim_reward_args(d, p) == Some((x, p + enc_claim_reward_args(x).len())),
{
}

impl ClaimReward {
    /// The identifier of `claim_reward`.
    pub open spec fn spec_sighash() -> Seq<u8> {
        seq![149u8, 95u8, 181u8, 242u8, 94u8, 90u8, 158u8, 162u8]
    }

    /// The identifier of `claim_reward`.
    pub fn sighash() -> (t: [u8; 8])
        ensures
            t@ == Self::spec_sighash(),
    {
        let t: [u8; 8] = [149u8, 95u8, 181u8, 242u8, 94u8, 90u8, 158u8, 162u8];
        assert(t@ =~= Self::spec_sighash());
        t
    }

    /// The instruction data calling `claim_reward` with these arguments.
    pub open spec fn spec_data(self) -> Seq<u8> {
        Self::spec_sighash() + enc_claim_reward_args(self)
    }

    /// The instruction data calling `claim_reward` with these arguments.
    pub fn data(&self) -> (v: Vec<u8>)
        ensures
            v@ == self.spec_data(),
    {
        let mut v: Vec<u8> = Vec::new();
        put_tag(&mut v, &Self::sighash());
        put_claim_reward_args(&mut v, self);
        v
    }
}

/// The arguments of `claim_reward_locked`.
#[derive(Clone, Copy, Debug, PartialEq, Eq, Structural)]
pub struct ClaimRewardLocked {
    pub _bump: u8,
    pub nonce: u8,
}

/// The layout of the arguments of `claim_reward_locked`.
pub open spec fn enc_claim_reward_locked_args(x: ClaimRewardLocked) -> Seq<u8> {
    enc_u8(x._bump) + enc_u8(x.nonce)
}

/// Reads the arguments of `claim_reward_locked` at position `p`.
pub open spec fn read_claim_reward_locked_args(d: Seq<u8>, p: int) -> Option<(ClaimRewardLocked, int)> {
    match read_u8(d, p) {
        None => None,
        Some((v1, p1)) =>
        match read_u8(d, p1) {
            None => None,
            Some((v2, p2)) =>
                Some((ClaimRewardLocked { _bump: v1, nonce: v2 }, p2)),
        }
    }
}

/// Reads the arguments of `claim_reward_locked` at position `p`.
pub fn get_claim_reward_locked_args(d: &[u8], p: usize) -> (r: Option<(ClaimRewardLocked, usize)>)
    ensures
        (match r {
            Some((x, q)) => Some((x, q as int)),
            None => None,
        }) == read_claim_reward_locked_args(d@, p as int),
{
    let (v1, p1) = match get_u8(d, p) {
        Some(v) => v,
        None => { return None; },
    };
    let (v2, p2) = match get_u8(d, p1) {
        Some(v) => v,
        None => { return None; },
    };
    Some((ClaimRewardLocked { _bump: v1, nonce: v2 }, p2))
}

/// Appends the bytes of the arguments of `claim_reward_locked`.
pub fn put_claim_reward_locked_args(out: &mut Vec<u8>, x: &ClaimRewardLocked)
    ensures
        final(out)@ == old(out)@ + enc_claim_reward_locked_args(*x),
{
    let ghost start = out@;
    put_u8(out, x._bump);
    put_u8(out, x.nonce);
    assert(out@ =~= start + enc_claim_reward_locked_args(*x));
}

/// Reading the arguments of `claim_reward_locked` back gives what was written.
pub proof fn lemma_read_claim_reward_locked_args(d: Seq<u8>, p: int, x: ClaimRewardLocked)
    requires
        lies_at(d, p, enc_claim_reward_locked_args(x)),
    ensures
        read_claim_reward_locked_args(d, p) == Some((x, p + enc_claim_reward_locked_args(x).len())),
{
    lemma_enc_lens();
    lemma_lies_at_split(d, p, enc_u8(x._bump), enc_u8(x.nonce));
    lemma_read_u8(d, p, x._bump);
    lemma_read_u8(d, p + (enc_u8(x._bump)).len(), x.nonce);
}

impl ClaimRewardLocked {
    /// The identifier of `claim_reward_locked`.
    pub open spec fn spec_sighash() -> Seq<u8> {
        seq![231u8, 6u8, 114u8, 60u8, 66u8, 89u8, 22u8, 135u8]
    }

    /// The identifier of `claim_reward_locked`.
    pub fn sighash() -> (t: [u8; 8])
        ensures
            t@ == Self::spec_sighash(),
    {
        let t: [u8; 8] = [231u8, 6u8, 114u8, 60u8, 66u8, 89u8, 22u8, 135u8];
        assert(t@ =~= Self::spec_sighash());
        t
    }

    /// The instruction data calling `claim_reward_locked` with these arguments.
    pub open spec fn spec_data(self) -> Seq<u8> {
        Self::spec_sighash() + enc_claim_reward_locked_args(self)
    }

    /// The instruction data calling `claim_reward_locked` with these arguments.
    pub fn data(&self) -> (v: Vec<u8>)
        ensures
            v@ == self.spec_data(),
    {
        let mut v: Vec<u8> = Vec::new();
        put_tag(&mut v, &Self::sighash());
        put_claim_reward_locked_args(&mut v, self);
        v
    }
}

/// The arguments of `expire_reward`: there are none.
#[derive(Clone, Copy, Debug, PartialEq, Eq, Structural)]
pub struct ExpireReward;

/// The layout of the arguments of `expire_reward`: no bytes.
pub open spec fn enc_expire_reward_args(x: ExpireReward) -> Seq<u8> {
    Seq::empty()
}

/// Reads the arguments of `expire_reward` at position `p`: nothing to read.
pub open spec fn read_expire_reward_args(d: Seq<u8>, p: int) -> Option<(ExpireReward, int)> {
    Some((ExpireReward, p))
}

/// Reads the arguments of `expire_reward` at position `p`: nothing to read.
pub fn get_expire_reward_args(d: &[u8], p: usize) -> (r: Option<(ExpireReward, usize)>)
    ensures
        (match r {
            Some((x, q)) => Some((x, q as int)),
            None => None,
        }) == read_expire_reward_args(d@, p as int),
{
    Some((ExpireReward, p))
}

/// Appends the bytes of the arguments of `expire_reward`: none.
pub fn put_expire_reward_args(out: &mut Vec<u8>, x: &ExpireReward)
    ensures
        final(out)@ == old(out)@ + enc_expire_reward_args(*x),
{
    assert(out@ =~= out@ + enc_expire_reward_args(*x));
}

/// Reading the arguments of `expire_reward` back gives what was written.
pub proof fn lemma_read_expire_reward_args(d: Seq<u8>, p: int, x: ExpireReward)
    requires
        lies_at(d, p, enc_expire_reward_args(x)),
    ensures
        read_expire_reward_args(d, p) == Some((x, p + enc_expire_reward_args(x).len())),
{
}

impl ExpireReward {
    /// The identifier of `expire_reward`.
    pub open spec fn spec_sighash() -> Seq<u8> {
        seq![59u8, 250u8, 57u8, 193u8, 205u8, 47u8, 0u8, 122u8]
    }

    /// The identifier of `expire_reward`.
    pub fn sighash() -> (t: [u8; 8])
        ensures
            t@ == Self::spec_sighash(),
    {
        let t: [u8; 8] = [59u8, 250u8, 57u8, 193u8, 205u8, 47u8, 0u8, 122u8];
        assert(t@ =~= Self::spec_sighash());
        t
    }

    /// The instruction data calling `expire_reward` with these arguments.
    pub open spec fn spec_data(self) -> Seq<u8> {
        Self::spec_sighash() + enc_expire_reward_args(self)
    }

    /// The instruction data calling `expire_reward` with these arguments.
    pub fn data(&self) -> (v: Vec<u8>)
        ensures
            v@ == self.spec_data(),
    {
        let mut v: Vec<u8> = Vec::new();
        put_tag(&mut v, &Self::sighash());
        put_expire_reward_args(&mut v, self);
        v
    }
}

/// The method that instruction data names, with its arguments.
#[derive(Clone, Copy, Debug, PartialEq, Eq, Structural)]
pub enum Instruction {
    /// One of the interface description instructions; its own arguments
    /// follow the identifier.
    Idl,
    NewRegistry(NewRegistry),
    SetLockupProgram(SetLockupProgram),
    Initialize(Initialize),
    UpdateRegistrar(UpdateRegistrar),
    CreateMember(CreateMember),
    UpdateMemberBalances(UpdateMemberBalances),
    UpdateMemberBalancesLock(UpdateMemberBalancesLock),
    UpdateMember(UpdateMember),
    Deposit(Deposit),
    DepositLocked(DepositLocked),
    Stake(Stake),
    StartUnstake(StartUnstake),
    EndUnstake(EndUnstake),
    Withdraw(Withdraw),
    WithdrawLocked(WithdrawLocked),
    DropReward(DropReward),
    ClaimReward(ClaimReward),
    ClaimRewardLocked(ClaimRewardLocked),
    ExpireReward(ExpireReward),
}

/// The method that instruction data names, or why none is called: data
/// shorter than an identifier, an identifier of no method, or arguments
/// that do not read. Bytes after the arguments are ignored.
pub open spec fn spec_decode(d: Seq<u8>) -> Result<Instruction, Error> {
    if d.len() < 8 {
        Err(Error::ProgramError(FrameworkError::InstructionMissing))
    } else {
        let tag = d.subrange(0, 8);
        spec_decode_tagged(d, tag)
    }
}

/// The method named by the identifier `tag` at the start of `d`.
pub open spec fn spec_decode_tagged(d: Seq<u8>, tag: Seq<u8>) -> Result<Instruction, Error> {
    if tag == spec_idl_tag() {
        Ok(Instruction::Idl)
    } else if tag == NewRegistry::spec_sighash() {
        match read_new_registry_args(d, 8) {
            None => Err(Error::ProgramError(FrameworkError::InstructionDidNotDeserialize)),
            Some((x, _)) => Ok(Instruction::NewRegistry(x)),
        }
    } else if tag == SetLockupProgram::spec_sighash() {
        match read_set_lockup_program_args(d, 8) {
            None => Err(Error::ProgramError(FrameworkError::InstructionDidNotDeserialize)),
            Some((x, _)) => Ok(Instruction::SetLockupProgram(x)),
        }
    } else if tag == Initialize::spec_sighash() {
        match read_initialize_args(d, 8) {
            None => Err(Error::ProgramError(FrameworkError::InstructionDidNotDeserialize)),
            Some((x, _)) => Ok(Instruction::Initialize(x)),
        }
    } else if tag == UpdateRegistrar::spec_sighash() {
        match read_update_registrar_args(d, 8) {
            None => Err(Error::ProgramError(FrameworkError::InstructionDidNotDeserialize)),
            Some((x, _)) => Ok(Instruction::UpdateRegistrar(x)),
        }
    } else if tag == CreateMember::spec_sighash() {
        match read_create_member_args(d, 8) {
            None => Err(Error::ProgramError(FrameworkError::InstructionDidNotDeserialize)),
            Some((x, _)) => Ok(Instruction::CreateMember(x)),
        }
    } else if tag == UpdateMemberBalances::spec_sighash() {
        match read_update_member_balances_args(d, 8) {
            None => Err(Error::ProgramError(FrameworkError::InstructionDidNotDeserialize)),
            Some((x, _)) => Ok(Instruction::UpdateMemberBalances(x)),
        }
    } else if tag == UpdateMemberBalancesLock::spec_sighash() {
        match read_update_member_balances_lock_args(d, 8) {
            None => Err(Error::ProgramError(FrameworkError::InstructionDidNotDeserialize)),
            Some((x, _)) => Ok(Instruction::UpdateMemberBalancesLock(x)),
        }
    } else if tag == UpdateMember::spec_sighash() {
        match read_update_member_args(d, 8) {
            None => Err(Error::ProgramError(FrameworkError::InstructionDidNotDeserialize)),
            Some((x, _)) => Ok(Instruction::UpdateMember(x)),
        }
    } else if tag == Deposit::spec_sighash() {
        match read_deposit_args(d, 8) {
            None => Err(Error::ProgramError(FrameworkError::InstructionDidNotDeserialize)),
            Some((x, _)) => Ok(Instruction::Deposit(x)),
        }
    } else if tag == DepositLocked::spec_sighash() {
        match read_deposit_locked_args(d, 8) {
            None => Err(Error::ProgramError(FrameworkError::InstructionDidNotDeserialize)),
            Some((x, _)) => Ok(Instruction::DepositLocked(x)),
        }
    } else if tag == Stake::spec_sighash() {
        match read_stake_args(d, 8) {
            None => Err(Error::ProgramError(FrameworkError::InstructionDidNotDeserialize)),
            Some((x, _)) => Ok(Instruction::Stake(x)),
        }
    } else if tag == StartUnstake::spec_sighash() {
        match read_start_unstake_args(d, 8) {
            None => Err(Error::ProgramError(FrameworkError::InstructionDidNotDeserialize)),
            Some((x, _)) => Ok(Instruction::StartUnstake(x)),
        }
    } else if tag == EndUnstake::spec_sighash() {
        match read_end_unstake_args(d, 8) {
            None => Err(Error::ProgramError(FrameworkError::InstructionDidNotDeserialize)),
            Some((x, _)) => Ok(Instruction::EndUnstake(x)),
        }
    } else if tag == Withdraw::spec_sighash() {
        match read_withdraw_args(d, 8) {
            None => Err(Error::ProgramError(FrameworkError::InstructionDidNotDeserialize)),
            Some((x, _)) => Ok(Instruction::Withdraw(x)),
        }
    } else if tag == WithdrawLocked::spec_sighash() {
        match read_withdraw_locked_args(d, 8) {
            None => Err(Error::ProgramError(FrameworkError::InstructionDidNotDeserialize)),
            Some((x, _)) => Ok(Instruction::WithdrawLocked(x)),
        }
    } else if tag == DropReward::spec_sighash() {
        match read_drop_reward_args(d, 8) {
            None => Err(Error::ProgramError(FrameworkError::InstructionDidNotDeserialize)),
            Some((x, _)) => Ok(Instruction::DropReward(x)),
        }
    } else if tag == ClaimReward::spec_sighash() {
        match read_claim_reward_args(d, 8) {
            None => Err(Error::ProgramError(FrameworkError::InstructionDidNotDeserialize)),
            Some((x, _)) => Ok(Instruction::ClaimReward(x)),
        }
    } else if tag == ClaimRewardLocked::spec_sighash() {
        match read_claim_reward_locked_args(d, 8) {
            None => Err(Error::ProgramError(FrameworkError::InstructionDidNotDeserialize)),
            Some((x, _)) => Ok(Instruction::ClaimRewardLocked(x)),
        }
    } else if tag == ExpireReward::spec_sighash() {
        match read_expire_reward_args(d, 8) {
            None => Err(Error::ProgramError(FrameworkError::InstructionDidNotDeserialize)),
            Some((x, _)) => Ok(Instruction::ExpireReward(x)),
        }
    } else {
        Err(Error::ProgramError(FrameworkError::InstructionFallbackNotFound))
    }
}

/// Picks the method that instruction data names and reads its arguments.
pub fn decode(d: &[u8]) -> (r: Result<Instruction, Error>)
    ensures
        r == spec_decode(d@),
{
    if d.len() < 8 {
        return Err(Error::ProgramError(FrameworkError::InstructionMissing));
    }
    if starts_with8(d, &idl_tag()) {
        return Ok(Instruction::Idl);
    }
    if starts_with8(d, &NewRegistry::sighash()) {
        return match get_new_registry_args(d, 8) {
            None => Err(Error::ProgramError(FrameworkError::InstructionDidNotDeserialize)),
            Some((x, _)) => Ok(Instruction::NewRegistry(x)),
        };
    }
    if starts_with8(d, &SetLockupProgram::sighash()) {
        return match get_set_lockup_program_args(d, 8) {
            None => Err(Error::ProgramError(FrameworkError::InstructionDidNotDeserialize)),
            Some((x, _)) => Ok(Instruction::SetLockupProgram(x)),
        };
    }
    if starts_with8(d, &Initialize::sighash()) {
        return match get_initialize_args(d, 8) {
            None => Err(Error::ProgramError(FrameworkError::InstructionDidNotDeserialize)),
            Some((x, _)) => Ok(Instruction::Initialize(x)),
        };
    }
    if starts_with8(d, &UpdateRegistrar::sighash()) {
        return match get_update_registrar_args(d, 8) {
            None => Err(Error::ProgramError(FrameworkError::InstructionDidNotDeserialize)),
            Some((x, _)) => Ok(Instruction::UpdateRegistrar(x)),
        };
    }
    if starts_with8(d, &CreateMember::sighash()) {
        return match get_create_member_args(d, 8) {
            None => Err(Error::ProgramError(FrameworkError::InstructionDidNotDeserialize)),
            Some((x, _)) => Ok(Instruction::CreateMember(x)),
        };
    }
    if starts_with8(d, &UpdateMemberBalances::sighash()) {
        return match get_update_member_balances_args(d, 8) {
            None => Err(Error::ProgramError(FrameworkError::InstructionDidNotDeserialize)),
            Some((x, _)) => Ok(Instruction::UpdateMemberBalances(x)),
        };
    }
    if starts_with8(d, &UpdateMemberBalancesLock::sighash()) {
        return match get_update_member_balances_lock_args(d, 8) {
            None => Err(Error::ProgramError(FrameworkError::InstructionDidNotDeserialize)),
            Some((x, _)) => Ok(Instruction::UpdateMemberBalancesLock(x)),
        };
    }
    if starts_with8(d, &UpdateMember::sighash()) {
        return match get_update_member_args(d, 8) {
            None => Err(Error::ProgramError(FrameworkError::InstructionDidNotDeserialize)),
            Some((x, _)) => Ok(Instruction::UpdateMember(x)),
        };
    }
    if starts_with8(d, &Deposit::sighash()) {
        return match get_deposit_args(d, 8) {
            None => Err(Error::ProgramError(FrameworkError::InstructionDidNotDeserialize)),
            Some((x, _)) => Ok(Instruction::Deposit(x)),
        };
    }
    if starts_with8(d, &DepositLocked::sighash()) {
        return match get_deposit_locked_args(d, 8) {
            None => Err(Error::ProgramError(FrameworkError::InstructionDidNotDeserialize)),
            Some((x, _)) => Ok(Instruction::DepositLocked(x)),
        };
    }
    if starts_with8(d, &Stake::sighash()) {
        return match get_stake_args(d, 8) {
            None => Err(Error::ProgramError(FrameworkError::InstructionDidNotDeserialize)),
            Some((x, _)) => Ok(Instruction::Stake(x)),
        };
    }
    if starts_with8(d, &StartUnstake::sighash()) {
        return match get_start_unstake_args(d, 8) {
            None => Err(Error::ProgramError(FrameworkError::InstructionDidNotDeserialize)),
            Some((x, _)) => Ok(Instruction::StartUnstake(x)),
        };
    }
    if starts_with8(d, &EndUnstake::sighash()) {
        return match get_end_unstake_args(d, 8) {
            None => Err(Error::ProgramError(FrameworkError::InstructionDidNotDeserialize)),
            Some((x, _)) => Ok(Instruction::EndUnstake(x)),
        };
    }
    if starts_with8(d, &Withdraw::sighash()) {
        return match get_withdraw_args(d, 8) {
            None => Err(Error::ProgramError(FrameworkError::InstructionDidNotDeserialize)),
            Some((x, _)) => Ok(Instruction::Withdraw(x)),
        };
    }
    if starts_with8(d, &WithdrawLocked::sighash()) {
        return match get_withdraw_locked_args(d, 8) {
            None => Err(Error::ProgramError(FrameworkError::InstructionDidNotDeserialize)),
            Some((x, _)) => Ok(Instruction::WithdrawLocked(x)),
        };
    }
    if starts_with8(d, &DropReward::sighash()) {
        return match get_drop_reward_args(d, 8) {
            None => Err(Error::ProgramError(FrameworkError::InstructionDidNotDeserialize)),
            Some((x, _)) => Ok(Instruction::DropReward(x)),
        };
    }
    if starts_with8(d, &ClaimReward::sighash()) {
        return match get_claim_reward_args(d, 8) {
            None => Err(Error::ProgramError(FrameworkError::InstructionDidNotDeserialize)),
            Some((x, _)) => Ok(Instruction::ClaimReward(x)),
        };
    }
    if starts_with8(d, &ClaimRewardLocked::sighash()) {
        return match get_claim_reward_locked_args(d, 8) {
            None => Err(Error::ProgramError(FrameworkError::InstructionDidNotDeserialize)),
            Some((x, _)) => Ok(Instruction::ClaimRewardLocked(x)),
        };
    }
    if starts_with8(d, &ExpireReward::sighash()) {
        return match get_expire_reward_args(d, 8) {
            None => Err(Error::ProgramError(FrameworkError::InstructionDidNotDeserialize)),
            Some((x, _)) => Ok(Instruction::ExpireReward(x)),
        };
    }
    Err(Error::ProgramError(FrameworkError::InstructionFallbackNotFound))
}

/// The instruction data of a method call; the interface description
/// instructions carry arguments of their own and have none here.
pub open spec fn spec_instruction_data(ix: Instruction) -> Seq<u8> {
    match ix {
        Instruction::Idl => spec_idl_tag(),
        Instruction::NewRegistry(x) => x.spec_data(),
        Instruction::SetLockupProgram(x) => x.spec_data(),
        Instruction::Initialize(x) => x.spec_data(),
        Instruction::UpdateRegistrar(x) => x.spec_data(),
        Instruction::CreateMember(x) => x.spec_data(),
        Instruction::UpdateMemberBalances(x) => x.spec_data(),
        Instruction::UpdateMemberBalancesLock(x) => x.spec_data(),
        Instruction::UpdateMember(x) => x.spec_data(),
        Instruction::Deposit(x) => x.spec_data(),
        Instruction::DepositLocked(x) => x.spec_data(),
        Instruction::Stake(x) => x.spec_data(),
        Instruction::StartUnstake(x) => x.spec_data(),
        Instruction::EndUnstake(x) => x.spec_data(),
        Instruction::Withdraw(x) => x.spec_data(),
        Instruction::WithdrawLocked(x) => x.spec_data(),
        Instruction::DropReward(x) => x.spec_data(),
        Instruction::ClaimReward(x) => x.spec_data(),
        Instruction::ClaimRewardLocked(x) => x.spec_data(),
        Instruction::ExpireReward(x) => x.spec_data(),
    }
}

proof fn lemma_decode_new_registry(x: NewRegistry, rest: Seq<u8>)
    ensures
        spec_decode(x.spec_data() + rest) == Ok::<Instruction, Error>(Instruction::NewRegistry(x)),
{
    let d = x.spec_data() + rest;
    let e = enc_new_registry_args(x);
    assert(d.subrange(0, 8) =~= NewRegistry::spec_sighash());
    assert(d.subrange(8, (8 + e.len()) as int) =~= e);
    lemma_read_new_registry_args(d, 8, x);
    assert(d.subrange(0, 8)[0] == 237u8);
}

proof fn lemma_decode_set_lockup_program(x: SetLockupProgram, rest: Seq<u8>)
    ensures
        spec_decode(x.spec_data() + rest) == Ok::<Instruction, Error>(Instruction::SetLockupProgram(x)),
{
    let d = x.spec_data() + rest;
    let e = enc_set_lockup_program_args(x);
    assert(d.subrange(0, 8) =~= SetLockupProgram::spec_sighash());
    assert(d.subrange(8, (8 + e.len()) as int) =~= e);
    lemma_read_set_lockup_program_args(d, 8, x);
    assert(d.subrange(0, 8)[0] == 223u8);
}

proof fn lemma_decode_initialize(x: Initialize, rest: Seq<u8>)
    ensures
        spec_decode(x.spec_data() + rest) == Ok::<Instruction, Error>(Instruction::Initialize(x)),
{
    let d = x.spec_data() + rest;
    let e = enc_initialize_args(x);
    assert(d.subrange(0, 8) =~= Initialize::spec_sighash());
    assert(d.subrange(8, (8 + e.len()) as int) =~= e);
    lemma_read_initialize_args(d, 8, x);
    assert(d.subrange(0, 8)[0] == 175u8);
}

proof fn lemma_decode_update_registrar(x: UpdateRegistrar, rest: Seq<u8>)
    ensures
        spec_decode(x.spec_data() + rest) == Ok::<Instruction, Error>(Instruction::UpdateRegistrar(x)),
{
    let d = x.spec_data() + rest;
    let e = enc_update_registrar_args(x);
    assert(d.subrange(0, 8) =~= UpdateRegistrar::spec_sighash());
    assert(d.subrange(8, (8 + e.len()) as int) =~= e);
    lemma_read_update_registrar_args(d, 8, x);
    assert(d.subrange(0, 8)[0] == 116u8);
}

proof fn lemma_decode_create_member(x: CreateMember, rest: Seq<u8>)
    ensures
        spec_decode(x.spec_data() + rest) == Ok::<Instruction, Error>(Instruction::CreateMember(x)),
{
    let d = x.spec_data() + rest;
    let e = enc_create_member_args(x);
    assert(d.subrange(0, 8) =~= CreateMember::spec_sighash());
    assert(d.subrange(8, (8 + e.len()) as int) =~= e);
    lemma_read_create_member_args(d, 8, x);
    assert(d.subrange(0, 8)[0] == 49u8);
}

proof fn lemma_decode_update_member_balances(x: UpdateMemberBalances, rest: Seq<u8>)
    ensures
        spec_decode(x.spec_data() + rest) == Ok::<Instruction, Error>(Instruction::UpdateMemberBalances(x)),
{
    let d = x.spec_data() + rest;
    let e = enc_update_member_balances_args(x);
    assert(d.subrange(0, 8) =~= UpdateMemberBalances::spec_sighash());
    assert(d.subrange(8, (8 + e.len()) as int) =~= e);
    lemma_read_update_member_balances_args(d, 8, x);
    assert(d.subrange(0, 8)[0] == 106u8);
}

proof fn lemma_decode_update_member_balances_lock(x: UpdateMemberBalancesLock, rest: Seq<u8>)
    ensures
        spec_decode(x.spec_data() + rest) == Ok::<Instruction, Error>(Instruction::UpdateMemberBalancesLock(x)),
{
    let d = x.spec_data() + rest;
    let e = enc_update_member_balances_lock_args(x);
    assert(d.subrange(0, 8) =~= UpdateMemberBalancesLock::spec_sighash());
    assert(d.subrange(8, (8 + e.len()) as int) =~= e);
    lemma_read_update_member_balances_lock_args(d, 8, x);
    assert(d.subrange(0, 8)[0] == 255u8);
}

proof fn lemma_decode_update_member(x: UpdateMember, rest: Seq<u8>)
    ensures
        spec_decode(x.spec_data() + rest) == Ok::<Instruction, Error>(Instruction::UpdateMember(x)),
{
    let d = x.spec_data() + rest;
    let e = enc_update_member_args(x);
    assert(d.subrange(0, 8) =~= UpdateMember::spec_sighash());
    assert(d.subrange(8, (8 + e.len()) as int) =~= e);
    lemma_read_update_member_args(d, 8, x);
    assert(d.subrange(0, 8)[0] == 46u8);
}

proof fn lemma_decode_deposit(x: Deposit, rest: Seq<u8>)
    ensures
        spec_decode(x.spec_data() + rest) == Ok::<Instruction, Error>(Instruction::Deposit(x)),
{
    let d = x.spec_data() + rest;
    let e = enc_deposit_args(x);
    assert(d.subrange(0, 8) =~= Deposit::spec_sighash());
    assert(d.subrange(8, (8 + e.len()) as int) =~= e);
    lemma_read_deposit_args(d, 8, x);
    assert(d.subrange(0, 8)[0] == 242u8);
}

proof fn lemma_decode_deposit_locked(x: DepositLocked, rest: Seq<u8>)
    ensures
        spec_decode(x.spec_data() + rest) == Ok::<Instruction, Error>(Instruction::DepositLocked(x)),
{
    let d = x.spec_data() + rest;
    let e = enc_deposit_locked_args(x);
    assert(d.subrange(0, 8) =~= DepositLocked::spec_sighash());
    assert(d.subrange(8, (8 + e.len()) as int) =~= e);
    lemma_read_deposit_locked_args(d, 8, x);
    assert(d.subrange(0, 8)[0] == 88u8);
}

proof fn lemma_decode_stake(x: Stake, rest: Seq<u8>)
    ensures
        spec_decode(x.spec_data() + rest) == Ok::<Instruction, Error>(Instruction::Stake(x)),
{
    let d = x.spec_data() + rest;
    let e = enc_stake_args(x);
    assert(d.subrange(0, 8) =~= Stake::spec_sighash());
    assert(d.subrange(8, (8 + e.len()) as int) =~= e);
    lemma_read_stake_args(d, 8, x);
    assert(d.subrange(0, 8)[0] == 206u8);
}

proof fn lemma_decode_start_unstake(x: StartUnstake, rest: Seq<u8>)
    ensures
        spec_decode(x.spec_data() + rest) == Ok::<Instruction, Error>(Instruction::StartUnstake(x)),
{
    let d = x.spec_data() + rest;
    let e = enc_start_unstake_args(x);
    assert(d.subrange(0, 8) =~= StartUnstake::spec_sighash());
    assert(d.subrange(8, (8 + e.len()) as int) =~= e);
    lemma_read_start_unstake_args(d, 8, x);
    assert(d.subrange(0, 8)[0] == 200u8);
}

proof fn lemma_decode_end_unstake(x: EndUnstake, rest: Seq<u8>)
    ensures
        spec_decode(x.spec_data() + rest) == Ok::<Instruction, Error>(Instruction::EndUnstake(x)),
{
    let d = x.spec_data() + rest;
    let e = enc_end_unstake_args(x);
    assert(d.subrange(0, 8) =~= EndUnstake::spec_sighash());
    assert(d.subrange(8, (8 + e.len()) as int) =~= e);
    lemma_read_end_unstake_args(d, 8, x);
    assert(d.subrange(0, 8)[0] == 44u8);
}

proof fn lemma_decode_withdraw(x: Withdraw, rest: Seq<u8>)
    ensures
        spec_decode(x.spec_data() + rest) == Ok::<Instruction, Error>(Instruction::Withdraw(x)),
{
    let d = x.spec_data() + rest;
    let e = enc_withdraw_args(x);
    assert(d.subrange(0, 8) =~= Withdraw::spec_sighash());
    assert(d.subrange(8, (8 + e.len()) as int) =~= e);
    lemma_read_withdraw_args(d, 8, x);
    assert(d.subrange(0, 8)[0] == 183u8);
}

proof fn lemma_decode_withdraw_locked(x: WithdrawLocked, rest: Seq<u8>)
    ensures
        spec_decode(x.spec_data() + rest) == Ok::<Instruction, Error>(Instruction::WithdrawLocked(x)),
{
    let d = x.spec_data() + rest;
    let e = enc_withdraw_locked_args(x);
    assert(d.subrange(0, 8) =~= WithdrawLocked::spec_sighash());
    assert(d.subrange(8, (8 + e.len()) as int) =~= e);
    lemma_read_withdraw_locked_args(d, 8, x);
    assert(d.subrange(0, 8)[0] == 96u8);
}

proof fn lemma_decode_drop_reward(x: DropReward, rest: Seq<u8>)
    ensures
        spec_decode(x.spec_data() + rest) == Ok::<Instruction, Error>(Instruction::DropReward(x)),
{
    let d = x.spec_data() + rest;
    let e = enc_drop_reward_args(x);
    assert(d.subrange(0, 8) =~= DropReward::spec_sighash());
    assert(d.subrange(8, (8 + e.len()) as int) =~= e);
    lemma_read_drop_reward_args(d, 8, x);
    assert(d.subrange(0, 8)[0] == 170u8);
}

proof fn lemma_decode_claim_reward(x: ClaimReward, rest: Seq<u8>)
    ensures
        spec_decode(x.spec_data() + rest) == Ok::<Instruction, Error>(Instruction::ClaimReward(x)),
{
    let d = x.spec_data() + rest;
    let e = enc_claim_reward_args(x);
    assert(d.subrange(0, 8) =~= ClaimReward::spec_sighash());
    assert(d.subrange(8, (8 + e.len()) as int) =~= e);
    lemma_read_claim_reward_args(d, 8, x);
    assert(d.subrange(0, 8)[0] == 149u8);
}

proof fn lemma_decode_claim_reward_locked(x: ClaimRewardLocked, rest: Seq<u8>)
    ensures
        spec_decode(x.spec_data() + rest) == Ok::<Instruction, Error>(Instruction::ClaimRewardLocked(x)),
{
    let d = x.spec_data() + rest;
    let e = enc_claim_reward_locked_args(x);
    assert(d.subrange(0, 8) =~= ClaimRewardLocked::spec_sighash());
    assert(d.subrange(8, (8 + e.len()) as int) =~= e);
    lemma_read_claim_reward_locked_args(d, 8, x);
    assert(d.subrange(0, 8)[0] == 231u8);
}

proof fn lemma_decode_expire_reward(x: ExpireReward, rest: Seq<u8>)
    ensures
        spec_decode(x.spec_data() + rest) == Ok::<Instruction, Error>(Instruction::ExpireReward(x)),
{
    let d = x.spec_data() + rest;
    let e = enc_expire_reward_args(x);
    assert(d.subrange(0, 8) =~= ExpireReward::spec_sighash());
    assert(d.subrange(8, (8 + e.len()) as int) =~= e);
    lemma_read_expire_reward_args(d, 8, x);
    assert(d.subrange(0, 8)[0] == 59u8);
}

/// Instruction data written for a method call reads back as that call,
/// whatever follows it.
pub proof fn lemma_decode_data(ix: Instruction, rest: Seq<u8>)
    requires
        !(ix is Idl),
    ensures
        spec_decode(spec_instruction_data(ix) + rest) == Ok::<Instruction, Error>(ix),
{
    match ix {
        Instruction::Idl => {},
        Instruction::NewRegistry(x) => lemma_decode_new_registry(x, rest),
        Instruction::SetLockupProgram(x) => lemma_decode_set_lockup_program(x, rest),
        Instruction::Initialize(x) => lemma_decode_initialize(x, rest),
        Instruction::UpdateRegistrar(x) => lemma_decode_update_registrar(x, rest),
        Instruction::CreateMember(x) => lemma_decode_create_member(x, rest),
        Instruction::UpdateMemberBalances(x) => lemma_decode_update_member_balances(x, rest),
        Instruction::UpdateMemberBalancesLock(x) => lemma_decode_update_member_balances_lock(x, rest),
        Instruction::UpdateMember(x) => lemma_decode_update_member(x, rest),
        Instruction::Deposit(x) => lemma_decode_deposit(x, rest),
        Instruction::DepositLocked(x) => lemma_decode_deposit_locked(x, rest),
        Instruction::Stake(x) => lemma_decode_stake(x, rest),
        Instruction::StartUnstake(x) => lemma_decode_start_unstake(x, rest),
        Instruction::EndUnstake(x) => lemma_decode_end_unstake(x, rest),
        Instruction::Withdraw(x) => lemma_decode_withdraw(x, rest),
        Instruction::WithdrawLocked(x) => lemma_decode_withdraw_locked(x, rest),
        Instruction::DropReward(x) => lemma_decode_drop_reward(x, rest),
        Instruction::ClaimReward(x) => lemma_decode_claim_reward(x, rest),
        Instruction::ClaimRewardLocked(x) => lemma_decode_claim_reward_locked(x, rest),
        Instruction::ExpireReward(x) => lemma_decode_expire_reward(x, rest),
    }
}

/// The identifier of the lockup program's `create_vesting`.
pub open spec fn spec_create_vesting_sighash() -> Seq<u8> {
    seq![135u8, 184u8, 171u8, 156u8, 197u8, 162u8, 246u8, 44u8]
}

/// The instruction data of the lockup program's `create_vesting`: its
/// identifier, then the beneficiary, deposit amount, nonce, start, end,
/// period count and realizor.
pub open spec fn spec_create_vesting_data(
    beneficiary: Pubkey,
    deposit_amount: u64,
    nonce: u8,
    start_ts: i64,
    end_ts: i64,
    period_count: u64,
    realizor: Option<Realizor>,
) -> Seq<u8> {
    spec_create_vesting_sighash() + enc_pubkey(beneficiary) + enc_u64(deposit_amount) + enc_u8(nonce)
        + enc_i64(start_ts) + enc_i64(end_ts) + enc_u64(period_count) + enc_opt_realizor(realizor)
}

/// The instruction data that asks the lockup program to create a vesting
/// account, as `claim_reward_locked` calls it.
pub fn create_vesting_data(
    beneficiary: &Pubkey,
    deposit_amount: u64,
    nonce: u8,
    start_ts: i64,
    end_ts: i64,
    period_count: u64,
    realizor: &Option<Realizor>,
) -> (v: Vec<u8>)
    ensures
        v@ == spec_create_vesting_data(*beneficiary, deposit_amount, nonce, start_ts, end_ts, period_count, *realizor),
{
    let mut v: Vec<u8> = Vec::new();
    let tag: [u8; 8] = [135u8, 184u8, 171u8, 156u8, 197u8, 162u8, 246u8, 44u8];
    assert(tag@ =~= spec_create_vesting_sighash());
    put_tag(&mut v, &tag);
    put_pubkey(&mut v, beneficiary);
    put_u64(&mut v, deposit_amount);
    put_u8(&mut v, nonce);
    put_i64(&mut v, start_ts);
    put_i64(&mut v, end_ts);
    put_u64(&mut v, period_count);
    put_opt_realizor(&mut v, realizor);
    v
}

/// Where the arguments of `new_registry` sit in its instruction data: after the
/// eight-byte method identifier, each argument in declaration order, addresses as their 32 bytes, integers little endian, `bool` as one byte 0 or 1.
pub proof fn lemma_new_registry_args_layout(x: NewRegistry)
    ensures
        ({
            let d = x.spec_data();
            &&& d.len() == 9
            &&& d.subrange(8, 9) == seq![x._bump]
        }),
{
    let d = x.spec_data();
    let e = enc_new_registry_args(x);
    lemma_enc_lens();
    assert(d.subrange(8, 8 + e.len() as int) =~= e);
}

/// Where the arguments of `set_lockup_program` sit in its instruction data: after the
/// eight-byte method identifier, each argument in declaration order, addresses as their 32 bytes, integers little endian, `bool` as one byte 0 or 1.
pub proof fn lemma_set_lockup_program_args_layout(x: SetLockupProgram)
    ensures
        ({
            let d = x.spec_data();
            &&& d.len() == 40
            &&& d.subrange(8, 40) == x.lockup_program.bytes()
        }),
{
    let d = x.spec_data();
    let e = enc_set_lockup_program_args(x);
    lemma_enc_lens();
    assert(d.subrange(8, 8 + e.len() as int) =~= e);
}

/// Where the arguments of `initialize` sit in its instruction data: after the
/// eight-byte method identifier, each argument in declaration order, addresses as their 32 bytes, integers little endian, `bool` as one byte 0 or 1.
pub proof fn lemma_initialize_args_layout(x: Initialize)
    ensures
        ({
            let d = x.spec_data();
            &&& d.len() == 93
            &&& d.subrange(8, 40) == x.mint.bytes()
            &&& d.subrange(40, 72) == x.authority.bytes()
            &&& d.subrange(72, 73) == seq![x.nonce]
            &&& d.subrange(73, 81) == vstd::bytes::spec_u64_to_le_bytes(x.withdrawal_timelock as u64)
            &&& d.subrange(81, 89) == vstd::bytes::spec_u64_to_le_bytes(x.stake_rate)
            &&& d.subrange(89, 93) == vstd::bytes::spec_u32_to_le_bytes(x.reward_q_len)
        }),
{
    let d = x.spec_data();
    let e = enc_initialize_args(x);
    lemma_enc_lens();
    assert(d.subrange(8, 8 + e.len() as int) =~= e);
    lemma_lies_at_split(d, 8, enc_pubkey(x.mint) + enc_pubkey(x.authority) + enc_u8(x.nonce) + enc_i64(x.withdrawal_timelock) + enc_u64(x.stake_rate), enc_u32(x.reward_q_len));
    lemma_lies_at_split(d, 8, enc_pubkey(x.mint) + enc_pubkey(x.authority) + enc_u8(x.nonce) + enc_i64(x.withdrawal_timelock), enc_u64(x.stake_rate));
    lemma_lies_at_split(d, 8, enc_pubkey(x.mint) + enc_pubkey(x.authority) + enc_u8(x.nonce), enc_i64(x.withdrawal_timelock));
    lemma_lies_at_split(d, 8, enc_pubkey(x.mint) + enc_pubkey(x.authority), enc_u8(x.nonce));
    lemma_lies_at_split(d, 8, enc_pubkey(x.mint), enc_pubkey(x.authority));
}

/// Where the arguments of `update_registrar` sit in its instruction data: after the
/// eight-byte method identifier, each argument in declaration order, addresses as their 32 bytes, integers little endian, `bool` as one byte 0 or 1.
pub proof fn lemma_update_registrar_args_layout(x: UpdateRegistrar)
    ensures
        ({
            let d = x.spec_data();
            &&& d.len() == (8 + enc_opt_pubkey(x.new_authority).len() + enc_opt_i64(x.withdrawal_timelock).len()) as int
            &&& d.subrange(8, (8 + enc_opt_pubkey(x.new_authority).len()) as int) == enc_opt_pubkey(x.new_authority)
            &&& d.subrange((8 + enc_opt_pubkey(x.new_authority).len()) as int, (8 + enc_opt_pubkey(x.new_authority).len() + enc_opt_i64(x.withdrawal_timelock).len()) as int) == enc_opt_i64(x.withdrawal_timelock)
        }),
{
    let d = x.spec_data();
    let e = enc_update_registrar_args(x);
    lemma_enc_lens();
    assert(d.subrange(8, 8 + e.len() as int) =~= e);
    lemma_lies_at_split(d, 8, enc_opt_pubkey(x.new_authority), enc_opt_i64(x.withdrawal_timelock));
}

/// Where the arguments of `create_member` sit in its instruction data: after the
/// eight-byte method identifier, each argument in declaration order, addresses as their 32 bytes, integers little endian, `bool` as one byte 0 or 1.
pub proof fn lemma_create_member_args_layout(x: CreateMember)
    ensures
        ({
            let d = x.spec_data();
            &&& d.len() == 9
            &&& d.subrange(8, 9) == seq![x.nonce]
        }),
{
    let d = x.spec_data();
    let e = enc_create_member_args(x);
    lemma_enc_lens();
    assert(d.subrange(8, 8 + e.len() as int) =~= e);
}

/// Where the arguments of `update_member_balances` sit in its instruction data: after the
/// eight-byte method identifier, each argument in declaration order, addresses as their 32 bytes, integers little endian, `bool` as one byte 0 or 1.
pub proof fn lemma_update_member_balances_args_layout(x: UpdateMemberBalances)
    ensures
        ({
            let d = x.spec_data();
            &&& d.len() == 9
            &&& d.subrange(8, 9) == seq![x.nonce]
        }),
{
    let d = x.spec_data();
    let e = enc_update_member_balances_args(x);
    lemma_enc_lens();
    assert(d.subrange(8, 8 + e.len() as int) =~= e);
}

/// Where the arguments of `update_member_balances_lock` sit in its instruction data: after the
/// eight-byte method identifier, each argument in declaration order, addresses as their 32 bytes, integers little endian, `bool` as one byte 0 or 1.
pub proof fn lemma_update_member_balances_lock_args_layout(x: UpdateMemberBalancesLock)
    ensures
        ({
            let d = x.spec_data();
            &&& d.len() == 9
            &&& d.subrange(8, 9) == seq![x.nonce]
        }),
{
    let d = x.spec_data();
    let e = enc_update_member_balances_lock_args(x);
    lemma_enc_lens();
    assert(d.subrange(8, 8 + e.len() as int) =~= e);
}

/// Where the arguments of `update_member` sit in its instruction data: after the
/// eight-byte method identifier, each argument in declaration order, addresses as their 32 bytes, integers little endian, `bool` as one byte 0 or 1.
pub proof fn lemma_update_member_args_layout(x: UpdateMember)
    ensures
        ({
            let d = x.spec_data();
            &&& d.len() == (8 + enc_opt_pubkey(x.metadata).len()) as int
            &&& d.subrange(8, (8 + enc_opt_pubkey(x.metadata).len()) as int) == enc_opt_pubkey(x.metadata)
        }),
{
    let d = x.spec_data();
    let e = enc_update_member_args(x);
    lemma_enc_lens();
    assert(d.subrange(8, 8 + e.len() as int) =~= e);
}

/// Where the arguments of `deposit` sit in its instruction data: after the
/// eight-byte method identifier, each argument in declaration order, addresses as their 32 bytes, integers little endian, `bool` as one byte 0 or 1.
pub proof fn lemma_deposit_args_layout(x: Deposit)
    ensures
        ({
            let d = x.spec_data();
            &&& d.len() == 16
            &&& d.subrange(8, 16) == vstd::bytes::spec_u64_to_le_bytes(x.amount)
        }),
{
    let d = x.spec_data();
    let e = enc_deposit_args(x);
    lemma_enc_lens();
    assert(d.subrange(8, 8 + e.len() as int) =~= e);
}

/// Where the arguments of `deposit_locked` sit in its instruction data: after the
/// eight-byte method identifier, each argument in declaration order, addresses as their 32 bytes, integers little endian, `bool` as one byte 0 or 1.
pub proof fn lemma_deposit_locked_args_layout(x: DepositLocked)
    ensures
        ({
            let d = x.spec_data();
            &&& d.len() == 16
            &&& d.subrange(8, 16) == vstd::bytes::spec_u64_to_le_bytes(x.amount)
        }),
{
    let d = x.spec_data();
    let e = enc_deposit_locked_args(x);
    lemma_enc_lens();
    assert(d.subrange(8, 8 + e.len() as int) =~= e);
}

/// Where the arguments of `stake` sit in its instruction data: after the
/// eight-byte method identifier, each argument in declaration order, addresses as their 32 bytes, integers little endian, `bool` as one byte 0 or 1.
pub proof fn lemma_stake_args_layout(x: Stake)
    ensures
        ({
            let d = x.spec_data();
            &&& d.len() == 16
            &&& d.subrange(8, 16) == vstd::bytes::spec_u64_to_le_bytes(x.spt_amount)
        }),
{
    let d = x.spec_data();
    let e = enc_stake_args(x);
    lemma_enc_lens();
    assert(d.subrange(8, 8 + e.len() as int) =~= e);
}

/// Where the arguments of `start_unstake` sit in its instruction data: after the
/// eight-byte method identifier, each argument in declaration order, addresses as their 32 bytes, integers little endian, `bool` as one byte 0 or 1.
pub proof fn lemma_start_unstake_args_layout(x: StartUnstake)
    ensures
        ({
            let d = x.spec_data();
            &&& d.len() == 17
            &&& d.subrange(8, 16) == vstd::bytes::spec_u64_to_le_bytes(x.spt_amount)
            &&& d.subrange(16, 17) == seq![if x.locked { 1u8 } else { 0u8 }]
        }),
{
    let d = x.spec_data();
    let e = enc_start_unstake_args(x);
    lemma_enc_lens();
    assert(d.subrange(8, 8 + e.len() as int) =~= e);
    lemma_lies_at_split(d, 8, enc_u64(x.spt_amount), enc_bool(x.locked));
}

/// Where the arguments of `withdraw` sit in its instruction data: after the
/// eight-byte method identifier, each argument in declaration order, addresses as their 32 bytes, integers little endian, `bool` as one byte 0 or 1.
pub proof fn lemma_withdraw_args_layout(x: Withdraw)
    ensures
        ({
            let d = x.spec_data();
            &&& d.len() == 16
            &&& d.subrange(8, 16) == vstd::bytes::spec_u64_to_le_bytes(x.amount)
        }),
{
    let d = x.spec_data();
    let e = enc_withdraw_args(x);
    lemma_enc_lens();
    assert(d.subrange(8, 8 + e.len() as int) =~= e);
}

/// Where the arguments of `withdraw_locked` sit in its instruction data: after the
/// eight-byte method identifier, each argument in declaration order, addresses as their 32 bytes, integers little endian, `bool` as one byte 0 or 1.
pub proof fn lemma_withdraw_locked_args_layout(x: WithdrawLocked)
    ensures
        ({
            let d = x.spec_data();
            &&& d.len() == 16
            &&& d.subrange(8, 16) == vstd::bytes::spec_u64_to_le_bytes(x.amount)
        }),
{
    let d = x.spec_data();
    let e = enc_withdraw_locked_args(x);
    lemma_enc_lens();
    assert(d.subrange(8, 8 + e.len() as int) =~= e);
}

/// Where the arguments of `drop_reward` sit in its instruction data: after the
/// eight-byte method identifier, each argument in declaration order, addresses as their 32 bytes, integers little endian, `bool` as one byte 0 or 1.
pub proof fn lemma_drop_reward_args_layout(x: DropReward)
    ensures
        ({
            let d = x.spec_data();
            &&& d.len() == (57 + enc_kind(x.kind).len()) as int
            &&& d.subrange(8, (8 + enc_kind(x.kind).len()) as int) == enc_kind(x.kind)
            &&& d.subrange((8 + enc_kind(x.kind).len()) as int, (16 + enc_kind(x.kind).len()) as int) == vstd::bytes::spec_u64_to_le_bytes(x.total)
            &&& d.subrange((16 + enc_kind(x.kind).len()) as int, (24 + enc_kind(x.kind).len()) as int) == vstd::bytes::spec_u64_to_le_bytes(x.expiry_ts as u64)
            &&& d.subrange((24 + enc_kind(x.kind).len()) as int, (56 + enc_kind(x.kind).len()) as int) == x.expiry_receiver.bytes()
            &&& d.subrange((56 + enc_kind(x.kind).len()) as int, (57 + enc_kind(x.kind).len()) as int) == seq![x.nonce]
        }),
{
    let d = x.spec_data();
    let e = enc_drop_reward_args(x);
    lemma_enc_lens();
    assert(d.subrange(8, 8 + e.len() as int) =~= e);
    lemma_lies_at_split(d, 8, enc_kind(x.kind) + enc_u64(x.total) + enc_i64(x.expiry_ts) + enc_pubkey(x.expiry_receiver), enc_u8(x.nonce));
    lemma_lies_at_split(d, 8, enc_kind(x.kind) + enc_u64(x.total) + enc_i64(x.expiry_ts), enc_pubkey(x.expiry_receiver));
    lemma_lies_at_split(d, 8, enc_kind(x.kind) + enc_u64(x.total), enc_i64(x.expiry_ts));
    lemma_lies_at_split(d, 8, enc_kind(x.kind), enc_u64(x.total));
}

/// Where the arguments of `claim_reward_locked` sit in its instruction data: after the
/// eight-byte method identifier, each argument in declaration order, addresses as their 32 bytes, integers little endian, `bool` as one byte 0 or 1.
pub proof fn lemma_claim_reward_locked_args_layout(x: ClaimRewardLocked)
    ensures
        ({
            let d = x.spec_data();
            &&& d.len() == 10
            &&& d.subrange(8, 9) == seq![x._bump]
            &&& d.subrange(9, 10) == seq![x.nonce]
        }),
{
    let d = x.spec_data();
    let e = enc_claim_reward_locked_args(x);
    lemma_enc_lens();
    assert(d.subrange(8, 8 + e.len() as int) =~= e);
    lemma_lies_at_split(d, 8, enc_u8(x._bump), enc_u8(x.nonce));
}

} // verus!

//! Reading the token program's accounts and mints from their data.
use vstd::prelude::*;
use vstd::bytes::spec_u64_from_le_bytes;
use crate::pubkey::Pubkey;
use crate::state::{Mint, TokenAccount};

verus! {

/// The four tag bytes of an optional field at `p`: `0,0,0,0` for none,
/// `1,0,0,0` for some.
pub open spec fn spec_option_tag_ok(d: Seq<u8>, p: int) -> bool {
    d.subrange(p, p + 4) == seq![0u8, 0u8, 0u8, 0u8] || d.subrange(p, p + 4) == seq![1u8, 0u8, 0u8, 0u8]
}

/// Whether token account data reads: 165 bytes, well-formed optional
/// delegate, native amount and close authority, and a state byte of an
/// initialized (1) or frozen (2) account.
pub open spec fn spec_token_account_ok(d: Seq<u8>) -> bool {
    &&& d.len() == 165
    &&& spec_option_tag_ok(d, 72)
    &&& 1 <= d[108] <= 2
    &&& spec_option_tag_ok(d, 109)
    &&& spec_option_tag_ok(d, 129)
}

/// The token account that data holds, as far as the registry reads it: the
/// mint in bytes 0..32, the owner in bytes 32..64, the amount in bytes 64..72.
pub open spec fn spec_unpack_token_account(d: Seq<u8>) -> Option<TokenAccount> {
    if spec_token_account_ok(d) {
        Some(TokenAccount {
            mint: Pubkey::spec_from_bytes(d.subrange(0, 32)),
            owner: Pubkey::spec_from_bytes(d.subrange(32, 64)),
            amount: spec_u64_from_le_bytes(d.subrange(64, 72)),
        })
    } else {
        None
    }
}

/// Whether mint data reads: 82 bytes, well-formed optional mint and freeze
/// authorities, and an initialized flag of 1.
pub open spec fn spec_mint_ok(d: Seq<u8>) -> bool {
    &&& d.len() == 82
    &&& spec_option_tag_ok(d, 0)
    &&& d[45] == 1
    &&& spec_option_tag_ok(d, 46)
}

/// The mint that data holds, as far as the registry reads it: the mint
/// authority in bytes 0..36, the supply in bytes 36..44, the decimals in
/// byte 44.
pub open spec fn spec_unpack_mint(d: Seq<u8>) -> Option<Mint> {
    if spec_mint_ok(d) {
        Some(Mint {
            mint_authority: if d[0] == 1 {
                Some(Pubkey::spec_from_bytes(d.subrange(4, 36)))
            } else {
                None
            },
            supply: spec_u64_from_le_bytes(d.subrange(36, 44)),
            decimals: d[44],
        })
    } else {
        None
    }
}

/// Calls `Pack::unpack` of spl-token's `Account` (spl-token 7.0, state.rs).
/// Trusted: it succeeds exactly on 165 bytes whose optional fields carry a
/// tag of `0,0,0,0` or `1,0,0,0` and whose state byte is 1 or 2, and then
/// its mint, owner and amount are bytes 0..32, 32..64 and, little endian,
/// 64..72.
#[verifier::external_body]
fn unpack_token_account_raw(d: &[u8]) -> (r: Option<([u8; 32], [u8; 32], u64)>)
    ensures
        r is Some <==> spec_token_account_ok(d@),
        r matches Some((mint, owner, amount)) ==> {
            &&& mint@ == d@.subrange(0, 32)
            &&& owner@ == d@.subrange(32, 64)
            &&& amount == spec_u64_from_le_bytes(d@.subrange(64, 72))
        },
{
    match <anchor_spl::token::spl_token::state::Account as solana_program::program_pack::Pack>::unpack(d) {
        Ok(a) => Some((a.mint.to_bytes(), a.owner.to_bytes(), a.amount)),
        Err(_) => None,
    }
}

/// Calls `Pack::unpack` of spl-token's `Mint` (spl-token 7.0, state.rs).
/// Trusted: it succeeds exactly on 82 bytes whose two optional authorities
/// carry a tag of `0,0,0,0` or `1,0,0,0` and whose initialized byte is 1, and
/// then the mint authority is bytes 4..36 when its tag is `1,0,0,0`, the
/// supply is bytes 36..44 little endian and the decimals byte 44.
#[verifier::external_body]
fn unpack_mint_raw(d: &[u8]) -> (r: Option<(Option<[u8; 32]>, u64, u8)>)
    ensures
        r is Some <==> spec_mint_ok(d@),
        r matches Some((authority, supply, decimals)) ==> {
            &&& (authority is Some <==> d@[0] == 1)
            &&& (authority matches Some(a) ==> a@ == d@.subrange(4, 36))
            &&& supply == spec_u64_from_le_bytes(d@.subrange(36, 44))
            &&& decimals == d@[44]
        },
{
    match <anchor_spl::token::spl_token::state::Mint as solana_program::program_pack::Pack>::unpack(d) {
        Ok(m) => {
            let authority = match m.mint_authority {
                solana_program::program_option::COption::Some(k) => Some(k.to_bytes()),
                solana_program::program_option::COption::None => None,
            };
            Some((authority, m.supply, m.decimals))
        },
        Err(_) => None,
    }
}

/// The token account that data holds, or `None` where the data is not an
/// initialized token account.
pub fn token_account_from_data(d: &[u8]) -> (r: Option<TokenAccount>)
    ensures
        r == spec_unpack_token_account(d@),
{
    match unpack_token_account_raw(d) {
        None => None,
        Some((mint, owner, amount)) => {
            let m = Pubkey::new_from_array(mint);
            let o = Pubkey::new_from_array(owner);
            proof {
                m.lemma_from_bytes(m.bytes());
                o.lemma_from_bytes(o.bytes());
            }
            Some(TokenAccount { mint: m, owner: o, amount })
        },
    }
}

/// The mint that data holds, or `None` where the data is not an initialized
/// mint.
pub fn mint_from_data(d: &[u8]) -> (r: Option<Mint>)
    ensures
        r == spec_unpack_mint(d@),
{
    match unpack_mint_raw(d) {
        None => None,
        Some((authority, supply, decimals)) => {
            let mint_authority = match authority {
                Some(a) => {
                    let k = Pubkey::new_from_array(a);
                    proof { k.lemma_from_bytes(k.bytes()); }
                    Some(k)
                },
                None => None,
            };
            Some(Mint { mint_authority, supply, decimals })
        },
    }
}

} // verus!

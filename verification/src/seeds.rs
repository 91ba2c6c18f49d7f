//! The seeds of the program derived addresses that sign for the registry.
use vstd::prelude::*;
use crate::error::{Error, FrameworkError};
use crate::pubkey::{Pubkey, spec_create_program_address, create_program_address};

verus! {

/// The bytes of the word "registry".
pub open spec fn spec_registry_word() -> Seq<u8> {
    seq![114u8, 101u8, 103u8, 105u8, 115u8, 116u8, 114u8, 121u8]
}

/// The bytes of the word "the-state".
pub open spec fn spec_state_word() -> Seq<u8> {
    seq![116u8, 104u8, 101u8, 45u8, 115u8, 116u8, 97u8, 116u8, 101u8]
}

/// Seeds of the signer of a member's vaults, and of a vendor's vault:
/// the registrar, the owning account and the nonce.
pub open spec fn spec_owned_seeds(registrar: Pubkey, owner: Pubkey, nonce: u8) -> Seq<Seq<u8>> {
    seq![registrar.bytes(), owner.bytes(), seq![nonce]]
}

/// Seeds of the member signer as the locked-deposit accounts check it: the
/// nonce is given twice.
pub open spec fn spec_owned_seeds_twice(registrar: Pubkey, owner: Pubkey, nonce: u8) -> Seq<Seq<u8>> {
    seq![registrar.bytes(), owner.bytes(), seq![nonce], seq![nonce]]
}

/// Seeds of the signer of a registrar's pool mint.
pub open spec fn spec_registrar_seeds(registrar: Pubkey, nonce: u8) -> Seq<Seq<u8>> {
    seq![registrar.bytes(), seq![nonce]]
}

/// Seeds of the registry singleton with the given bump.
pub open spec fn spec_registry_seeds(bump: u8) -> Seq<Seq<u8>> {
    seq![spec_registry_word(), seq![bump]]
}

/// Seeds of the registry singleton without a bump.
pub open spec fn spec_registry_base_seeds() -> Seq<Seq<u8>> {
    seq![spec_registry_word()]
}

/// Seeds of the registry singleton as the locked-deposit accounts check it.
pub open spec fn spec_state_seeds() -> Seq<Seq<u8>> {
    seq![spec_state_word(), seq![0u8]]
}

/// The outcome of checking that `key` is the address derived from `seeds`.
pub open spec fn spec_check_seeds(seeds: Seq<Seq<u8>>, program_id: Pubkey, key: Pubkey) -> Result<(), Error> {
    match spec_create_program_address(seeds, program_id.bytes()) {
        Some(k) => if k == key.bytes() {
            Ok(())
        } else {
            Err(Error::ProgramError(FrameworkError::ConstraintSeeds))
        },
        None => Err(Error::ProgramError(FrameworkError::ConstraintSeeds)),
    }
}

fn byte_vec(b: u8) -> (v: Vec<u8>)
    ensures
        v@ == seq![b],
{
    let mut v = Vec::new();
    v.push(b);
    v
}

fn word_vec(w: &[u8]) -> (v: Vec<u8>)
    ensures
        v@ == w@,
{
    vstd::slice::slice_to_vec(w)
}

/// Seeds of the signer of a member's vaults, or of a vendor's vault.
pub fn owned_seeds(registrar: &Pubkey, owner: &Pubkey, nonce: u8) -> (s: Vec<Vec<u8>>)
    ensures
        s.deep_view() == spec_owned_seeds(*registrar, *owner, nonce),
{
    let mut s: Vec<Vec<u8>> = Vec::new();
    s.push(registrar.to_bytes());
    s.push(owner.to_bytes());
    s.push(byte_vec(nonce));
    assert(s.deep_view() =~= spec_owned_seeds(*registrar, *owner, nonce)) by {
        assert(s.deep_view()[0] =~= registrar.bytes());
        assert(s.deep_view()[1] =~= owner.bytes());
        assert(s.deep_view()[2] =~= seq![nonce]);
    }
    s
}

/// Seeds of the member signer with the nonce given twice.
pub fn owned_seeds_twice(registrar: &Pubkey, owner: &Pubkey, nonce: u8) -> (s: Vec<Vec<u8>>)
    ensures
        s.deep_view() == spec_owned_seeds_twice(*registrar, *owner, nonce),
{
    let mut s: Vec<Vec<u8>> = Vec::new();
    s.push(registrar.to_bytes());
    s.push(owner.to_bytes());
    s.push(byte_vec(nonce));
    s.push(byte_vec(nonce));
    assert(s.deep_view() =~= spec_owned_seeds_twice(*registrar, *owner, nonce)) by {
        assert(s.deep_view()[0] =~= registrar.bytes());
        assert(s.deep_view()[1] =~= owner.bytes());
        assert(s.deep_view()[2] =~= seq![nonce]);
        assert(s.deep_view()[3] =~= seq![nonce]);
    }
    s
}

/// Seeds of the signer of a registrar's pool mint.
pub fn registrar_seeds(registrar: &Pubkey, nonce: u8) -> (s: Vec<Vec<u8>>)
    ensures
        s.deep_view() == spec_registrar_seeds(*registrar, nonce),
{
    let mut s: Vec<Vec<u8>> = Vec::new();
    s.push(registrar.to_bytes());
    s.push(byte_vec(nonce));
    assert(s.deep_view() =~= spec_registrar_seeds(*registrar, nonce)) by {
        assert(s.deep_view()[0] =~= registrar.bytes());
        assert(s.deep_view()[1] =~= seq![nonce]);
    }
    s
}

/// Seeds of the registry singleton with the given bump.
pub fn registry_seeds(bump: u8) -> (s: Vec<Vec<u8>>)
    ensures
        s.deep_view() == spec_registry_seeds(bump),
{
    let word: [u8; 8] = [114u8, 101u8, 103u8, 105u8, 115u8, 116u8, 114u8, 121u8];
    let mut s: Vec<Vec<u8>> = Vec::new();
    s.push(word_vec(&word));
    s.push(byte_vec(bump));
    assert(s.deep_view() =~= spec_registry_seeds(bump)) by {
        assert(s.deep_view()[0] =~= spec_registry_word());
        assert(s.deep_view()[1] =~= seq![bump]);
    }
    s
}

/// Seeds of the registry singleton without a bump.
pub fn registry_base_seeds() -> (s: Vec<Vec<u8>>)
    ensures
        s.deep_view() == spec_registry_base_seeds(),
{
    let word: [u8; 8] = [114u8, 101u8, 103u8, 105u8, 115u8, 116u8, 114u8, 121u8];
    let mut s: Vec<Vec<u8>> = Vec::new();
    s.push(word_vec(&word));
    assert(s.deep_view() =~= spec_registry_base_seeds()) by {
        assert(s.deep_view()[0] =~= spec_registry_word());
    }
    s
}

/// Seeds of the registry singleton as the locked-deposit accounts check it.
pub fn state_seeds() -> (s: Vec<Vec<u8>>)
    ensures
        s.deep_view() == spec_state_seeds(),
{
    let word: [u8; 9] = [116u8, 104u8, 101u8, 45u8, 115u8, 116u8, 97u8, 116u8, 101u8];
    let mut s: Vec<Vec<u8>> = Vec::new();
    s.push(word_vec(&word));
    s.push(byte_vec(0u8));
    assert(s.deep_view() =~= spec_state_seeds()) by {
        assert(s.deep_view()[0] =~= spec_state_word());
        assert(s.deep_view()[1] =~= seq![0u8]);
    }
    s
}

/// Checks that `key` is the address derived from `seeds`.
pub fn check_seeds(seeds: &Vec<Vec<u8>>, program_id: &Pubkey, key: &Pubkey) -> (r: Result<(), Error>)
    ensures
        r == spec_check_seeds(seeds.deep_view(), *program_id, *key),
{
    match create_program_address(seeds, program_id) {
        Some(k) => {
            proof {
                k.lemma_bytes_injective(*key);
            }
            if k.equals(key) {
                Ok(())
            } else {
                Err(Error::ProgramError(FrameworkError::ConstraintSeeds))
            }
        },
        None => Err(Error::ProgramError(FrameworkError::ConstraintSeeds)),
    }
}

} // verus!

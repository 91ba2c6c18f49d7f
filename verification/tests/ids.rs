use registry::accounts::registry_address;
use registry::handlers::program_authority;
use registry::pubkey::{create_program_address, find_program_address, parse_pubkey, Pubkey};
use registry::seeds::{check_seeds, owned_seeds, registrar_seeds, registry_base_seeds, registry_seeds};
use registry::error::{Error, FrameworkError};

fn arr(b: [u8; 32]) -> Pubkey {
    Pubkey::new_from_array(b)
}

#[test]
fn program_id_matches_declared_bytes() {
    let expected = arr([
        62, 204, 136, 136, 88, 35, 66, 206, 202, 255, 142, 172, 142, 246, 135, 207, 16, 193, 39,
        235, 163, 225, 250, 6, 132, 136, 154, 128, 203, 77, 72, 176,
    ]);
    assert_eq!(registry::id(), expected);
    assert!(registry::check_id(&expected));
    assert!(!registry::check_id(&Pubkey::default()));
}

#[test]
fn pool_and_mint_ids_match_declared_bytes() {
    let srm_registrar = arr([
        73, 22, 61, 92, 137, 161, 182, 34, 181, 142, 127, 106, 104, 123, 130, 205, 25, 128, 185,
        130, 247, 84, 44, 22, 50, 20, 125, 74, 171, 135, 29, 55,
    ]);
    let msrm_registrar = arr([
        102, 151, 85, 159, 36, 8, 102, 195, 86, 176, 239, 9, 199, 156, 131, 169, 207, 241, 9, 59,
        168, 8, 9, 199, 91, 47, 214, 37, 107, 1, 251, 251,
    ]);
    let fida_registrar = arr([
        62, 65, 237, 252, 172, 57, 48, 247, 12, 187, 72, 82, 210, 156, 187, 67, 56, 90, 23, 98,
        124, 130, 6, 172, 173, 29, 106, 24, 14, 155, 110, 192,
    ]);
    let dxl_registrar = arr([
        154, 179, 207, 158, 63, 102, 7, 102, 77, 15, 106, 201, 69, 145, 84, 111, 16, 99, 248, 245,
        173, 231, 249, 221, 81, 101, 181, 72, 0, 116, 178, 0,
    ]);
    let srm_mint = arr([
        6, 131, 16, 134, 26, 152, 50, 125, 5, 80, 87, 77, 132, 65, 138, 166, 225, 12, 51, 82, 221,
        170, 127, 215, 245, 129, 82, 204, 238, 178, 56, 135,
    ]);
    let fida_mint = arr([
        202, 77, 57, 150, 76, 156, 181, 249, 121, 13, 10, 18, 150, 159, 96, 253, 151, 36, 147, 98,
        132, 234, 74, 18, 218, 222, 212, 45, 223, 166, 156, 93,
    ]);
    let dxl_mint = arr([
        235, 199, 56, 11, 75, 36, 103, 165, 111, 36, 125, 157, 131, 99, 95, 69, 223, 119, 75, 211,
        65, 254, 2, 142, 245, 107, 69, 96, 123, 254, 37, 108,
    ]);
    assert_eq!(registry::srm_registrar::id(), srm_registrar);
    assert_eq!(registry::msrm_registrar::id(), msrm_registrar);
    assert_eq!(registry::fida_registrar::id(), fida_registrar);
    assert_eq!(registry::dxl_registrar::id(), dxl_registrar);
    assert_eq!(registry::srm_mint::id(), srm_mint);
    assert_eq!(registry::fida_mint::id(), fida_mint);
    assert_eq!(registry::dxl_mint::id(), dxl_mint);
    assert!(registry::srm_registrar::check_id(&srm_registrar));
    assert!(!registry::srm_registrar::check_id(&msrm_registrar));
    assert!(registry::dxl_mint::check_id(&dxl_mint));
    assert!(!registry::fida_mint::check_id(&srm_mint));
}

#[test]
fn token_program_id_is_spl_token() {
    let expected = parse_pubkey("TokenkegQfeZyiNwAJbNbGKPFXCWuBvf9Ss623VQ5DA").unwrap();
    assert_eq!(registry::token_program_id(), expected);
}

#[test]
fn program_authority_decodes_base58() {
    let expected = arr([
        244, 210, 15, 133, 213, 234, 39, 51, 38, 228, 196, 149, 2, 217, 161, 130, 41, 232, 55, 15,
        108, 161, 247, 247, 213, 1, 213, 82, 241, 130, 219, 39,
    ]);
    assert_eq!(program_authority(), Some(expected));
}

#[test]
fn parse_pubkey_rejects_bad_text() {
    assert_eq!(parse_pubkey("not a key"), None);
    assert_eq!(parse_pubkey(""), None);
    assert_eq!(parse_pubkey("111"), None);
}

#[test]
fn pubkey_bytes_round_trip() {
    let mut b = [0u8; 32];
    for i in 0..32 {
        b[i] = (i as u8) * 7 + 1;
    }
    let k = Pubkey::new_from_array(b);
    assert_eq!(k.to_bytes(), b.to_vec());
    assert_eq!(Pubkey::from_slice(&b), k);
    assert_eq!(k.w0, u64::from_le_bytes([b[0], b[1], b[2], b[3], b[4], b[5], b[6], b[7]]));
    assert!(k.equals(&k));
    assert!(!k.equals(&Pubkey::default()));
}

#[test]
fn found_program_address_is_derived_with_its_bump() {
    let pid = registry::id();
    let (k, bump) = find_program_address(&registry_base_seeds(), &pid).unwrap();
    assert_ne!(k, pid);
    assert_eq!(create_program_address(&registry_seeds(bump), &pid), Some(k));
    assert_eq!(registry_address(&pid), Some((k, bump)));
    assert_eq!(check_seeds(&registry_seeds(bump), &pid, &k), Ok(()));
    assert_eq!(
        check_seeds(&registry_seeds(bump), &pid, &pid),
        Err(Error::ProgramError(FrameworkError::ConstraintSeeds))
    );
}

#[test]
fn derived_addresses_depend_on_every_seed() {
    let pid = registry::id();
    let a = arr([1; 32]);
    let b = arr([2; 32]);
    let mut found = Vec::new();
    for nonce in 0..=255u8 {
        if let Some(k) = create_program_address(&owned_seeds(&a, &b, nonce), &pid) {
            found.push((nonce, k));
        }
        if found.len() == 2 {
            break;
        }
    }
    assert_eq!(found.len(), 2);
    assert_ne!(found[0].1, found[1].1);
    let other = create_program_address(&owned_seeds(&b, &a, found[0].0), &pid);
    assert_ne!(other, Some(found[0].1));
    let reg = create_program_address(&registrar_seeds(&a, found[0].0), &pid);
    assert_ne!(reg, Some(found[0].1));
}

#[test]
fn some_nonce_gives_no_program_address() {
    let pid = registry::id();
    let a = arr([1; 32]);
    let b = arr([2; 32]);
    let mut none_seen = false;
    for nonce in 0..=255u8 {
        if create_program_address(&owned_seeds(&a, &b, nonce), &pid).is_none() {
            none_seen = true;
            assert_eq!(
                check_seeds(&owned_seeds(&a, &b, nonce), &pid, &a),
                Err(Error::ProgramError(FrameworkError::ConstraintSeeds))
            );
            break;
        }
    }
    assert!(none_seen);
}

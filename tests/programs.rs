use anchor_lang::prelude::Pubkey;
use owner_governed_asset_ledger::address::Address;
use owner_governed_asset_ledger::mint::{MAX_CREATOR_LIMIT, MAX_NAME_LENGTH, MAX_SYMBOL_LENGTH};
use owner_governed_asset_ledger::programs::{
    associated_token_address, associated_token_program_id, config_address, instructions_sysvar_id,
    manifest_address, master_edition_address, metadata_address, mint_address, rent_sysvar_id,
    system_program_id, token_metadata_program_id, token_program_id,
};
use owner_governed_asset_ledger::provision::MINT_ACCOUNT_LEN;

fn pk(a: &Address) -> Pubkey {
    Pubkey::new_from_array(a.bytes)
}

fn like<T: From<[u8; 32]>>(_: &T, bytes: [u8; 32]) -> T {
    T::from(bytes)
}

#[test]
fn well_known_ids_match_their_crates() {
    assert_eq!(token_metadata_program_id().bytes, mpl_token_metadata::ID.to_bytes());
    assert_eq!(token_program_id().bytes, anchor_spl::token::ID.to_bytes());
    assert_eq!(associated_token_program_id().bytes, anchor_spl::associated_token::ID.to_bytes());
    assert_eq!(pk(&rent_sysvar_id()).to_string(), "SysvarRent111111111111111111111111111111111");
    assert_eq!(pk(&instructions_sysvar_id()).to_string(), "Sysvar1nstructions1111111111111111111111111");
    assert_eq!(pk(&system_program_id()).to_string(), "11111111111111111111111111111111");
}

#[test]
fn limits_match_the_registry() {
    assert_eq!(MAX_NAME_LENGTH, mpl_token_metadata::MAX_NAME_LENGTH);
    assert_eq!(MAX_SYMBOL_LENGTH, mpl_token_metadata::MAX_SYMBOL_LENGTH);
    assert_eq!(MAX_CREATOR_LIMIT, mpl_token_metadata::MAX_CREATOR_LIMIT);
    assert_eq!(MINT_ACCOUNT_LEN as usize, 82);
}

#[test]
fn derivations_match_find_program_address() {
    let program = Address { bytes: [9u8; 32] };
    let namespace = Address { bytes: [1u8; 32] };
    let (config, bump) = config_address(&program, &namespace).unwrap();
    let expected = Pubkey::find_program_address(&[b"config", &namespace.bytes], &pk(&program));
    assert_eq!((pk(&config), bump), expected);
    let (manifest, mbump) = manifest_address(&program, &config, 42).unwrap();
    let expected = Pubkey::find_program_address(&[b"object_manifest", &config.bytes, &42u64.to_le_bytes()], &pk(&program));
    assert_eq!((pk(&manifest), mbump), expected);
    let (mint, _) = mint_address(&program, &manifest).unwrap();
    let expected = Pubkey::find_program_address(&[b"object_mint", &manifest.bytes], &pk(&program));
    assert_eq!(pk(&mint), expected.0);
    assert_ne!(manifest_address(&program, &config, 43).unwrap().0, manifest);
}

#[test]
fn registry_derivations_match_their_crates() {
    let mint = Address { bytes: [4u8; 32] };
    let wallet = Address { bytes: [3u8; 32] };
    let (md, _) = metadata_address(&mint).unwrap();
    let registry_mint = like(&mpl_token_metadata::ID, mint.bytes);
    let (expected, _) = mpl_token_metadata::accounts::Metadata::find_pda(&registry_mint);
    assert_eq!(md.bytes, expected.to_bytes());
    let (me, _) = master_edition_address(&mint).unwrap();
    let (expected, _) = mpl_token_metadata::accounts::MasterEdition::find_pda(&registry_mint);
    assert_eq!(me.bytes, expected.to_bytes());
    let (ata, _) = associated_token_address(&wallet, &mint).unwrap();
    let expected = anchor_spl::associated_token::get_associated_token_address(&pk(&wallet), &pk(&mint));
    assert_eq!(pk(&ata), expected);
}

use borsh::BorshSerialize;
use mpl_token_metadata::accounts::Metadata as MetadataAccount;
use mpl_token_metadata::types::Key;
use owner_governed_asset_ledger::accounts::{AccountState, Auth, Config};
use owner_governed_asset_ledger::address::Address;
use owner_governed_asset_ledger::error::ErrorCode;
use owner_governed_asset_ledger::manifest::ObjectManifest;
use owner_governed_asset_ledger::programs::{
    auth_address, config_address, manifest_address, metadata_address, mint_address,
    rent_sysvar_id, system_program_id, token_metadata_program_id, token_program_id,
};
use owner_governed_asset_ledger::update::{
    update_object_manifest, TokenAccountFields, UpdateObjectManifest,
};

fn addr(n: u8) -> Address {
    Address { bytes: [n; 32] }
}

fn account(key: Address, owner: Address, is_signer: bool) -> AccountState {
    AccountState { key, owner, lamports: 0, data_len: 0, is_signer, is_writable: true }
}

fn metadata_bytes() -> Vec<u8> {
    let metadata = MetadataAccount {
        key: Key::MetadataV1,
        update_authority: Default::default(),
        mint: Default::default(),
        name: "Object".into(),
        symbol: "OBJ".into(),
        uri: "https://example.com/old.json".into(),
        seller_fee_basis_points: 0,
        creators: None,
        primary_sale_happened: false,
        is_mutable: true,
        edition_nonce: None,
        token_standard: None,
        collection: None,
        uses: None,
        collection_details: None,
        programmable_config: None,
    };
    let mut data = Vec::new();
    metadata.serialize(&mut data).unwrap();
    data
}

fn ctx(amount: u64, paused: bool) -> (UpdateObjectManifest, Address) {
    let program = addr(9);
    let namespace = addr(1);
    let owner = addr(3);
    let system = system_program_id();
    let (config_key, config_bump) = config_address(&program, &namespace).unwrap();
    let (auth_key, auth_bump) = auth_address(&program, &config_key).unwrap();
    let (manifest_key, bump) = manifest_address(&program, &config_key, 5).unwrap();
    let (mint_key, mint_bump) = mint_address(&program, &manifest_key).unwrap();
    let (metadata, _) = metadata_address(&mint_key).unwrap();
    let mut record = ObjectManifest::zeroed();
    record.config = config_key;
    record.object_id = 5;
    record.mint = mint_key;
    record.bump = bump;
    record.mint_bump = mint_bump;
    record.set_initialized(true);
    record.set_minted(true);
    record.set_is_active(true);
    record.set_metadata_uri("https://example.com/old.json");
    let c = UpdateObjectManifest {
        owner: account(owner, system, true),
        config: account(config_key, program, false),
        config_data: Config { authority: addr(2), config_bump, auth_bump, object_count: 1, namespace, paused },
        auth: account(auth_key, program, false),
        auth_data: Auth { config: config_key, bump: auth_bump },
        object_manifest: account(manifest_key, program, false),
        manifest_record: record,
        object_mint: account(mint_key, token_program_id(), false),
        owner_token_account: account(addr(12), token_program_id(), false),
        owner_token: TokenAccountFields { mint: mint_key, owner, amount },
        object_metadata: account(metadata, token_metadata_program_id(), false),
        metadata_program: account(token_metadata_program_id(), system, false),
        rent: account(rent_sysvar_id(), system, false),
        instructions: None,
    };
    (c, program)
}

#[test]
fn holder_updates_manifest() {
    let (c, program) = ctx(1, false);
    let o = update_object_manifest(&c, &program, &metadata_bytes(), [0u8; 32], "https://example.com/new.json", false)
        .unwrap();
    assert!(o.manifest.metadata_uri_equals("https://example.com/new.json"));
    assert_eq!(o.uri, b"https://example.com/new.json".to_vec());
    assert_eq!(o.manifest.manifest_hash, [0u8; 32]);
    assert!(!o.manifest.is_active());
    assert!(o.manifest.minted());
    assert_eq!(o.event.object_id, 5);
    assert!(!o.event.is_active);
}

#[test]
fn minted_hash_cannot_change() {
    let (c, program) = ctx(1, false);
    let r = update_object_manifest(&c, &program, &metadata_bytes(), [3u8; 32], "https://example.com/new.json", true);
    assert_eq!(r.err(), Some(ErrorCode::ManifestMismatch));
}

#[test]
fn unminted_hash_can_change() {
    let (mut c, program) = ctx(1, false);
    c.manifest_record.set_minted(false);
    let o = update_object_manifest(&c, &program, &metadata_bytes(), [3u8; 32], "https://example.com/new.json", true)
        .unwrap();
    assert_eq!(o.manifest.manifest_hash, [3u8; 32]);
    assert!(!o.manifest.minted());
}

#[test]
fn update_without_holding_fails() {
    let (c, program) = ctx(0, false);
    let r = update_object_manifest(&c, &program, &metadata_bytes(), [0u8; 32], "https://example.com/new.json", true);
    assert_eq!(r.err(), Some(ErrorCode::OwnerDoesNotHoldObjectNft));
}

#[test]
fn update_ignores_pause() {
    let (c, program) = ctx(1, true);
    let r = update_object_manifest(&c, &program, &metadata_bytes(), [0u8; 32], "https://example.com/new.json", true);
    assert!(r.is_ok());
}

#[test]
fn update_checks_owner_and_record() {
    let (mut c, program) = ctx(1, false);
    c.owner_token.owner = addr(4);
    let r = update_object_manifest(&c, &program, &metadata_bytes(), [0u8; 32], "u", true);
    assert_eq!(r.err(), Some(ErrorCode::InvalidOwnerTokenAccount));
    let (mut c, program) = ctx(1, false);
    c.manifest_record.set_initialized(false);
    let r = update_object_manifest(&c, &program, &metadata_bytes(), [0u8; 32], "u", true);
    assert_eq!(r.err(), Some(ErrorCode::ManifestNotInitialized));
    let (c, program) = ctx(1, false);
    let long = "u".repeat(129);
    let r = update_object_manifest(&c, &program, &metadata_bytes(), [0u8; 32], &long, true);
    assert_eq!(r.err(), Some(ErrorCode::UriTooLong));
    let r = update_object_manifest(&c, &program, &[0u8, 1, 2], [0u8; 32], "u", true);
    assert_eq!(r.err(), Some(ErrorCode::InvalidMetadataAccount));
}

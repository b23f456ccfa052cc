use borsh::BorshSerialize;
use mpl_token_metadata::accounts::Metadata as MetadataAccount;
use mpl_token_metadata::types::{CollectionDetails, Key};
use owner_governed_asset_ledger::accounts::{AccountState, Auth, Config, CreatorInput};
use owner_governed_asset_ledger::address::Address;
use owner_governed_asset_ledger::calls::ExternalCall;
use owner_governed_asset_ledger::error::ErrorCode;
use owner_governed_asset_ledger::manifest::ObjectManifest;
use owner_governed_asset_ledger::mint::{
    metadata_remaining_accounts, mint_object_nft, MintEnvironment, MintObjectNft,
    MintObjectNftBase, MintObjectNftMetadata, MintOutcome,
};
use owner_governed_asset_ledger::programs::{
    associated_token_address, associated_token_program_id, auth_address, config_address,
    instructions_sysvar_id, manifest_address, master_edition_address, metadata_address,
    mint_address, rent_sysvar_id, system_program_id, token_metadata_program_id, token_program_id,
};
use spl_discriminator::ArrayDiscriminator;

const OBJECT_ID: u64 = 1;
const HASH: [u8; 32] = [7u8; 32];
const URI: &str = "https://example.com/object.json";

fn addr(n: u8) -> Address {
    Address { bytes: [n; 32] }
}

fn account(key: Address, owner: Address) -> AccountState {
    AccountState { key, owner, lamports: 0, data_len: 0, is_signer: false, is_writable: true }
}

fn collection_metadata(details: Option<CollectionDetails>) -> Vec<u8> {
    let metadata = MetadataAccount {
        key: Key::MetadataV1,
        update_authority: Default::default(),
        mint: Default::default(),
        name: "Collection".into(),
        symbol: "COLL".into(),
        uri: "https://example.com/collection.json".into(),
        seller_fee_basis_points: 0,
        creators: None,
        primary_sale_happened: false,
        is_mutable: true,
        edition_nonce: None,
        token_standard: None,
        collection: None,
        uses: None,
        collection_details: details,
        programmable_config: None,
    };
    let mut data = Vec::new();
    metadata.serialize(&mut data).unwrap();
    data
}

fn append_collection_details_tlv(buffer: &mut Vec<u8>, details: &CollectionDetails) {
    let mut value = Vec::new();
    details.serialize(&mut value).unwrap();
    let discriminator = ArrayDiscriminator::new_with_hash_input("collection_details");
    buffer.extend_from_slice(discriminator.as_ref());
    buffer.extend_from_slice(&(value.len() as u32).to_le_bytes());
    buffer.extend_from_slice(&value);
}

struct Setup {
    ctx: MintObjectNft,
    env: MintEnvironment,
    rem: Vec<AccountState>,
}

fn setup(collection_data: Vec<u8>) -> Setup {
    let program = addr(9);
    let namespace = addr(1);
    let payer = addr(2);
    let recipient = addr(3);
    let collection_mint = addr(4);
    let system = system_program_id();
    let (config_key, config_bump) = config_address(&program, &namespace).unwrap();
    let (auth_key, auth_bump) = auth_address(&program, &config_key).unwrap();
    let (manifest_key, _) = manifest_address(&program, &config_key, OBJECT_ID).unwrap();
    let (mint_key, _) = mint_address(&program, &manifest_key).unwrap();
    let (ata, _) = associated_token_address(&recipient, &mint_key).unwrap();
    let (metadata, _) = metadata_address(&mint_key).unwrap();
    let (master_edition, _) = master_edition_address(&mint_key).unwrap();
    let (collection_md, _) = metadata_address(&collection_mint).unwrap();
    let (collection_me, _) = master_edition_address(&collection_mint).unwrap();
    let mut payer_account = account(payer, system);
    payer_account.is_signer = true;
    let ctx = MintObjectNft {
        base: MintObjectNftBase {
            authority: account(payer, system),
            config: account(config_key, program),
            config_data: Config {
                authority: payer,
                config_bump,
                auth_bump,
                object_count: 0,
                namespace,
                paused: false,
            },
            auth: account(auth_key, program),
            auth_data: Auth { config: config_key, bump: auth_bump },
            payer: payer_account,
            object_manifest: account(manifest_key, system),
            object_mint: account(mint_key, system),
            recipient_token_account: account(ata, system),
            recipient: account(recipient, system),
            token_program: account(token_program_id(), system),
            associated_token_program: account(associated_token_program_id(), system),
            system_program: account(system, system),
        },
        metadata: MintObjectNftMetadata {
            metadata: account(metadata, system),
            master_edition: account(master_edition, system),
            collection_mint: account(collection_mint, token_program_id()),
            token_metadata_program: account(token_metadata_program_id(), system),
        },
    };
    let rem = vec![
        account(collection_md, token_metadata_program_id()),
        account(collection_me, token_metadata_program_id()),
        account(rent_sysvar_id(), system),
    ];
    let env = MintEnvironment {
        program_id: program,
        manifest_record: ObjectManifest::zeroed(),
        recipient_token_data: Vec::new(),
        collection_metadata_data: collection_data,
        manifest_rent: 3000,
        mint_rent: 1500,
    };
    Setup { ctx, env, rem }
}

fn payer_creator(s: &Setup) -> Vec<CreatorInput> {
    vec![CreatorInput { address: s.ctx.base.payer.key, verified: true, share: 100 }]
}

fn run(s: &Setup, uri: &str, hash: [u8; 32], creators: &Vec<CreatorInput>) -> Result<MintOutcome, ErrorCode> {
    mint_object_nft(&s.ctx, &s.env, &s.rem, OBJECT_ID, uri, hash, "Token Toss UGC Level", "TT", 500, creators)
}

fn verify_kind(o: &MintOutcome) -> Vec<&'static str> {
    o.calls
        .iter()
        .filter_map(|c| match c {
            ExternalCall::VerifySizedCollectionItem { .. } => Some("sized"),
            ExternalCall::VerifyCollection { .. } => Some("unsized"),
            _ => None,
        })
        .collect()
}

fn registry_creations(o: &MintOutcome) -> usize {
    o.calls
        .iter()
        .filter(|c| {
            matches!(
                c,
                ExternalCall::CreateMetadata { .. }
                    | ExternalCall::CreateMasterEdition { .. }
                    | ExternalCall::VerifySizedCollectionItem { .. }
                    | ExternalCall::VerifyCollection { .. }
            )
        })
        .count()
}

/// The accounts of the same mint once the first one's effects are applied.
fn retry_of(s: &Setup, o: &MintOutcome) -> Setup {
    let mut ctx = s.ctx;
    ctx.base.config_data = o.config;
    ctx.base.object_manifest.data_len = 288;
    ctx.base.object_manifest.owner = s.env.program_id;
    ctx.base.object_manifest.lamports = s.env.manifest_rent;
    ctx.base.object_mint.data_len = 82;
    ctx.base.object_mint.owner = token_program_id();
    ctx.base.object_mint.lamports = s.env.mint_rent;
    ctx.base.recipient_token_account.data_len = 165;
    ctx.base.recipient_token_account.owner = token_program_id();
    let mut data = Vec::new();
    data.extend_from_slice(&ctx.base.object_mint.key.bytes);
    data.extend_from_slice(&ctx.base.recipient.key.bytes);
    data.extend_from_slice(&[0u8; 101]);
    let env = MintEnvironment {
        program_id: s.env.program_id,
        manifest_record: o.manifest,
        recipient_token_data: data,
        collection_metadata_data: s.env.collection_metadata_data.clone(),
        manifest_rent: s.env.manifest_rent,
        mint_rent: s.env.mint_rent,
    };
    Setup { ctx, env, rem: s.rem.clone() }
}

#[test]
fn mint_succeeds_for_sized_collection() {
    let s = setup(collection_metadata(Some(CollectionDetails::V1 { size: 1 })));
    let o = run(&s, URI, HASH, &payer_creator(&s)).unwrap();
    assert_eq!(verify_kind(&o), vec!["sized"]);
}

#[test]
fn mint_succeeds_for_tlv_sized_collection() {
    let mut data = collection_metadata(None);
    append_collection_details_tlv(&mut data, &CollectionDetails::V1 { size: 1 });
    let s = setup(data);
    let o = run(&s, URI, HASH, &payer_creator(&s)).unwrap();
    assert_eq!(verify_kind(&o), vec!["sized"]);
}

#[test]
fn mint_succeeds_for_truncated_tlv_sized_collection() {
    let mut data = collection_metadata(None);
    assert_eq!(data.pop(), Some(0));
    assert_eq!(data.pop(), Some(0));
    append_collection_details_tlv(&mut data, &CollectionDetails::V1 { size: 100 });
    let s = setup(data);
    let o = run(&s, URI, HASH, &payer_creator(&s)).unwrap();
    assert_eq!(verify_kind(&o), vec!["sized"]);
}

#[test]
fn mint_succeeds_for_unsized_collection() {
    let s = setup(collection_metadata(None));
    let o = run(&s, URI, HASH, &payer_creator(&s)).unwrap();
    assert_eq!(verify_kind(&o), vec!["unsized"]);
}

#[test]
fn mint_uses_verify_sized_after_real_set_collection_size() {
    let mut data = collection_metadata(None);
    append_collection_details_tlv(&mut data, &CollectionDetails::V1 { size: 100 });
    data.extend_from_slice(&[0u8; 16]);
    let s = setup(data);
    let o = run(&s, URI, HASH, &payer_creator(&s)).unwrap();
    assert_eq!(verify_kind(&o), vec!["sized"]);
}

#[test]
fn mint_fails_when_verified_creator_missing_signature() {
    let s = setup(collection_metadata(None));
    let creators = vec![
        CreatorInput { address: s.ctx.base.payer.key, verified: true, share: 80 },
        CreatorInput { address: s.rem[0].key, verified: true, share: 20 },
    ];
    let err = run(&s, URI, HASH, &creators).err().expect("missing signature should fail");
    assert_eq!(err, ErrorCode::CreatorMustSign);
}

#[test]
fn signing_creator_account_stays_verified() {
    let mut s = setup(collection_metadata(None));
    let other = addr(5);
    let mut signer = account(other, system_program_id());
    signer.is_signer = true;
    s.rem.push(signer);
    let creators = vec![
        CreatorInput { address: s.ctx.base.payer.key, verified: true, share: 80 },
        CreatorInput { address: other, verified: true, share: 20 },
    ];
    let o = run(&s, URI, HASH, &creators).unwrap();
    assert_eq!(o.metadata_creators.len(), 2);
    assert!(o.metadata_creators[1].verified);
    assert_eq!(o.metadata_creators[1].share, 20);
}

#[test]
fn first_mint_lays_out_calls_and_record() {
    let s = setup(collection_metadata(None));
    let o = run(&s, URI, HASH, &payer_creator(&s)).unwrap();
    assert!(o.first_mint);
    assert_eq!(o.config.object_count, 1);
    assert!(o.manifest.minted() && o.manifest.initialized() && o.manifest.is_active());
    assert!(o.manifest.metadata_uri_equals(URI));
    assert_eq!(o.manifest.object_id, OBJECT_ID);
    assert_eq!(o.manifest.creator, s.ctx.base.payer.key);
    assert_eq!(o.manifest.mint, s.ctx.base.object_mint.key);
    assert_eq!(o.calls.len(), 8);
    assert!(matches!(o.calls[0], ExternalCall::CreateAccount { space: 288, lamports: 3000, .. }));
    assert!(matches!(o.calls[1], ExternalCall::CreateAccount { space: 82, lamports: 1500, .. }));
    assert!(matches!(o.calls[2], ExternalCall::InitializeMint { decimals: 0, .. }));
    assert!(matches!(o.calls[3], ExternalCall::CreateAssociatedTokenAccount { .. }));
    assert!(matches!(o.calls[4], ExternalCall::CreateMetadata { seller_fee_basis_points: 500, .. }));
    assert!(matches!(o.calls[5], ExternalCall::MintTo { amount: 1, .. }));
    assert!(matches!(o.calls[6], ExternalCall::CreateMasterEdition { max_supply: 0, .. }));
    assert_eq!(o.event.object_id, OBJECT_ID);
    assert_eq!(o.event.recipient, s.ctx.base.recipient.key);
    assert_eq!(o.metadata_name, b"Token Toss UGC Level".to_vec());
    assert_eq!(o.metadata_symbol, b"TT".to_vec());
    assert_eq!(o.metadata_uri, URI.as_bytes().to_vec());
}

#[test]
fn retry_with_same_content_mints_again_without_registry_calls() {
    let s = setup(collection_metadata(None));
    let o1 = run(&s, URI, HASH, &payer_creator(&s)).unwrap();
    assert_eq!(registry_creations(&o1), 3);
    let s2 = retry_of(&s, &o1);
    let o2 = run(&s2, URI, HASH, &payer_creator(&s2)).unwrap();
    assert!(!o2.first_mint);
    assert_eq!(registry_creations(&o2), 0);
    assert_eq!(o2.calls.len(), 1);
    assert!(matches!(o2.calls[0], ExternalCall::MintTo { amount: 1, .. }));
    assert_eq!(o2.config.object_count, 1);
}

#[test]
fn retry_with_other_hash_is_a_mismatch() {
    let s = setup(collection_metadata(None));
    let o1 = run(&s, URI, HASH, &payer_creator(&s)).unwrap();
    let s2 = retry_of(&s, &o1);
    let err = run(&s2, URI, [8u8; 32], &payer_creator(&s2)).err().unwrap();
    assert_eq!(err, ErrorCode::ManifestMismatch);
}

#[test]
fn retry_with_other_uri_is_a_mismatch() {
    let s = setup(collection_metadata(None));
    let o1 = run(&s, URI, HASH, &payer_creator(&s)).unwrap();
    let s2 = retry_of(&s, &o1);
    let err = run(&s2, "https://example.com/other.json", HASH, &payer_creator(&s2)).err().unwrap();
    assert_eq!(err, ErrorCode::ManifestMismatch);
}

#[test]
fn retry_with_empty_uri_keeps_stored_uri() {
    let s = setup(collection_metadata(None));
    let o1 = run(&s, URI, HASH, &payer_creator(&s)).unwrap();
    let s2 = retry_of(&s, &o1);
    let o2 = run(&s2, "", HASH, &payer_creator(&s2)).unwrap();
    assert!(o2.manifest.metadata_uri_equals(URI));
    assert_eq!(o2.metadata_uri, URI.as_bytes().to_vec());
}

#[test]
fn shares_not_summing_to_hundred_fail() {
    let s = setup(collection_metadata(None));
    let creators = vec![CreatorInput { address: s.ctx.base.payer.key, verified: false, share: 99 }];
    assert_eq!(run(&s, URI, HASH, &creators).err(), Some(ErrorCode::InvalidCreatorShareDistribution));
}

#[test]
fn creators_without_recorded_creator_fail() {
    let s = setup(collection_metadata(None));
    let creators = vec![CreatorInput { address: addr(6), verified: false, share: 100 }];
    assert_eq!(run(&s, URI, HASH, &creators).err(), Some(ErrorCode::MissingManifestCreator));
}

#[test]
fn empty_and_oversized_creator_lists_fail() {
    let s = setup(collection_metadata(None));
    assert_eq!(run(&s, URI, HASH, &vec![]).err(), Some(ErrorCode::InvalidCreatorShareDistribution));
    let six: Vec<CreatorInput> = (0..6u8)
        .map(|i| CreatorInput { address: addr(20 + i), verified: false, share: 10 })
        .collect();
    assert_eq!(run(&s, URI, HASH, &six).err(), Some(ErrorCode::TooManyCreators));
}

#[test]
fn paused_config_refuses_mint() {
    let mut s = setup(collection_metadata(None));
    s.ctx.base.config_data.paused = true;
    assert_eq!(run(&s, URI, HASH, &payer_creator(&s)).err(), Some(ErrorCode::MintingPaused));
    s.ctx.base.config_data.paused = false;
    assert!(run(&s, URI, HASH, &payer_creator(&s)).is_ok());
}

#[test]
fn metadata_argument_bounds_are_checked() {
    let s = setup(collection_metadata(None));
    let c = payer_creator(&s);
    let long_name = "n".repeat(33);
    let r = mint_object_nft(&s.ctx, &s.env, &s.rem, OBJECT_ID, URI, HASH, &long_name, "TT", 0, &c);
    assert_eq!(r.err(), Some(ErrorCode::MetadataNameTooLong));
    let r = mint_object_nft(&s.ctx, &s.env, &s.rem, OBJECT_ID, URI, HASH, "n", "SYMBOLTOOLONG", 0, &c);
    assert_eq!(r.err(), Some(ErrorCode::MetadataSymbolTooLong));
    let r = mint_object_nft(&s.ctx, &s.env, &s.rem, OBJECT_ID, URI, HASH, "n", "TT", 10001, &c);
    assert_eq!(r.err(), Some(ErrorCode::InvalidSellerFeeBasisPoints));
    let long_uri = "u".repeat(129);
    let r = mint_object_nft(&s.ctx, &s.env, &s.rem, OBJECT_ID, &long_uri, HASH, "n", "TT", 0, &c);
    assert_eq!(r.err(), Some(ErrorCode::UriTooLong));
}

#[test]
fn wrong_accounts_are_refused() {
    let s = setup(collection_metadata(None));
    let c = payer_creator(&s);
    let mut t = setup(collection_metadata(None));
    t.ctx.base.object_manifest.key = addr(30);
    assert_eq!(run(&t, URI, HASH, &c).err(), Some(ErrorCode::InvalidManifestAccount));
    let mut t = setup(collection_metadata(None));
    t.ctx.base.object_mint.key = addr(30);
    assert_eq!(run(&t, URI, HASH, &c).err(), Some(ErrorCode::InvalidObjectMintAccount));
    let mut t = setup(collection_metadata(None));
    t.ctx.base.recipient_token_account.key = addr(30);
    assert_eq!(run(&t, URI, HASH, &c).err(), Some(ErrorCode::InvalidRecipientTokenAccount));
    let mut t = setup(collection_metadata(None));
    t.rem[2].key = addr(30);
    assert_eq!(run(&t, URI, HASH, &c).err(), Some(ErrorCode::InvalidRentSysvar));
    let mut t = setup(collection_metadata(None));
    t.rem[0].is_writable = false;
    assert_eq!(run(&t, URI, HASH, &c).err(), Some(ErrorCode::InvalidCollectionMetadataAccount));
    let mut t = setup(collection_metadata(None));
    t.ctx.metadata.metadata.key = addr(30);
    assert_eq!(run(&t, URI, HASH, &c).err(), Some(ErrorCode::InvalidMetadataAccount));
    let mut t = setup(collection_metadata(None));
    t.ctx.metadata.token_metadata_program.key = addr(30);
    assert_eq!(run(&t, URI, HASH, &c).err(), Some(ErrorCode::InvalidTokenMetadataProgram));
    let mut t = setup(collection_metadata(None));
    t.ctx.base.object_manifest.data_len = 10;
    t.ctx.base.object_manifest.owner = addr(31);
    assert_eq!(run(&t, URI, HASH, &c).err(), Some(ErrorCode::InvalidManifestAccount));
    let mut t = setup(collection_metadata(None));
    t.ctx.base.authority.key = addr(31);
    assert_eq!(run(&t, URI, HASH, &c).err(), Some(ErrorCode::InvalidAuthority));
    let mut t = setup(vec![1, 2, 3]);
    t.env.collection_metadata_data = vec![1, 2, 3];
    assert_eq!(run(&t, URI, HASH, &c).err(), Some(ErrorCode::InvalidCollectionMetadataAccount));
    assert!(run(&s, URI, HASH, &c).is_ok());
}

#[test]
fn existing_accounts_are_topped_up_and_grown() {
    let mut s = setup(collection_metadata(None));
    s.ctx.base.object_manifest.data_len = 100;
    s.ctx.base.object_manifest.owner = s.env.program_id;
    s.ctx.base.object_manifest.lamports = 1000;
    let o = run(&s, URI, HASH, &payer_creator(&s)).unwrap();
    assert!(matches!(o.calls[0], ExternalCall::TransferLamports { amount: 2000, .. }));
    assert!(matches!(o.calls[1], ExternalCall::Realloc { new_len: 288, .. }));
}

#[test]
fn remaining_accounts_are_split() {
    let s = setup(collection_metadata(None));
    assert_eq!(
        metadata_remaining_accounts(&s.rem[..2].to_vec()).err(),
        Some(ErrorCode::MissingMintMetadataAccounts)
    );
    let mut rem = s.rem.clone();
    rem.push(account(instructions_sysvar_id(), system_program_id()));
    rem.push(account(addr(5), system_program_id()));
    let r = metadata_remaining_accounts(&rem).unwrap();
    assert!(r.instructions_sysvar.is_some());
    assert_eq!(r.creators_start, 4);
    let r = metadata_remaining_accounts(&s.rem).unwrap();
    assert!(r.instructions_sysvar.is_none());
    assert_eq!(r.creators_start, 3);
}

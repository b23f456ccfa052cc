use owner_governed_asset_ledger::accounts::{AccountState, Auth, Config};
use owner_governed_asset_ledger::address::Address;
use owner_governed_asset_ledger::calls::ExternalCall;
use owner_governed_asset_ledger::config::{
    initialize, is_allowed_deployer, migrate_config_namespace, rotate_collection_authority,
    set_authority, set_paused, Initialize, MigrateConfigNamespace, RotateCollectionAuthority,
    SetAuthority, SetPaused,
};
use owner_governed_asset_ledger::error::ErrorCode;
use owner_governed_asset_ledger::programs::{
    auth_address, config_address, metadata_address, system_program_id, token_metadata_program_id,
};

fn addr(n: u8) -> Address {
    Address { bytes: [n; 32] }
}

fn account(key: Address, owner: Address, is_signer: bool) -> AccountState {
    AccountState { key, owner, lamports: 0, data_len: 0, is_signer, is_writable: true }
}

fn init_ctx(program: &Address, namespace: &Address, authority: Address, payer: Address) -> Initialize {
    let system = system_program_id();
    let (config_key, _) = config_address(program, namespace).unwrap();
    let (auth_key, _) = auth_address(program, &config_key).unwrap();
    Initialize {
        authority: account(authority, system, true),
        payer: account(payer, system, true),
        config: account(config_key, system, false),
        auth: account(auth_key, system, false),
        system_program: account(system, system, false),
    }
}

fn governed(program: &Address, namespace: &Address, authority: Address) -> (AccountState, Config) {
    let (config_key, config_bump) = config_address(program, namespace).unwrap();
    let (_, auth_bump) = auth_address(program, &config_key).unwrap();
    let config = Config { authority, config_bump, auth_bump, object_count: 4, namespace: *namespace, paused: false };
    (account(config_key, *program, false), config)
}

#[test]
fn initialize_creates_config_and_auth() {
    let program = addr(9);
    let namespace = addr(1);
    let ctx = init_ctx(&program, &namespace, addr(2), addr(2));
    let c = initialize(&ctx, &program, &namespace, &vec![], 100, 50).unwrap();
    assert_eq!(c.config.authority, addr(2));
    assert_eq!(c.config.object_count, 0);
    assert!(!c.config.paused);
    assert_eq!(c.config.namespace, namespace);
    assert_eq!(c.auth.config, ctx.config.key);
    assert_eq!(c.auth.bump, c.config.auth_bump);
    assert_eq!(c.calls.len(), 2);
    assert!(matches!(c.calls[0], ExternalCall::CreateAccount { space: 83, lamports: 100, .. }));
    assert!(matches!(c.calls[1], ExternalCall::CreateAccount { space: 41, lamports: 50, .. }));
}

#[test]
fn initialize_twice_fails() {
    let program = addr(9);
    let namespace = addr(1);
    let ctx = init_ctx(&program, &namespace, addr(2), addr(2));
    initialize(&ctx, &program, &namespace, &vec![], 100, 50).unwrap();
    let mut again = ctx;
    again.config.data_len = 83;
    again.config.owner = program;
    again.config.lamports = 100;
    assert_eq!(
        initialize(&again, &program, &namespace, &vec![], 100, 50).err(),
        Some(ErrorCode::AccountAlreadyInUse)
    );
}

#[test]
fn initialize_checks_deployer() {
    let program = addr(9);
    let namespace = addr(1);
    let ctx = init_ctx(&program, &namespace, addr(3), addr(2));
    assert_eq!(
        initialize(&ctx, &program, &namespace, &vec![addr(7)], 100, 50).err(),
        Some(ErrorCode::UnauthorizedDeployer)
    );
    assert!(initialize(&ctx, &program, &namespace, &vec![addr(7), addr(3)], 100, 50).is_ok());
    assert!(is_allowed_deployer(&addr(3), &vec![addr(3)]));
    assert!(!is_allowed_deployer(&addr(3), &vec![]));
    let mut wrong = ctx;
    wrong.config.key = addr(8);
    assert_eq!(
        initialize(&wrong, &program, &namespace, &vec![addr(3)], 100, 50).err(),
        Some(ErrorCode::InvalidConfig)
    );
}

#[test]
fn set_paused_and_authority_are_authority_gated() {
    let program = addr(9);
    let namespace = addr(1);
    let (config, data) = governed(&program, &namespace, addr(2));
    let ctx = SetPaused { authority: account(addr(2), system_program_id(), true), config, config_data: data };
    let (c, ev) = set_paused(&ctx, &program, true).unwrap();
    assert!(c.paused);
    assert!(ev.paused);
    assert_eq!(ev.config, config.key);
    let stranger = SetPaused { authority: account(addr(3), system_program_id(), true), config, config_data: data };
    assert_eq!(set_paused(&stranger, &program, true).err(), Some(ErrorCode::InvalidAuthority));
    let unsigned = SetPaused { authority: account(addr(2), system_program_id(), false), config, config_data: data };
    assert_eq!(set_paused(&unsigned, &program, true).err(), Some(ErrorCode::MissingRequiredSignature));
    let sa = SetAuthority { authority: account(addr(2), system_program_id(), true), config, config_data: data };
    let c = set_authority(&sa, &program, &addr(5)).unwrap();
    assert_eq!(c.authority, addr(5));
    assert_eq!(c.object_count, 4);
}

#[test]
fn migration_copies_state_to_new_namespace() {
    let program = addr(9);
    let namespace = addr(1);
    let new_namespace = addr(11);
    let system = system_program_id();
    let (old_config, mut data) = governed(&program, &namespace, addr(2));
    data.paused = true;
    let (old_auth, _) = auth_address(&program, &old_config.key).unwrap();
    let (new_config, _) = config_address(&program, &new_namespace).unwrap();
    let (new_auth, _) = auth_address(&program, &new_config).unwrap();
    let ctx = MigrateConfigNamespace {
        authority: account(addr(2), system, true),
        old_config,
        old_config_data: data,
        new_config: account(new_config, system, false),
        old_auth: account(old_auth, program, false),
        old_auth_data: Auth { config: old_config.key, bump: data.auth_bump },
        new_auth: account(new_auth, system, false),
        system_program: account(system, system, false),
    };
    let c = migrate_config_namespace(&ctx, &program, &new_namespace, 100, 50).unwrap();
    assert_eq!(c.config.object_count, 4);
    assert!(c.config.paused);
    assert_eq!(c.config.namespace, new_namespace);
    assert_eq!(c.auth.config, new_config);
    let mut taken = ctx;
    taken.new_config.lamports = 1;
    assert_eq!(
        migrate_config_namespace(&taken, &program, &new_namespace, 100, 50).err(),
        Some(ErrorCode::AccountAlreadyInUse)
    );
}

#[test]
fn collection_authority_rotation_checks_metadata_address() {
    let program = addr(9);
    let namespace = addr(1);
    let system = system_program_id();
    let (config, data) = governed(&program, &namespace, addr(2));
    let (auth, auth_bump) = auth_address(&program, &config.key).unwrap();
    let collection_mint = addr(4);
    let (collection_metadata, _) = metadata_address(&collection_mint).unwrap();
    let ctx = RotateCollectionAuthority {
        authority: account(addr(2), system, true),
        config,
        config_data: data,
        auth: account(auth, program, false),
        auth_data: Auth { config: config.key, bump: auth_bump },
        collection_metadata: account(collection_metadata, token_metadata_program_id(), false),
        collection_mint: account(collection_mint, system, false),
        token_metadata_program: account(token_metadata_program_id(), system, false),
    };
    let call = rotate_collection_authority(&ctx, &program, &addr(6)).unwrap();
    assert!(matches!(call, ExternalCall::SetUpdateAuthority { .. }));
    let mut wrong = ctx;
    wrong.collection_metadata.key = addr(3);
    assert_eq!(
        rotate_collection_authority(&wrong, &program, &addr(6)).err(),
        Some(ErrorCode::InvalidCollectionMetadataAccount)
    );
}

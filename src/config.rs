//! Creation and governance of a namespace's configuration.
use crate::accounts::{AccountState, Auth, Config, PauseStatusUpdated};
use crate::address::{derived_view, Address};
use crate::calls::ExternalCall;
use crate::error::ErrorCode;
use crate::programs::{
    auth_address, config_address, metadata_address, spec_auth_address, spec_config_address,
    spec_metadata_address, spec_system_program_id, spec_token_metadata_program_id,
    system_program_id, token_metadata_program_id,
};
use vstd::prelude::*;

verus! {

/// Accounts of `initialize`.
#[derive(Clone, Copy, Debug)]
pub struct Initialize {
    pub authority: AccountState,
    pub payer: AccountState,
    pub config: AccountState,
    pub auth: AccountState,
    pub system_program: AccountState,
}

/// Accounts of `set_authority`.
#[derive(Clone, Copy, Debug)]
pub struct SetAuthority {
    pub authority: AccountState,
    pub config: AccountState,
    pub config_data: Config,
}

/// Accounts of `set_paused`.
#[derive(Clone, Copy, Debug)]
pub struct SetPaused {
    pub authority: AccountState,
    pub config: AccountState,
    pub config_data: Config,
}

/// Accounts of `migrate_config_namespace`.
#[derive(Clone, Copy, Debug)]
pub struct MigrateConfigNamespace {
    pub authority: AccountState,
    pub old_config: AccountState,
    pub old_config_data: Config,
    pub new_config: AccountState,
    pub old_auth: AccountState,
    pub old_auth_data: Auth,
    pub new_auth: AccountState,
    pub system_program: AccountState,
}

/// Accounts of `rotate_collection_authority`.
#[derive(Clone, Copy, Debug)]
pub struct RotateCollectionAuthority {
    pub authority: AccountState,
    pub config: AccountState,
    pub config_data: Config,
    pub auth: AccountState,
    pub auth_data: Auth,
    pub collection_metadata: AccountState,
    pub collection_mint: AccountState,
    pub token_metadata_program: AccountState,
}

/// A configuration and its auth record, as `initialize` or a namespace
/// migration creates them, with the calls that create their accounts.
#[derive(Clone, Debug)]
pub struct CreatedConfig {
    pub config: Config,
    pub auth: Auth,
    pub calls: Vec<ExternalCall>,
}

/// The account cannot be created: it holds lamports or data, or the system
/// program does not own it.
pub open spec fn in_use(a: AccountState) -> bool {
    a.lamports > 0 || a.data_len > 0 || a.owner.bytes@ != spec_system_program_id()
}

fn account_in_use(a: &AccountState) -> (r: bool)
    ensures
        r == in_use(*a),
{
    a.lamports > 0 || a.data_len > 0 || a.owner != system_program_id()
}

pub open spec fn is_listed(allowed: Seq<Address>, a: Address) -> bool {
    exists|k: int| 0 <= k < allowed.len() && allowed[k].bytes@ == a.bytes@
}

/// Whether `authority` is on the deploy-time allow-list.
pub fn is_allowed_deployer(authority: &Address, allowed: &Vec<Address>) -> (r: bool)
    ensures
        r == is_listed(allowed@, *authority),
{
    let mut k: usize = 0;
    while k < allowed.len()
        invariant
            forall|j: int| 0 <= j < k && j < allowed@.len() ==> allowed@[j].bytes@ != authority.bytes@,
        decreases allowed.len() - k,
    {
        if allowed[k] == *authority {
            assert(0 <= k < allowed@.len() && allowed@[k as int].bytes@ == authority.bytes@);
            return true;
        }
        k = k + 1;
    }
    false
}

/// The configuration account sits at the address derived from `namespace`
/// and the auth account at the one derived from it, with these bumps.
pub open spec fn spec_pair_bumps(program_id: Address, namespace: Address, config: Address, auth: Address) -> Option<(u8, u8)> {
    match spec_config_address(program_id.bytes@, namespace.bytes@) {
        Some((c, cb)) => if c == config.bytes@ {
            match spec_auth_address(program_id.bytes@, config.bytes@) {
                Some((a, ab)) => if a == auth.bytes@ { Some((cb, ab)) } else { None },
                None => None,
            }
        } else {
            None
        },
        None => None,
    }
}

fn pair_bumps(program_id: &Address, namespace: &Address, config: &Address, auth: &Address) -> (r: Option<(u8, u8)>)
    ensures
        r == spec_pair_bumps(*program_id, *namespace, *config, *auth),
{
    match config_address(program_id, namespace) {
        Some((c, cb)) => if c == *config {
            match auth_address(program_id, config) {
                Some((a, ab)) => if a == *auth { Some((cb, ab)) } else { None },
                None => None,
            }
        } else {
            None
        },
        None => None,
    }
}

/// What creating a configuration and its auth record for `namespace` yields,
/// once the accounts are known to be free.
pub open spec fn spec_created(
    program_id: Address,
    payer: Address,
    config: Address,
    auth: Address,
    authority: Address,
    namespace: Address,
    bumps: (u8, u8),
    object_count: u64,
    paused: bool,
    config_rent: u64,
    auth_rent: u64,
    r: CreatedConfig,
) -> bool {
    &&& r.config == (Config {
        authority,
        config_bump: bumps.0,
        auth_bump: bumps.1,
        object_count,
        namespace,
        paused,
    })
    &&& r.auth == (Auth { config, bump: bumps.1 })
    &&& r.calls@ == seq![
        ExternalCall::CreateAccount { payer, account: config, lamports: config_rent, space: Config::LEN as u64, owner: program_id },
        ExternalCall::CreateAccount { payer, account: auth, lamports: auth_rent, space: Auth::LEN as u64, owner: program_id },
    ]
}

fn create_pair(
    program_id: &Address,
    payer: &Address,
    config: &Address,
    auth: &Address,
    authority: &Address,
    namespace: &Address,
    bumps: (u8, u8),
    object_count: u64,
    paused: bool,
    config_rent: u64,
    auth_rent: u64,
) -> (r: CreatedConfig)
    ensures
        spec_created(*program_id, *payer, *config, *auth, *authority, *namespace, bumps, object_count, paused,
            config_rent, auth_rent, r),
{
    let calls: Vec<ExternalCall> = vec![
        ExternalCall::CreateAccount {
            payer: *payer,
            account: *config,
            lamports: config_rent,
            space: Config::LEN as u64,
            owner: *program_id,
        },
        ExternalCall::CreateAccount {
            payer: *payer,
            account: *auth,
            lamports: auth_rent,
            space: Auth::LEN as u64,
            owner: *program_id,
        },
    ];
    CreatedConfig {
        config: Config {
            authority: *authority,
            config_bump: bumps.0,
            auth_bump: bumps.1,
            object_count,
            namespace: *namespace,
            paused,
        },
        auth: Auth { config: *config, bump: bumps.1 },
        calls,
    }
}

/// Why `initialize` is refused, if it is.
pub open spec fn spec_initialize_error(ctx: Initialize, program_id: Address, namespace: Address, allowed: Seq<Address>) -> Option<ErrorCode> {
    if !ctx.authority.is_signer || !ctx.payer.is_signer {
        Some(ErrorCode::MissingRequiredSignature)
    } else if ctx.system_program.key.bytes@ != spec_system_program_id() {
        Some(ErrorCode::InvalidProgramId)
    } else if spec_pair_bumps(program_id, namespace, ctx.config.key, ctx.auth.key) is None {
        Some(ErrorCode::InvalidConfig)
    } else if in_use(ctx.config) || in_use(ctx.auth) {
        Some(ErrorCode::AccountAlreadyInUse)
    } else if !(ctx.authority.key.bytes@ == ctx.payer.key.bytes@ || is_listed(allowed, ctx.authority.key)) {
        Some(ErrorCode::UnauthorizedDeployer)
    } else {
        None
    }
}

/// Creates the configuration of `namespace` and its auth record, governed by
/// the signing authority, which must be the payer or on the allow-list.
pub fn initialize(
    ctx: &Initialize,
    program_id: &Address,
    namespace: &Address,
    allowed_deployers: &Vec<Address>,
    config_rent: u64,
    auth_rent: u64,
) -> (r: Result<CreatedConfig, ErrorCode>)
    ensures
        match r {
            Err(e) => spec_initialize_error(*ctx, *program_id, *namespace, allowed_deployers@) == Some(e),
            Ok(c) => spec_initialize_error(*ctx, *program_id, *namespace, allowed_deployers@) is None
                && spec_created(*program_id, ctx.payer.key, ctx.config.key, ctx.auth.key, ctx.authority.key, *namespace,
                    spec_pair_bumps(*program_id, *namespace, ctx.config.key, ctx.auth.key)->Some_0, 0, false,
                    config_rent, auth_rent, c),
        },
{
    if !ctx.authority.is_signer || !ctx.payer.is_signer {
        return Err(ErrorCode::MissingRequiredSignature);
    }
    if ctx.system_program.key != system_program_id() {
        return Err(ErrorCode::InvalidProgramId);
    }
    let bumps = match pair_bumps(program_id, namespace, &ctx.config.key, &ctx.auth.key) {
        Some(b) => b,
        None => return Err(ErrorCode::InvalidConfig),
    };
    if account_in_use(&ctx.config) || account_in_use(&ctx.auth) {
        return Err(ErrorCode::AccountAlreadyInUse);
    }
    if !(ctx.authority.key == ctx.payer.key || is_allowed_deployer(&ctx.authority.key, allowed_deployers)) {
        return Err(ErrorCode::UnauthorizedDeployer);
    }
    Ok(create_pair(program_id, &ctx.payer.key, &ctx.config.key, &ctx.auth.key, &ctx.authority.key, namespace, bumps, 0,
        false, config_rent, auth_rent))
}

/// The configuration account sits at the address derived from its stored
/// namespace with its stored bump.
pub open spec fn spec_config_seeds_ok(program_id: Address, config: AccountState, data: Config) -> bool {
    spec_config_address(program_id.bytes@, data.namespace.bytes@) matches Some((a, bump))
        && a == config.key.bytes@ && bump == data.config_bump
}

fn config_seeds_ok(program_id: &Address, config: &AccountState, data: &Config) -> (r: bool)
    ensures
        r == spec_config_seeds_ok(*program_id, *config, *data),
{
    match config_address(program_id, &data.namespace) {
        Some((a, bump)) => a == config.key && bump == data.config_bump,
        None => false,
    }
}

/// Why an authority-gated change of a configuration is refused, if it is: the
/// authority must sign, the configuration must sit at its derived address and
/// must name the signer as its authority.
pub open spec fn spec_governance_error(program_id: Address, authority: AccountState, config: AccountState, data: Config) -> Option<ErrorCode> {
    if !authority.is_signer {
        Some(ErrorCode::MissingRequiredSignature)
    } else if !spec_config_seeds_ok(program_id, config, data) {
        Some(ErrorCode::InvalidConfig)
    } else if data.authority.bytes@ != authority.key.bytes@ {
        Some(ErrorCode::InvalidAuthority)
    } else {
        None
    }
}

fn check_governance(program_id: &Address, authority: &AccountState, config: &AccountState, data: &Config) -> (r: Result<(), ErrorCode>)
    ensures
        match r {
            Ok(_) => spec_governance_error(*program_id, *authority, *config, *data) is None,
            Err(e) => spec_governance_error(*program_id, *authority, *config, *data) == Some(e),
        },
{
    if !authority.is_signer {
        return Err(ErrorCode::MissingRequiredSignature);
    }
    if !config_seeds_ok(program_id, config, data) {
        return Err(ErrorCode::InvalidConfig);
    }
    if data.authority != authority.key {
        return Err(ErrorCode::InvalidAuthority);
    }
    Ok(())
}

/// Hands the configuration to `new_authority`.
pub fn set_authority(ctx: &SetAuthority, program_id: &Address, new_authority: &Address) -> (r: Result<Config, ErrorCode>)
    ensures
        match r {
            Err(e) => spec_governance_error(*program_id, ctx.authority, ctx.config, ctx.config_data) == Some(e),
            Ok(c) => spec_governance_error(*program_id, ctx.authority, ctx.config, ctx.config_data) is None
                && c == (Config { authority: *new_authority, ..ctx.config_data }),
        },
{
    check_governance(program_id, &ctx.authority, &ctx.config, &ctx.config_data)?;
    let mut c = ctx.config_data;
    c.authority = *new_authority;
    Ok(c)
}

/// Sets the pause flag that gates minting.
pub fn set_paused(ctx: &SetPaused, program_id: &Address, paused: bool) -> (r: Result<(Config, PauseStatusUpdated), ErrorCode>)
    ensures
        match r {
            Err(e) => spec_governance_error(*program_id, ctx.authority, ctx.config, ctx.config_data) == Some(e),
            Ok((c, ev)) => spec_governance_error(*program_id, ctx.authority, ctx.config, ctx.config_data) is None
                && c == (Config { paused, ..ctx.config_data })
                && ev == (PauseStatusUpdated { config: ctx.config.key, paused }),
        },
{
    check_governance(program_id, &ctx.authority, &ctx.config, &ctx.config_data)?;
    let mut c = ctx.config_data;
    c.paused = paused;
    Ok((c, PauseStatusUpdated { config: ctx.config.key, paused }))
}

/// Why a namespace migration is refused, if it is.
pub open spec fn spec_migrate_error(ctx: MigrateConfigNamespace, program_id: Address, new_namespace: Address) -> Option<ErrorCode> {
    if spec_governance_error(program_id, ctx.authority, ctx.old_config, ctx.old_config_data) is Some {
        spec_governance_error(program_id, ctx.authority, ctx.old_config, ctx.old_config_data)
    } else if ctx.system_program.key.bytes@ != spec_system_program_id() {
        Some(ErrorCode::InvalidProgramId)
    } else if !(spec_auth_address(program_id.bytes@, ctx.old_config.key.bytes@) matches Some((a, bump))
        && a == ctx.old_auth.key.bytes@ && bump == ctx.old_config_data.auth_bump) {
        Some(ErrorCode::InvalidConfig)
    } else if ctx.old_auth_data.config.bytes@ != ctx.old_config.key.bytes@ {
        Some(ErrorCode::InvalidConfig)
    } else if spec_pair_bumps(program_id, new_namespace, ctx.new_config.key, ctx.new_auth.key) is None {
        Some(ErrorCode::InvalidConfig)
    } else if in_use(ctx.new_config) || in_use(ctx.new_auth) {
        Some(ErrorCode::AccountAlreadyInUse)
    } else {
        None
    }
}

/// Creates a configuration under `new_namespace` that carries the old one's
/// authority, counter and pause flag, with its own auth record.
pub fn migrate_config_namespace(
    ctx: &MigrateConfigNamespace,
    program_id: &Address,
    new_namespace: &Address,
    config_rent: u64,
    auth_rent: u64,
) -> (r: Result<CreatedConfig, ErrorCode>)
    ensures
        match r {
            Err(e) => spec_migrate_error(*ctx, *program_id, *new_namespace) == Some(e),
            Ok(c) => spec_migrate_error(*ctx, *program_id, *new_namespace) is None
                && spec_created(*program_id, ctx.authority.key, ctx.new_config.key, ctx.new_auth.key,
                    ctx.old_config_data.authority, *new_namespace,
                    spec_pair_bumps(*program_id, *new_namespace, ctx.new_config.key, ctx.new_auth.key)->Some_0,
                    ctx.old_config_data.object_count, ctx.old_config_data.paused, config_rent, auth_rent, c),
        },
{
    check_governance(program_id, &ctx.authority, &ctx.old_config, &ctx.old_config_data)?;
    if ctx.system_program.key != system_program_id() {
        return Err(ErrorCode::InvalidProgramId);
    }
    match auth_address(program_id, &ctx.old_config.key) {
        Some((a, bump)) => {
            if !(a == ctx.old_auth.key && bump == ctx.old_config_data.auth_bump) {
                return Err(ErrorCode::InvalidConfig);
            }
        },
        None => return Err(ErrorCode::InvalidConfig),
    }
    if ctx.old_auth_data.config != ctx.old_config.key {
        return Err(ErrorCode::InvalidConfig);
    }
    let bumps = match pair_bumps(program_id, new_namespace, &ctx.new_config.key, &ctx.new_auth.key) {
        Some(b) => b,
        None => return Err(ErrorCode::InvalidConfig),
    };
    if account_in_use(&ctx.new_config) || account_in_use(&ctx.new_auth) {
        return Err(ErrorCode::AccountAlreadyInUse);
    }
    Ok(create_pair(
        program_id,
        &ctx.authority.key,
        &ctx.new_config.key,
        &ctx.new_auth.key,
        &ctx.old_config_data.authority,
        new_namespace,
        bumps,
        ctx.old_config_data.object_count,
        ctx.old_config_data.paused,
        config_rent,
        auth_rent,
    ))
}

/// Why handing over the collection's update authority is refused, if it is.
pub open spec fn spec_rotate_error(ctx: RotateCollectionAuthority, program_id: Address) -> Option<ErrorCode> {
    if spec_governance_error(program_id, ctx.authority, ctx.config, ctx.config_data) is Some {
        spec_governance_error(program_id, ctx.authority, ctx.config, ctx.config_data)
    } else if !(spec_auth_address(program_id.bytes@, ctx.config.key.bytes@) matches Some((a, bump))
        && a == ctx.auth.key.bytes@ && bump == ctx.config_data.auth_bump) {
        Some(ErrorCode::InvalidConfig)
    } else if ctx.auth_data.config.bytes@ != ctx.config.key.bytes@ {
        Some(ErrorCode::InvalidConfig)
    } else if ctx.token_metadata_program.key.bytes@ != spec_token_metadata_program_id() {
        Some(ErrorCode::InvalidTokenMetadataProgram)
    } else if !(spec_metadata_address(ctx.collection_mint.key.bytes@) matches Some((a, _))
        && a == ctx.collection_metadata.key.bytes@) {
        Some(ErrorCode::InvalidCollectionMetadataAccount)
    } else {
        None
    }
}

/// Asks the metadata registry to hand the collection record's update authority
/// to `new_update_authority`, signed by the auth record.
pub fn rotate_collection_authority(
    ctx: &RotateCollectionAuthority,
    program_id: &Address,
    new_update_authority: &Address,
) -> (r: Result<ExternalCall, ErrorCode>)
    ensures
        match r {
            Err(e) => spec_rotate_error(*ctx, *program_id) == Some(e),
            Ok(c) => spec_rotate_error(*ctx, *program_id) is None && c == (ExternalCall::SetUpdateAuthority {
                metadata: ctx.collection_metadata.key,
                authority: ctx.auth.key,
                new_update_authority: *new_update_authority,
            }),
        },
{
    check_governance(program_id, &ctx.authority, &ctx.config, &ctx.config_data)?;
    match auth_address(program_id, &ctx.config.key) {
        Some((a, bump)) => {
            if !(a == ctx.auth.key && bump == ctx.config_data.auth_bump) {
                return Err(ErrorCode::InvalidConfig);
            }
        },
        None => return Err(ErrorCode::InvalidConfig),
    }
    if ctx.auth_data.config != ctx.config.key {
        return Err(ErrorCode::InvalidConfig);
    }
    if ctx.token_metadata_program.key != token_metadata_program_id() {
        return Err(ErrorCode::InvalidTokenMetadataProgram);
    }
    match metadata_address(&ctx.collection_mint.key) {
        Some((a, _)) => {
            if a != ctx.collection_metadata.key {
                return Err(ErrorCode::InvalidCollectionMetadataAccount);
            }
        },
        None => return Err(ErrorCode::InvalidCollectionMetadataAccount),
    }
    Ok(ExternalCall::SetUpdateAuthority {
        metadata: ctx.collection_metadata.key,
        authority: ctx.auth.key,
        new_update_authority: *new_update_authority,
    })
}

/// A namespace's configuration is created once: after `initialize` has
/// succeeded, its configuration account holds the record it created, and a
/// second `initialize` for the same namespace is refused; when the second
/// call is otherwise in order, it is refused because the account is in use.
pub proof fn lemma_initialize_once(
    ctx1: Initialize,
    ctx2: Initialize,
    program_id: Address,
    namespace: Address,
    allowed1: Seq<Address>,
    allowed2: Seq<Address>,
    config_rent: u64,
    auth_rent: u64,
    c1: CreatedConfig,
)
    requires
        spec_initialize_error(ctx1, program_id, namespace, allowed1) is None,
        spec_created(program_id, ctx1.payer.key, ctx1.config.key, ctx1.auth.key, ctx1.authority.key, namespace,
            spec_pair_bumps(program_id, namespace, ctx1.config.key, ctx1.auth.key)->Some_0, 0, false,
            config_rent, auth_rent, c1),
        ctx2.config.key == ctx1.config.key,
        ctx2.config.data_len as int == (c1.calls@[0]->CreateAccount_space) as int,
    ensures
        c1.calls@[0]->CreateAccount_account == ctx1.config.key,
        spec_initialize_error(ctx2, program_id, namespace, allowed2) is Some,
        ctx2.authority.is_signer && ctx2.payer.is_signer && ctx2.system_program.key.bytes@ == spec_system_program_id()
            && ctx2.auth.key == ctx1.auth.key
            ==> spec_initialize_error(ctx2, program_id, namespace, allowed2) == Some(ErrorCode::AccountAlreadyInUse),
{
}

} // verus!

//! The owner-update instruction: a holder of an object's token rewrites its
//! manifest's hash, URI and active flag and pushes the URI to the metadata
//! record.
use crate::accounts::{AccountState, Auth, Config, CreatorInput, ManifestUpdated};
use crate::address::Address;
use crate::calls::ExternalCall;
use crate::collection::{metadata_details_present, metadata_is_decodable};
use crate::error::ErrorCode;
use crate::mint::{spec_mint_outcome, MintEnvironment, MintObjectNft};
use crate::manifest::{bytes32_eq, owner_update, spec_owner_updated, str_bytes, ObjectManifest, MAX_URI_LENGTH};
use crate::programs::{
    auth_address, config_address, instructions_sysvar_id, manifest_address, metadata_address,
    rent_sysvar_id, spec_auth_address, spec_config_address, spec_instructions_sysvar_id,
    spec_manifest_address, spec_metadata_address, spec_rent_sysvar_id, spec_token_metadata_program_id,
    token_metadata_program_id,
};
use vstd::prelude::*;

verus! {

/// The fields of a token account the update reads.
#[derive(Clone, Copy, Debug)]
pub struct TokenAccountFields {
    pub mint: Address,
    pub owner: Address,
    pub amount: u64,
}

/// Accounts of `update_object_manifest`.
#[derive(Clone, Copy, Debug)]
pub struct UpdateObjectManifest {
    pub owner: AccountState,
    pub config: AccountState,
    pub config_data: Config,
    pub auth: AccountState,
    pub auth_data: Auth,
    pub object_manifest: AccountState,
    pub manifest_record: ObjectManifest,
    pub object_mint: AccountState,
    pub owner_token_account: AccountState,
    pub owner_token: TokenAccountFields,
    pub object_metadata: AccountState,
    pub metadata_program: AccountState,
    pub rent: AccountState,
    pub instructions: Option<AccountState>,
}

/// What a successful owner update writes and asks for.
#[derive(Clone, Debug)]
pub struct UpdateOutcome {
    pub manifest: ObjectManifest,
    /// Rewrites the metadata record's URI to `uri`.
    pub call: ExternalCall,
    /// The URI the metadata record takes.
    pub uri: Vec<u8>,
    pub event: ManifestUpdated,
}

/// Why the named accounts of an owner update are refused before it runs: the
/// owner must sign, the configuration and auth record must sit at their
/// derived addresses and the auth record must name the configuration.
pub open spec fn spec_update_context_error(ctx: UpdateObjectManifest, program_id: Address) -> Option<ErrorCode> {
    if !ctx.owner.is_signer {
        Some(ErrorCode::MissingRequiredSignature)
    } else if !(spec_config_address(program_id.bytes@, ctx.config_data.namespace.bytes@) matches Some((a, bump))
        && a == ctx.config.key.bytes@ && bump == ctx.config_data.config_bump) {
        Some(ErrorCode::InvalidConfig)
    } else if !(spec_auth_address(program_id.bytes@, ctx.config.key.bytes@) matches Some((a, bump))
        && a == ctx.auth.key.bytes@ && bump == ctx.config_data.auth_bump) {
        Some(ErrorCode::InvalidConfig)
    } else if ctx.auth_data.config.bytes@ != ctx.config.key.bytes@ {
        Some(ErrorCode::InvalidConfig)
    } else {
        None
    }
}

/// Why an owner update is refused, if it is. Once the object is minted its
/// hash is fixed. The pause flag plays no part.
pub open spec fn spec_update_error(
    ctx: UpdateObjectManifest,
    program_id: Address,
    metadata_data: Seq<u8>,
    hash: Seq<u8>,
    uri: Seq<u8>,
) -> Option<ErrorCode> {
    let m = ctx.manifest_record;
    if spec_update_context_error(ctx, program_id) is Some {
        spec_update_context_error(ctx, program_id)
    } else if uri.len() > MAX_URI_LENGTH {
        Some(ErrorCode::UriTooLong)
    } else if ctx.owner_token.owner.bytes@ != ctx.owner.key.bytes@ {
        Some(ErrorCode::InvalidOwnerTokenAccount)
    } else if ctx.owner_token.mint.bytes@ != ctx.object_mint.key.bytes@ {
        Some(ErrorCode::MintMismatch)
    } else if ctx.owner_token.amount == 0 {
        Some(ErrorCode::OwnerDoesNotHoldObjectNft)
    } else if ctx.metadata_program.key.bytes@ != spec_token_metadata_program_id() {
        Some(ErrorCode::InvalidTokenMetadataProgram)
    } else if ctx.rent.key.bytes@ != spec_rent_sysvar_id() {
        Some(ErrorCode::InvalidRentSysvar)
    } else if ctx.instructions matches Some(ix) && ix.key.bytes@ != spec_instructions_sysvar_id() {
        Some(ErrorCode::InvalidInstructionsSysvar)
    } else if !m.spec_initialized() {
        Some(ErrorCode::ManifestNotInitialized)
    } else if m.config.bytes@ != ctx.config.key.bytes@ {
        Some(ErrorCode::InvalidConfig)
    } else if !(spec_manifest_address(program_id.bytes@, ctx.config.key.bytes@, m.object_id) matches Some((a, bump))
        && a == ctx.object_manifest.key.bytes@ && bump == m.bump) {
        Some(ErrorCode::InvalidConfig)
    } else if m.mint.bytes@ != ctx.object_mint.key.bytes@ {
        Some(ErrorCode::MintMismatch)
    } else if m.spec_minted() && hash != m.manifest_hash@ {
        Some(ErrorCode::ManifestMismatch)
    } else if !(spec_metadata_address(ctx.object_mint.key.bytes@) matches Some((a, _)) && a == ctx.object_metadata.key.bytes@) {
        Some(ErrorCode::InvalidMetadataAccount)
    } else if metadata_details_present(metadata_data) is None {
        Some(ErrorCode::InvalidMetadataAccount)
    } else {
        None
    }
}

fn check_update_context(ctx: &UpdateObjectManifest, program_id: &Address) -> (r: Result<(), ErrorCode>)
    ensures
        match r {
            Ok(_) => spec_update_context_error(*ctx, *program_id) is None,
            Err(e) => spec_update_context_error(*ctx, *program_id) == Some(e),
        },
{
    if !ctx.owner.is_signer {
        return Err(ErrorCode::MissingRequiredSignature);
    }
    match config_address(program_id, &ctx.config_data.namespace) {
        Some((a, bump)) => {
            if !(a == ctx.config.key && bump == ctx.config_data.config_bump) {
                return Err(ErrorCode::InvalidConfig);
            }
        },
        None => return Err(ErrorCode::InvalidConfig),
    }
    match auth_address(program_id, &ctx.config.key) {
        Some((a, bump)) => {
            if !(a == ctx.auth.key && bump == ctx.config_data.auth_bump) {
                return Err(ErrorCode::InvalidConfig);
            }
        },
        None => return Err(ErrorCode::InvalidConfig),
    }
    if ctx.auth_data.config != ctx.config.key {
        return Err(ErrorCode::InvalidConfig);
    }
    Ok(())
}

/// Rewrites the manifest's hash, URI and active flag for a holder of the
/// object's token, and asks the metadata registry to take the new URI.
pub fn update_object_manifest(
    ctx: &UpdateObjectManifest,
    program_id: &Address,
    metadata_data: &[u8],
    manifest_hash: [u8; 32],
    metadata_uri: &str,
    is_active: bool,
) -> (r: Result<UpdateOutcome, ErrorCode>)
    ensures
        match r {
            Err(e) => spec_update_error(*ctx, *program_id, metadata_data@, manifest_hash@, str_bytes(metadata_uri)) == Some(e),
            Ok(o) => {
                &&& spec_update_error(*ctx, *program_id, metadata_data@, manifest_hash@, str_bytes(metadata_uri)) is None
                &&& spec_owner_updated(ctx.manifest_record, o.manifest, manifest_hash@, str_bytes(metadata_uri), is_active)
                &&& o.call == (ExternalCall::UpdateMetadataUri { metadata: ctx.object_metadata.key, authority: ctx.auth.key })
                &&& o.uri@ == str_bytes(metadata_uri)
                &&& o.event == (ManifestUpdated {
                    config: ctx.manifest_record.config,
                    manifest: ctx.object_manifest.key,
                    mint: ctx.manifest_record.mint,
                    object_id: ctx.manifest_record.object_id,
                    is_active,
                })
            },
        },
{
    check_update_context(ctx, program_id)?;
    let uri = metadata_uri.as_bytes();
    if uri.len() > MAX_URI_LENGTH {
        return Err(ErrorCode::UriTooLong);
    }
    if ctx.owner_token.owner != ctx.owner.key {
        return Err(ErrorCode::InvalidOwnerTokenAccount);
    }
    if ctx.owner_token.mint != ctx.object_mint.key {
        return Err(ErrorCode::MintMismatch);
    }
    if ctx.owner_token.amount == 0 {
        return Err(ErrorCode::OwnerDoesNotHoldObjectNft);
    }
    if ctx.metadata_program.key != token_metadata_program_id() {
        return Err(ErrorCode::InvalidTokenMetadataProgram);
    }
    if ctx.rent.key != rent_sysvar_id() {
        return Err(ErrorCode::InvalidRentSysvar);
    }
    match ctx.instructions {
        Some(ix) => {
            if ix.key != instructions_sysvar_id() {
                return Err(ErrorCode::InvalidInstructionsSysvar);
            }
        },
        None => {},
    }
    let m = &ctx.manifest_record;
    if !m.initialized() {
        return Err(ErrorCode::ManifestNotInitialized);
    }
    if m.config != ctx.config.key {
        return Err(ErrorCode::InvalidConfig);
    }
    match manifest_address(program_id, &ctx.config.key, m.object_id) {
        Some((a, bump)) => {
            if !(a == ctx.object_manifest.key && bump == m.bump) {
                return Err(ErrorCode::InvalidConfig);
            }
        },
        None => return Err(ErrorCode::InvalidConfig),
    }
    if m.mint != ctx.object_mint.key {
        return Err(ErrorCode::MintMismatch);
    }
    if m.minted() && !bytes32_eq(&m.manifest_hash, &manifest_hash) {
        return Err(ErrorCode::ManifestMismatch);
    }
    match metadata_address(&ctx.object_mint.key) {
        Some((a, _)) => {
            if a != ctx.object_metadata.key {
                return Err(ErrorCode::InvalidMetadataAccount);
            }
        },
        None => return Err(ErrorCode::InvalidMetadataAccount),
    }
    let manifest = owner_update(m, &manifest_hash, uri, is_active);
    let new_uri = manifest.metadata_uri_bytes();
    if !metadata_is_decodable(metadata_data) {
        return Err(ErrorCode::InvalidMetadataAccount);
    }
    Ok(UpdateOutcome {
        manifest,
        call: ExternalCall::UpdateMetadataUri { metadata: ctx.object_metadata.key, authority: ctx.auth.key },
        uri: new_uri,
        event: ManifestUpdated {
            config: m.config,
            manifest: ctx.object_manifest.key,
            mint: m.mint,
            object_id: m.object_id,
            is_active,
        },
    })
}

/// An owner update is refused when the caller's token account holds none of
/// the object's mint.
pub proof fn lemma_update_requires_holding(
    ctx: UpdateObjectManifest,
    program_id: Address,
    metadata_data: Seq<u8>,
    hash: Seq<u8>,
    uri: Seq<u8>,
)
    requires
        ctx.owner_token.amount == 0,
    ensures
        spec_update_error(ctx, program_id, metadata_data, hash, uri) is Some,
{
}

/// The pause flag does not gate owner updates: with the flag set either way,
/// the update is refused or accepted alike.
pub proof fn lemma_update_ignores_pause(
    ctx: UpdateObjectManifest,
    program_id: Address,
    metadata_data: Seq<u8>,
    hash: Seq<u8>,
    uri: Seq<u8>,
    paused: bool,
)
    ensures
        spec_update_error(
            UpdateObjectManifest { config_data: Config { paused, ..ctx.config_data }, ..ctx },
            program_id,
            metadata_data,
            hash,
            uri,
        ) == spec_update_error(ctx, program_id, metadata_data, hash, uri),
{
}

/// Once an object is minted, an owner update with another hash is refused and
/// leaves the manifest as it was.
pub proof fn lemma_minted_hash_fixed(
    ctx: UpdateObjectManifest,
    program_id: Address,
    metadata_data: Seq<u8>,
    hash: Seq<u8>,
    uri: Seq<u8>,
)
    requires
        ctx.manifest_record.spec_minted(),
        hash != ctx.manifest_record.manifest_hash@,
    ensures
        spec_update_error(ctx, program_id, metadata_data, hash, uri) is Some,
{
}

/// A manifest first written by a successful mint, and kept in its bindings by
/// later mints and owner updates, re-derives on the update path: its stored
/// configuration and object id give back the manifest's address and stored
/// bump, and its stored mint is the mint derived from that address with its
/// stored bump. So an owner update over the same accounts passes the
/// address, configuration and mint checks of the manifest.
pub proof fn lemma_update_rederives(
    mctx: MintObjectNft,
    menv: MintEnvironment,
    rem: Seq<AccountState>,
    object_id: u64,
    uri: Seq<u8>,
    hash: Seq<u8>,
    name: Seq<u8>,
    symbol: Seq<u8>,
    fee: u16,
    creators: Seq<CreatorInput>,
    o: crate::mint::MintOutcome,
    ctx: UpdateObjectManifest,
)
    requires
        spec_mint_outcome(mctx, menv, rem, object_id, uri, hash, name, symbol, fee, creators, o),
        !menv.manifest_record.spec_initialized(),
        ctx.manifest_record.same_binding(&o.manifest),
        ctx.config.key == mctx.base.config.key,
        ctx.object_manifest.key == mctx.base.object_manifest.key,
        ctx.object_mint.key == mctx.base.object_mint.key,
    ensures
        ctx.manifest_record.config.bytes@ == ctx.config.key.bytes@,
        spec_manifest_address(menv.program_id.bytes@, ctx.config.key.bytes@, ctx.manifest_record.object_id)
            == Some((ctx.object_manifest.key.bytes@, ctx.manifest_record.bump)),
        crate::programs::spec_mint_address(menv.program_id.bytes@, ctx.object_manifest.key.bytes@)
            == Some((ctx.manifest_record.mint.bytes@, ctx.manifest_record.mint_bump)),
        ctx.manifest_record.mint.bytes@ == ctx.object_mint.key.bytes@,
{
    crate::mint::lemma_minted_manifest_rederives(mctx, menv, rem, object_id, uri, hash, name, symbol, fee, creators, o);
}

} // verus!

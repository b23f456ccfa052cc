//! The mint instruction: validates the accounts, provisions them, transitions
//! the manifest and lays out the calls into the token ledger and the metadata
//! registry.
use crate::accounts::{AccountState, Auth, Config, CreatorInput, MetadataCreator, ObjectMinted, PauseStatusUpdated};
use crate::address::{derived_view, Address};
use crate::calls::{creation_count, lemma_creation_count_concat, lemma_creation_count_zero, ExternalCall};
use crate::collection::{is_sized_collection, spec_is_sized_collection};
use crate::error::ErrorCode;
use crate::manifest::{spec_touch_error, spec_touched, str_bytes, touch_manifest, ObjectManifest};
use crate::programs::{
    associated_token_program_id, auth_address, config_address, spec_associated_token_program_id,
    spec_auth_address, spec_config_address, spec_system_program_id, system_program_id,
    associated_token_address, instructions_sysvar_id, manifest_address, master_edition_address,
    metadata_address, mint_address, rent_sysvar_id, spec_associated_token_address,
    spec_instructions_sysvar_id, spec_manifest_address, spec_master_edition_address,
    spec_metadata_address, spec_mint_address, spec_rent_sysvar_id, spec_token_metadata_program_id,
    spec_token_program_id, token_metadata_program_id, token_program_id,
};
use crate::provision::{
    ensure_object_manifest_account, ensure_object_mint_account, ensure_recipient_token_account,
    spec_ensure_object_manifest_account, spec_ensure_object_mint_account,
    spec_ensure_recipient_token_account,
};
use vstd::prelude::*;
use vstd::slice::slice_to_vec;
use vstd::string::StringSliceAdditionalSpecFns;

verus! {

/// Longest metadata name the registry takes, in bytes.
pub const MAX_NAME_LENGTH: usize = 32;

/// Longest metadata symbol the registry takes, in bytes.
pub const MAX_SYMBOL_LENGTH: usize = 10;

/// Most creators a metadata record holds.
pub const MAX_CREATOR_LIMIT: usize = 5;

/// Largest royalty, in basis points.
pub const MAX_SELLER_FEE_BASIS_POINTS: u16 = 10000;

/// Sum the creator shares must reach.
pub const CREATOR_TOTAL_SHARE: u16 = 100;

/// The fixed accounts of a mint.
#[derive(Clone, Copy, Debug)]
pub struct MintObjectNftBase {
    pub authority: AccountState,
    pub config: AccountState,
    pub config_data: Config,
    pub auth: AccountState,
    pub auth_data: Auth,
    pub payer: AccountState,
    pub object_manifest: AccountState,
    pub object_mint: AccountState,
    pub recipient_token_account: AccountState,
    pub recipient: AccountState,
    pub token_program: AccountState,
    pub associated_token_program: AccountState,
    pub system_program: AccountState,
}

/// The metadata-registry accounts of a mint.
#[derive(Clone, Copy, Debug)]
pub struct MintObjectNftMetadata {
    pub metadata: AccountState,
    pub master_edition: AccountState,
    pub collection_mint: AccountState,
    pub token_metadata_program: AccountState,
}

/// All named accounts of a mint.
#[derive(Clone, Copy, Debug)]
pub struct MintObjectNft {
    pub base: MintObjectNftBase,
    pub metadata: MintObjectNftMetadata,
}

/// What the runtime read for a mint besides the named accounts.
#[derive(Clone, Debug)]
pub struct MintEnvironment {
    /// This program's id.
    pub program_id: Address,
    /// The record after the manifest account's 8-byte tag, read as if the
    /// account were already grown to its full size; all zero for an empty account.
    pub manifest_record: ObjectManifest,
    /// Raw data of the recipient's token account; empty if it does not exist.
    pub recipient_token_data: Vec<u8>,
    /// Raw data of the collection's metadata record.
    pub collection_metadata_data: Vec<u8>,
    /// Rent-exempt minimum for a manifest account.
    pub manifest_rent: u64,
    /// Rent-exempt minimum for a mint record.
    pub mint_rent: u64,
}

/// The trailing accounts of a mint, split.
#[derive(Clone, Copy, Debug)]
pub struct RemainingAccounts {
    pub collection_metadata: AccountState,
    pub collection_master_edition: AccountState,
    pub rent_sysvar: AccountState,
    pub instructions_sysvar: Option<AccountState>,
    /// Index of the first creator account.
    pub creators_start: usize,
}

/// What a successful mint writes and asks for.
#[derive(Clone, Debug)]
pub struct MintOutcome {
    /// The configuration after the mint.
    pub config: Config,
    /// The manifest record after the mint; the account holds its type tag
    /// first.
    pub manifest: ObjectManifest,
    /// Whether the object had not been minted before this call.
    pub first_mint: bool,
    /// The calls to make, in order.
    pub calls: Vec<ExternalCall>,
    /// The creators handed to the metadata record, if one is created.
    pub metadata_creators: Vec<MetadataCreator>,
    /// The name handed to the metadata record, if one is created.
    pub metadata_name: Vec<u8>,
    /// The symbol handed to the metadata record, if one is created.
    pub metadata_symbol: Vec<u8>,
    /// The URI handed to the metadata record, if one is created: the
    /// manifest's stored URI.
    pub metadata_uri: Vec<u8>,
    /// The notification to emit.
    pub event: ObjectMinted,
}

pub open spec fn spec_metadata_remaining_accounts(rem: Seq<AccountState>) -> Result<RemainingAccounts, ErrorCode> {
    if rem.len() < 3 {
        Err(ErrorCode::MissingMintMetadataAccounts)
    } else {
        let ix = rem.len() > 3 && rem[3].key.bytes@ == spec_instructions_sysvar_id();
        Ok(RemainingAccounts {
            collection_metadata: rem[0],
            collection_master_edition: rem[1],
            rent_sysvar: rem[2],
            instructions_sysvar: if ix { Some(rem[3]) } else { None },
            creators_start: if ix { 4 } else { 3 },
        })
    }
}

/// Splits the trailing accounts: collection metadata, collection master
/// edition, rent sysvar, the instructions sysvar if it comes next, then the
/// creator accounts.
pub fn metadata_remaining_accounts(rem: &Vec<AccountState>) -> (r: Result<RemainingAccounts, ErrorCode>)
    ensures
        r == spec_metadata_remaining_accounts(rem@),
{
    if rem.len() < 3 {
        return Err(ErrorCode::MissingMintMetadataAccounts);
    }
    let ixs = instructions_sysvar_id();
    let ix = rem.len() > 3 && rem[3].key == ixs;
    Ok(RemainingAccounts {
        collection_metadata: rem[0],
        collection_master_edition: rem[1],
        rent_sysvar: rem[2],
        instructions_sysvar: if ix { Some(rem[3]) } else { None },
        creators_start: if ix { 4 } else { 3 },
    })
}

/// `a` signed the transaction: it is the payer or a signing creator account.
pub open spec fn spec_is_signer(payer: Address, rem: Seq<AccountState>, start: int, a: Address) -> bool {
    a.bytes@ == payer.bytes@ || exists|k: int| start <= k < rem.len() && rem[k].is_signer && rem[k].key.bytes@ == a.bytes@
}

fn is_signer(payer: &Address, rem: &Vec<AccountState>, start: usize, a: &Address) -> (r: bool)
    ensures
        r == spec_is_signer(*payer, rem@, start as int, *a),
{
    if *payer == *a {
        return true;
    }
    let mut k: usize = start;
    while k < rem.len()
        invariant
            start <= k,
            forall|j: int| start <= j < k && j < rem@.len() ==> !(rem@[j].is_signer && rem@[j].key.bytes@ == a.bytes@),
            a.bytes@ != payer.bytes@,
        decreases rem.len() - k,
    {
        if rem[k].is_signer && rem[k].key == *a {
            assert(start <= k < rem@.len() && rem@[k as int].is_signer && rem@[k as int].key.bytes@ == a.bytes@);
            return true;
        }
        k = k + 1;
    }
    false
}

pub open spec fn share_total(c: Seq<CreatorInput>) -> int
    decreases c.len(),
{
    if c.len() == 0 {
        0
    } else {
        share_total(c.drop_last()) + c.last().share
    }
}

pub open spec fn includes_creator(c: Seq<CreatorInput>, a: Address) -> bool {
    exists|k: int| 0 <= k < c.len() && c[k].address.bytes@ == a.bytes@
}

/// Some creator claims to be verified without having signed.
pub open spec fn unsigned_verified(c: Seq<CreatorInput>, payer: Address, rem: Seq<AccountState>, start: int) -> bool {
    exists|k: int| 0 <= k < c.len() && c[k].verified && !spec_is_signer(payer, rem, start, c[k].address)
}

/// The creators handed to the metadata registry: a creator stays verified
/// only if it signed.
pub open spec fn spec_metadata_creators(c: Seq<CreatorInput>, payer: Address, rem: Seq<AccountState>, start: int) -> Seq<MetadataCreator> {
    c.map_values(|x: CreatorInput| MetadataCreator {
        address: x.address,
        verified: x.verified && spec_is_signer(payer, rem, start, x.address),
        share: x.share,
    })
}

/// Why the first-mint checks refuse the metadata arguments, if they do.
pub open spec fn spec_first_mint_error(
    md: MintObjectNftMetadata,
    collection_metadata: AccountState,
    collection_master_edition: AccountState,
    mint: Address,
    name: Seq<u8>,
    symbol: Seq<u8>,
    fee: u16,
    creators: Seq<CreatorInput>,
    manifest_creator: Address,
    payer: Address,
    rem: Seq<AccountState>,
    start: int,
) -> Option<ErrorCode> {
    if name.len() > MAX_NAME_LENGTH {
        Some(ErrorCode::MetadataNameTooLong)
    } else if symbol.len() > MAX_SYMBOL_LENGTH {
        Some(ErrorCode::MetadataSymbolTooLong)
    } else if creators.len() == 0 {
        Some(ErrorCode::InvalidCreatorShareDistribution)
    } else if creators.len() > MAX_CREATOR_LIMIT {
        Some(ErrorCode::TooManyCreators)
    } else if fee > MAX_SELLER_FEE_BASIS_POINTS {
        Some(ErrorCode::InvalidSellerFeeBasisPoints)
    } else if md.token_metadata_program.key.bytes@ != spec_token_metadata_program_id() {
        Some(ErrorCode::InvalidTokenMetadataProgram)
    } else if share_total(creators) != CREATOR_TOTAL_SHARE {
        Some(ErrorCode::InvalidCreatorShareDistribution)
    } else if !includes_creator(creators, manifest_creator) {
        Some(ErrorCode::MissingManifestCreator)
    } else if !(spec_metadata_address(mint.bytes@) matches Some((a, _)) && a == md.metadata.key.bytes@) {
        Some(ErrorCode::InvalidMetadataAccount)
    } else if !(spec_master_edition_address(mint.bytes@) matches Some((a, _)) && a == md.master_edition.key.bytes@) {
        Some(ErrorCode::InvalidMasterEditionAccount)
    } else if !(spec_metadata_address(md.collection_mint.key.bytes@) matches Some((a, _))
        && a == collection_metadata.key.bytes@) {
        Some(ErrorCode::InvalidCollectionMetadataAccount)
    } else if !(spec_master_edition_address(md.collection_mint.key.bytes@) matches Some((a, _))
        && a == collection_master_edition.key.bytes@) {
        Some(ErrorCode::InvalidCollectionMasterEditionAccount)
    } else if unsigned_verified(creators, payer, rem, start) {
        Some(ErrorCode::CreatorMustSign)
    } else {
        None
    }
}

fn matches_derived(d: Option<(Address, u8)>, key: &Address) -> (r: bool)
    ensures
        r == (derived_view(d) matches Some((a, _)) && a == key.bytes@),
{
    match d {
        Some((a, _)) => a == *key,
        None => false,
    }
}

/// The checks a first mint makes before it creates the metadata record, and
/// the creators it then hands over.
#[verifier::loop_isolation(false)]
pub fn validate_first_mint(
    md: &MintObjectNftMetadata,
    collection_metadata: &AccountState,
    collection_master_edition: &AccountState,
    mint: &Address,
    name: &str,
    symbol: &str,
    fee: u16,
    creators: &Vec<CreatorInput>,
    manifest_creator: &Address,
    payer: &Address,
    rem: &Vec<AccountState>,
    start: usize,
) -> (r: Result<Vec<MetadataCreator>, ErrorCode>)
    ensures
        match r {
            Ok(c) => spec_first_mint_error(*md, *collection_metadata, *collection_master_edition, *mint,
                str_bytes(name), str_bytes(symbol), fee, creators@, *manifest_creator, *payer, rem@, start as int) is None
                && c@ == spec_metadata_creators(creators@, *payer, rem@, start as int),
            Err(e) => spec_first_mint_error(*md, *collection_metadata, *collection_master_edition, *mint,
                str_bytes(name), str_bytes(symbol), fee, creators@, *manifest_creator, *payer, rem@, start as int) == Some(e),
        },
{
    if name.as_bytes().len() > MAX_NAME_LENGTH {
        return Err(ErrorCode::MetadataNameTooLong);
    }
    if symbol.as_bytes().len() > MAX_SYMBOL_LENGTH {
        return Err(ErrorCode::MetadataSymbolTooLong);
    }
    if creators.len() == 0 {
        return Err(ErrorCode::InvalidCreatorShareDistribution);
    }
    if creators.len() > MAX_CREATOR_LIMIT {
        return Err(ErrorCode::TooManyCreators);
    }
    if fee > MAX_SELLER_FEE_BASIS_POINTS {
        return Err(ErrorCode::InvalidSellerFeeBasisPoints);
    }
    if md.token_metadata_program.key != token_metadata_program_id() {
        return Err(ErrorCode::InvalidTokenMetadataProgram);
    }
    let mut total: u16 = 0;
    let mut found = false;
    let mut i: usize = 0;
    while i < creators.len()
        invariant
            creators@.len() <= MAX_CREATOR_LIMIT,
            i <= creators@.len(),
            total as int == share_total(creators@.subrange(0, i as int)),
            total as int <= 255 * i,
            found == exists|k: int| 0 <= k < i && creators@[k].address.bytes@ == manifest_creator.bytes@,
        decreases creators.len() - i,
    {
        assert(creators@.subrange(0, i + 1).drop_last() =~= creators@.subrange(0, i as int));
        total = total + creators[i].share as u16;
        if creators[i].address == *manifest_creator {
            found = true;
        }
        i = i + 1;
    }
    assert(creators@.subrange(0, creators@.len() as int) =~= creators@);
    if total != CREATOR_TOTAL_SHARE {
        return Err(ErrorCode::InvalidCreatorShareDistribution);
    }
    if !found {
        return Err(ErrorCode::MissingManifestCreator);
    }
    if !matches_derived(metadata_address(mint), &md.metadata.key) {
        return Err(ErrorCode::InvalidMetadataAccount);
    }
    if !matches_derived(master_edition_address(mint), &md.master_edition.key) {
        return Err(ErrorCode::InvalidMasterEditionAccount);
    }
    if !matches_derived(metadata_address(&md.collection_mint.key), &collection_metadata.key) {
        return Err(ErrorCode::InvalidCollectionMetadataAccount);
    }
    if !matches_derived(master_edition_address(&md.collection_mint.key), &collection_master_edition.key) {
        return Err(ErrorCode::InvalidCollectionMasterEditionAccount);
    }
    let mut out: Vec<MetadataCreator> = Vec::new();
    let mut j: usize = 0;
    while j < creators.len()
        invariant
            j <= creators@.len(),
            forall|k: int| 0 <= k < j ==> !(creators@[k].verified && !spec_is_signer(*payer, rem@, start as int, creators@[k].address)),
            out@ =~= spec_metadata_creators(creators@.subrange(0, j as int), *payer, rem@, start as int),
        decreases creators.len() - j,
    {
        let c = creators[j];
        let signed = is_signer(payer, rem, start, &c.address);
        if c.verified && !signed {
            return Err(ErrorCode::CreatorMustSign);
        }
        out.push(MetadataCreator { address: c.address, verified: c.verified && signed, share: c.share });
        j = j + 1;
    }
    assert(creators@.subrange(0, creators@.len() as int) =~= creators@);
    Ok(out)
}

/// Why the named accounts of a mint are refused before the instruction runs:
/// the configuration must sit at its derived address with its stored bump, the
/// authority account must be the stored authority, the auth record must sit
/// at its derived address and name the configuration, the payer must sign, and
/// the three program accounts must be the token ledger, the associated token
/// account program and the system program.
pub open spec fn spec_context_error(ctx: MintObjectNft, program_id: Address) -> Option<ErrorCode> {
    let b = ctx.base;
    if !(spec_config_address(program_id.bytes@, b.config_data.namespace.bytes@) matches Some((a, bump))
        && a == b.config.key.bytes@ && bump == b.config_data.config_bump) {
        Some(ErrorCode::InvalidConfig)
    } else if b.config_data.authority.bytes@ != b.authority.key.bytes@ {
        Some(ErrorCode::InvalidAuthority)
    } else if !(spec_auth_address(program_id.bytes@, b.config.key.bytes@) matches Some((a, bump))
        && a == b.auth.key.bytes@ && bump == b.config_data.auth_bump) {
        Some(ErrorCode::InvalidConfig)
    } else if b.auth_data.config.bytes@ != b.config.key.bytes@ {
        Some(ErrorCode::InvalidConfig)
    } else if !b.payer.is_signer {
        Some(ErrorCode::MissingRequiredSignature)
    } else if b.token_program.key.bytes@ != spec_token_program_id()
        || b.associated_token_program.key.bytes@ != spec_associated_token_program_id()
        || b.system_program.key.bytes@ != spec_system_program_id() {
        Some(ErrorCode::InvalidProgramId)
    } else {
        None
    }
}

fn check_context(ctx: &MintObjectNft, program_id: &Address) -> (r: Result<(), ErrorCode>)
    ensures
        match r {
            Ok(_) => spec_context_error(*ctx, *program_id) is None,
            Err(e) => spec_context_error(*ctx, *program_id) == Some(e),
        },
{
    let b = &ctx.base;
    match config_address(program_id, &b.config_data.namespace) {
        Some((a, bump)) => {
            if !(a == b.config.key && bump == b.config_data.config_bump) {
                return Err(ErrorCode::InvalidConfig);
            }
        },
        None => {
            return Err(ErrorCode::InvalidConfig);
        },
    }
    if b.config_data.authority != b.authority.key {
        return Err(ErrorCode::InvalidAuthority);
    }
    match auth_address(program_id, &b.config.key) {
        Some((a, bump)) => {
            if !(a == b.auth.key && bump == b.config_data.auth_bump) {
                return Err(ErrorCode::InvalidConfig);
            }
        },
        None => {
            return Err(ErrorCode::InvalidConfig);
        },
    }
    if b.auth_data.config != b.config.key {
        return Err(ErrorCode::InvalidConfig);
    }
    if !b.payer.is_signer {
        return Err(ErrorCode::MissingRequiredSignature);
    }
    if b.token_program.key != token_program_id() || b.associated_token_program.key != associated_token_program_id()
        || b.system_program.key != system_program_id() {
        return Err(ErrorCode::InvalidProgramId);
    }
    Ok(())
}

/// Why the recipient's token account does not hold `mint` for `recipient`,
/// if it does not. An account created by this mint holds them by construction;
/// an existing one has the mint in its first 32 bytes and the owner in the next 32.
pub open spec fn spec_token_fields_error(rta: AccountState, data: Seq<u8>, mint: Address, recipient: Address) -> Option<ErrorCode> {
    if rta.data_len == 0 {
        None
    } else if data.len() < 64 {
        Some(ErrorCode::InvalidRecipientTokenAccount)
    } else if data.subrange(0, 32) != mint.bytes@ {
        Some(ErrorCode::MintMismatch)
    } else if data.subrange(32, 64) != recipient.bytes@ {
        Some(ErrorCode::RecipientMismatch)
    } else {
        None
    }
}

fn range_equals(data: &Vec<u8>, start: usize, a: &Address) -> (r: bool)
    requires
        start + 32 <= data@.len(),
    ensures
        r == (data@.subrange(start as int, start + 32) == a.bytes@),
{
    let dlen = data.len();
    let mut i: usize = 0;
    while i < 32
        invariant
            dlen == data@.len(),
            start + 32 <= data@.len(),
            i <= 32,
            forall|j: int| 0 <= j < i ==> data@[start + j] == a.bytes@[j],
        decreases 32 - i,
    {
        if data[start + i] != a.bytes[i] {
            assert(data@.subrange(start as int, start + 32)[i as int] != a.bytes@[i as int]);
            return false;
        }
        i = i + 1;
    }
    assert(data@.subrange(start as int, start + 32) =~= a.bytes@);
    true
}

fn check_token_fields(rta: &AccountState, data: &Vec<u8>, mint: &Address, recipient: &Address) -> (r: Result<(), ErrorCode>)
    ensures
        match r {
            Ok(_) => spec_token_fields_error(*rta, data@, *mint, *recipient) is None,
            Err(e) => spec_token_fields_error(*rta, data@, *mint, *recipient) == Some(e),
        },
{
    if rta.data_len == 0 {
        return Ok(());
    }
    if data.len() < 64 {
        return Err(ErrorCode::InvalidRecipientTokenAccount);
    }
    if !range_equals(data, 0, mint) {
        return Err(ErrorCode::MintMismatch);
    }
    if !range_equals(data, 32, recipient) {
        return Err(ErrorCode::RecipientMismatch);
    }
    Ok(())
}

pub open spec fn err_of<T>(r: Result<T, ErrorCode>) -> Option<ErrorCode> {
    match r {
        Ok(_) => None,
        Err(e) => Some(e),
    }
}

/// Why a mint is refused, if it is: the named accounts, the trailing
/// accounts, the pause flag, the derived manifest, mint and token-account
/// addresses and their provisioning, the manifest transition, the token
/// account's fields and, on a first mint, the metadata arguments and the
/// collection record, in that order.
pub open spec fn spec_mint_error(
    ctx: MintObjectNft,
    env: MintEnvironment,
    rem: Seq<AccountState>,
    object_id: u64,
    uri: Seq<u8>,
    hash: Seq<u8>,
    name: Seq<u8>,
    symbol: Seq<u8>,
    fee: u16,
    creators: Seq<CreatorInput>,
) -> Option<ErrorCode> {
    let b = ctx.base;
    let pid = env.program_id;
    if spec_context_error(ctx, pid) is Some {
        spec_context_error(ctx, pid)
    } else {
        match spec_metadata_remaining_accounts(rem) {
            Err(e) => Some(e),
            Ok(ra) => if !ra.collection_metadata.is_writable {
                Some(ErrorCode::InvalidCollectionMetadataAccount)
            } else if !ra.collection_master_edition.is_writable {
                Some(ErrorCode::InvalidCollectionMasterEditionAccount)
            } else if b.config_data.paused {
                Some(ErrorCode::MintingPaused)
            } else {
                match spec_manifest_address(pid.bytes@, b.config.key.bytes@, object_id) {
                    None => Some(ErrorCode::InvalidManifestAccount),
                    Some((ma, _)) => if ma != b.object_manifest.key.bytes@ {
                        Some(ErrorCode::InvalidManifestAccount)
                    } else if err_of(spec_ensure_object_manifest_account(b.object_manifest, b.payer.key, pid, env.manifest_rent)) is Some {
                        err_of(spec_ensure_object_manifest_account(b.object_manifest, b.payer.key, pid, env.manifest_rent))
                    } else {
                        match spec_mint_address(pid.bytes@, ma) {
                            None => Some(ErrorCode::InvalidObjectMintAccount),
                            Some((mi, _)) => if mi != b.object_mint.key.bytes@ {
                                Some(ErrorCode::InvalidObjectMintAccount)
                            } else if ra.rent_sysvar.key.bytes@ != spec_rent_sysvar_id() {
                                Some(ErrorCode::InvalidRentSysvar)
                            } else if err_of(spec_ensure_object_mint_account(b.object_mint, b.payer.key, b.auth.key, b.token_program.key, env.mint_rent)) is Some {
                                err_of(spec_ensure_object_mint_account(b.object_mint, b.payer.key, b.auth.key, b.token_program.key, env.mint_rent))
                            } else {
                                spec_mint_tail_error(ctx, env, rem, ra, object_id, uri, hash, name, symbol, fee, creators)
                            },
                        }
                    },
                }
            },
        }
    }
}

/// The part of `spec_mint_error` after the mint account is in place.
pub open spec fn spec_mint_tail_error(
    ctx: MintObjectNft,
    env: MintEnvironment,
    rem: Seq<AccountState>,
    ra: RemainingAccounts,
    object_id: u64,
    uri: Seq<u8>,
    hash: Seq<u8>,
    name: Seq<u8>,
    symbol: Seq<u8>,
    fee: u16,
    creators: Seq<CreatorInput>,
) -> Option<ErrorCode> {
    let b = ctx.base;
    match spec_associated_token_address(b.recipient.key.bytes@, b.object_mint.key.bytes@) {
        None => Some(ErrorCode::InvalidRecipientTokenAccount),
        Some((ata, _)) => if ata != b.recipient_token_account.key.bytes@ {
            Some(ErrorCode::InvalidRecipientTokenAccount)
        } else if err_of(spec_ensure_recipient_token_account(b.recipient_token_account, b.recipient.key, b.payer.key, b.object_mint.key, b.token_program.key)) is Some {
            err_of(spec_ensure_recipient_token_account(b.recipient_token_account, b.recipient.key, b.payer.key, b.object_mint.key, b.token_program.key))
        } else if spec_touch_error(env.manifest_record, object_id, b.config.key, b.object_mint.key, hash, uri) is Some {
            spec_touch_error(env.manifest_record, object_id, b.config.key, b.object_mint.key, hash, uri)
        } else if spec_token_fields_error(b.recipient_token_account, env.recipient_token_data@, b.object_mint.key, b.recipient.key) is Some {
            spec_token_fields_error(b.recipient_token_account, env.recipient_token_data@, b.object_mint.key, b.recipient.key)
        } else if env.manifest_record.spec_minted() {
            None
        } else {
            let creator = if env.manifest_record.spec_initialized() { env.manifest_record.creator } else { b.payer.key };
            if spec_first_mint_error(ctx.metadata, ra.collection_metadata, ra.collection_master_edition, b.object_mint.key,
                name, symbol, fee, creators, creator, b.payer.key, rem, ra.creators_start as int) is Some {
                spec_first_mint_error(ctx.metadata, ra.collection_metadata, ra.collection_master_edition, b.object_mint.key,
                    name, symbol, fee, creators, creator, b.payer.key, rem, ra.creators_start as int)
            } else {
                err_of(spec_is_sized_collection(env.collection_metadata_data@))
            }
        },
    }
}

/// The collection verification call a first mint makes.
pub open spec fn spec_verify_call(
    sized: bool,
    metadata: Address,
    authority: Address,
    payer: Address,
    collection_mint: Address,
    collection_metadata: Address,
    collection_master_edition: Address,
) -> ExternalCall {
    if sized {
        ExternalCall::VerifySizedCollectionItem {
            metadata,
            authority,
            payer,
            collection_mint,
            collection_metadata,
            collection_master_edition,
        }
    } else {
        ExternalCall::VerifyCollection {
            metadata,
            authority,
            payer,
            collection_mint,
            collection_metadata,
            collection_master_edition,
        }
    }
}

/// The calls of a successful mint: provisioning of the manifest, mint and
/// token accounts; on a first mint the metadata record; one unit minted to the
/// recipient; on a first mint the master edition with no further supply and
/// the collection verification that the collection's sizing selects.
pub open spec fn spec_mint_calls(
    ctx: MintObjectNft,
    env: MintEnvironment,
    rem: Seq<AccountState>,
    fee: u16,
) -> Seq<ExternalCall> {
    let b = ctx.base;
    let md = ctx.metadata;
    let ra = spec_metadata_remaining_accounts(rem)->Ok_0;
    let first = !env.manifest_record.spec_minted();
    spec_ensure_object_manifest_account(b.object_manifest, b.payer.key, env.program_id, env.manifest_rent)->Ok_0
    + spec_ensure_object_mint_account(b.object_mint, b.payer.key, b.auth.key, b.token_program.key, env.mint_rent)->Ok_0
    + spec_ensure_recipient_token_account(b.recipient_token_account, b.recipient.key, b.payer.key, b.object_mint.key, b.token_program.key)->Ok_0
    + (if first {
        seq![ExternalCall::CreateMetadata {
            metadata: md.metadata.key,
            mint: b.object_mint.key,
            authority: b.auth.key,
            payer: b.payer.key,
            collection_mint: md.collection_mint.key,
            seller_fee_basis_points: fee,
        }]
    } else {
        Seq::empty()
    })
    + seq![ExternalCall::MintTo { mint: b.object_mint.key, account: b.recipient_token_account.key, authority: b.auth.key, amount: 1 }]
    + (if first {
        seq![
            ExternalCall::CreateMasterEdition {
                edition: md.master_edition.key,
                mint: b.object_mint.key,
                metadata: md.metadata.key,
                authority: b.auth.key,
                payer: b.payer.key,
                max_supply: 0,
            },
            spec_verify_call(
                spec_is_sized_collection(env.collection_metadata_data@)->Ok_0,
                md.metadata.key,
                b.auth.key,
                b.payer.key,
                md.collection_mint.key,
                ra.collection_metadata.key,
                ra.collection_master_edition.key,
            ),
        ]
    } else {
        Seq::empty()
    })
}

/// `o` is the manifest after a successful mint from `m`: touched, then minted.
pub open spec fn spec_minted_record(
    m: ObjectManifest,
    o: ObjectManifest,
    object_id: u64,
    config: Address,
    mint: Address,
    bump: u8,
    mint_bump: u8,
    hash: Seq<u8>,
    uri: Seq<u8>,
    creator: Address,
) -> bool {
    &&& o.minted == 1
    &&& spec_touched(
        m,
        ObjectManifest { minted: if m.spec_initialized() { m.minted } else { 0 }, ..o },
        object_id,
        config,
        mint,
        bump,
        mint_bump,
        hash,
        uri,
        creator,
    )
}

/// The configuration after a mint: the object counter counts first touches,
/// saturating.
pub open spec fn spec_counted(c: Config, fresh: bool) -> Config {
    if fresh && c.object_count < u64::MAX {
        Config { object_count: (c.object_count + 1) as u64, ..c }
    } else {
        c
    }
}

fn bump_if_at(d: Option<(Address, u8)>, key: &Address) -> (r: Option<u8>)
    ensures
        match r {
            Some(bump) => derived_view(d) == Some((key.bytes@, bump)),
            None => !(derived_view(d) matches Some((a, _)) && a == key.bytes@),
        },
{
    match d {
        Some((a, bump)) => if a == *key { Some(bump) } else { None },
        None => None,
    }
}

/// `o` is what a successful mint with these inputs writes and asks for.
pub open spec fn spec_mint_outcome(
    ctx: MintObjectNft,
    env: MintEnvironment,
    rem: Seq<AccountState>,
    object_id: u64,
    uri: Seq<u8>,
    hash: Seq<u8>,
    name: Seq<u8>,
    symbol: Seq<u8>,
    fee: u16,
    creators: Seq<CreatorInput>,
    o: MintOutcome,
) -> bool {
    let b = ctx.base;
    let m = env.manifest_record;
    let ra = spec_metadata_remaining_accounts(rem)->Ok_0;
    &&& spec_mint_error(ctx, env, rem, object_id, uri, hash, name, symbol, fee, creators) is None
    &&& o.first_mint == !m.spec_minted()
    &&& o.config == spec_counted(b.config_data, !m.spec_initialized())
    &&& spec_minted_record(m, o.manifest, object_id, b.config.key, b.object_mint.key,
        (spec_manifest_address(env.program_id.bytes@, b.config.key.bytes@, object_id)->Some_0).1,
        (spec_mint_address(env.program_id.bytes@, b.object_manifest.key.bytes@)->Some_0).1,
        hash, uri, b.payer.key)
    &&& o.calls@ == spec_mint_calls(ctx, env, rem, fee)
    &&& o.metadata_creators@ == (if o.first_mint {
        spec_metadata_creators(creators, b.payer.key, rem, ra.creators_start as int)
    } else {
        Seq::empty()
    })
    &&& o.metadata_name@ == name
    &&& o.metadata_symbol@ == symbol
    &&& o.manifest.wf()
    &&& o.metadata_uri@ == o.manifest.uri()
    &&& o.event == (ObjectMinted {
        config: b.config.key,
        manifest: b.object_manifest.key,
        mint: b.object_mint.key,
        recipient: b.recipient.key,
        object_id,
    })
}

/// Mints one unit of object `object_id` to the recipient, creating what is
/// missing along the way. The first mint of an object also creates its
/// metadata record and master edition and verifies it in the collection;
/// later mints only mint again.
#[verifier::rlimit(50)]
pub fn mint_object_nft(
    ctx: &MintObjectNft,
    env: &MintEnvironment,
    remaining: &Vec<AccountState>,
    object_id: u64,
    manifest_uri: &str,
    manifest_hash: [u8; 32],
    metadata_name: &str,
    metadata_symbol: &str,
    seller_fee_basis_points: u16,
    creators: &Vec<CreatorInput>,
) -> (r: Result<MintOutcome, ErrorCode>)
    ensures
        match r {
            Err(e) => spec_mint_error(*ctx, *env, remaining@, object_id, str_bytes(manifest_uri), manifest_hash@,
                str_bytes(metadata_name), str_bytes(metadata_symbol), seller_fee_basis_points, creators@) == Some(e),
            Ok(o) => spec_mint_outcome(*ctx, *env, remaining@, object_id, str_bytes(manifest_uri), manifest_hash@,
                str_bytes(metadata_name), str_bytes(metadata_symbol), seller_fee_basis_points, creators@, o),
        },
{
    let b = &ctx.base;
    let md = &ctx.metadata;
    check_context(ctx, &env.program_id)?;
    let ra = metadata_remaining_accounts(remaining)?;
    if !ra.collection_metadata.is_writable {
        return Err(ErrorCode::InvalidCollectionMetadataAccount);
    }
    if !ra.collection_master_edition.is_writable {
        return Err(ErrorCode::InvalidCollectionMasterEditionAccount);
    }
    if b.config_data.paused {
        return Err(ErrorCode::MintingPaused);
    }
    let manifest_bump = match bump_if_at(manifest_address(&env.program_id, &b.config.key, object_id), &b.object_manifest.key) {
        Some(bump) => bump,
        None => return Err(ErrorCode::InvalidManifestAccount),
    };
    let mut calls = ensure_object_manifest_account(&b.object_manifest, &b.payer.key, &env.program_id, env.manifest_rent)?;
    let mint_bump = match bump_if_at(mint_address(&env.program_id, &b.object_manifest.key), &b.object_mint.key) {
        Some(bump) => bump,
        None => return Err(ErrorCode::InvalidObjectMintAccount),
    };
    if ra.rent_sysvar.key != rent_sysvar_id() {
        return Err(ErrorCode::InvalidRentSysvar);
    }
    let mut mint_calls = ensure_object_mint_account(&b.object_mint, &b.payer.key, &b.auth.key, &b.token_program.key, env.mint_rent)?;
    match associated_token_address(&b.recipient.key, &b.object_mint.key) {
        Some((ata, _)) => {
            if ata != b.recipient_token_account.key {
                return Err(ErrorCode::InvalidRecipientTokenAccount);
            }
        },
        None => return Err(ErrorCode::InvalidRecipientTokenAccount),
    }
    let mut token_calls = ensure_recipient_token_account(
        &b.recipient_token_account,
        &b.recipient.key,
        &b.payer.key,
        &b.object_mint.key,
        &b.token_program.key,
    )?;
    let record = env.manifest_record;
    let (touched, fresh) = touch_manifest(
        &record,
        object_id,
        &b.config.key,
        &b.object_mint.key,
        manifest_bump,
        mint_bump,
        &manifest_hash,
        manifest_uri.as_bytes(),
        &b.payer.key,
    )?;
    let mut config = b.config_data;
    if fresh {
        config.object_count = config.object_count.saturating_add(1);
    }
    check_token_fields(&b.recipient_token_account, &env.recipient_token_data, &b.object_mint.key, &b.recipient.key)?;
    let first_mint = !record.minted();
    calls.append(&mut mint_calls);
    calls.append(&mut token_calls);
    let mut metadata_creators: Vec<MetadataCreator> = Vec::new();
    let mut sized = false;
    if first_mint {
        metadata_creators = validate_first_mint(
            md,
            &ra.collection_metadata,
            &ra.collection_master_edition,
            &b.object_mint.key,
            metadata_name,
            metadata_symbol,
            seller_fee_basis_points,
            creators,
            &touched.creator,
            &b.payer.key,
            remaining,
            ra.creators_start,
        )?;
        sized = is_sized_collection(env.collection_metadata_data.as_slice())?;
        calls.push(ExternalCall::CreateMetadata {
            metadata: md.metadata.key,
            mint: b.object_mint.key,
            authority: b.auth.key,
            payer: b.payer.key,
            collection_mint: md.collection_mint.key,
            seller_fee_basis_points,
        });
    }
    calls.push(ExternalCall::MintTo {
        mint: b.object_mint.key,
        account: b.recipient_token_account.key,
        authority: b.auth.key,
        amount: 1,
    });
    if first_mint {
        calls.push(ExternalCall::CreateMasterEdition {
            edition: md.master_edition.key,
            mint: b.object_mint.key,
            metadata: md.metadata.key,
            authority: b.auth.key,
            payer: b.payer.key,
            max_supply: 0,
        });
        let verify = if sized {
            ExternalCall::VerifySizedCollectionItem {
                metadata: md.metadata.key,
                authority: b.auth.key,
                payer: b.payer.key,
                collection_mint: md.collection_mint.key,
                collection_metadata: ra.collection_metadata.key,
                collection_master_edition: ra.collection_master_edition.key,
            }
        } else {
            ExternalCall::VerifyCollection {
                metadata: md.metadata.key,
                authority: b.auth.key,
                payer: b.payer.key,
                collection_mint: md.collection_mint.key,
                collection_metadata: ra.collection_metadata.key,
                collection_master_edition: ra.collection_master_edition.key,
            }
        };
        calls.push(verify);
    }
    let mut manifest = touched;
    manifest.set_minted(true);
    proof {
        let first = !record.spec_minted();
        assert(calls@ =~= spec_mint_calls(*ctx, *env, remaining@, seller_fee_basis_points));
        if !first {
            assert(metadata_creators@ =~= Seq::<MetadataCreator>::empty());
        }
        assert(ObjectManifest { minted: if record.spec_initialized() { record.minted } else { 0 }, ..manifest } == touched);
    }
    let event = ObjectMinted {
        config: b.config.key,
        manifest: b.object_manifest.key,
        mint: b.object_mint.key,
        recipient: b.recipient.key,
        object_id,
    };
    let metadata_uri = manifest.metadata_uri_bytes();
    let metadata_name = slice_to_vec(metadata_name.as_bytes());
    let metadata_symbol = slice_to_vec(metadata_symbol.as_bytes());
    Ok(MintOutcome {
        config,
        manifest,
        first_mint,
        calls,
        metadata_creators,
        metadata_name,
        metadata_symbol,
        metadata_uri,
        event,
    })
}

/// `ctx2` and `env2` are the same mint sent again once `o1` has been applied:
/// the configuration and the manifest hold what `o1` wrote, and the manifest,
/// mint and token accounts exist with their owners, the token account holding
/// the object's mint for the recipient.
pub open spec fn spec_retry_of(
    ctx1: MintObjectNft,
    env1: MintEnvironment,
    o1: MintOutcome,
    ctx2: MintObjectNft,
    env2: MintEnvironment,
) -> bool {
    let b1 = ctx1.base;
    let b2 = ctx2.base;
    &&& ctx2.metadata == ctx1.metadata
    &&& b2 == (MintObjectNftBase {
        config_data: o1.config,
        object_manifest: b2.object_manifest,
        object_mint: b2.object_mint,
        recipient_token_account: b2.recipient_token_account,
        ..b1
    })
    &&& b2.object_manifest.key == b1.object_manifest.key
    &&& b2.object_manifest.data_len > 0
    &&& b2.object_manifest.owner.bytes@ == env1.program_id.bytes@
    &&& b2.object_mint.key == b1.object_mint.key
    &&& b2.object_mint.data_len > 0
    &&& b2.object_mint.owner.bytes@ == b1.token_program.key.bytes@
    &&& b2.recipient_token_account.key == b1.recipient_token_account.key
    &&& b2.recipient_token_account.data_len > 0
    &&& b2.recipient_token_account.owner.bytes@ == b1.token_program.key.bytes@
    &&& env2.program_id == env1.program_id
    &&& env2.manifest_record == o1.manifest
    &&& env2.recipient_token_data@.len() >= 64
    &&& env2.recipient_token_data@.subrange(0, 32) == b1.object_mint.key.bytes@
    &&& env2.recipient_token_data@.subrange(32, 64) == b1.recipient.key.bytes@
}

proof fn lemma_retry_reaches_touch(
    ctx1: MintObjectNft,
    env1: MintEnvironment,
    ctx2: MintObjectNft,
    env2: MintEnvironment,
    rem: Seq<AccountState>,
    object_id: u64,
    uri: Seq<u8>,
    hash: Seq<u8>,
    name: Seq<u8>,
    symbol: Seq<u8>,
    fee: u16,
    creators: Seq<CreatorInput>,
    o1: MintOutcome,
    uri2: Seq<u8>,
    hash2: Seq<u8>,
)
    requires
        spec_mint_outcome(ctx1, env1, rem, object_id, uri, hash, name, symbol, fee, creators, o1),
        spec_retry_of(ctx1, env1, o1, ctx2, env2),
    ensures
        spec_mint_error(ctx2, env2, rem, object_id, uri2, hash2, name, symbol, fee, creators)
            == spec_touch_error(env2.manifest_record, object_id, ctx2.base.config.key, ctx2.base.object_mint.key, hash2, uri2),
        env2.manifest_record.spec_minted(),
        env2.manifest_record.spec_initialized(),
{
    let b1 = ctx1.base;
    let b2 = ctx2.base;
    assert(spec_context_error(ctx2, env2.program_id) == spec_context_error(ctx1, env1.program_id));
    assert(b2.object_manifest.key == b1.object_manifest.key);
    assert(b2.object_mint.key == b1.object_mint.key);
    assert(b2.recipient_token_account.key == b1.recipient_token_account.key);
    assert(spec_ensure_object_manifest_account(b2.object_manifest, b2.payer.key, env2.program_id, env2.manifest_rent) is Ok);
    assert(spec_ensure_object_mint_account(b2.object_mint, b2.payer.key, b2.auth.key, b2.token_program.key, env2.mint_rent) is Ok);
    assert(spec_ensure_recipient_token_account(b2.recipient_token_account, b2.recipient.key, b2.payer.key, b2.object_mint.key, b2.token_program.key) is Ok);
    assert(spec_token_fields_error(b2.recipient_token_account, env2.recipient_token_data@, b2.object_mint.key, b2.recipient.key) is None);
}

/// The calls of a successful mint hold three that create or verify records of
/// the metadata registry on the object's first mint, and none on later ones.
pub proof fn lemma_mint_creation_count(ctx: MintObjectNft, env: MintEnvironment, rem: Seq<AccountState>, fee: u16)
    requires
        spec_ensure_object_manifest_account(ctx.base.object_manifest, ctx.base.payer.key, env.program_id, env.manifest_rent) is Ok,
        spec_ensure_object_mint_account(ctx.base.object_mint, ctx.base.payer.key, ctx.base.auth.key, ctx.base.token_program.key, env.mint_rent) is Ok,
        spec_ensure_recipient_token_account(ctx.base.recipient_token_account, ctx.base.recipient.key, ctx.base.payer.key, ctx.base.object_mint.key, ctx.base.token_program.key) is Ok,
    ensures
        creation_count(spec_mint_calls(ctx, env, rem, fee)) == if env.manifest_record.spec_minted() { 0nat } else { 3nat },
{
    let b = ctx.base;
    let md = ctx.metadata;
    let ra = spec_metadata_remaining_accounts(rem)->Ok_0;
    let first = !env.manifest_record.spec_minted();
    let p1 = spec_ensure_object_manifest_account(b.object_manifest, b.payer.key, env.program_id, env.manifest_rent)->Ok_0;
    let p2 = spec_ensure_object_mint_account(b.object_mint, b.payer.key, b.auth.key, b.token_program.key, env.mint_rent)->Ok_0;
    let p3 = spec_ensure_recipient_token_account(b.recipient_token_account, b.recipient.key, b.payer.key, b.object_mint.key, b.token_program.key)->Ok_0;
    let c1: Seq<ExternalCall> = if first {
        seq![ExternalCall::CreateMetadata {
            metadata: md.metadata.key,
            mint: b.object_mint.key,
            authority: b.auth.key,
            payer: b.payer.key,
            collection_mint: md.collection_mint.key,
            seller_fee_basis_points: fee,
        }]
    } else {
        Seq::empty()
    };
    let c2 = seq![ExternalCall::MintTo { mint: b.object_mint.key, account: b.recipient_token_account.key, authority: b.auth.key, amount: 1 }];
    let c3: Seq<ExternalCall> = if first {
        seq![
            ExternalCall::CreateMasterEdition {
                edition: md.master_edition.key,
                mint: b.object_mint.key,
                metadata: md.metadata.key,
                authority: b.auth.key,
                payer: b.payer.key,
                max_supply: 0,
            },
            spec_verify_call(
                spec_is_sized_collection(env.collection_metadata_data@)->Ok_0,
                md.metadata.key,
                b.auth.key,
                b.payer.key,
                md.collection_mint.key,
                ra.collection_metadata.key,
                ra.collection_master_edition.key,
            ),
        ]
    } else {
        Seq::empty()
    };
    assert forall|k: int| 0 <= k < p1.len() implies !(#[trigger] p1[k]).is_registry_creation() by {}
    assert forall|k: int| 0 <= k < p2.len() implies !(#[trigger] p2[k]).is_registry_creation() by {}
    assert forall|k: int| 0 <= k < p3.len() implies !(#[trigger] p3[k]).is_registry_creation() by {}
    lemma_creation_count_zero(p1);
    lemma_creation_count_zero(p2);
    lemma_creation_count_zero(p3);
    lemma_creation_count_concat(p1, p2);
    lemma_creation_count_concat(p1 + p2, p3);
    lemma_creation_count_concat(p1 + p2 + p3, c1);
    lemma_creation_count_concat(p1 + p2 + p3 + c1, c2);
    lemma_creation_count_concat(p1 + p2 + p3 + c1 + c2, c3);
    assert(creation_count(c2) == 0) by {
        assert(c2.drop_last() =~= Seq::<ExternalCall>::empty());
    }
    if first {
        assert(c1.drop_last() =~= Seq::<ExternalCall>::empty());
        assert(creation_count(c1.drop_last()) == 0);
        assert(c1.last().is_registry_creation());
        assert(creation_count(c1) == 1);
        let v = spec_verify_call(
            spec_is_sized_collection(env.collection_metadata_data@)->Ok_0,
            md.metadata.key,
            b.auth.key,
            b.payer.key,
            md.collection_mint.key,
            ra.collection_metadata.key,
            ra.collection_master_edition.key,
        );
        assert(v.is_registry_creation());
        assert(c3.last() == v);
        assert(c3.drop_last() =~= seq![c3[0]]);
        assert(c3.drop_last().drop_last() =~= Seq::<ExternalCall>::empty());
        assert(creation_count(c3.drop_last()) == 1);
        assert(creation_count(c3) == 2);
    } else {
        assert(creation_count(c1) == 0);
        assert(creation_count(c3) == 0);
    }
    assert(spec_mint_calls(ctx, env, rem, fee) =~= p1 + p2 + p3 + c1 + c2 + c3);
}

/// Sending a successful mint again, once its effects are applied, succeeds
/// too, and the second call makes none of the calls that create or verify
/// records of the metadata registry: across the two calls they are made as
/// often as on the object's first mint alone (three times, or not at all if
/// the object was minted before).
pub proof fn lemma_mint_retry_succeeds(
    ctx1: MintObjectNft,
    env1: MintEnvironment,
    ctx2: MintObjectNft,
    env2: MintEnvironment,
    rem: Seq<AccountState>,
    object_id: u64,
    uri: Seq<u8>,
    hash: Seq<u8>,
    name: Seq<u8>,
    symbol: Seq<u8>,
    fee: u16,
    creators: Seq<CreatorInput>,
    o1: MintOutcome,
)
    requires
        spec_mint_outcome(ctx1, env1, rem, object_id, uri, hash, name, symbol, fee, creators, o1),
        spec_retry_of(ctx1, env1, o1, ctx2, env2),
    ensures
        spec_mint_error(ctx2, env2, rem, object_id, uri, hash, name, symbol, fee, creators) is None,
        forall|k: int| 0 <= k < spec_mint_calls(ctx2, env2, rem, fee).len()
            ==> !(#[trigger] spec_mint_calls(ctx2, env2, rem, fee)[k]).is_registry_creation(),
        creation_count(spec_mint_calls(ctx2, env2, rem, fee)) == 0,
        creation_count(o1.calls@) == if o1.first_mint { 3nat } else { 0nat },
{
    lemma_retry_reaches_touch(ctx1, env1, ctx2, env2, rem, object_id, uri, hash, name, symbol, fee, creators, o1, uri, hash);
    let m1 = env1.manifest_record;
    let m2 = env2.manifest_record;
    if uri.len() != 0 && !m1.spec_initialized() {
        assert(m2.uri() == uri);
    }
    let b2 = ctx2.base;
    let s = spec_mint_calls(ctx2, env2, rem, fee);
    let p1 = spec_ensure_object_manifest_account(b2.object_manifest, b2.payer.key, env2.program_id, env2.manifest_rent)->Ok_0;
    let p2 = spec_ensure_object_mint_account(b2.object_mint, b2.payer.key, b2.auth.key, b2.token_program.key, env2.mint_rent)->Ok_0;
    let p3 = spec_ensure_recipient_token_account(b2.recipient_token_account, b2.recipient.key, b2.payer.key, b2.object_mint.key, b2.token_program.key)->Ok_0;
    assert forall|k: int| 0 <= k < p1.len() implies !(#[trigger] p1[k]).is_registry_creation() by {}
    assert forall|k: int| 0 <= k < p2.len() implies !(#[trigger] p2[k]).is_registry_creation() by {}
    assert(p3.len() == 0);
    let tail = seq![ExternalCall::MintTo { mint: b2.object_mint.key, account: b2.recipient_token_account.key, authority: b2.auth.key, amount: 1 }];
    assert(s =~= p1 + p2 + p3 + Seq::<ExternalCall>::empty() + tail + Seq::<ExternalCall>::empty());
    assert forall|k: int| 0 <= k < s.len() implies !(#[trigger] s[k]).is_registry_creation() by {
        if k < p1.len() {
            assert(s[k] == p1[k]);
        } else if k < p1.len() + p2.len() {
            assert(s[k] == p2[k - p1.len()]);
        } else {
            assert(s[k] == tail[0]);
        }
    }
    lemma_creation_count_zero(s);
    lemma_mint_creation_count(ctx1, env1, rem, fee);
}

/// Sending the same mint again with another hash is refused as a mismatch; with
/// another non-empty URI it is refused; with an empty URI it succeeds and the
/// manifest keeps its stored URI.
pub proof fn lemma_mint_retry_content_fixed(
    ctx1: MintObjectNft,
    env1: MintEnvironment,
    ctx2: MintObjectNft,
    env2: MintEnvironment,
    rem: Seq<AccountState>,
    object_id: u64,
    uri: Seq<u8>,
    hash: Seq<u8>,
    name: Seq<u8>,
    symbol: Seq<u8>,
    fee: u16,
    creators: Seq<CreatorInput>,
    o1: MintOutcome,
    uri2: Seq<u8>,
    hash2: Seq<u8>,
    o2: MintOutcome,
)
    requires
        spec_mint_outcome(ctx1, env1, rem, object_id, uri, hash, name, symbol, fee, creators, o1),
        spec_retry_of(ctx1, env1, o1, ctx2, env2),
    ensures
        hash2 != o1.manifest.manifest_hash@
            ==> spec_mint_error(ctx2, env2, rem, object_id, uri2, hash2, name, symbol, fee, creators) == Some(ErrorCode::ManifestMismatch),
        hash2 == o1.manifest.manifest_hash@ && uri2.len() != 0 && uri2 != o1.manifest.uri()
            ==> spec_mint_error(ctx2, env2, rem, object_id, uri2, hash2, name, symbol, fee, creators) is Some,
        hash2 == o1.manifest.manifest_hash@ && uri2.len() == 0
            ==> spec_mint_error(ctx2, env2, rem, object_id, uri2, hash2, name, symbol, fee, creators) is None,
        hash2 == o1.manifest.manifest_hash@ && uri2.len() == 0
            && spec_mint_outcome(ctx2, env2, rem, object_id, uri2, hash2, name, symbol, fee, creators, o2)
            ==> o2.manifest.uri() == o1.manifest.uri() && o2.metadata_uri@ == o1.manifest.uri(),
{
    lemma_retry_reaches_touch(ctx1, env1, ctx2, env2, rem, object_id, uri, hash, name, symbol, fee, creators, o1, uri2, hash2);
}

/// On a first mint, creator shares that do not sum to exactly 100, or a
/// creator list without the manifest's recorded creator, refuse the mint, so
/// none of its calls is made.
pub proof fn lemma_creator_shares_checked(
    ctx: MintObjectNft,
    env: MintEnvironment,
    rem: Seq<AccountState>,
    object_id: u64,
    uri: Seq<u8>,
    hash: Seq<u8>,
    name: Seq<u8>,
    symbol: Seq<u8>,
    fee: u16,
    creators: Seq<CreatorInput>,
)
    requires
        !env.manifest_record.spec_minted(),
        share_total(creators) != CREATOR_TOTAL_SHARE || !includes_creator(
            creators,
            if env.manifest_record.spec_initialized() { env.manifest_record.creator } else { ctx.base.payer.key },
        ),
    ensures
        spec_mint_error(ctx, env, rem, object_id, uri, hash, name, symbol, fee, creators) is Some,
{
}

/// On a first mint, a creator that claims to be verified without having signed
/// refuses the mint.
pub proof fn lemma_verified_creator_must_sign(
    ctx: MintObjectNft,
    env: MintEnvironment,
    rem: Seq<AccountState>,
    object_id: u64,
    uri: Seq<u8>,
    hash: Seq<u8>,
    name: Seq<u8>,
    symbol: Seq<u8>,
    fee: u16,
    creators: Seq<CreatorInput>,
)
    requires
        !env.manifest_record.spec_minted(),
        spec_metadata_remaining_accounts(rem) is Ok,
        unsigned_verified(creators, ctx.base.payer.key, rem, spec_metadata_remaining_accounts(rem)->Ok_0.creators_start as int),
    ensures
        spec_mint_error(ctx, env, rem, object_id, uri, hash, name, symbol, fee, creators) is Some,
{
}

/// While the configuration is paused every mint is refused; once it is not,
/// no mint is refused for being paused.
pub proof fn lemma_pause_gates_minting(
    ctx: MintObjectNft,
    env: MintEnvironment,
    rem: Seq<AccountState>,
    object_id: u64,
    uri: Seq<u8>,
    hash: Seq<u8>,
    name: Seq<u8>,
    symbol: Seq<u8>,
    fee: u16,
    creators: Seq<CreatorInput>,
)
    ensures
        ctx.base.config_data.paused
            ==> spec_mint_error(ctx, env, rem, object_id, uri, hash, name, symbol, fee, creators) is Some,
        !ctx.base.config_data.paused
            ==> spec_mint_error(ctx, env, rem, object_id, uri, hash, name, symbol, fee, creators) != Some(ErrorCode::MintingPaused),
{
}

/// A first mint verifies the object in a sized collection when the collection
/// record carries a tagged collection-details entry, even without the inline
/// field.
pub proof fn lemma_tagged_details_select_sized(
    ctx: MintObjectNft,
    env: MintEnvironment,
    rem: Seq<AccountState>,
    object_id: u64,
    uri: Seq<u8>,
    hash: Seq<u8>,
    name: Seq<u8>,
    symbol: Seq<u8>,
    fee: u16,
    creators: Seq<CreatorInput>,
)
    requires
        spec_mint_error(ctx, env, rem, object_id, uri, hash, name, symbol, fee, creators) is None,
        !env.manifest_record.spec_minted(),
        crate::collection::spec_tlv_collection_details(env.collection_metadata_data@) is Some,
    ensures
        spec_mint_calls(ctx, env, rem, fee).last() is VerifySizedCollectionItem,
{
}

/// The manifest a successful mint leaves names a configuration and object id
/// from which the manifest's own address derives, and a mint that derives from
/// that address; on the first touch the stored bumps are the derived ones.
pub proof fn lemma_minted_manifest_rederives(
    ctx: MintObjectNft,
    env: MintEnvironment,
    rem: Seq<AccountState>,
    object_id: u64,
    uri: Seq<u8>,
    hash: Seq<u8>,
    name: Seq<u8>,
    symbol: Seq<u8>,
    fee: u16,
    creators: Seq<CreatorInput>,
    o: MintOutcome,
)
    requires
        spec_mint_outcome(ctx, env, rem, object_id, uri, hash, name, symbol, fee, creators, o),
    ensures
        spec_manifest_address(env.program_id.bytes@, o.manifest.config.bytes@, o.manifest.object_id)
            matches Some((a, _)) && a == ctx.base.object_manifest.key.bytes@,
        spec_mint_address(env.program_id.bytes@, ctx.base.object_manifest.key.bytes@)
            matches Some((a, _)) && a == o.manifest.mint.bytes@,
        !env.manifest_record.spec_initialized() ==> spec_manifest_address(env.program_id.bytes@, o.manifest.config.bytes@, o.manifest.object_id)
            == Some((ctx.base.object_manifest.key.bytes@, o.manifest.bump)),
        !env.manifest_record.spec_initialized() ==> spec_mint_address(env.program_id.bytes@, ctx.base.object_manifest.key.bytes@)
            == Some((o.manifest.mint.bytes@, o.manifest.mint_bump)),
{
}

/// Once `set_paused` has stored `paused` in the configuration, every mint under
/// that configuration is refused while `paused` is set, and, when the
/// accounts are otherwise in order, refused for being paused; once it is
/// cleared, no mint is refused for being paused.
pub proof fn lemma_set_paused_gates_minting(
    old_config: Config,
    paused: bool,
    c: Config,
    ev: PauseStatusUpdated,
    ctx: MintObjectNft,
    env: MintEnvironment,
    rem: Seq<AccountState>,
    object_id: u64,
    uri: Seq<u8>,
    hash: Seq<u8>,
    name: Seq<u8>,
    symbol: Seq<u8>,
    fee: u16,
    creators: Seq<CreatorInput>,
)
    requires
        c == (Config { paused, ..old_config }),
        ctx.base.config_data == c,
    ensures
        paused ==> spec_mint_error(ctx, env, rem, object_id, uri, hash, name, symbol, fee, creators) is Some,
        (paused && spec_context_error(ctx, env.program_id) is None
            && (spec_metadata_remaining_accounts(rem) matches Ok(ra)
            && ra.collection_metadata.is_writable && ra.collection_master_edition.is_writable))
            ==> spec_mint_error(ctx, env, rem, object_id, uri, hash, name, symbol, fee, creators) == Some(ErrorCode::MintingPaused),
        !paused ==> spec_mint_error(ctx, env, rem, object_id, uri, hash, name, symbol, fee, creators) != Some(ErrorCode::MintingPaused),
{
    lemma_pause_gates_minting(ctx, env, rem, object_id, uri, hash, name, symbol, fee, creators);
}

} // verus!

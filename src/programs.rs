//! Well-known addresses and the derivations of the accounts the registry uses.
use crate::address::{program_address, seeds_view, try_find_program_address, Address};
use vstd::prelude::*;

verus! {

/// The metadata registry program, `metaqbxxUerdq28cj1RbAWkYQm3ybzjb6a8bt518x1s`.
pub open spec fn spec_token_metadata_program_id() -> Seq<u8> {
    seq![11, 112, 101, 177, 227, 209, 124, 69, 56, 157, 82, 127, 107, 4, 195, 205, 88, 184, 108, 115, 26, 160, 253, 181, 73, 182, 209, 188, 3, 248, 41, 70]
}

/// The metadata registry program, `metaqbxxUerdq28cj1RbAWkYQm3ybzjb6a8bt518x1s`.
pub fn token_metadata_program_id() -> (r: Address)
    ensures
        r.bytes@ == spec_token_metadata_program_id(),
{
    let r = Address { bytes: [11, 112, 101, 177, 227, 209, 124, 69, 56, 157, 82, 127, 107, 4, 195, 205, 88, 184, 108, 115, 26, 160, 253, 181, 73, 182, 209, 188, 3, 248, 41, 70] };
    assert(r.bytes@ =~= spec_token_metadata_program_id());
    r
}

/// The token ledger program, `TokenkegQfeZyiNwAJbNbGKPFXCWuBvf9Ss623VQ5DA`.
pub open spec fn spec_token_program_id() -> Seq<u8> {
    seq![6, 221, 246, 225, 215, 101, 161, 147, 217, 203, 225, 70, 206, 235, 121, 172, 28, 180, 133, 237, 95, 91, 55, 145, 58, 140, 245, 133, 126, 255, 0, 169]
}

/// The token ledger program, `TokenkegQfeZyiNwAJbNbGKPFXCWuBvf9Ss623VQ5DA`.
pub fn token_program_id() -> (r: Address)
    ensures
        r.bytes@ == spec_token_program_id(),
{
    let r = Address { bytes: [6, 221, 246, 225, 215, 101, 161, 147, 217, 203, 225, 70, 206, 235, 121, 172, 28, 180, 133, 237, 95, 91, 55, 145, 58, 140, 245, 133, 126, 255, 0, 169] };
    assert(r.bytes@ =~= spec_token_program_id());
    r
}

/// The associated token account program, `ATokenGPvbdGVxr1b2hvZbsiqW5xWH25efTNsLJA8knL`.
pub open spec fn spec_associated_token_program_id() -> Seq<u8> {
    seq![140, 151, 37, 143, 78, 36, 137, 241, 187, 61, 16, 41, 20, 142, 13, 131, 11, 90, 19, 153, 218, 255, 16, 132, 4, 142, 123, 216, 219, 233, 248, 89]
}

/// The associated token account program, `ATokenGPvbdGVxr1b2hvZbsiqW5xWH25efTNsLJA8knL`.
pub fn associated_token_program_id() -> (r: Address)
    ensures
        r.bytes@ == spec_associated_token_program_id(),
{
    let r = Address { bytes: [140, 151, 37, 143, 78, 36, 137, 241, 187, 61, 16, 41, 20, 142, 13, 131, 11, 90, 19, 153, 218, 255, 16, 132, 4, 142, 123, 216, 219, 233, 248, 89] };
    assert(r.bytes@ =~= spec_associated_token_program_id());
    r
}

/// The rent sysvar, `SysvarRent111111111111111111111111111111111`.
pub open spec fn spec_rent_sysvar_id() -> Seq<u8> {
    seq![6, 167, 213, 23, 25, 44, 92, 81, 33, 140, 201, 76, 61, 74, 241, 127, 88, 218, 238, 8, 155, 161, 253, 68, 227, 219, 217, 138, 0, 0, 0, 0]
}

/// The rent sysvar, `SysvarRent111111111111111111111111111111111`.
pub fn rent_sysvar_id() -> (r: Address)
    ensures
        r.bytes@ == spec_rent_sysvar_id(),
{
    let r = Address { bytes: [6, 167, 213, 23, 25, 44, 92, 81, 33, 140, 201, 76, 61, 74, 241, 127, 88, 218, 238, 8, 155, 161, 253, 68, 227, 219, 217, 138, 0, 0, 0, 0] };
    assert(r.bytes@ =~= spec_rent_sysvar_id());
    r
}

/// The instructions sysvar, `Sysvar1nstructions1111111111111111111111111`.
pub open spec fn spec_instructions_sysvar_id() -> Seq<u8> {
    seq![6, 167, 213, 23, 24, 123, 209, 102, 53, 218, 212, 4, 85, 253, 194, 192, 193, 36, 198, 143, 33, 86, 117, 165, 219, 186, 203, 95, 8, 0, 0, 0]
}

/// The instructions sysvar, `Sysvar1nstructions1111111111111111111111111`.
pub fn instructions_sysvar_id() -> (r: Address)
    ensures
        r.bytes@ == spec_instructions_sysvar_id(),
{
    let r = Address { bytes: [6, 167, 213, 23, 24, 123, 209, 102, 53, 218, 212, 4, 85, 253, 194, 192, 193, 36, 198, 143, 33, 86, 117, 165, 219, 186, 203, 95, 8, 0, 0, 0] };
    assert(r.bytes@ =~= spec_instructions_sysvar_id());
    r
}

/// The system program, `11111111111111111111111111111111`.
pub open spec fn spec_system_program_id() -> Seq<u8> {
    seq![0, 0, 0, 0, 0, 0, 0, 0, 0, 0, 0, 0, 0, 0, 0, 0, 0, 0, 0, 0, 0, 0, 0, 0, 0, 0, 0, 0, 0, 0, 0, 0]
}

/// The system program, `11111111111111111111111111111111`.
pub fn system_program_id() -> (r: Address)
    ensures
        r.bytes@ == spec_system_program_id(),
{
    let r = Address { bytes: [0, 0, 0, 0, 0, 0, 0, 0, 0, 0, 0, 0, 0, 0, 0, 0, 0, 0, 0, 0, 0, 0, 0, 0, 0, 0, 0, 0, 0, 0, 0, 0] };
    assert(r.bytes@ =~= spec_system_program_id());
    r
}

/// The seed `"config"`.
pub open spec fn spec_config_seed() -> Seq<u8> {
    seq![99, 111, 110, 102, 105, 103]
}

fn config_seed() -> (r: Vec<u8>)
    ensures
        r@ == spec_config_seed(),
{
    let r: Vec<u8> = vec![99, 111, 110, 102, 105, 103];
    assert(r@ =~= spec_config_seed());
    r
}

/// The seed `"auth"`.
pub open spec fn spec_auth_seed() -> Seq<u8> {
    seq![97, 117, 116, 104]
}

fn auth_seed() -> (r: Vec<u8>)
    ensures
        r@ == spec_auth_seed(),
{
    let r: Vec<u8> = vec![97, 117, 116, 104];
    assert(r@ =~= spec_auth_seed());
    r
}

/// The seed `"object_manifest"`.
pub open spec fn spec_manifest_seed() -> Seq<u8> {
    seq![111, 98, 106, 101, 99, 116, 95, 109, 97, 110, 105, 102, 101, 115, 116]
}

fn manifest_seed() -> (r: Vec<u8>)
    ensures
        r@ == spec_manifest_seed(),
{
    let r: Vec<u8> = vec![111, 98, 106, 101, 99, 116, 95, 109, 97, 110, 105, 102, 101, 115, 116];
    assert(r@ =~= spec_manifest_seed());
    r
}

/// The seed `"object_mint"`.
pub open spec fn spec_mint_seed() -> Seq<u8> {
    seq![111, 98, 106, 101, 99, 116, 95, 109, 105, 110, 116]
}

fn mint_seed() -> (r: Vec<u8>)
    ensures
        r@ == spec_mint_seed(),
{
    let r: Vec<u8> = vec![111, 98, 106, 101, 99, 116, 95, 109, 105, 110, 116];
    assert(r@ =~= spec_mint_seed());
    r
}

/// The seed `"metadata"`.
pub open spec fn spec_metadata_seed() -> Seq<u8> {
    seq![109, 101, 116, 97, 100, 97, 116, 97]
}

fn metadata_seed() -> (r: Vec<u8>)
    ensures
        r@ == spec_metadata_seed(),
{
    let r: Vec<u8> = vec![109, 101, 116, 97, 100, 97, 116, 97];
    assert(r@ =~= spec_metadata_seed());
    r
}

/// The seed `"edition"`.
pub open spec fn spec_edition_seed() -> Seq<u8> {
    seq![101, 100, 105, 116, 105, 111, 110]
}

fn edition_seed() -> (r: Vec<u8>)
    ensures
        r@ == spec_edition_seed(),
{
    let r: Vec<u8> = vec![101, 100, 105, 116, 105, 111, 110];
    assert(r@ =~= spec_edition_seed());
    r
}
/// The eight little-endian bytes of `x`.
pub open spec fn spec_u64_le(x: u64) -> Seq<u8> {
    seq![
        (x & 0xff) as u8,
        ((x >> 8u64) & 0xff) as u8,
        ((x >> 16u64) & 0xff) as u8,
        ((x >> 24u64) & 0xff) as u8,
        ((x >> 32u64) & 0xff) as u8,
        ((x >> 40u64) & 0xff) as u8,
        ((x >> 48u64) & 0xff) as u8,
        ((x >> 56u64) & 0xff) as u8,
    ]
}

fn u64_le(x: u64) -> (r: Vec<u8>)
    ensures
        r@ == spec_u64_le(x),
{
    let r: Vec<u8> = vec![
        (x & 0xff) as u8,
        ((x >> 8u64) & 0xff) as u8,
        ((x >> 16u64) & 0xff) as u8,
        ((x >> 24u64) & 0xff) as u8,
        ((x >> 32u64) & 0xff) as u8,
        ((x >> 40u64) & 0xff) as u8,
        ((x >> 48u64) & 0xff) as u8,
        ((x >> 56u64) & 0xff) as u8,
    ];
    assert(r@ =~= spec_u64_le(x));
    r
}

/// Address of the configuration of `namespace`.
pub open spec fn spec_config_address(program: Seq<u8>, namespace: Seq<u8>) -> Option<(Seq<u8>, u8)> {
    program_address(seq![spec_config_seed(), namespace], program)
}

/// Address of the auth record paired with `config`.
pub open spec fn spec_auth_address(program: Seq<u8>, config: Seq<u8>) -> Option<(Seq<u8>, u8)> {
    program_address(seq![spec_auth_seed(), config], program)
}

/// Address of the manifest of `object_id` under `config`.
pub open spec fn spec_manifest_address(program: Seq<u8>, config: Seq<u8>, object_id: u64) -> Option<(Seq<u8>, u8)> {
    program_address(seq![spec_manifest_seed(), config, spec_u64_le(object_id)], program)
}

/// Address of the mint paired with the manifest at `manifest`.
pub open spec fn spec_mint_address(program: Seq<u8>, manifest: Seq<u8>) -> Option<(Seq<u8>, u8)> {
    program_address(seq![spec_mint_seed(), manifest], program)
}

/// Address of the registry's metadata record of `mint`.
pub open spec fn spec_metadata_address(mint: Seq<u8>) -> Option<(Seq<u8>, u8)> {
    program_address(
        seq![spec_metadata_seed(), spec_token_metadata_program_id(), mint],
        spec_token_metadata_program_id(),
    )
}

/// Address of the registry's master-edition record of `mint`.
pub open spec fn spec_master_edition_address(mint: Seq<u8>) -> Option<(Seq<u8>, u8)> {
    program_address(
        seq![spec_metadata_seed(), spec_token_metadata_program_id(), mint, spec_edition_seed()],
        spec_token_metadata_program_id(),
    )
}

/// Address of the associated token account of `wallet` for `mint`.
pub open spec fn spec_associated_token_address(wallet: Seq<u8>, mint: Seq<u8>) -> Option<(Seq<u8>, u8)> {
    program_address(
        seq![wallet, spec_token_program_id(), mint],
        spec_associated_token_program_id(),
    )
}

fn pair(a: Vec<u8>, b: Vec<u8>) -> (r: Vec<Vec<u8>>)
    ensures
        seeds_view(r@) == seq![a@, b@],
{
    let r = vec![a, b];
    assert(seeds_view(r@) =~= seq![a@, b@]);
    r
}

fn triple(a: Vec<u8>, b: Vec<u8>, c: Vec<u8>) -> (r: Vec<Vec<u8>>)
    ensures
        seeds_view(r@) == seq![a@, b@, c@],
{
    let r = vec![a, b, c];
    assert(seeds_view(r@) =~= seq![a@, b@, c@]);
    r
}

fn address_vec(a: &Address) -> (r: Vec<u8>)
    ensures
        r@ == a.bytes@,
{
    let mut r: Vec<u8> = Vec::new();
    let mut i: usize = 0;
    while i < 32
        invariant
            i <= 32,
            r@ =~= a.bytes@.subrange(0, i as int),
        decreases 32 - i,
    {
        r.push(a.bytes[i]);
        i = i + 1;
    }
    r
}

pub fn config_address(program_id: &Address, namespace: &Address) -> (r: Option<(Address, u8)>)
    ensures
        crate::address::derived_view(r) == spec_config_address(program_id.bytes@, namespace.bytes@),
{
    let seeds = pair(config_seed(), address_vec(namespace));
    try_find_program_address(&seeds, program_id)
}

pub fn auth_address(program_id: &Address, config: &Address) -> (r: Option<(Address, u8)>)
    ensures
        crate::address::derived_view(r) == spec_auth_address(program_id.bytes@, config.bytes@),
{
    let seeds = pair(auth_seed(), address_vec(config));
    try_find_program_address(&seeds, program_id)
}

pub fn manifest_address(program_id: &Address, config: &Address, object_id: u64) -> (r: Option<(Address, u8)>)
    ensures
        crate::address::derived_view(r) == spec_manifest_address(program_id.bytes@, config.bytes@, object_id),
{
    let seeds = triple(manifest_seed(), address_vec(config), u64_le(object_id));
    try_find_program_address(&seeds, program_id)
}

pub fn mint_address(program_id: &Address, manifest: &Address) -> (r: Option<(Address, u8)>)
    ensures
        crate::address::derived_view(r) == spec_mint_address(program_id.bytes@, manifest.bytes@),
{
    let seeds = pair(mint_seed(), address_vec(manifest));
    try_find_program_address(&seeds, program_id)
}

pub fn metadata_address(mint: &Address) -> (r: Option<(Address, u8)>)
    ensures
        crate::address::derived_view(r) == spec_metadata_address(mint.bytes@),
{
    let program = token_metadata_program_id();
    let seeds = triple(metadata_seed(), address_vec(&program), address_vec(mint));
    try_find_program_address(&seeds, &program)
}

pub fn master_edition_address(mint: &Address) -> (r: Option<(Address, u8)>)
    ensures
        crate::address::derived_view(r) == spec_master_edition_address(mint.bytes@),
{
    let program = token_metadata_program_id();
    let seeds = vec![metadata_seed(), address_vec(&program), address_vec(mint), edition_seed()];
    assert(seeds_view(seeds@) =~= seq![spec_metadata_seed(), spec_token_metadata_program_id(), mint.bytes@, spec_edition_seed()]);
    try_find_program_address(&seeds, &program)
}

pub fn associated_token_address(wallet: &Address, mint: &Address) -> (r: Option<(Address, u8)>)
    ensures
        crate::address::derived_view(r) == spec_associated_token_address(wallet.bytes@, mint.bytes@),
{
    let token = token_program_id();
    let seeds = triple(address_vec(wallet), address_vec(&token), address_vec(mint));
    try_find_program_address(&seeds, &associated_token_program_id())
}

} // verus!

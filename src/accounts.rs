//! The account records of the registry and the views of the accounts that an
//! instruction reads.
use crate::address::Address;
use vstd::prelude::*;

verus! {

/// What an instruction sees of an account it was handed.
#[derive(Clone, Copy, Debug)]
pub struct AccountState {
    pub key: Address,
    pub owner: Address,
    pub lamports: u64,
    pub data_len: usize,
    pub is_signer: bool,
    pub is_writable: bool,
}

/// One namespace's configuration.
#[derive(Clone, Copy, Debug)]
pub struct Config {
    pub authority: Address,
    pub config_bump: u8,
    pub auth_bump: u8,
    pub object_count: u64,
    pub namespace: Address,
    pub paused: bool,
}

impl Config {
    /// Space of a configuration account: tag, authority, two bumps, counter,
    /// namespace and pause flag.
    pub const LEN: usize = 8 + 32 + 1 + 1 + 8 + 32 + 1;
}

/// The signing identity paired with a configuration.
#[derive(Clone, Copy, Debug)]
pub struct Auth {
    pub config: Address,
    pub bump: u8,
}

impl Auth {
    /// Space of an auth account: tag, configuration and bump.
    pub const LEN: usize = 8 + 32 + 1;
}

/// A creator entry supplied to a mint.
#[derive(Clone, Copy, Debug)]
pub struct CreatorInput {
    pub address: Address,
    pub verified: bool,
    pub share: u8,
}

/// A creator entry as handed to the metadata registry.
#[derive(Clone, Copy, Debug)]
pub struct MetadataCreator {
    pub address: Address,
    pub verified: bool,
    pub share: u8,
}

/// Notification of a completed mint.
#[derive(Clone, Copy, Debug)]
pub struct ObjectMinted {
    pub config: Address,
    pub manifest: Address,
    pub mint: Address,
    pub recipient: Address,
    pub object_id: u64,
}

/// Notification of an owner update of a manifest.
#[derive(Clone, Copy, Debug)]
pub struct ManifestUpdated {
    pub config: Address,
    pub manifest: Address,
    pub mint: Address,
    pub object_id: u64,
    pub is_active: bool,
}

/// Notification of a change of the pause flag.
#[derive(Clone, Copy, Debug)]
pub struct PauseStatusUpdated {
    pub config: Address,
    pub paused: bool,
}

} // verus!

//! Registry of "object" tokens minted under a governing configuration.
//!
//! The library holds the decision logic of the registry program: address
//! derivation, the manifest record and its transitions, account provisioning,
//! collection sizing and the mint and update instructions. Each instruction is
//! a function from the accounts it reads to the records it writes and the
//! external calls it issues, so that a runtime can apply the outcome atomically.
//!
//! - `address`, `programs`: addresses and their derivation.
//! - `manifest`, `layout`: the manifest record, its transitions and its bytes.
//! - `accounts`, `calls`, `error`: records, account views, calls and errors.
//! - `provision`: creating, funding and growing the accounts a mint writes.
//! - `collection`: whether a collection is sized.
//! - `mint`, `update`, `config`: the instructions.
pub mod address;
pub mod error;
pub mod manifest;
pub mod layout;
pub mod accounts;
pub mod programs;
pub mod calls;
pub mod provision;
pub mod collection;
pub mod mint;
pub mod config;
pub mod update;


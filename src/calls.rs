//! The calls into other programs that an instruction asks the runtime to make,
//! in order. A runtime performs them one after the other and abandons the whole
//! instruction at the first that fails.
use crate::address::Address;
use vstd::prelude::*;

verus! {

#[derive(Clone, Copy, Debug)]
pub enum ExternalCall {
    /// Create `account` with `space` zero bytes, funded by `payer`, owned by
    /// `owner`.
    CreateAccount { payer: Address, account: Address, lamports: u64, space: u64, owner: Address },
    /// Move `amount` lamports from `from` to `to`.
    TransferLamports { from: Address, to: Address, amount: u64 },
    /// Grow the data of `account` to `new_len` bytes, zero-filled.
    Realloc { account: Address, new_len: u64 },
    /// Initialize `mint` on the token ledger.
    InitializeMint { mint: Address, decimals: u8, mint_authority: Address, freeze_authority: Address },
    /// Create the associated token account of `wallet` for `mint`.
    CreateAssociatedTokenAccount { payer: Address, account: Address, wallet: Address, mint: Address },
    /// Create the metadata record of `mint` in the metadata registry with the
    /// name, symbol, URI and creators of the mint's outcome
    /// (`metadata_name`, `metadata_symbol`, `metadata_uri`,
    /// `metadata_creators`), and with `collection_mint` as its collection, not
    /// yet verified.
    CreateMetadata {
        metadata: Address,
        mint: Address,
        authority: Address,
        payer: Address,
        collection_mint: Address,
        seller_fee_basis_points: u16,
    },
    /// Mint `amount` units of `mint` into `account`.
    MintTo { mint: Address, account: Address, authority: Address, amount: u64 },
    /// Create the master edition of `mint` with the given supply cap.
    CreateMasterEdition {
        edition: Address,
        mint: Address,
        metadata: Address,
        authority: Address,
        payer: Address,
        max_supply: u64,
    },
    /// Verify `metadata` as an item of a sized collection.
    VerifySizedCollectionItem {
        metadata: Address,
        authority: Address,
        payer: Address,
        collection_mint: Address,
        collection_metadata: Address,
        collection_master_edition: Address,
    },
    /// Verify `metadata` as an item of an unsized collection.
    VerifyCollection {
        metadata: Address,
        authority: Address,
        payer: Address,
        collection_mint: Address,
        collection_metadata: Address,
        collection_master_edition: Address,
    },
    /// Rewrite the metadata record's URI, keeping its other data.
    UpdateMetadataUri { metadata: Address, authority: Address },
    /// Hand the update authority of a metadata record to another address.
    SetUpdateAuthority { metadata: Address, authority: Address, new_update_authority: Address },
}

impl ExternalCall {
    /// Whether this call creates or verifies a record of the metadata
    /// registry: the calls that a mint makes once per object.
    pub open spec fn is_registry_creation(self) -> bool {
        match self {
            ExternalCall::CreateMetadata { .. } => true,
            ExternalCall::CreateMasterEdition { .. } => true,
            ExternalCall::VerifySizedCollectionItem { .. } => true,
            ExternalCall::VerifyCollection { .. } => true,
            _ => false,
        }
    }
}

/// How many calls of `s` create or verify records of the metadata registry.
pub open spec fn creation_count(s: Seq<ExternalCall>) -> nat
    decreases s.len(),
{
    if s.len() == 0 {
        0
    } else {
        creation_count(s.drop_last()) + if s.last().is_registry_creation() { 1nat } else { 0nat }
    }
}

pub proof fn lemma_creation_count_concat(a: Seq<ExternalCall>, b: Seq<ExternalCall>)
    ensures
        creation_count(a + b) == creation_count(a) + creation_count(b),
    decreases b.len(),
{
    if b.len() == 0 {
        assert(a + b =~= a);
    } else {
        lemma_creation_count_concat(a, b.drop_last());
        assert((a + b).drop_last() =~= a + b.drop_last());
    }
}

pub proof fn lemma_creation_count_zero(s: Seq<ExternalCall>)
    requires
        forall|k: int| 0 <= k < s.len() ==> !(#[trigger] s[k]).is_registry_creation(),
    ensures
        creation_count(s) == 0,
    decreases s.len(),
{
    if s.len() > 0 {
        lemma_creation_count_zero(s.drop_last());
    }
}

} // verus!

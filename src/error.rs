//! The registry's error codes.
use vstd::prelude::*;

verus! {

/// Why an instruction of the registry was refused.
#[derive(Clone, Copy, Debug, PartialEq, Eq, Structural)]
pub enum ErrorCode {
    /// The provided authority does not match the configuration authority.
    InvalidAuthority,
    /// Manifest metadata URI exceeds the permitted length.
    UriTooLong,
    /// The requested object is currently inactive.
    ObjectInactive,
    /// The object manifest has not been initialized yet.
    ManifestNotInitialized,
    /// The supplied object identifier does not match the stored manifest.
    ObjectIdMismatch,
    /// The manifest is associated with a different configuration account.
    InvalidConfig,
    /// The supplied manifest account does not match the expected address.
    InvalidManifestAccount,
    /// The manifest account data is too small to store the object manifest.
    ManifestAccountTooSmall,
    /// The supplied object mint account does not match the expected address.
    InvalidObjectMintAccount,
    /// The mint provided does not match the stored mint for this object.
    MintMismatch,
    /// The provided token account does not belong to the connected signer.
    InvalidOwnerTokenAccount,
    /// The connected wallet must hold the object token to perform this action.
    OwnerDoesNotHoldObjectNft,
    /// The supplied manifest metadata does not match the stored value.
    ManifestMismatch,
    /// The recipient token account does not belong to the supplied recipient.
    RecipientMismatch,
    /// The signer is not authorized to deploy the object registry.
    UnauthorizedDeployer,
    /// Minting has been paused by the registry authority.
    MintingPaused,
    /// Metadata name exceeds the allowed length.
    MetadataNameTooLong,
    /// Metadata symbol exceeds the allowed length.
    MetadataSymbolTooLong,
    /// Invalid metadata creator share distribution.
    InvalidCreatorShareDistribution,
    /// Too many metadata creators supplied.
    TooManyCreators,
    /// Seller fee basis points exceed the permitted maximum.
    InvalidSellerFeeBasisPoints,
    /// The provided token metadata program is invalid.
    InvalidTokenMetadataProgram,
    /// Insufficient remaining accounts supplied for metadata validation.
    MissingMintMetadataAccounts,
    /// The provided rent sysvar account is invalid.
    InvalidRentSysvar,
    /// Metadata account does not match the expected address.
    InvalidMetadataAccount,
    /// Master edition account does not match the expected address.
    InvalidMasterEditionAccount,
    /// Collection metadata account does not match the expected address.
    InvalidCollectionMetadataAccount,
    /// Collection master edition account does not match the expected address.
    InvalidCollectionMasterEditionAccount,
    /// The provided instructions sysvar account is invalid.
    InvalidInstructionsSysvar,
    /// Metadata creators must include the recorded object creator.
    MissingManifestCreator,
    /// The supplied recipient token account does not match the expected address.
    InvalidRecipientTokenAccount,
    /// All verified metadata creators must sign the transaction.
    CreatorMustSign,
    /// An account that an instruction creates is already in use.
    AccountAlreadyInUse,
    /// A signer that the instruction requires did not sign.
    MissingRequiredSignature,
    /// A program account is not the program the instruction calls.
    InvalidProgramId,
}

} // verus!

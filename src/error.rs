use vstd::prelude::*;

verus! {

/// Why a voter weight update was refused.
#[derive(Clone, Copy, Debug, PartialEq, Eq, Structural)]
pub enum NftVoterError {
    /// The record belongs to another realm than the registrar.
    InvalidVoterWeightRecordRealm,
    /// The record belongs to another governing token mint than the registrar.
    InvalidVoterWeightRecordMint,
    /// The requested action is vote casting, which this update cannot serve.
    ActionNotAllowed,
    /// The NFT's token account is not owned by the record's voter.
    OwnershipMismatch,
    /// The metadata account could not be decoded.
    ProvenanceDecodeFailure,
    /// The metadata describes another mint than the token account holds.
    MintMismatch,
    /// The NFT claims no collection, or its collection is not verified.
    CollectionUnverifiedOrMissing,
    /// The NFT's collection has no weight configured in the registrar.
    CollectionNotConfigured,
}

} // verus!

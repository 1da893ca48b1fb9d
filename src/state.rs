use vstd::prelude::*;

use crate::pubkey::Pubkey;

verus! {

/// The governance actions a voter weight can be computed for.
#[derive(Clone, Copy, Debug, PartialEq, Eq, Structural)]
pub enum VoterWeightAction {
    /// Cast a vote on a proposal.
    CastVote,
    /// Comment on a proposal.
    CommentProposal,
    /// Create a governance within a realm.
    CreateGovernance,
    /// Create a proposal for a governance.
    CreateProposal,
    /// Sign off a proposal.
    SignOffProposal,
}

/// The weight that every NFT of one collection carries.
#[derive(Clone, Copy, Debug)]
pub struct CollectionConfig {
    pub collection: Pubkey,
    pub weight: u16,
}

/// Voting configuration of one governing token mint within a realm.
#[derive(Clone, Debug)]
pub struct Registrar {
    pub realm: Pubkey,
    pub governing_token_mint: Pubkey,
    pub collection_configs: Vec<CollectionConfig>,
}

impl Registrar {
    /// No collection is configured twice.
    pub open spec fn wf(&self) -> bool {
        forall|i: int, j: int|
            0 <= i < self.collection_configs@.len() && 0 <= j < self.collection_configs@.len()
                && #[trigger] self.collection_configs@[i].collection@
                == #[trigger] self.collection_configs@[j].collection@ ==> i == j
    }
}

/// The weight a voter holds, as last computed, and what it may be used for.
#[derive(Clone, Copy, Debug)]
pub struct VoterWeightRecord {
    pub realm: Pubkey,
    pub governing_token_mint: Pubkey,
    pub governing_token_owner: Pubkey,
    pub voter_weight: u64,
    /// The slot at which the weight was computed; it is stale at any later slot.
    pub voter_weight_expiry: Option<u64>,
    pub weight_action: Option<VoterWeightAction>,
    pub weight_action_target: Option<Pubkey>,
}

/// Owner and mint of the token account that holds the NFT.
#[derive(Clone, Copy, Debug)]
pub struct OwnershipProof {
    pub owner: Pubkey,
    pub mint: Pubkey,
}

/// An NFT's claim to belong to a collection.
#[derive(Clone, Copy, Debug)]
pub struct CollectionClaim {
    pub key: Pubkey,
    pub verified: bool,
}

/// What the NFT's metadata says of its mint and collection.
#[derive(Clone, Copy, Debug)]
pub struct ProvenanceProof {
    pub mint: Pubkey,
    pub collection: Option<CollectionClaim>,
}

impl View for ProvenanceProof {
    /// The mint's bytes, and the collection's bytes with its verified flag.
    type V = (Seq<u8>, Option<(Seq<u8>, bool)>);

    open spec fn view(&self) -> (Seq<u8>, Option<(Seq<u8>, bool)>) {
        (
            self.mint@,
            match self.collection {
                Some(c) => Some((c.key@, c.verified)),
                None => None,
            },
        )
    }
}

} // verus!

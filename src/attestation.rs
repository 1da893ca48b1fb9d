use vstd::prelude::*;

use crate::error::NftVoterError;
use crate::metadata::{decode_metadata, metadata_decode};
use crate::pubkey::Pubkey;
use crate::state::{
    CollectionConfig, OwnershipProof, ProvenanceProof, Registrar, VoterWeightAction,
    VoterWeightRecord,
};

verus! {

/// `i` is the first position of `configs` that configures `key`.
pub open spec fn is_first_config(configs: Seq<CollectionConfig>, key: Seq<u8>, i: int) -> bool {
    &&& 0 <= i < configs.len()
    &&& configs[i].collection@ == key
    &&& forall|j: int| 0 <= j < i ==> configs[j].collection@ != key
}

/// The weight of the first config for `key`, if there is one.
pub open spec fn configured_weight(configs: Seq<CollectionConfig>, key: Seq<u8>) -> Option<u16> {
    if exists|i: int| is_first_config(configs, key, i) {
        Some(configs[choose|i: int| is_first_config(configs, key, i)].weight)
    } else {
        None
    }
}

/// `record` carrying `weight`, valid at `slot` and for `action` only.
pub open spec fn attested(
    record: VoterWeightRecord,
    weight: u16,
    action: VoterWeightAction,
    slot: u64,
) -> VoterWeightRecord {
    VoterWeightRecord {
        voter_weight: weight as u64,
        voter_weight_expiry: Some(slot),
        weight_action: Some(action),
        weight_action_target: None,
        ..record
    }
}

/// The record that an attestation writes, or the first check it fails, given
/// the provenance as (mint, collection claim).
pub open spec fn attest_outcome(
    registrar: Registrar,
    record: VoterWeightRecord,
    ownership: OwnershipProof,
    provenance: (Seq<u8>, Option<(Seq<u8>, bool)>),
    action: VoterWeightAction,
    slot: u64,
) -> Result<VoterWeightRecord, NftVoterError> {
    if action == VoterWeightAction::CastVote {
        Err(NftVoterError::ActionNotAllowed)
    } else if ownership.owner@ != record.governing_token_owner@ {
        Err(NftVoterError::OwnershipMismatch)
    } else if provenance.0 != ownership.mint@ {
        Err(NftVoterError::MintMismatch)
    } else {
        match provenance.1 {
            Some(claim) => if claim.1 {
                match configured_weight(registrar.collection_configs@, claim.0) {
                    Some(weight) => Ok(attested(record, weight, action, slot)),
                    None => Err(NftVoterError::CollectionNotConfigured),
                }
            } else {
                Err(NftVoterError::CollectionUnverifiedOrMissing)
            },
            None => Err(NftVoterError::CollectionUnverifiedOrMissing),
        }
    }
}

/// The record as it stands after a call with this outcome.
pub open spec fn record_after(
    outcome: Result<VoterWeightRecord, NftVoterError>,
    record: VoterWeightRecord,
) -> VoterWeightRecord {
    match outcome {
        Ok(updated) => updated,
        Err(_) => record,
    }
}

/// The result a call with this outcome returns.
pub open spec fn result_of(outcome: Result<VoterWeightRecord, NftVoterError>) -> Result<(), NftVoterError> {
    match outcome {
        Ok(_) => Ok(()),
        Err(e) => Err(e),
    }
}

/// Whether `action` is the one this update refuses to serve.
fn is_reserved_action(action: VoterWeightAction) -> (r: bool)
    ensures
        r == (action == VoterWeightAction::CastVote),
{
    match action {
        VoterWeightAction::CastVote => true,
        VoterWeightAction::CommentProposal => false,
        VoterWeightAction::CreateGovernance => false,
        VoterWeightAction::CreateProposal => false,
        VoterWeightAction::SignOffProposal => false,
    }
}

/// The weight configured for `collection`, scanning the configs in order.
pub fn find_collection_weight(configs: &Vec<CollectionConfig>, collection: &Pubkey) -> (r: Option<u16>)
    ensures
        r == configured_weight(configs@, collection@),
{
    let mut i: usize = 0;
    while i < configs.len()
        invariant
            0 <= i <= configs@.len(),
            forall|j: int| 0 <= j < i ==> configs@[j].collection@ != collection@,
        decreases configs@.len() - i,
    {
        if configs[i].collection.same_as(collection) {
            assert(is_first_config(configs@, collection@, i as int));
            proof {
                let k = choose|k: int| is_first_config(configs@, collection@, k);
                assert(k == i as int);
            }
            return Some(configs[i].weight);
        }
        i = i + 1;
    }
    assert(!exists|k: int| is_first_config(configs@, collection@, k));
    None
}

/// Checks the NFT's ownership and provenance and, when every check passes,
/// writes the weight of its collection into `record`, valid at
/// `current_slot` and for `action` only. On failure `record` is unchanged.
pub fn attest(
    registrar: &Registrar,
    record: &mut VoterWeightRecord,
    ownership: &OwnershipProof,
    provenance: &ProvenanceProof,
    action: VoterWeightAction,
    current_slot: u64,
) -> (r: Result<(), NftVoterError>)
    requires
        old(record).realm@ == registrar.realm@,
        old(record).governing_token_mint@ == registrar.governing_token_mint@,
    ensures
        ({
            let outcome = attest_outcome(*registrar, *old(record), *ownership, provenance@, action, current_slot);
            &&& r == result_of(outcome)
            &&& *final(record) == record_after(outcome, *old(record))
        }),
{
    if is_reserved_action(action) {
        return Err(NftVoterError::ActionNotAllowed);
    }
    if !ownership.owner.same_as(&record.governing_token_owner) {
        return Err(NftVoterError::OwnershipMismatch);
    }
    if !provenance.mint.same_as(&ownership.mint) {
        return Err(NftVoterError::MintMismatch);
    }
    let collection = match provenance.collection {
        Some(claim) => if claim.verified {
            claim.key
        } else {
            return Err(NftVoterError::CollectionUnverifiedOrMissing);
        },
        None => {
            return Err(NftVoterError::CollectionUnverifiedOrMissing);
        },
    };
    let weight = match find_collection_weight(&registrar.collection_configs, &collection) {
        Some(w) => w,
        None => {
            return Err(NftVoterError::CollectionNotConfigured);
        },
    };
    record.voter_weight = weight as u64;
    record.voter_weight_expiry = Some(current_slot);
    record.weight_action = Some(action);
    record.weight_action_target = None;
    Ok(())
}

/// The accounts an update reads and writes: the registrar, the voter's
/// weight record, the token account that holds the NFT, and the raw data of
/// the NFT's metadata account.
pub struct UpdateVoterWeightRecord {
    pub registrar: Registrar,
    pub voter_weight_record: VoterWeightRecord,
    pub nft_token: OwnershipProof,
    pub nft_metadata: Vec<u8>,
}

/// The record that an update writes, or the first check it fails.
pub open spec fn update_outcome(
    ctx: UpdateVoterWeightRecord,
    action: VoterWeightAction,
    slot: u64,
) -> Result<VoterWeightRecord, NftVoterError> {
    let record = ctx.voter_weight_record;
    if record.realm@ != ctx.registrar.realm@ {
        Err(NftVoterError::InvalidVoterWeightRecordRealm)
    } else if record.governing_token_mint@ != ctx.registrar.governing_token_mint@ {
        Err(NftVoterError::InvalidVoterWeightRecordMint)
    } else if action == VoterWeightAction::CastVote {
        Err(NftVoterError::ActionNotAllowed)
    } else if ctx.nft_token.owner@ != record.governing_token_owner@ {
        Err(NftVoterError::OwnershipMismatch)
    } else {
        match metadata_decode(ctx.nft_metadata@) {
            Some(provenance) => attest_outcome(ctx.registrar, record, ctx.nft_token, provenance, action, slot),
            None => Err(NftVoterError::ProvenanceDecodeFailure),
        }
    }
}

/// Refreshes the voter's weight from the NFT held in `ctx.nft_token`: checks
/// that the record belongs to the registrar's realm and mint, then decodes
/// the metadata and attests as [`attest`] does. Only the weight record
/// changes, and only on success.
pub fn update_voter_weight_record(
    ctx: &mut UpdateVoterWeightRecord,
    voter_weight_action: VoterWeightAction,
    current_slot: u64,
) -> (r: Result<(), NftVoterError>)
    ensures
        final(ctx).registrar == old(ctx).registrar,
        final(ctx).nft_token == old(ctx).nft_token,
        final(ctx).nft_metadata == old(ctx).nft_metadata,
        ({
            let outcome = update_outcome(*old(ctx), voter_weight_action, current_slot);
            &&& r == result_of(outcome)
            &&& final(ctx).voter_weight_record == record_after(outcome, old(ctx).voter_weight_record)
        }),
{
    if !ctx.voter_weight_record.realm.same_as(&ctx.registrar.realm) {
        return Err(NftVoterError::InvalidVoterWeightRecordRealm);
    }
    if !ctx.voter_weight_record.governing_token_mint.same_as(&ctx.registrar.governing_token_mint) {
        return Err(NftVoterError::InvalidVoterWeightRecordMint);
    }
    if is_reserved_action(voter_weight_action) {
        return Err(NftVoterError::ActionNotAllowed);
    }
    if !ctx.nft_token.owner.same_as(&ctx.voter_weight_record.governing_token_owner) {
        return Err(NftVoterError::OwnershipMismatch);
    }
    let provenance = match decode_metadata(ctx.nft_metadata.as_slice()) {
        Some(p) => p,
        None => {
            return Err(NftVoterError::ProvenanceDecodeFailure);
        },
    };
    attest(
        &ctx.registrar,
        &mut ctx.voter_weight_record,
        &ctx.nft_token,
        &provenance,
        voter_weight_action,
        current_slot,
    )
}

} // verus!

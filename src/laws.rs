use vstd::prelude::*;

use crate::attestation::{
    attest_outcome, attested, configured_weight, is_first_config, record_after, result_of,
};
use crate::error::NftVoterError;
use crate::state::{
    OwnershipProof, ProvenanceProof, Registrar, VoterWeightAction, VoterWeightRecord,
};

verus! {

/// With each collection configured once, the configured weight of a
/// collection is the weight of any config that names it.
pub proof fn lemma_configured_weight_of_unique(registrar: Registrar, key: Seq<u8>, i: int)
    requires
        registrar.wf(),
        0 <= i < registrar.collection_configs@.len(),
        registrar.collection_configs@[i].collection@ == key,
    ensures
        configured_weight(registrar.collection_configs@, key) == Some(registrar.collection_configs@[i].weight),
{
    let configs = registrar.collection_configs@;
    assert forall|j: int| 0 <= j < i implies configs[j].collection@ != key by {
        if configs[j].collection@ == key {
            assert(configs[j].collection@ == configs[i].collection@);
        }
    }
    assert(is_first_config(configs, key, i));
    let k = choose|k: int| is_first_config(configs, key, k);
    assert(configs[k].collection@ == configs[i].collection@);
}

/// When the action is not vote casting, the voter owns the token account,
/// the metadata names the token's mint, and its verified collection is
/// configured, the attestation succeeds: the record then holds the
/// collection's configured weight, the current slot as expiry, and the
/// requested action, with no target.
pub proof fn lemma_valid_inputs_attest(
    registrar: Registrar,
    record: VoterWeightRecord,
    ownership: OwnershipProof,
    provenance: ProvenanceProof,
    action: VoterWeightAction,
    slot: u64,
)
    requires
        registrar.wf(),
        action != VoterWeightAction::CastVote,
        ownership.owner@ == record.governing_token_owner@,
        provenance.mint@ == ownership.mint@,
        provenance.collection matches Some(claim) && claim.verified && exists|i: int|
            0 <= i < registrar.collection_configs@.len()
                && #[trigger] registrar.collection_configs@[i].collection@ == claim.key@,
    ensures
        attest_outcome(registrar, record, ownership, provenance@, action, slot) is Ok,
        forall|i: int|
            0 <= i < registrar.collection_configs@.len()
                && #[trigger] registrar.collection_configs@[i].collection@
                == provenance.collection->Some_0.key@ ==> {
                let after = record_after(
                    attest_outcome(registrar, record, ownership, provenance@, action, slot),
                    record,
                );
                &&& after.voter_weight == registrar.collection_configs@[i].weight as u64
                &&& after.voter_weight_expiry == Some(slot)
                &&& after.weight_action == Some(action)
                &&& after.weight_action_target is None
                &&& after.governing_token_owner == record.governing_token_owner
            },
{
    let key = provenance.collection->Some_0.key@;
    let i = choose|i: int|
        0 <= i < registrar.collection_configs@.len()
            && #[trigger] registrar.collection_configs@[i].collection@ == key;
    lemma_configured_weight_of_unique(registrar, key, i);
    assert forall|j: int|
        0 <= j < registrar.collection_configs@.len()
            && #[trigger] registrar.collection_configs@[j].collection@ == key implies {
        let after = record_after(
            attest_outcome(registrar, record, ownership, provenance@, action, slot),
            record,
        );
        &&& after.voter_weight == registrar.collection_configs@[j].weight as u64
        &&& after.voter_weight_expiry == Some(slot)
        &&& after.weight_action == Some(action)
        &&& after.weight_action_target is None
        &&& after.governing_token_owner == record.governing_token_owner
    } by {
        lemma_configured_weight_of_unique(registrar, key, j);
    }
}

/// Past the action check, a token account owned by anyone but the record's
/// voter is refused with `OwnershipMismatch`, and the record is unchanged.
pub proof fn lemma_foreign_owner_refused(
    registrar: Registrar,
    record: VoterWeightRecord,
    ownership: OwnershipProof,
    provenance: ProvenanceProof,
    action: VoterWeightAction,
    slot: u64,
)
    requires
        action != VoterWeightAction::CastVote,
        ownership.owner@ != record.governing_token_owner@,
    ensures
        attest_outcome(registrar, record, ownership, provenance@, action, slot)
            == Err::<VoterWeightRecord, NftVoterError>(NftVoterError::OwnershipMismatch),
        record_after(attest_outcome(registrar, record, ownership, provenance@, action, slot), record)
            == record,
{
}

/// Vote casting is refused with `ActionNotAllowed` whatever the other
/// inputs are: that check comes first.
pub proof fn lemma_cast_vote_refused(
    registrar: Registrar,
    record: VoterWeightRecord,
    ownership: OwnershipProof,
    provenance: ProvenanceProof,
    slot: u64,
)
    ensures
        attest_outcome(registrar, record, ownership, provenance@, VoterWeightAction::CastVote, slot)
            == Err::<VoterWeightRecord, NftVoterError>(NftVoterError::ActionNotAllowed),
{
}

/// Past the action, ownership and mint checks, an unverified collection
/// claim is refused with `CollectionUnverifiedOrMissing`, whether or not
/// the collection is configured.
pub proof fn lemma_unverified_collection_refused(
    registrar: Registrar,
    record: VoterWeightRecord,
    ownership: OwnershipProof,
    provenance: ProvenanceProof,
    action: VoterWeightAction,
    slot: u64,
)
    requires
        action != VoterWeightAction::CastVote,
        ownership.owner@ == record.governing_token_owner@,
        provenance.mint@ == ownership.mint@,
        provenance.collection matches Some(claim) && !claim.verified,
    ensures
        attest_outcome(registrar, record, ownership, provenance@, action, slot)
            == Err::<VoterWeightRecord, NftVoterError>(NftVoterError::CollectionUnverifiedOrMissing),
{
}

/// Past the action, ownership and mint checks, a verified collection that
/// no config names is refused with `CollectionNotConfigured`.
pub proof fn lemma_unconfigured_collection_refused(
    registrar: Registrar,
    record: VoterWeightRecord,
    ownership: OwnershipProof,
    provenance: ProvenanceProof,
    action: VoterWeightAction,
    slot: u64,
)
    requires
        action != VoterWeightAction::CastVote,
        ownership.owner@ == record.governing_token_owner@,
        provenance.mint@ == ownership.mint@,
        provenance.collection matches Some(claim) && claim.verified && forall|i: int|
            0 <= i < registrar.collection_configs@.len()
                ==> #[trigger] registrar.collection_configs@[i].collection@ != claim.key@,
    ensures
        attest_outcome(registrar, record, ownership, provenance@, action, slot)
            == Err::<VoterWeightRecord, NftVoterError>(NftVoterError::CollectionNotConfigured),
{
    let key = provenance.collection->Some_0.key@;
    assert(!exists|k: int| is_first_config(registrar.collection_configs@, key, k));
}

/// Attesting twice with the same inputs at the same slot returns the same
/// result and leaves the record as the first call left it.
pub proof fn lemma_attest_idempotent(
    registrar: Registrar,
    record: VoterWeightRecord,
    ownership: OwnershipProof,
    provenance: ProvenanceProof,
    action: VoterWeightAction,
    slot: u64,
)
    ensures
        ({
            let first = attest_outcome(registrar, record, ownership, provenance@, action, slot);
            let once = record_after(first, record);
            let second = attest_outcome(registrar, once, ownership, provenance@, action, slot);
            &&& result_of(second) == result_of(first)
            &&& record_after(second, once) == once
        }),
{
    let first = attest_outcome(registrar, record, ownership, provenance@, action, slot);
    if let Ok(once) = first {
        let w = configured_weight(registrar.collection_configs@, provenance@.1->Some_0.0);
        assert(once == attested(record, w->Some_0, action, slot));
        assert(attested(once, w->Some_0, action, slot) == once);
    }
}

} // verus!

use vstd::prelude::*;

use crate::pubkey::Pubkey;
use crate::state::{CollectionClaim, ProvenanceProof};

verus! {

/// Leading byte of a metadata account's data.
pub const METADATA_V1_KEY: u8 = 4;

/// The mint, and the collection with its verified flag, that the token
/// metadata decoder reads from a metadata account's bytes; `None` where it
/// refuses them.
pub uninterp spec fn metadata_decode(data: Seq<u8>) -> Option<(Seq<u8>, Option<(Seq<u8>, bool)>)>;

/// Relies on mpl_token_metadata's `Metadata::safe_deserialize`: it decodes a
/// metadata account from its bytes alone, and refuses data that is empty or
/// does not start with the `MetadataV1` key.
#[verifier::external_body]
pub(crate) fn decode_metadata(data: &[u8]) -> (r: Option<ProvenanceProof>)
    ensures
        match r {
            Some(p) => metadata_decode(data@) == Some(p@),
            None => metadata_decode(data@) is None,
        },
        data@.len() == 0 || data@[0] != METADATA_V1_KEY ==> r is None,
{
    match mpl_token_metadata::accounts::Metadata::safe_deserialize(data) {
        Ok(m) => Some(ProvenanceProof {
            mint: Pubkey { bytes: m.mint.to_bytes() },
            collection: match m.collection {
                Some(c) => Some(CollectionClaim { key: Pubkey { bytes: c.key.to_bytes() }, verified: c.verified }),
                None => None,
            },
        }),
        Err(_) => None,
    }
}

} // verus!

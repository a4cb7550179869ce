//! What an embedding reply reports besides the vectors.

use crate::models::base::structs::TokenCountMetadata;
use vstd::prelude::*;

verus! {

/// The token count of an embedding request.
#[derive(Clone, Copy, Debug, PartialEq, Eq, Structural)]
pub struct EmbeddingMetadata {
    pub token_count_metadata: Option<TokenCountMetadata>,
}

impl Default for EmbeddingMetadata {
    fn default() -> (metadata: EmbeddingMetadata)
        ensures
            metadata.token_count_metadata is None,
    {
        EmbeddingMetadata { token_count_metadata: None }
    }
}

} // verus!

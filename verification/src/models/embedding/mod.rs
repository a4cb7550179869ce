//! Embedding models.

pub mod structs;

use vstd::prelude::*;

verus! {

/// The embedding models.
#[derive(Clone, Copy, Debug, PartialEq, Eq, Structural)]
pub enum EmbeddingModels {
    TextEmbeddingGecko,
}

impl EmbeddingModels {
    /// The name that the hosting service knows the model by.
    pub open spec fn name(&self) -> Seq<char> {
        match self {
            EmbeddingModels::TextEmbeddingGecko => "textembedding-gecko"@,
        }
    }

    /// The path below the server's address that embedding requests go to.
    pub fn endpoint(&self) -> (path: &'static str)
        ensures
            path@ == "/v1beta/embedding"@,
    {
        "/v1beta/embedding"
    }

    /// The name that the hosting service knows the model by.
    pub fn as_str(&self) -> (name: &'static str)
        ensures
            name@ == self.name(),
    {
        match self {
            EmbeddingModels::TextEmbeddingGecko => "textembedding-gecko",
        }
    }
}

} // verus!

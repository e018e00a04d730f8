use vstd::prelude::*;

verus! {

/// The path of the embeddings endpoint, below `BASE_URL`.
pub const API_URL: &'static str = "v1/embeddings";

/// Token accounting of an embeddings request.
#[derive(Debug, Clone, Copy, PartialEq, Eq, Structural)]
pub struct Usage {
    pub prompt_tokens: usize,
    pub total_tokens: usize,
}

/// Why an embeddings request could not be built.
#[derive(Debug, Clone, Copy, PartialEq, Eq, Structural)]
pub enum EmbeddingRequestBuilderError {
    MissingModel,
    MissingClient,
}

impl EmbeddingRequestBuilderError {
    /// The error's description.
    pub fn message(&self) -> (r: &'static str)
        ensures
            r@ == match self {
                EmbeddingRequestBuilderError::MissingModel => "Missing required field: model"@,
                EmbeddingRequestBuilderError::MissingClient =>
                    "Missing required field: openai client"@,
            },
    {
        match self {
            EmbeddingRequestBuilderError::MissingModel => "Missing required field: model",
            EmbeddingRequestBuilderError::MissingClient => "Missing required field: openai client",
        }
    }
}

} // verus!

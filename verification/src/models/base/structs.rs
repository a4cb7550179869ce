//! Token accounting as the services report it.

use vstd::prelude::*;

verus! {

/// Counts of billed and unbilled tokens and characters.
#[derive(Clone, Copy, Debug, PartialEq, Eq, Structural)]
pub struct TokenCountMetadata {
    pub billable_tokens: i32,
    pub unbilled_tokens: i32,
    pub billable_characters: i32,
    pub unbilled_characters: i32,
}

impl Default for TokenCountMetadata {
    fn default() -> (count: TokenCountMetadata)
        ensures
            count == (TokenCountMetadata {
                billable_tokens: 0,
                unbilled_tokens: 0,
                billable_characters: 0,
                unbilled_characters: 0,
            }),
    {
        TokenCountMetadata { billable_tokens: 0, unbilled_tokens: 0, billable_characters: 0, unbilled_characters: 0 }
    }
}

impl TokenCountMetadata {
    /// The count of a reply that reports billed tokens only. The number is
    /// taken over bit for bit: one beyond the range of the count wraps
    /// round.
    pub fn of_tokens(tokens: u32) -> (count: TokenCountMetadata)
        ensures
            count == TokenCountMetadata::from_tokens(tokens),
            count.billable_tokens == wrapped(tokens),
    {
        let billable_tokens: i32 = if tokens <= 2147483647 {
            tokens as i32
        } else {
            let low: u32 = tokens - 2147483648;
            (low as i32) + i32::MIN
        };
        TokenCountMetadata { billable_tokens, unbilled_tokens: 0, billable_characters: 0, unbilled_characters: 0 }
    }
}

/// A 32-bit number read as a signed one.
pub open spec fn wrapped(tokens: u32) -> int {
    if tokens <= i32::MAX {
        tokens as int
    } else {
        tokens - 4294967296
    }
}

/// The token counts of a request and of its reply.
#[derive(Clone, Copy, Debug, PartialEq, Eq, Structural)]
pub struct Metadata {
    pub input_token_count: Option<TokenCountMetadata>,
    pub output_token_count: Option<TokenCountMetadata>,
}

impl Default for Metadata {
    fn default() -> (metadata: Metadata)
        ensures
            metadata.input_token_count is None,
            metadata.output_token_count is None,
    {
        Metadata { input_token_count: None, output_token_count: None }
    }
}

impl TokenCountMetadata {
    /// The count of a reply that reports billed tokens only.
    pub open spec fn from_tokens(tokens: u32) -> TokenCountMetadata {
        TokenCountMetadata {
            billable_tokens: wrapped(tokens) as i32,
            unbilled_tokens: 0,
            billable_characters: 0,
            unbilled_characters: 0,
        }
    }
}

impl Metadata {
    /// The counts of a reply that reports its prompt and completion tokens.
    pub open spec fn from_usage(prompt_tokens: u32, completion_tokens: u32) -> Metadata {
        Metadata {
            input_token_count: Some(TokenCountMetadata::from_tokens(prompt_tokens)),
            output_token_count: Some(TokenCountMetadata::from_tokens(completion_tokens)),
        }
    }

    /// The counts of a reply that reports its prompt and completion tokens.
    pub fn of_usage(prompt_tokens: u32, completion_tokens: u32) -> (metadata: Metadata)
        ensures
            metadata == Metadata::from_usage(prompt_tokens, completion_tokens),
    {
        Metadata {
            input_token_count: Some(TokenCountMetadata::of_tokens(prompt_tokens)),
            output_token_count: Some(TokenCountMetadata::of_tokens(completion_tokens)),
        }
    }
}

} // verus!

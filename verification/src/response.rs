use vstd::prelude::*;

use crate::finish::FinishReason;
use crate::float::Float32;

verus! {

/// A token of the prompt, as the model read it.
pub struct PrefillToken {
    pub id: u32,
    pub text: String,
    pub logprob: Float32,
}

/// A generated token.
pub struct Token {
    pub id: u32,
    pub text: String,
    pub logprob: Float32,
    pub special: bool,
}

/// One of the candidate sequences of a best-of request.
pub struct BestOfSequence {
    pub generated_text: String,
    pub finish_reason: FinishReason,
    pub generated_tokens: u32,
    pub seed: Option<u64>,
    pub prefill: Vec<PrefillToken>,
    pub tokens: Vec<Token>,
    pub top_tokens: Vec<Vec<Token>>,
}

/// What the router reports of a finished generation besides its text.
pub struct Details {
    pub finish_reason: FinishReason,
    pub generated_tokens: u32,
    pub seed: Option<u64>,
    pub prefill: Vec<PrefillToken>,
    pub tokens: Vec<Token>,
    pub best_of_sequences: Option<Vec<BestOfSequence>>,
    pub top_tokens: Vec<Vec<Token>>,
}

/// The answer to a generation request.
pub struct GenerateResponse {
    pub generated_text: String,
    pub details: Option<Details>,
}

/// What the last message of a stream reports of the generation.
pub struct StreamDetails {
    pub finish_reason: FinishReason,
    pub generated_tokens: u32,
    pub seed: Option<u64>,
}

/// One message of a streamed generation: one token, and at the end the text.
pub struct StreamResponse {
    pub index: u32,
    pub token: Token,
    pub top_tokens: Vec<Token>,
    pub generated_text: Option<String>,
    pub details: Option<StreamDetails>,
}

/// The body of an error answer.
pub struct ErrorResponse {
    pub error: String,
    pub error_type: String,
}

/// The log probabilities of a sequence of generated tokens, in order.
pub open spec fn token_logprobs(tokens: Seq<Token>) -> Seq<Float32> {
    tokens.map_values(|t: Token| t.logprob)
}

/// The log probabilities of a sequence of tokens line up with the tokens:
/// one entry per token, special tokens included, the i-th entry being the
/// i-th token's log probability.
pub proof fn lemma_token_logprobs_line_up(tokens: Seq<Token>)
    ensures
        token_logprobs(tokens).len() == tokens.len(),
        forall|i: int|
            0 <= i < tokens.len() ==> #[trigger] token_logprobs(tokens)[i] == tokens[i].logprob,
{
}

} // verus!

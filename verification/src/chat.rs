use vstd::prelude::*;

use crate::float::Float32;
use crate::response::{token_logprobs, Details};

verus! {

/// One message of a conversation: who speaks, and what.
#[derive(Clone)]
pub struct Message {
    pub role: String,
    pub content: String,
}

/// The complete answer to a chat request.
pub struct ChatCompletion {
    pub id: String,
    pub object: String,
    pub created: u64,
    pub model: String,
    pub system_fingerprint: String,
    pub choices: Vec<ChatCompletionComplete>,
    pub usage: Usage,
}

/// One choice of a complete chat answer.
pub struct ChatCompletionComplete {
    pub index: u32,
    pub message: Message,
    pub logprobs: Option<Vec<Float32>>,
    pub finish_reason: String,
}

/// How many tokens a chat request used.
pub struct Usage {
    pub prompt_tokens: u32,
    pub completion_tokens: u32,
    pub total_tokens: u32,
}

/// One streamed piece of a chat answer.
pub struct ChatCompletionChunk {
    pub id: String,
    pub object: String,
    pub created: u64,
    pub model: String,
    pub system_fingerprint: String,
    pub choices: Vec<ChatCompletionChoice>,
}

/// One choice of a streamed chat piece.
pub struct ChatCompletionChoice {
    pub index: u32,
    pub delta: ChatCompletionDelta,
    pub logprobs: Option<Float32>,
    pub finish_reason: Option<String>,
}

/// The text that a streamed chat piece adds, and who speaks it.
pub struct ChatCompletionDelta {
    pub role: String,
    pub content: String,
}

/// A chat request.
///
/// Only `messages`, `logprobs`, `max_tokens`, `stream` and `seed` steer the
/// generation; the other fields are accepted and carried along.
pub struct ChatRequest {
    pub model: String,
    pub messages: Vec<Message>,
    pub frequency_penalty: Option<Float32>,
    pub logit_bias: Option<Vec<Float32>>,
    pub logprobs: Option<bool>,
    pub top_logprobs: Option<u32>,
    pub max_tokens: Option<u32>,
    pub n: Option<u32>,
    pub presence_penalty: Option<Float32>,
    pub stream: bool,
    pub seed: Option<u64>,
}

/// What a chat template is rendered from: the conversation and the
/// tokenizer's special tokens.
pub struct ChatTemplateInputs<'a> {
    pub messages: Vec<Message>,
    pub bos_token: Option<&'a str>,
    pub eos_token: Option<&'a str>,
}

impl Usage {
    /// The total is the sum of the prompt's tokens and the generated ones.
    pub open spec fn is_consistent(self) -> bool {
        self.total_tokens == self.prompt_tokens + self.completion_tokens
    }
}

impl ChatCompletion {
    /// Builds the answer to a chat request from the generated text and the
    /// details of its generation.
    ///
    /// The answer has one choice, spoken by the assistant, with the log
    /// probabilities of the generated tokens when they were asked for. The
    /// prompt's token count is the length of the prefill taken modulo 2^32,
    /// as a `u32` cast takes it.
    pub fn new(
        model: String,
        system_fingerprint: String,
        output: String,
        created: u64,
        details: Details,
        return_logprobs: bool,
    ) -> (c: Self)
        requires
            (details.prefill@.len() as u32) + details.generated_tokens <= u32::MAX,
        ensures
            c.id@ == Seq::<char>::empty(),
            c.object@ == "text_completion"@,
            c.created == created,
            c.model == model,
            c.system_fingerprint == system_fingerprint,
            c.choices@.len() == 1,
            c.choices@[0].index == 0,
            c.choices@[0].message.role@ == "assistant"@,
            c.choices@[0].message.content == output,
            c.choices@[0].logprobs is Some <==> return_logprobs,
            return_logprobs ==> c.choices@[0].logprobs->0@ == token_logprobs(details.tokens@),
            return_logprobs ==> c.choices@[0].logprobs->0@.len() == details.tokens@.len(),
            return_logprobs ==> forall|i: int|
                0 <= i < details.tokens@.len() ==> #[trigger] c.choices@[0].logprobs->0@[i]
                    == details.tokens@[i].logprob,
            c.choices@[0].finish_reason@ == details.finish_reason.name(),
            c.usage.prompt_tokens == details.prefill@.len() as u32,
            c.usage.completion_tokens == details.generated_tokens,
            c.usage.is_consistent(),
    {
        let logprobs = if return_logprobs {
            let mut lp: Vec<Float32> = Vec::new();
            let mut i: usize = 0;
            while i < details.tokens.len()
                invariant
                    i <= details.tokens@.len(),
                    lp@ == token_logprobs(details.tokens@.take(i as int)),
                    lp@.len() == i,
                    forall|j: int| 0 <= j < i ==> #[trigger] lp@[j] == details.tokens@[j].logprob,
                decreases details.tokens@.len() - i,
            {
                lp.push(details.tokens[i].logprob);
                assert(details.tokens@.take(i + 1) =~= details.tokens@.take(i as int).push(
                    details.tokens@[i as int],
                ));
                i = i + 1;
            }
            assert(details.tokens@.take(i as int) =~= details.tokens@);
            Some(lp)
        } else {
            None
        };
        let prompt_tokens: u32 = details.prefill.len() as u32;
        let finish_reason = details.finish_reason.to_string();
        let choice = ChatCompletionComplete {
            index: 0,
            message: Message { role: "assistant".to_owned(), content: output },
            logprobs,
            finish_reason,
        };
        ChatCompletion {
            id: String::new(),
            object: "text_completion".to_owned(),
            created,
            model,
            system_fingerprint,
            choices: vec![choice],
            usage: Usage {
                prompt_tokens,
                completion_tokens: details.generated_tokens,
                total_tokens: prompt_tokens + details.generated_tokens,
            },
        }
    }
}

impl ChatCompletionChunk {
    /// Builds one streamed piece of a chat answer: one choice, spoken by the
    /// assistant, that adds `delta` to the text.
    pub fn new(
        model: String,
        system_fingerprint: String,
        delta: String,
        created: u64,
        index: u32,
        logprobs: Option<Float32>,
        finish_reason: Option<String>,
    ) -> (c: Self)
        ensures
            c.id@ == Seq::<char>::empty(),
            c.object@ == "text_completion"@,
            c.created == created,
            c.model == model,
            c.system_fingerprint == system_fingerprint,
            c.choices@.len() == 1,
            c.choices@[0].index == index,
            c.choices@[0].delta.role@ == "assistant"@,
            c.choices@[0].delta.content == delta,
            c.choices@[0].logprobs == logprobs,
            c.choices@[0].finish_reason == finish_reason,
    {
        let choice = ChatCompletionChoice {
            index,
            delta: ChatCompletionDelta { role: "assistant".to_owned(), content: delta },
            logprobs,
            finish_reason,
        };
        ChatCompletionChunk {
            id: String::new(),
            object: "text_completion".to_owned(),
            created,
            model,
            system_fingerprint,
            choices: vec![choice],
        }
    }
}

/// The conversation that a chat request without messages stands for.
pub fn default_request_messages() -> (m: Vec<Message>)
    ensures
        m@.len() == 1,
        m@[0].role@ == "user"@,
        m@[0].content@ == "My name is David and I"@,
{
    vec![Message { role: "user".to_owned(), content: "My name is David and I".to_owned() }]
}

} // verus!

//! Data types and builders of the text-generation router: what the hub
//! describes of a model, the requests the router accepts, and the responses
//! it sends back, with the defaults and constructors that fill them in.

pub mod chat;
pub mod finish;
pub mod float;
pub mod generate;
pub mod hub;
pub mod response;

pub use chat::{
    default_request_messages, ChatCompletion, ChatCompletionChoice, ChatCompletionChunk,
    ChatCompletionComplete, ChatCompletionDelta, ChatRequest, ChatTemplateInputs, Message, Usage,
};
pub use finish::FinishReason;
pub use float::Float32;
pub use generate::{
    default_max_new_tokens, default_parameters, CompatGenerateRequest, GenerateParameters,
    GenerateRequest,
};
pub use hub::{HubModelInfo, HubTokenizerConfig, Info};
pub use response::{
    BestOfSequence, Details, ErrorResponse, GenerateResponse, PrefillToken, StreamDetails,
    StreamResponse, Token,
};

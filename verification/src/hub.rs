use vstd::prelude::*;

use crate::float::Float32;

verus! {

/// What the model hub tells of a model.
#[derive(Clone, Debug)]
pub struct HubModelInfo {
    pub model_id: String,
    pub sha: Option<String>,
    pub pipeline_tag: Option<String>,
}

/// The parts of a model's tokenizer configuration that the router uses.
#[derive(Clone)]
pub struct HubTokenizerConfig {
    pub chat_template: Option<String>,
    pub bos_token: Option<String>,
    pub eos_token: Option<String>,
}

impl HubTokenizerConfig {
    /// A configuration that sets nothing.
    pub open spec fn is_empty(self) -> bool {
        &&& self.chat_template is None
        &&& self.bos_token is None
        &&& self.eos_token is None
    }

    /// The configuration that a tokenizer configuration file stands for,
    /// given what parsing its text gave: the parsed configuration, or the
    /// empty one where the text could not be parsed.
    pub fn from_parsed(parsed: Option<HubTokenizerConfig>) -> (c: Self)
        ensures
            parsed matches Some(p) ==> c == p,
            parsed is None ==> c.is_empty(),
    {
        match parsed {
            Some(p) => p,
            None => HubTokenizerConfig::default(),
        }
    }
}

impl Default for HubTokenizerConfig {
    /// The empty configuration: no chat template and no special tokens.
    fn default() -> (c: Self)
        ensures
            c.is_empty(),
    {
        HubTokenizerConfig { chat_template: None, bos_token: None, eos_token: None }
    }
}

/// What the router tells of itself and of the model it serves.
#[derive(Clone, Debug)]
pub struct Info {
    pub model_id: String,
    pub model_sha: Option<String>,
    pub model_dtype: String,
    pub model_device_type: String,
    pub model_pipeline_tag: Option<String>,
    pub max_concurrent_requests: usize,
    pub max_best_of: usize,
    pub max_stop_sequences: usize,
    pub max_input_length: usize,
    pub max_total_tokens: usize,
    pub waiting_served_ratio: Float32,
    pub max_batch_total_tokens: u32,
    pub max_waiting_tokens: usize,
    pub validation_workers: usize,
    pub version: &'static str,
    pub sha: Option<&'static str>,
    pub docker_label: Option<&'static str>,
}

} // verus!

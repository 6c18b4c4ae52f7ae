use vstd::prelude::*;

use crate::float::Float32;

verus! {

/// How a generation request asks the model to generate.
///
/// Sampling numbers (temperature, penalties, nucleus bounds) are carried by
/// their bit patterns; see [`Float32`].
pub struct GenerateParameters {
    pub best_of: Option<usize>,
    pub temperature: Option<Float32>,
    pub repetition_penalty: Option<Float32>,
    pub top_k: Option<i32>,
    pub top_p: Option<Float32>,
    pub typical_p: Option<Float32>,
    pub do_sample: bool,
    pub max_new_tokens: Option<u32>,
    pub return_full_text: Option<bool>,
    pub stop: Vec<String>,
    pub truncate: Option<usize>,
    pub watermark: bool,
    pub details: bool,
    pub decoder_input_details: bool,
    pub seed: Option<u64>,
    pub top_n_tokens: Option<u32>,
}

/// A request to generate text from a prompt.
pub struct GenerateRequest {
    pub inputs: String,
    pub parameters: GenerateParameters,
}

/// A generation request of the compatibility route, which may ask for a stream.
pub struct CompatGenerateRequest {
    pub inputs: String,
    pub parameters: GenerateParameters,
    pub stream: bool,
}

/// The token budget of a request that names none.
pub open spec fn spec_default_max_new_tokens() -> Option<u32> {
    Some(100u32)
}

/// The token budget of a request that names none: 100 new tokens.
pub fn default_max_new_tokens() -> (n: Option<u32>)
    ensures
        n == spec_default_max_new_tokens(),
{
    Some(100)
}

/// The parameters of a request that sends none: sampling on, the default
/// token budget, and everything else unset or off.
pub fn default_parameters() -> (p: GenerateParameters)
    ensures
        p.best_of is None,
        p.temperature is None,
        p.repetition_penalty is None,
        p.top_k is None,
        p.top_p is None,
        p.typical_p is None,
        p.do_sample,
        p.max_new_tokens == spec_default_max_new_tokens(),
        p.return_full_text is None,
        p.stop@.len() == 0,
        p.truncate is None,
        !p.watermark,
        !p.details,
        !p.decoder_input_details,
        p.seed is None,
        p.top_n_tokens is None,
{
    GenerateParameters {
        best_of: None,
        temperature: None,
        repetition_penalty: None,
        top_k: None,
        top_p: None,
        typical_p: None,
        do_sample: true,
        max_new_tokens: default_max_new_tokens(),
        return_full_text: None,
        stop: Vec::new(),
        truncate: None,
        watermark: false,
        details: false,
        decoder_input_details: false,
        seed: None,
        top_n_tokens: None,
    }
}

impl From<CompatGenerateRequest> for GenerateRequest {
    /// The same request on the plain route: the prompt and the parameters are
    /// kept, the wish for a stream is dropped.
    fn from(req: CompatGenerateRequest) -> (r: Self) {
        GenerateRequest { inputs: req.inputs, parameters: req.parameters }
    }
}

impl vstd::std_specs::convert::FromSpecImpl<CompatGenerateRequest> for GenerateRequest {
    open spec fn obeys_from_spec() -> bool {
        true
    }

    open spec fn from_spec(req: CompatGenerateRequest) -> GenerateRequest {
        GenerateRequest { inputs: req.inputs, parameters: req.parameters }
    }
}

/// A request of the compatibility route, taken to the plain route, asks for
/// the same generation: the same prompt with the same parameters.
pub proof fn lemma_plain_request_keeps_prompt_and_parameters(req: CompatGenerateRequest)
    ensures
        <GenerateRequest as vstd::std_specs::convert::FromSpec<CompatGenerateRequest>>::obeys_from_spec(),
        <GenerateRequest as vstd::std_specs::convert::FromSpec<CompatGenerateRequest>>::from_spec(req).inputs
            == req.inputs,
        <GenerateRequest as vstd::std_specs::convert::FromSpec<CompatGenerateRequest>>::from_spec(req).parameters
            == req.parameters,
{
}

} // verus!

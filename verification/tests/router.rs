use text_generation_router::{
    default_max_new_tokens, default_parameters, default_request_messages, ChatCompletion,
    ChatCompletionChunk, CompatGenerateRequest, Details, FinishReason, Float32,
    GenerateRequest, HubTokenizerConfig, PrefillToken, Token,
};

fn prefill(n: u32) -> Vec<PrefillToken> {
    (0..n)
        .map(|i| PrefillToken { id: i, text: format!("p{}", i), logprob: Float32::from_bits(i) })
        .collect()
}

fn token(id: u32, logprob: f32) -> Token {
    Token { id, text: format!("t{}", id), logprob: Float32::from_bits(logprob.to_bits()), special: false }
}

fn details(reason: FinishReason, generated: u32, prefill_len: u32, tokens: Vec<Token>) -> Details {
    Details {
        finish_reason: reason,
        generated_tokens: generated,
        seed: None,
        prefill: prefill(prefill_len),
        tokens,
        best_of_sequences: None,
        top_tokens: Vec::new(),
    }
}

#[test]
fn finish_reason_texts() {
    assert_eq!(FinishReason::Length.to_string(), "length");
    assert_eq!(FinishReason::EndOfSequenceToken.to_string(), "eos_token");
    assert_eq!(FinishReason::StopSequence.to_string(), "stop_sequence");
}

#[test]
fn finish_reason_texts_are_distinct() {
    let all = [FinishReason::Length, FinishReason::EndOfSequenceToken, FinishReason::StopSequence];
    for a in all.iter() {
        for b in all.iter() {
            assert_eq!(a.to_string() == b.to_string(), a == b);
        }
    }
}

#[test]
fn default_token_budget_is_100() {
    assert_eq!(default_max_new_tokens(), Some(100));
}

#[test]
fn default_parameters_values() {
    let p = default_parameters();
    assert_eq!(p.best_of, None);
    assert!(p.temperature.is_none());
    assert!(p.repetition_penalty.is_none());
    assert_eq!(p.top_k, None);
    assert!(p.top_p.is_none());
    assert!(p.typical_p.is_none());
    assert!(p.do_sample);
    assert_eq!(p.max_new_tokens, default_max_new_tokens());
    assert_eq!(p.return_full_text, None);
    assert!(p.stop.is_empty());
    assert_eq!(p.truncate, None);
    assert!(!p.watermark);
    assert!(!p.details);
    assert!(!p.decoder_input_details);
    assert_eq!(p.seed, None);
    assert_eq!(p.top_n_tokens, None);
}

#[test]
fn default_messages() {
    let m = default_request_messages();
    assert_eq!(m.len(), 1);
    assert_eq!(m[0].role, "user");
    assert_eq!(m[0].content, "My name is David and I");
}

#[test]
fn compat_request_keeps_prompt_and_parameters() {
    let mut parameters = default_parameters();
    parameters.seed = Some(42);
    parameters.stop = vec!["\n".to_string()];
    let req = CompatGenerateRequest { inputs: "Hello".to_string(), parameters, stream: true };
    let r: GenerateRequest = GenerateRequest::from(req);
    assert_eq!(r.inputs, "Hello");
    assert_eq!(r.parameters.seed, Some(42));
    assert_eq!(r.parameters.stop, vec!["\n".to_string()]);
    assert_eq!(r.parameters.max_new_tokens, Some(100));
}

#[test]
fn chat_completion_without_logprobs() {
    let d = details(FinishReason::EndOfSequenceToken, 7, 3, vec![token(1, -0.5), token(2, -1.25)]);
    let c = ChatCompletion::new(
        "gpt2".to_string(),
        "fp".to_string(),
        "Hi there".to_string(),
        1700000000,
        d,
        false,
    );
    assert_eq!(c.id, "");
    assert_eq!(c.object, "text_completion");
    assert_eq!(c.created, 1700000000);
    assert_eq!(c.model, "gpt2");
    assert_eq!(c.system_fingerprint, "fp");
    assert_eq!(c.choices.len(), 1);
    assert_eq!(c.choices[0].index, 0);
    assert_eq!(c.choices[0].message.role, "assistant");
    assert_eq!(c.choices[0].message.content, "Hi there");
    assert!(c.choices[0].logprobs.is_none());
    assert_eq!(c.choices[0].finish_reason, "eos_token");
    assert_eq!(c.usage.prompt_tokens, 3);
    assert_eq!(c.usage.completion_tokens, 7);
    assert_eq!(c.usage.total_tokens, 10);
}

#[test]
fn chat_completion_with_logprobs() {
    let d = details(FinishReason::Length, 2, 0, vec![token(1, -0.5), token(2, -1.25)]);
    let c = ChatCompletion::new(String::new(), String::new(), "ab".to_string(), 0, d, true);
    let lp = c.choices[0].logprobs.as_ref().unwrap();
    let values: Vec<f32> = lp.iter().map(|f| f32::from_bits(f.bits)).collect();
    assert_eq!(values, vec![-0.5f32, -1.25f32]);
    assert_eq!(c.choices[0].finish_reason, "length");
    assert_eq!(c.usage.prompt_tokens, 0);
    assert_eq!(c.usage.total_tokens, 2);
}

#[test]
fn chat_completion_with_logprobs_and_no_tokens() {
    let d = details(FinishReason::StopSequence, 0, 1, Vec::new());
    let c = ChatCompletion::new(String::new(), String::new(), String::new(), 0, d, true);
    assert_eq!(c.choices[0].logprobs.as_ref().map(|v| v.len()), Some(0));
    assert_eq!(c.choices[0].finish_reason, "stop_sequence");
    assert_eq!(c.usage.total_tokens, 1);
}

#[test]
fn chat_completion_chunk_fields() {
    let c = ChatCompletionChunk::new(
        "gpt2".to_string(),
        "fp".to_string(),
        " world".to_string(),
        12,
        4,
        Some(Float32::from_bits((-0.25f32).to_bits())),
        Some("length".to_string()),
    );
    assert_eq!(c.id, "");
    assert_eq!(c.object, "text_completion");
    assert_eq!(c.created, 12);
    assert_eq!(c.model, "gpt2");
    assert_eq!(c.system_fingerprint, "fp");
    assert_eq!(c.choices.len(), 1);
    assert_eq!(c.choices[0].index, 4);
    assert_eq!(c.choices[0].delta.role, "assistant");
    assert_eq!(c.choices[0].delta.content, " world");
    assert_eq!(c.choices[0].logprobs.map(|f| f32::from_bits(f.bits)), Some(-0.25f32));
    assert_eq!(c.choices[0].finish_reason.as_deref(), Some("length"));
}

#[test]
fn chat_completion_chunk_without_finish() {
    let c = ChatCompletionChunk::new(String::new(), String::new(), "x".to_string(), 0, 0, None, None);
    assert!(c.choices[0].logprobs.is_none());
    assert!(c.choices[0].finish_reason.is_none());
}

#[test]
fn tokenizer_config_default_is_empty() {
    let c = HubTokenizerConfig::default();
    assert!(c.chat_template.is_none());
    assert!(c.bos_token.is_none());
    assert!(c.eos_token.is_none());
}

#[test]
fn tokenizer_config_from_unparsable_text_is_empty() {
    let c = HubTokenizerConfig::from_parsed(None);
    assert!(c.chat_template.is_none());
    assert!(c.bos_token.is_none());
    assert!(c.eos_token.is_none());
}

#[test]
fn tokenizer_config_from_parsed_text_is_kept() {
    let parsed = HubTokenizerConfig {
        chat_template: Some("{{ messages }}".to_string()),
        bos_token: Some("<s>".to_string()),
        eos_token: Some("</s>".to_string()),
    };
    let c = HubTokenizerConfig::from_parsed(Some(parsed));
    assert_eq!(c.chat_template.as_deref(), Some("{{ messages }}"));
    assert_eq!(c.bos_token.as_deref(), Some("<s>"));
    assert_eq!(c.eos_token.as_deref(), Some("</s>"));
}

#[test]
fn float32_keeps_its_bits() {
    let f = Float32::from_bits(1.5f32.to_bits());
    assert_eq!(f32::from_bits(f.bits), 1.5f32);
}

use vstd::prelude::*;

verus! {

/// Why the generation of a sequence stopped.
#[derive(Clone, Copy, Debug, PartialEq, Eq, Structural)]
pub enum FinishReason {
    /// The token budget of the request was used up.
    Length,
    /// The model produced its end-of-sequence token.
    EndOfSequenceToken,
    /// One of the request's stop sequences was produced.
    StopSequence,
}

impl FinishReason {
    /// The text by which a reason is shown and sent to clients.
    pub open spec fn name(self) -> Seq<char> {
        match self {
            FinishReason::Length => "length"@,
            FinishReason::EndOfSequenceToken => "eos_token"@,
            FinishReason::StopSequence => "stop_sequence"@,
        }
    }

    /// The text of this reason: `length`, `eos_token` or `stop_sequence`.
    pub fn to_string(&self) -> (s: String)
        ensures
            s@ == self.name(),
    {
        match self {
            FinishReason::Length => "length".to_owned(),
            FinishReason::EndOfSequenceToken => "eos_token".to_owned(),
            FinishReason::StopSequence => "stop_sequence".to_owned(),
        }
    }
}

/// Two different reasons are never shown by the same text, so a client can
/// tell from the text alone why a generation stopped.
pub proof fn lemma_finish_reason_names_distinct(a: FinishReason, b: FinishReason)
    requires
        a.name() == b.name(),
    ensures
        a == b,
{
    reveal_strlit("length");
    reveal_strlit("eos_token");
    reveal_strlit("stop_sequence");
    assert("length"@.len() == 6);
    assert("eos_token"@.len() == 9);
    assert("stop_sequence"@.len() == 13);
}

} // verus!

use vstd::prelude::*;
use vstd::string::StringExecFns;

verus! {

/// Default inferencing options; the three fractional defaults are carried
/// as IEEE-754 binary32 bit patterns, like every real number crossing the
/// bridge.
pub const DEFAULT_MAX_TOKENS: u32 = 100;

pub const DEFAULT_REPEAT_PENALTY_BITS: u32 = 0x3F8CCCCD;

pub const DEFAULT_REPEAT_PENALTY_LAST_N_TOKEN_COUNT: u32 = 64;

pub const DEFAULT_TEMPERATURE_BITS: u32 = 0x3F4CCCCD;

pub const DEFAULT_TOP_K: u32 = 40;

pub const DEFAULT_TOP_P_BITS: u32 = 0x3F666666;

/// The model selector for an inferencing request: a small set of
/// well-known identifiers is recognized, and any other name is passed
/// through verbatim as a custom selector rather than rejected.
#[derive(Debug, PartialEq)]
pub enum InferencingModelChoice {
    Llama2Chat,
    CodellamaInstruct,
    Other(String),
}

/// The model selector for an embeddings request.
#[derive(Debug, PartialEq)]
pub enum EmbeddingModelChoice {
    AllMiniLmL6V2,
    Other(String),
}

/// Options of an inferencing request; fractional fields carry IEEE-754
/// binary32 bit patterns.
#[derive(Clone, Copy, Debug, PartialEq, Eq, Structural)]
pub struct InferencingOptions {
    pub max_tokens: u32,
    pub repeat_penalty_bits: u32,
    pub repeat_penalty_last_n_token_count: u32,
    pub temperature_bits: u32,
    pub top_k: u32,
    pub top_p_bits: u32,
}

/// Token accounting of an inferencing request.
#[derive(Clone, Copy, Debug, PartialEq, Eq, Structural)]
pub struct InferencingUsageData {
    pub prompt_token_count: u32,
    pub generated_token_count: u32,
}

/// The outcome of an inferencing request: generated text and usage.
#[derive(Debug)]
pub struct InferencingResultData {
    pub text: String,
    pub usage: InferencingUsageData,
}

/// Token accounting of an embeddings request.
#[derive(Clone, Copy, Debug, PartialEq, Eq, Structural)]
pub struct EmbeddingsUsageData {
    pub prompt_token_count: u32,
}

/// The outcome of an embeddings request: one vector per input text, each
/// component an IEEE-754 binary32 bit pattern, and usage.
#[derive(Debug)]
pub struct EmbeddingsResultData {
    pub embeddings: Vec<Vec<u32>>,
    pub usage: EmbeddingsUsageData,
}

/// The capability-defined default options.
pub open spec fn default_inferencing_options() -> InferencingOptions {
    InferencingOptions {
        max_tokens: DEFAULT_MAX_TOKENS,
        repeat_penalty_bits: DEFAULT_REPEAT_PENALTY_BITS,
        repeat_penalty_last_n_token_count: DEFAULT_REPEAT_PENALTY_LAST_N_TOKEN_COUNT,
        temperature_bits: DEFAULT_TEMPERATURE_BITS,
        top_k: DEFAULT_TOP_K,
        top_p_bits: DEFAULT_TOP_P_BITS,
    }
}

impl InferencingOptions {
    pub fn new(
        max_tokens: u32,
        repeat_penalty_bits: u32,
        repeat_penalty_last_n_token_count: u32,
        temperature_bits: u32,
        top_k: u32,
        top_p_bits: u32,
    ) -> (r: InferencingOptions)
        ensures
            r == (InferencingOptions {
                max_tokens,
                repeat_penalty_bits,
                repeat_penalty_last_n_token_count,
                temperature_bits,
                top_k,
                top_p_bits,
            }),
    {
        InferencingOptions {
            max_tokens,
            repeat_penalty_bits,
            repeat_penalty_last_n_token_count,
            temperature_bits,
            top_k,
            top_p_bits,
        }
    }
}

impl Default for InferencingOptions {
    /// The defaults used when an inferencing request carries no options.
    fn default() -> (r: InferencingOptions)
        ensures
            r == default_inferencing_options(),
    {
        InferencingOptions {
            max_tokens: DEFAULT_MAX_TOKENS,
            repeat_penalty_bits: DEFAULT_REPEAT_PENALTY_BITS,
            repeat_penalty_last_n_token_count: DEFAULT_REPEAT_PENALTY_LAST_N_TOKEN_COUNT,
            temperature_bits: DEFAULT_TEMPERATURE_BITS,
            top_k: DEFAULT_TOP_K,
            top_p_bits: DEFAULT_TOP_P_BITS,
        }
    }
}

/// The options an inferencing request runs with: the caller's, or the
/// capability-defined defaults when absent.
pub fn options_or_default(options: Option<InferencingOptions>) -> (p: InferencingOptions)
    ensures
        options matches Some(o) ==> p == o,
        options is None ==> p == default_inferencing_options(),
{
    match options {
        Some(o) => o,
        None => InferencingOptions::default(),
    }
}

/// Resolves an inferencing model name: the two well-known identifiers map
/// to their selectors, every other name passes through verbatim.
pub fn select_inferencing_model(model: String) -> (m: InferencingModelChoice)
    ensures
        model@ == "llama2-chat"@ ==> m is Llama2Chat,
        model@ == "codellama-instruct"@ ==> m is CodellamaInstruct,
        model@ != "llama2-chat"@ && model@ != "codellama-instruct"@ ==> (m matches
            InferencingModelChoice::Other(s) && s == model),
{
    proof {
        // the two well-known names differ (already in length), so at most
        // one branch's ensures clause can apply to a given input
        reveal_strlit("llama2-chat");
        reveal_strlit("codellama-instruct");
        assert("llama2-chat"@.len() == 11);
        assert("codellama-instruct"@.len() == 18);
        assert("llama2-chat"@ != "codellama-instruct"@);
    }
    if model == String::from_str("llama2-chat") {
        InferencingModelChoice::Llama2Chat
    } else if model == String::from_str("codellama-instruct") {
        InferencingModelChoice::CodellamaInstruct
    } else {
        InferencingModelChoice::Other(model)
    }
}

/// Resolves an embeddings model name: the one well-known identifier maps
/// to its selector, every other name passes through verbatim.
pub fn select_embedding_model(model: String) -> (m: EmbeddingModelChoice)
    ensures
        model@ == "all-minilm-l6-v2"@ ==> m is AllMiniLmL6V2,
        model@ != "all-minilm-l6-v2"@ ==> (m matches EmbeddingModelChoice::Other(s) && s
            == model),
{
    if model == String::from_str("all-minilm-l6-v2") {
        EmbeddingModelChoice::AllMiniLmL6V2
    } else {
        EmbeddingModelChoice::Other(model)
    }
}

} // verus!

use vstd::prelude::*;

verus! {

/// Tunables that are meaningful when a chain is called rather than when a
/// model client is constructed. Fractional values are held in thousandths.
///
/// A streaming callback sink is not among them: it is a suspending closure,
/// which this library cannot hold or reason about. A caller that wants one
/// gives it to the model client directly.
#[derive(Debug, Clone, PartialEq, Eq)]
pub struct ChainCallOptions {
    pub max_tokens: Option<u32>,
    pub temperature_milli: Option<u32>,
    pub stop_words: Option<Vec<String>>,
    pub top_k: Option<u32>,
    pub top_p_milli: Option<u32>,
    pub timeout_ms: Option<u64>,
}

/// The same tunables in the model client's own representation.
#[derive(Debug, Clone, PartialEq, Eq)]
pub struct CallOptions {
    pub max_tokens: Option<u32>,
    pub temperature_milli: Option<u32>,
    pub stop_words: Option<Vec<String>>,
    pub top_k: Option<u32>,
    pub top_p_milli: Option<u32>,
    pub timeout_ms: Option<u64>,
}

impl ChainCallOptions {
    /// What [`ChainCallOptions::to_llm_options`] returns: every tunable is
    /// carried over unchanged, so nothing is lost in the conversion.
    pub open spec fn as_llm_options(self) -> CallOptions {
        CallOptions {
            max_tokens: self.max_tokens,
            temperature_milli: self.temperature_milli,
            stop_words: self.stop_words,
            top_k: self.top_k,
            top_p_milli: self.top_p_milli,
            timeout_ms: self.timeout_ms,
        }
    }

    /// Options with no tunable set.
    pub fn new() -> (r: Self)
        ensures
            r.max_tokens is None,
            r.temperature_milli is None,
            r.stop_words is None,
            r.top_k is None,
            r.top_p_milli is None,
            r.timeout_ms is None,
    {
        ChainCallOptions {
            max_tokens: None,
            temperature_milli: None,
            stop_words: None,
            top_k: None,
            top_p_milli: None,
            timeout_ms: None,
        }
    }

    /// Converts call options into the model client's representation.
    pub fn to_llm_options(options: ChainCallOptions) -> (r: CallOptions)
        ensures
            r == options.as_llm_options(),
    {
        CallOptions {
            max_tokens: options.max_tokens,
            temperature_milli: options.temperature_milli,
            stop_words: options.stop_words,
            top_k: options.top_k,
            top_p_milli: options.top_p_milli,
            timeout_ms: options.timeout_ms,
        }
    }
}

impl Default for ChainCallOptions {
    fn default() -> (r: Self)
        ensures
            r.max_tokens is None,
            r.temperature_milli is None,
            r.stop_words is None,
            r.top_k is None,
            r.top_p_milli is None,
            r.timeout_ms is None,
    {
        ChainCallOptions::new()
    }
}

/// The conversion to model options loses nothing: two option sets that
/// convert to the same model options are the same option set.
pub proof fn lemma_conversion_is_lossless(a: ChainCallOptions, b: ChainCallOptions)
    requires
        a.as_llm_options() == b.as_llm_options(),
    ensures
        a == b,
{
}

} // verus!

use vstd::prelude::*;
use crate::errors::LLMError;
use crate::options::CallOptions;
use crate::schemas::{GenerateResult, Message};
use crate::stream::ModelStream;

verus! {

/// The record of the options folded into a client, oldest first.
pub type OptionsRecord = Seq<CallOptions>;

/// The capability of taking call-time options. A client keeps account of
/// the options folded into it: `folded_options` is that record, which every
/// implementation states. It is ghost: it is never run.
pub trait Configurable: Send + Sync {
    /// The options folded into this client so far, oldest first.
    spec fn folded_options(&self) -> OptionsRecord;

    /// Folds call-time options into the client's configuration. How they
    /// merge with what is already configured is the client's own business.
    fn add_options(&mut self, options: CallOptions)
        ensures
            final(self).folded_options() == old(self).folded_options().push(options),
    ;
}

/// The capability of turning chat messages into generated text.
///
/// What a model generates depends on more than its arguments, so neither
/// `generate` nor `stream` promises anything of its result.
pub trait LLM: Configurable {
    /// One-shot generation.
    fn generate(&self, messages: &Vec<Message>) -> (r: Result<GenerateResult, LLMError>);

    /// Sets up a streamed generation.
    fn stream(&self, messages: &Vec<Message>) -> (r: Result<ModelStream, LLMError>);
}

} // verus!

use vstd::prelude::*;

verus! {

/// Failure of a prompt formatter, such as an unknown or missing variable.
#[derive(Debug, Clone, PartialEq, Eq)]
pub struct PromptError {
    pub message: String,
}

/// Failure of a model client: transport, decoding, or a remote error.
#[derive(Debug, Clone, PartialEq, Eq)]
pub struct LLMError {
    pub message: String,
}

/// Failure of an output parser.
#[derive(Debug, Clone, PartialEq, Eq)]
pub struct OutputParserError {
    pub message: String,
}

/// Every failure a chain produces or passes on. Nothing is recovered
/// locally: a collaborator's error is carried unchanged inside its kind.
#[derive(Debug, Clone, PartialEq, Eq)]
pub enum ChainError {
    /// Raised by the builder when a required part was never set.
    MissingObject(String),
    /// The formatter could not render the prompt.
    Format(PromptError),
    /// The model client failed.
    Model(LLMError),
    /// The output parser failed.
    Parse(OutputParserError),
}

impl From<PromptError> for ChainError {
    /// Carries a formatter failure into the chain's taxonomy.
    fn from(e: PromptError) -> (r: ChainError) {
        ChainError::Format(e)
    }
}

impl vstd::std_specs::convert::FromSpecImpl<PromptError> for ChainError {
    open spec fn obeys_from_spec() -> bool {
        true
    }

    open spec fn from_spec(e: PromptError) -> ChainError {
        ChainError::Format(e)
    }
}

impl From<LLMError> for ChainError {
    /// Carries a model failure into the chain's taxonomy.
    fn from(e: LLMError) -> (r: ChainError) {
        ChainError::Model(e)
    }
}

impl vstd::std_specs::convert::FromSpecImpl<LLMError> for ChainError {
    open spec fn obeys_from_spec() -> bool {
        true
    }

    open spec fn from_spec(e: LLMError) -> ChainError {
        ChainError::Model(e)
    }
}

impl From<OutputParserError> for ChainError {
    /// Carries a parser failure into the chain's taxonomy.
    fn from(e: OutputParserError) -> (r: ChainError) {
        ChainError::Parse(e)
    }
}

impl vstd::std_specs::convert::FromSpecImpl<OutputParserError> for ChainError {
    open spec fn obeys_from_spec() -> bool {
        true
    }

    open spec fn from_spec(e: OutputParserError) -> ChainError {
        ChainError::Parse(e)
    }
}

} // verus!

//! A prompt-to-model chain: named inputs are rendered into chat messages,
//! handed to a text-generation model, and the generated text is optionally
//! refined by an output parser.
//!
//! The collaborators (formatter, model client, output parser) are traits.
//! Every decision the chain makes about what they return is a verified
//! function on plain values.

pub mod errors;
pub mod schemas;
pub mod options;
pub mod prompt;
pub mod output_parser;
pub mod stream;
pub mod llm;
pub mod chain;

pub use chain::{Chain, LLMChain, LLMChainBuilder};
pub use errors::{ChainError, LLMError, OutputParserError, PromptError};
pub use llm::{Configurable, OptionsRecord, LLM};
pub use options::{CallOptions, ChainCallOptions};
pub use output_parser::{ChainParser, OutputParser, SimpleParser};
pub use prompt::{Bindings, FormatPrompter, PromptArgs, PromptValue, Variables};
pub use schemas::{GenerateResult, Message, MessageView, Messages, StreamData, Text};
pub use stream::{ChainStream, ModelStream};

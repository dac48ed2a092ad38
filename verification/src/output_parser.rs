use vstd::prelude::*;
use crate::errors::OutputParserError;
use crate::schemas::Text;

verus! {

/// The capability of refining a model's raw text.
///
/// Parsing is a function of the parser and the text alone. `parsed` is the
/// model of an implementation: every implementation states it, and `parse`
/// must agree with it. It is ghost: it is never run.
pub trait OutputParser: Send + Sync {
    /// What parsing `output` gives: the refined text, or the failure's
    /// message.
    spec fn parsed(&self, output: Text) -> Result<Text, Text>;

    fn parse(&self, output: &str) -> (r: Result<String, OutputParserError>)
        ensures
            match r {
                Ok(s) => self.parsed(output@) == Ok::<Seq<char>, Seq<char>>(s@),
                Err(e) => self.parsed(output@) == Err::<Seq<char>, Seq<char>>(e.message@),
            },
    ;
}

/// The identity parser: it returns its input unchanged and never fails.
#[derive(Debug, Clone, PartialEq, Eq)]
pub struct SimpleParser {}

impl SimpleParser {
    pub fn new() -> (r: Self) {
        SimpleParser {}
    }
}

impl Default for SimpleParser {
    fn default() -> (r: Self) {
        SimpleParser {}
    }
}

impl OutputParser for SimpleParser {
    open spec fn parsed(&self, output: Text) -> Result<Text, Text> {
        Ok(output)
    }

    fn parse(&self, output: &str) -> (r: Result<String, OutputParserError>)
        ensures
            r is Ok,
            r.unwrap()@ == output@,
    {
        Ok(output.to_string())
    }
}

/// The one parser a chain owns: the identity parser unless another was
/// supplied.
pub enum ChainParser<O> {
    Identity(SimpleParser),
    Custom(O),
}

impl<O: OutputParser> OutputParser for ChainParser<O> {
    open spec fn parsed(&self, output: Text) -> Result<Text, Text> {
        match self {
            ChainParser::Identity(p) => p.parsed(output),
            ChainParser::Custom(p) => p.parsed(output),
        }
    }

    fn parse(&self, output: &str) -> (r: Result<String, OutputParserError>) {
        match self {
            ChainParser::Identity(p) => p.parse(output),
            ChainParser::Custom(p) => p.parse(output),
        }
    }
}

} // verus!

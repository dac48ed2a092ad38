use vstd::prelude::*;
use crate::errors::{ChainError, LLMError, OutputParserError};
use crate::llm::{Configurable, LLM};
use crate::options::ChainCallOptions;
use crate::output_parser::{ChainParser, OutputParser, SimpleParser};
use crate::prompt::{FormatPrompter, PromptArgs};
use crate::schemas::{GenerateResult, Message, StreamData};
use crate::stream::{
    chain_stream_items, lifted_item, lifted_items, map_stream_errors, model_stream_items,
    ChainStream, ModelStream,
};

verus! {

/// The uniform surface of a chain: which inputs it expects, which output it
/// names, and three ways to run it.
pub trait Chain {
    /// The variable names the chain expects, in order.
    spec fn input_keys(&self) -> Seq<Seq<char>>;

    /// The one key under which the chain's output is known.
    spec fn output_key(&self) -> Seq<char>;

    fn get_input_keys(&self) -> (r: Vec<String>)
        ensures
            r.deep_view() == self.input_keys(),
    ;

    fn get_output_keys(&self) -> (r: Vec<String>)
        ensures
            r.deep_view() == seq![self.output_key()],
    ;

    /// Runs the chain and returns the full result, its text refined.
    fn call(&self, input_variables: PromptArgs) -> (r: Result<GenerateResult, ChainError>);

    /// Runs the chain and returns the generated text as the model gave it.
    fn invoke(&self, input_variables: PromptArgs) -> (r: Result<String, ChainError>);

    /// Runs the chain and returns the model's items as they arrive.
    fn stream(&self, input_variables: PromptArgs) -> (r: Result<ChainStream, ChainError>);
}

/// A formatter, a model client and an output parser behind the [`Chain`]
/// surface. Built by [`LLMChainBuilder`] and unchanged afterwards.
pub struct LLMChain<P, L, O> {
    prompt: P,
    llm: L,
    output_key: String,
    output_parser: ChainParser<O>,
}

/// Collects the parts of an [`LLMChain`]; `build` checks the wiring.
pub struct LLMChainBuilder<P, L, O> {
    prompt: Option<P>,
    llm: Option<L>,
    output_key: Option<String>,
    options: Option<ChainCallOptions>,
    output_parser: Option<O>,
}

/// The text a model generated, or the model's failure as a chain failure.
/// The text is returned as it came: no parser is applied.
pub open spec fn invoke_outcome(generated: Result<GenerateResult, LLMError>) -> Result<
    String,
    ChainError,
> {
    match generated {
        Ok(output) => Ok(output.generation),
        Err(e) => Err(ChainError::Model(e)),
    }
}

/// A generate result whose text gives way to the parser's, every other field
/// kept; or the parser's failure as a chain failure.
pub open spec fn parse_outcome(
    output: GenerateResult,
    parsed: Result<String, OutputParserError>,
) -> Result<GenerateResult, ChainError> {
    match parsed {
        Ok(text) => Ok(GenerateResult { generation: text, tokens: output.tokens }),
        Err(e) => Err(ChainError::Parse(e)),
    }
}

/// The message that names the first missing part: the formatter before the
/// model client.
pub open spec fn missing_part_message(has_prompt: bool) -> Seq<char> {
    if !has_prompt {
        "Prompt must be set"@
    } else {
        "LLM must be set"@
    }
}

/// The wiring rule: a chain needs a formatter and a model client. Fails
/// exactly when one is absent, naming the first that is.
pub fn check_wiring(has_prompt: bool, has_llm: bool) -> (r: Result<(), ChainError>)
    ensures
        r is Ok <==> has_prompt && has_llm,
        r matches Err(e) ==> e matches ChainError::MissingObject(m) && m@ == missing_part_message(
            has_prompt,
        ),
{
    if !has_prompt {
        Err(ChainError::MissingObject("Prompt must be set".to_string()))
    } else if !has_llm {
        Err(ChainError::MissingObject("LLM must be set".to_string()))
    } else {
        Ok(())
    }
}

/// The output key rule: the key that was set, or `"output"`.
pub fn resolve_output_key(output_key: Option<String>) -> (r: String)
    ensures
        r@ == output_key_or_default(output_key),
{
    match output_key {
        Some(key) => key,
        None => "output".to_string(),
    }
}

pub open spec fn output_key_or_default(output_key: Option<String>) -> Seq<char> {
    match output_key {
        Some(key) => key@,
        None => "output"@,
    }
}

/// Decides what `invoke` returns once the model has answered.
pub fn finish_invoke(generated: Result<GenerateResult, LLMError>) -> (r: Result<String, ChainError>)
    ensures
        r == invoke_outcome(generated),
{
    match generated {
        Ok(output) => Ok(output.generation),
        Err(e) => Err(ChainError::from(e)),
    }
}

/// Decides what `call` returns once the parser has answered: the parsed text
/// takes the place of `output.generation`, and nothing else changes.
pub fn replace_generation(output: GenerateResult, parsed: Result<String, OutputParserError>) -> (r:
    Result<GenerateResult, ChainError>)
    ensures
        r == parse_outcome(output, parsed),
{
    match parsed {
        Ok(text) => {
            let mut output = output;
            output.generation = text;
            Ok(output)
        },
        Err(e) => Err(ChainError::from(e)),
    }
}

/// Whether `r` is what `stream` returns when the model answers the setup
/// with `opened`: a failure is passed on as a model failure, and an open
/// stream gives a stream of the same items in the same order, each failure
/// among them lifted into a model failure of the chain.
pub open spec fn is_stream_setup_result(
    opened: Result<ModelStream, LLMError>,
    r: Result<ChainStream, ChainError>,
) -> bool {
    match opened {
        Ok(items) => r matches Ok(out) && chain_stream_items(out) == lifted_items(
            model_stream_items(items),
        ),
        Err(e) => r == Err::<ChainStream, ChainError>(ChainError::Model(e)),
    }
}

/// Decides what `stream` returns once the model has answered the setup: a
/// failure aborts before any item, an open stream is handed on with its
/// failures re-typed.
pub fn finish_stream_setup(opened: Result<ModelStream, LLMError>) -> (r: Result<
    ChainStream,
    ChainError,
>)
    ensures
        is_stream_setup_result(opened, r),
{
    match opened {
        Ok(items) => Ok(map_stream_errors(items)),
        Err(e) => Err(ChainError::from(e)),
    }
}

impl<P, L, O> LLMChain<P, L, O> {
    /// The chain's formatter.
    pub closed spec fn formatter(&self) -> P {
        self.prompt
    }

    /// The chain's model client.
    pub closed spec fn model(&self) -> L {
        self.llm
    }

    /// The chain's output parser.
    pub closed spec fn parser(&self) -> ChainParser<O> {
        self.output_parser
    }

    /// The chain's output key.
    pub closed spec fn key(&self) -> Seq<char> {
        self.output_key@
    }

    /// The chain's formatter.
    pub fn get_prompt(&self) -> (r: &P)
        ensures
            *r == self.formatter(),
    {
        &self.prompt
    }

    /// The chain's model client.
    pub fn get_llm(&self) -> (r: &L)
        ensures
            *r == self.model(),
    {
        &self.llm
    }

    /// The chain's output parser.
    pub fn get_output_parser(&self) -> (r: &ChainParser<O>)
        ensures
            *r == self.parser(),
    {
        &self.output_parser
    }

    /// The chain's output key.
    pub fn get_output_key(&self) -> (r: &String)
        ensures
            r@ == self.key(),
    {
        &self.output_key
    }
}

impl<P, L, O: OutputParser> LLMChain<P, L, O> {
    /// Whether `r` is what `call` returns when the model answers
    /// `generated`: a model failure is passed on; otherwise the parser
    /// decides, and only the text of the model's result may change.
    pub open spec fn is_call_result(
        &self,
        generated: Result<GenerateResult, LLMError>,
        r: Result<GenerateResult, ChainError>,
    ) -> bool {
        match generated {
            Err(e) => r == Err::<GenerateResult, ChainError>(ChainError::Model(e)),
            Ok(output) => match self.parser().parsed(output.generation@) {
                Ok(text) => r matches Ok(o) && o.generation@ == text && o.tokens == output.tokens,
                Err(m) => r matches Err(ChainError::Parse(e)) && e.message@ == m,
            },
        }
    }

    /// Decides what `call` returns once the model has answered.
    pub fn finish_call(&self, generated: Result<GenerateResult, LLMError>) -> (r: Result<
        GenerateResult,
        ChainError,
    >)
        ensures
            self.is_call_result(generated, r),
    {
        match generated {
            Err(e) => Err(ChainError::from(e)),
            Ok(output) => {
                let parsed = self.output_parser.parse(output.generation.as_str());
                replace_generation(output, parsed)
            },
        }
    }
}

impl<P: FormatPrompter, L, O> LLMChain<P, L, O> {
    /// Renders the prompt and converts it to chat messages. Fails exactly
    /// when the formatter does, with its failure.
    pub fn render(&self, input_variables: PromptArgs) -> (r: Result<Vec<Message>, ChainError>)
        ensures
            match self.formatter().rendered(input_variables@) {
                Ok(messages) => r matches Ok(v) && v@.map_values(|m: Message| m@) == messages,
                Err(m) => r matches Err(ChainError::Format(e)) && e.message@ == m,
            },
    {
        match self.prompt.format_prompt(input_variables) {
            Ok(prompt) => Ok(prompt.to_chat_messages()),
            Err(e) => Err(ChainError::from(e)),
        }
    }
}

impl<P: FormatPrompter, L: LLM, O: OutputParser> Chain for LLMChain<P, L, O> {
    open spec fn input_keys(&self) -> Seq<Seq<char>> {
        self.formatter().input_variables()
    }

    open spec fn output_key(&self) -> Seq<char> {
        self.key()
    }

    fn get_input_keys(&self) -> (r: Vec<String>) {
        self.prompt.get_input_variables()
    }

    fn get_output_keys(&self) -> (r: Vec<String>) {
        let keys = vec![self.output_key.clone()];
        assert(keys.deep_view() =~= seq![self.key()]);
        keys
    }

    fn call(&self, input_variables: PromptArgs) -> (r: Result<GenerateResult, ChainError>)
        ensures
            match self.formatter().rendered(input_variables@) {
                Err(m) => r matches Err(ChainError::Format(e)) && e.message@ == m,
                Ok(_) => exists|generated: Result<GenerateResult, LLMError>|
                    self.is_call_result(generated, r),
            },
    {
        match self.render(input_variables) {
            Err(e) => Err(e),
            Ok(messages) => {
                let generated = self.llm.generate(&messages);
                self.finish_call(generated)
            },
        }
    }

    fn invoke(&self, input_variables: PromptArgs) -> (r: Result<String, ChainError>)
        ensures
            match self.formatter().rendered(input_variables@) {
                Err(m) => r matches Err(ChainError::Format(e)) && e.message@ == m,
                Ok(_) => exists|generated: Result<GenerateResult, LLMError>|
                    r == invoke_outcome(generated),
            },
    {
        match self.render(input_variables) {
            Err(e) => Err(e),
            Ok(messages) => {
                let generated = self.llm.generate(&messages);
                finish_invoke(generated)
            },
        }
    }

    fn stream(&self, input_variables: PromptArgs) -> (r: Result<ChainStream, ChainError>)
        ensures
            match self.formatter().rendered(input_variables@) {
                Err(m) => r matches Err(ChainError::Format(e)) && e.message@ == m,
                Ok(_) => exists|opened: Result<ModelStream, LLMError>|
                    is_stream_setup_result(opened, r),
            },
    {
        match self.render(input_variables) {
            Err(e) => Err(e),
            Ok(messages) => {
                let opened = self.llm.stream(&messages);
                finish_stream_setup(opened)
            },
        }
    }
}

impl<P, L: Configurable, O> LLMChainBuilder<P, L, O> {
    /// The formatter set so far, if any.
    pub closed spec fn prompt_slot(&self) -> Option<P> {
        self.prompt
    }

    /// The model client set so far, if any.
    pub closed spec fn llm_slot(&self) -> Option<L> {
        self.llm
    }

    /// The output key set so far, if any.
    pub closed spec fn output_key_slot(&self) -> Option<String> {
        self.output_key
    }

    /// The call options set so far, if any.
    pub closed spec fn options_slot(&self) -> Option<ChainCallOptions> {
        self.options
    }

    /// The output parser set so far, if any.
    pub closed spec fn output_parser_slot(&self) -> Option<O> {
        self.output_parser
    }

    /// Whether the wiring is complete: a formatter and a model client.
    pub open spec fn is_wired(&self) -> bool {
        self.prompt_slot() is Some && self.llm_slot() is Some
    }

    /// Whether `chain` is the chain this builder stands for: the parts as
    /// set, the defaults where none was set, and the call options, if any,
    /// folded into the model client exactly once.
    pub open spec fn builds(&self, chain: LLMChain<P, L, O>) -> bool {
        &&& self.is_wired()
        &&& chain.formatter() == self.prompt_slot().unwrap()
        &&& chain.key() == output_key_or_default(self.output_key_slot())
        &&& chain.parser() == match self.output_parser_slot() {
            Some(parser) => ChainParser::Custom(parser),
            None => ChainParser::Identity(SimpleParser {}),
        }
        &&& match self.options_slot() {
            Some(options) => chain.model().folded_options()
                == self.llm_slot().unwrap().folded_options().push(options.as_llm_options()),
            None => chain.model() == self.llm_slot().unwrap(),
        }
    }

    /// A builder with nothing set.
    pub fn new() -> (r: Self)
        ensures
            r.prompt_slot() is None,
            r.llm_slot() is None,
            r.output_key_slot() is None,
            r.options_slot() is None,
            r.output_parser_slot() is None,
    {
        LLMChainBuilder {
            prompt: None,
            llm: None,
            options: None,
            output_key: None,
            output_parser: None,
        }
    }

    /// Sets the call options; the other slots are untouched.
    pub fn options(self, options: ChainCallOptions) -> (r: Self)
        ensures
            r.options_slot() == Some(options),
            r.prompt_slot() == self.prompt_slot(),
            r.llm_slot() == self.llm_slot(),
            r.output_key_slot() == self.output_key_slot(),
            r.output_parser_slot() == self.output_parser_slot(),
    {
        let mut builder = self;
        builder.options = Some(options);
        builder
    }

    /// Sets the formatter; the other slots are untouched.
    pub fn prompt(self, prompt: P) -> (r: Self)
        ensures
            r.prompt_slot() == Some(prompt),
            r.llm_slot() == self.llm_slot(),
            r.output_key_slot() == self.output_key_slot(),
            r.options_slot() == self.options_slot(),
            r.output_parser_slot() == self.output_parser_slot(),
    {
        let mut builder = self;
        builder.prompt = Some(prompt);
        builder
    }

    /// Sets the model client; the other slots are untouched.
    pub fn llm(self, llm: L) -> (r: Self)
        ensures
            r.llm_slot() == Some(llm),
            r.prompt_slot() == self.prompt_slot(),
            r.output_key_slot() == self.output_key_slot(),
            r.options_slot() == self.options_slot(),
            r.output_parser_slot() == self.output_parser_slot(),
    {
        let mut builder = self;
        builder.llm = Some(llm);
        builder
    }

    /// Sets the output key; the other slots are untouched.
    pub fn output_key(self, output_key: String) -> (r: Self)
        ensures
            r.output_key_slot() == Some(output_key),
            r.prompt_slot() == self.prompt_slot(),
            r.llm_slot() == self.llm_slot(),
            r.options_slot() == self.options_slot(),
            r.output_parser_slot() == self.output_parser_slot(),
    {
        let mut builder = self;
        builder.output_key = Some(output_key);
        builder
    }

    /// Sets the output parser; the other slots are untouched.
    pub fn output_parser(self, output_parser: O) -> (r: Self)
        ensures
            r.output_parser_slot() == Some(output_parser),
            r.prompt_slot() == self.prompt_slot(),
            r.llm_slot() == self.llm_slot(),
            r.output_key_slot() == self.output_key_slot(),
            r.options_slot() == self.options_slot(),
    {
        let mut builder = self;
        builder.output_parser = Some(output_parser);
        builder
    }

    /// Checks the wiring and constructs the chain. Succeeds exactly when
    /// both a formatter and a model client were set; otherwise the failure
    /// names the first missing part, the formatter before the model.
    pub fn build(self) -> (r: Result<LLMChain<P, L, O>, ChainError>)
        ensures
            r is Ok <==> self.is_wired(),
            match r {
                Ok(chain) => self.builds(chain),
                Err(e) => e matches ChainError::MissingObject(m) && m@ == missing_part_message(
                    self.prompt_slot() is Some,
                ),
            },
    {
        match check_wiring(self.prompt.is_some(), self.llm.is_some()) {
            Err(e) => {
                return Err(e);
            },
            Ok(()) => {},
        }
        let prompt = self.prompt.unwrap();
        let mut llm = self.llm.unwrap();
        match self.options {
            Some(options) => {
                let llm_options = ChainCallOptions::to_llm_options(options);
                llm.add_options(llm_options);
            },
            None => {},
        }
        let output_key = resolve_output_key(self.output_key);
        let output_parser = match self.output_parser {
            Some(parser) => ChainParser::Custom(parser),
            None => ChainParser::Identity(SimpleParser::new()),
        };
        Ok(LLMChain { prompt, llm, output_key, output_parser })
    }
}

/// A chain built with no output key reports the key `"output"`.
pub proof fn lemma_default_output_key<P: FormatPrompter, L: LLM, O: OutputParser>(
    builder: LLMChainBuilder<P, L, O>,
    chain: LLMChain<P, L, O>,
)
    requires
        builder.builds(chain),
        builder.output_key_slot() is None,
    ensures
        chain.output_key() == "output"@,
{
}

/// A chain built with no output parser returns from `call` what the model
/// generated: the same text and the same metadata, whatever the text is.
pub proof fn lemma_default_parser_is_identity<P: FormatPrompter, L: LLM, O: OutputParser>(
    builder: LLMChainBuilder<P, L, O>,
    chain: LLMChain<P, L, O>,
    output: GenerateResult,
    r: Result<GenerateResult, ChainError>,
)
    requires
        builder.builds(chain),
        builder.output_parser_slot() is None,
        chain.is_call_result(Ok(output), r),
    ensures
        r matches Ok(o) && o.generation@ == output.generation@ && o.tokens == output.tokens,
{
}

/// Whenever `call` succeeds the model did, and every field of the model's
/// result but its text is in the returned result unchanged.
pub proof fn lemma_call_preserves_metadata<P: FormatPrompter, L: LLM, O: OutputParser>(
    chain: LLMChain<P, L, O>,
    generated: Result<GenerateResult, LLMError>,
    r: Result<GenerateResult, ChainError>,
)
    requires
        chain.is_call_result(generated, r),
        r is Ok,
    ensures
        generated matches Ok(output) && r matches Ok(o) && o.tokens == output.tokens,
{
}

/// The stream a chain returns is transparent: it yields as many items as the
/// model's stream, item by item in the same order; a successful item is the
/// model's own, and a failed one is the model's failure as a chain failure.
pub proof fn lemma_stream_is_transparent(
    opened: ModelStream,
    r: Result<ChainStream, ChainError>,
)
    requires
        is_stream_setup_result(Ok(opened), r),
    ensures
        r matches Ok(out) && {
            let given = model_stream_items(opened);
            let yielded = chain_stream_items(out);
            &&& yielded.len() == given.len()
            &&& forall|k: int|
                0 <= k < given.len() ==> #[trigger] yielded[k] == lifted_item(given[k])
            &&& forall|k: int|
                0 <= k < given.len() && given[k] is Ok ==> #[trigger] yielded[k] is Ok
                    && yielded[k]->Ok_0 == given[k]->Ok_0
            &&& forall|k: int|
                0 <= k < given.len() && given[k] is Err ==> #[trigger] yielded[k]
                    == Err::<StreamData, ChainError>(ChainError::Model(given[k]->Err_0))
        },
{
}

/// The input keys of a built chain are the variables its formatter
/// declares, in the same order.
pub proof fn lemma_input_keys_are_the_formatter_variables<
    P: FormatPrompter,
    L: LLM,
    O: OutputParser,
>(builder: LLMChainBuilder<P, L, O>, chain: LLMChain<P, L, O>)
    requires
        builder.builds(chain),
    ensures
        chain.input_keys() == builder.prompt_slot().unwrap().input_variables(),
{
}

} // verus!

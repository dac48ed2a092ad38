use vstd::prelude::*;
use std::collections::HashMap;
use crate::errors::PromptError;
use crate::schemas::{Message, MessageView, Messages, Text};

verus! {

/// Prompt arguments: each variable name with its value.
pub type PromptArgs = HashMap<String, String>;

/// Prompt arguments as contracts speak of them.
pub type Bindings = Map<String, String>;

/// Variable names as contracts speak of them, in order.
pub type Variables = Seq<Text>;

/// A rendered prompt. All a chain asks of it is its chat messages, in order.
#[derive(Debug, Clone, PartialEq, Eq)]
pub struct PromptValue {
    pub messages: Vec<Message>,
}

impl View for PromptValue {
    type V = Seq<MessageView>;

    open spec fn view(&self) -> Seq<MessageView> {
        self.messages@.map_values(|m: Message| m@)
    }
}

impl PromptValue {
    /// The chat messages of this prompt, in order.
    pub fn to_chat_messages(self) -> (r: Vec<Message>)
        ensures
            r == self.messages,
            r@.map_values(|m: Message| m@) == self@,
    {
        self.messages
    }
}

/// The capability of turning named values into a prompt.
///
/// Rendering is a function of the formatter and the arguments alone.
/// `input_variables` and `rendered` are the model of an implementation:
/// every implementation states them, and its methods must agree with them.
/// Both are ghost: they are never run.
pub trait FormatPrompter: Send + Sync {
    /// The variable names this formatter consumes, in declaration order.
    spec fn input_variables(&self) -> Variables;

    /// What rendering `args` gives: the messages, or the failure's message.
    spec fn rendered(&self, args: Bindings) -> Result<Messages, Text>;

    fn get_input_variables(&self) -> (r: Vec<String>)
        ensures
            r.deep_view() == self.input_variables(),
    ;

    fn format_prompt(&self, args: PromptArgs) -> (r: Result<PromptValue, PromptError>)
        ensures
            match r {
                Ok(p) => self.rendered(args@) == Ok::<Seq<MessageView>, Seq<char>>(p@),
                Err(e) => self.rendered(args@) == Err::<Seq<MessageView>, Seq<char>>(e.message@),
            },
    ;
}

} // verus!

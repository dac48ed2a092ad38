use vstd::prelude::*;

verus! {

/// Text as contracts speak of it: a sequence of characters.
pub type Text = Seq<char>;

/// Chat messages as contracts speak of them, in order.
pub type Messages = Seq<MessageView>;

/// One chat message: who speaks, and what is said.
#[derive(Debug, Clone, PartialEq, Eq)]
pub struct Message {
    pub role: String,
    pub content: String,
}

/// The mathematical content of a [`Message`].
pub struct MessageView {
    pub role: Seq<char>,
    pub content: Seq<char>,
}

impl View for Message {
    type V = MessageView;

    open spec fn view(&self) -> MessageView {
        MessageView { role: self.role@, content: self.content@ }
    }
}

/// What a model returns from a one-shot generation: the text, and the
/// metadata that travels with it.
#[derive(Debug, Clone, PartialEq, Eq)]
pub struct GenerateResult {
    pub generation: String,
    pub tokens: Option<u64>,
}

/// One incremental unit of a streamed generation.
#[derive(Debug, Clone, PartialEq, Eq)]
pub struct StreamData {
    pub content: String,
    pub tokens: Option<u64>,
}

} // verus!

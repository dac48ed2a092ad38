use vstd::prelude::*;
use std::pin::Pin;
use futures::Stream;
use futures_util::TryStreamExt;
use crate::errors::{ChainError, LLMError};
use crate::schemas::StreamData;

verus! {

/// A model client's stream of items: lazy, finite, and not restartable.
/// What it yields, polled to its end, is [`model_stream_items`].
#[verifier::external_body]
pub struct ModelStream {
    pub inner: Pin<Box<dyn Stream<Item = Result<StreamData, LLMError>> + Send>>,
}

/// A chain's stream of items: a model stream whose failures have been
/// carried into the chain's taxonomy. What it yields, polled to its end, is
/// [`chain_stream_items`].
#[verifier::external_body]
pub struct ChainStream {
    pub inner: Pin<Box<dyn Stream<Item = Result<StreamData, ChainError>> + Send>>,
}

/// The items a model stream yields when it is polled to its end, in the
/// order in which it yields them.
pub uninterp spec fn model_stream_items(s: ModelStream) -> Seq<Result<StreamData, LLMError>>;

/// The items a chain stream yields when it is polled to its end, in the
/// order in which it yields them.
pub uninterp spec fn chain_stream_items(s: ChainStream) -> Seq<Result<StreamData, ChainError>>;

/// One item as the chain hands it on: a successful item is untouched, a
/// failed one becomes a model failure of the chain.
pub open spec fn lifted_item(item: Result<StreamData, LLMError>) -> Result<
    StreamData,
    ChainError,
> {
    match item {
        Ok(data) => Ok(data),
        Err(e) => Err(ChainError::Model(e)),
    }
}

/// A sequence of items as the chain hands it on: as many items, in the same
/// order, each one lifted by itself.
pub open spec fn lifted_items(items: Seq<Result<StreamData, LLMError>>) -> Seq<
    Result<StreamData, ChainError>,
> {
    items.map_values(|item: Result<StreamData, LLMError>| lifted_item(item))
}

/// `futures_util::TryStreamExt::map_err`, boxed and pinned again. Not
/// proved: that the adapter polls its source once for each item asked of
/// it, hands a failed item's error to [`ChainError::from`] and leaves a
/// successful item alone, so that it yields the source's items, each one
/// lifted, in the source's order, with nothing buffered, merged or dropped.
#[verifier::external_body]
pub(crate) fn map_stream_errors(stream: ModelStream) -> (r: ChainStream)
    ensures
        chain_stream_items(r) == lifted_items(model_stream_items(stream)),
{
    ChainStream { inner: Box::pin(stream.inner.map_err(ChainError::from)) }
}

} // verus!

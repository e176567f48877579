//! What the transport brings back, and the typed value or failure that it
//! stands for.

use vstd::prelude::*;
use crate::error::SdkError;
use crate::json::Json;
use crate::models::{Joke, JokeView, PaginatedData, PaginatedDataView, PaginatedJoke, PaginatedJokeView};

verus! {

/// How the sending of a request ended.
#[derive(Debug, PartialEq, Eq)]
pub enum Reply {
    /// The request could not be sent, or the response could not be read to
    /// its end.
    Unreachable,
    /// The body was read, and it is not JSON.
    NotJson,
    /// The body, parsed.
    Document(Json),
}

/// What a reply stands for, given what its document describes: the failure
/// of the stage that failed, or the value described.
pub open spec fn settled<V>(reply: Reply, described: Option<V>) -> Result<V, SdkError> {
    match reply {
        Reply::Unreachable => Err(SdkError::Transport),
        Reply::NotJson => Err(SdkError::Deserialization),
        Reply::Document(_) => match described {
            Some(value) => Ok(value),
            None => Err(SdkError::Deserialization),
        },
    }
}

/// The joke that a reply stands for.
pub open spec fn joke_of(reply: Reply) -> Result<JokeView, SdkError> {
    settled(
        reply,
        match reply {
            Reply::Document(doc) => Joke::decode(doc@),
            _ => None,
        },
    )
}

/// The page that a reply stands for.
pub open spec fn page_of(reply: Reply) -> Result<PaginatedDataView<PaginatedJokeView>, SdkError> {
    settled(
        reply,
        match reply {
            Reply::Document(doc) => PaginatedData::<PaginatedJoke>::decode(doc@),
            _ => None,
        },
    )
}

/// Reads the joke that the reply to a request for one joke stands for. A
/// document of another shape, such as the one that the service sends for an
/// id that it does not know, is a failure of deserialization.
pub fn read_joke(reply: &Reply) -> (outcome: Result<Joke, SdkError>)
    ensures
        match outcome {
            Ok(joke) => joke_of(*reply) == Ok::<JokeView, SdkError>(joke@),
            Err(error) => joke_of(*reply) == Err::<JokeView, SdkError>(error),
        },
{
    match reply {
        Reply::Unreachable => Err(SdkError::Transport),
        Reply::NotJson => Err(SdkError::Deserialization),
        Reply::Document(doc) => match Joke::from_json(doc) {
            Some(joke) => Ok(joke),
            None => Err(SdkError::Deserialization),
        },
    }
}

/// Reads the page that the reply to a search stands for.
pub fn read_page(reply: &Reply) -> (outcome: Result<PaginatedData<PaginatedJoke>, SdkError>)
    ensures
        match outcome {
            Ok(page) => page_of(*reply) == Ok::<PaginatedDataView<PaginatedJokeView>, SdkError>(
                page@,
            ),
            Err(error) => page_of(*reply) == Err::<PaginatedDataView<PaginatedJokeView>, SdkError>(
                error,
            ),
        },
{
    match reply {
        Reply::Unreachable => Err(SdkError::Transport),
        Reply::NotJson => Err(SdkError::Deserialization),
        Reply::Document(doc) => match PaginatedData::<PaginatedJoke>::from_json(doc) {
            Some(page) => Ok(page),
            None => Err(SdkError::Deserialization),
        },
    }
}

/// A reply stands for a joke only where it brings a document, and the joke
/// is then what the document holds under the three names: no reply is taken
/// for a joke that it does not describe.
pub proof fn lemma_joke_is_what_the_document_holds(reply: Reply, joke: JokeView)
    requires
        joke_of(reply) == Ok::<JokeView, SdkError>(joke),
    ensures
        reply is Document,
        reply->Document_0@.text_of("id"@) == Some(joke.id),
        reply->Document_0@.text_of("joke"@) == Some(joke.joke),
        reply->Document_0@.unsigned_of("status"@, 0xffff) == Some(joke.status as u64),
{
}

/// A document without the member `id`, which is what the service sends for
/// an id that it does not know, stands for a failure of deserialization.
pub proof fn lemma_document_without_id_is_no_joke(reply: Reply)
    requires
        reply is Document,
        reply->Document_0@.member("id"@) is None,
    ensures
        joke_of(reply) == Err::<JokeView, SdkError>(SdkError::Deserialization),
{
}

} // verus!

use vstd::prelude::*;
use vstd::string::StringExecFns;
use crate::json::{lemma_member_found, lemma_object_view, only_at, pairs, Json, JsonDoc};

verus! {

/// A joke as it stands in a page of a search: without a status.
#[derive(Debug, Clone, PartialEq, Eq)]
pub struct PaginatedJoke {
    pub id: String,
    /// The joke itself.
    pub joke: String,
}

/// What a [`PaginatedJoke`] means.
pub struct PaginatedJokeView {
    pub id: Seq<char>,
    pub joke: Seq<char>,
}

impl View for PaginatedJoke {
    type V = PaginatedJokeView;

    open spec fn view(&self) -> PaginatedJokeView {
        PaginatedJokeView { id: self.id@, joke: self.joke@ }
    }
}

impl PaginatedJoke {
    /// The joke that a document describes: an object that holds `id` and
    /// `joke` once each as texts. Members of other names are passed over.
    pub open spec fn decode(doc: JsonDoc) -> Option<PaginatedJokeView> {
        match (doc.text_of("id"@), doc.text_of("joke"@)) {
            (Some(id), Some(joke)) => Some(PaginatedJokeView { id, joke }),
            _ => None,
        }
    }

    /// The document that describes a joke: its two members, in the order of
    /// the fields.
    pub open spec fn encode(joke: PaginatedJokeView) -> JsonDoc {
        JsonDoc::Object(
            seq![("id"@, JsonDoc::Text(joke.id)), ("joke"@, JsonDoc::Text(joke.joke))],
        )
    }

    /// Reads a joke from a document, where the document describes one.
    pub fn from_json(doc: &Json) -> (joke: Option<PaginatedJoke>)
        ensures
            match joke {
                Some(joke) => PaginatedJoke::decode(doc@) == Some(joke@),
                None => PaginatedJoke::decode(doc@) is None,
            },
    {
        let id = match doc.text_of("id") {
            Some(id) => id,
            None => {
                return None;
            },
        };
        let joke = match doc.text_of("joke") {
            Some(joke) => joke,
            None => {
                return None;
            },
        };
        Some(PaginatedJoke { id, joke })
    }

    /// Writes the joke as a document.
    pub fn to_json(&self) -> (doc: Json)
        ensures
            doc@ == PaginatedJoke::encode(self@),
    {
        let mut members: Vec<(String, Json)> = Vec::new();
        members.push((String::from_str("id"), Json::Text(self.id.clone())));
        members.push((String::from_str("joke"), Json::Text(self.joke.clone())));
        let doc = Json::Object(members);
        proof {
            lemma_object_view(doc);
            assert(pairs(doc->Object_0@) =~= PaginatedJoke::encode(self@)->Object_0);
        }
        doc
    }
}

/// A joke of a page that is written as a document and read again is the
/// same joke.
pub proof fn lemma_paginated_joke_round_trip(joke: PaginatedJokeView)
    ensures
        PaginatedJoke::decode(PaginatedJoke::encode(joke)) == Some(joke),
{
    reveal_strlit("id");
    reveal_strlit("joke");
    let members = PaginatedJoke::encode(joke)->Object_0;
    assert(members[0].0 == "id"@);
    assert(members[1].0 == "joke"@);
    lemma_member_found(members, "id"@, 0);
    lemma_member_found(members, "joke"@, 1);
}

} // verus!

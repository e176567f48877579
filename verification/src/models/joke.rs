use vstd::prelude::*;
use vstd::string::StringExecFns;
use crate::json::{lemma_member_found, lemma_object_view, only_at, pairs, Json, JsonDoc};

verus! {

/// A joke as the service hands it out by id or at random.
#[derive(Debug, Clone, PartialEq, Eq)]
pub struct Joke {
    pub id: String,
    /// The joke itself.
    pub joke: String,
    /// The status of the response, as the body repeats it.
    pub status: u16,
}

/// What a [`Joke`] means.
pub struct JokeView {
    pub id: Seq<char>,
    pub joke: Seq<char>,
    pub status: u16,
}

impl View for Joke {
    type V = JokeView;

    open spec fn view(&self) -> JokeView {
        JokeView { id: self.id@, joke: self.joke@, status: self.status }
    }
}

impl Joke {
    /// The joke that a document describes: an object that holds `id` and
    /// `joke` once each as texts and `status` once as an integer of sixteen
    /// bits. Members of other names are passed over.
    pub open spec fn decode(doc: JsonDoc) -> Option<JokeView> {
        match (doc.text_of("id"@), doc.text_of("joke"@), doc.unsigned_of("status"@, 0xffff)) {
            (Some(id), Some(joke), Some(status)) => Some(
                JokeView { id, joke, status: status as u16 },
            ),
            _ => None,
        }
    }

    /// The document that describes a joke: its three members, in the order
    /// of the fields.
    pub open spec fn encode(joke: JokeView) -> JsonDoc {
        JsonDoc::Object(
            seq![
                ("id"@, JsonDoc::Text(joke.id)),
                ("joke"@, JsonDoc::Text(joke.joke)),
                ("status"@, JsonDoc::Unsigned(joke.status as u64)),
            ],
        )
    }

    /// Reads a joke from a document, where the document describes one.
    pub fn from_json(doc: &Json) -> (joke: Option<Joke>)
        ensures
            match joke {
                Some(joke) => Joke::decode(doc@) == Some(joke@),
                None => Joke::decode(doc@) is None,
            },
    {
        let id = match doc.text_of("id") {
            Some(id) => id,
            None => {
                return None;
            },
        };
        let joke = match doc.text_of("joke") {
            Some(joke) => joke,
            None => {
                return None;
            },
        };
        let status = match doc.unsigned_of("status", 0xffff) {
            Some(status) => status as u16,
            None => {
                return None;
            },
        };
        Some(Joke { id, joke, status })
    }

    /// Writes the joke as a document.
    pub fn to_json(&self) -> (doc: Json)
        ensures
            doc@ == Joke::encode(self@),
    {
        let mut members: Vec<(String, Json)> = Vec::new();
        members.push((String::from_str("id"), Json::Text(self.id.clone())));
        members.push((String::from_str("joke"), Json::Text(self.joke.clone())));
        members.push((String::from_str("status"), Json::Unsigned(self.status as u64)));
        let doc = Json::Object(members);
        proof {
            lemma_object_view(doc);
            assert(pairs(doc->Object_0@) =~= Joke::encode(self@)->Object_0);
        }
        doc
    }
}

/// A joke that is written as a document and read again is the same joke.
pub proof fn lemma_joke_round_trip(joke: JokeView)
    ensures
        Joke::decode(Joke::encode(joke)) == Some(joke),
{
    reveal_strlit("id");
    reveal_strlit("joke");
    reveal_strlit("status");
    let members = Joke::encode(joke)->Object_0;
    assert(members[0].0 == "id"@);
    assert(members[1].0 == "joke"@);
    assert(members[2].0 == "status"@);
    lemma_member_found(members, "id"@, 0);
    lemma_member_found(members, "joke"@, 1);
    lemma_member_found(members, "status"@, 2);
}

} // verus!

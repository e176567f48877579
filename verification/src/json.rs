//! JSON documents as trees of plain values, and the few questions that the
//! shapes of the service's documents ask of them.

use vstd::prelude::*;
use vstd::string::StringExecFns;

verus! {

/// A JSON document as a tree of plain values.
#[derive(Debug, PartialEq, Eq)]
pub enum Json {
    Null,
    Bool(bool),
    /// An integer that is not negative.
    Unsigned(u64),
    /// An integer below zero.
    Negative(i64),
    /// Any other number, held as the bits of its binary64 form.
    Real(u64),
    Text(String),
    List(Vec<Json>),
    /// The members in the order of the document; a name may stand twice.
    Object(Vec<(String, Json)>),
}

/// What a [`Json`] tree means: the same tree over sequences.
pub enum JsonDoc {
    Null,
    Bool(bool),
    Unsigned(u64),
    Negative(i64),
    Real(u64),
    Text(Seq<char>),
    List(Seq<JsonDoc>),
    Object(Seq<(Seq<char>, JsonDoc)>),
}

impl View for Json {
    type V = JsonDoc;

    open spec fn view(&self) -> JsonDoc
        decreases self,
    {
        match self {
            Json::Null => JsonDoc::Null,
            Json::Bool(b) => JsonDoc::Bool(*b),
            Json::Unsigned(n) => JsonDoc::Unsigned(*n),
            Json::Negative(n) => JsonDoc::Negative(*n),
            Json::Real(bits) => JsonDoc::Real(*bits),
            Json::Text(text) => JsonDoc::Text(text@),
            Json::List(items) => JsonDoc::List(
                Seq::new(
                    items@.len(),
                    |i: int|
                        if 0 <= i < items@.len() {
                            items@[i].view()
                        } else {
                            JsonDoc::Null
                        },
                ),
            ),
            Json::Object(members) => JsonDoc::Object(
                Seq::new(
                    members@.len(),
                    |i: int|
                        if 0 <= i < members@.len() {
                            (members@[i].0@, members@[i].1.view())
                        } else {
                            (Seq::empty(), JsonDoc::Null)
                        },
                ),
            ),
        }
    }
}

/// The meanings of the items of a list, in their order.
pub open spec fn docs(items: Seq<Json>) -> Seq<JsonDoc> {
    Seq::new(items.len(), |i: int| items[i]@)
}

/// The meanings of the members of an object, in their order.
pub open spec fn pairs(members: Seq<(String, Json)>) -> Seq<(Seq<char>, JsonDoc)> {
    Seq::new(members.len(), |i: int| (members[i].0@, members[i].1@))
}

/// A list means the meanings of its items.
pub proof fn lemma_list_view(doc: Json)
    requires
        doc is List,
    ensures
        doc@ == JsonDoc::List(docs(doc->List_0@)),
{
    reveal_with_fuel(<Json as View>::view, 2);
    assert(doc@->List_0 =~= docs(doc->List_0@));
}

/// An object means the meanings of its members.
pub proof fn lemma_object_view(doc: Json)
    requires
        doc is Object,
    ensures
        doc@ == JsonDoc::Object(pairs(doc->Object_0@)),
{
    reveal_with_fuel(<Json as View>::view, 2);
    assert(doc@->Object_0 =~= pairs(doc->Object_0@));
}

/// The member at `i` has the name `name`.
pub open spec fn named_at(members: Seq<(Seq<char>, JsonDoc)>, name: Seq<char>, i: int) -> bool {
    0 <= i < members.len() && members[i].0 == name
}

/// The member at `i` has the name `name`, and no other member has.
pub open spec fn only_at(members: Seq<(Seq<char>, JsonDoc)>, name: Seq<char>, i: int) -> bool {
    named_at(members, name, i) && forall|j: int| named_at(members, name, j) ==> j == i
}

impl JsonDoc {
    /// The value of the member `name` of an object that holds the name
    /// exactly once. There is none where the document is no object, lacks
    /// the name, or holds it twice.
    pub open spec fn member(self, name: Seq<char>) -> Option<JsonDoc> {
        match self {
            JsonDoc::Object(members) => if exists|i: int| only_at(members, name, i) {
                Some(members[choose|i: int| only_at(members, name, i)].1)
            } else {
                None
            },
            _ => None,
        }
    }

    /// The member `name`, where it is a text.
    pub open spec fn text_of(self, name: Seq<char>) -> Option<Seq<char>> {
        match self.member(name) {
            Some(JsonDoc::Text(text)) => Some(text),
            _ => None,
        }
    }

    /// The member `name`, where it is an integer from 0 to `max`.
    pub open spec fn unsigned_of(self, name: Seq<char>, max: u64) -> Option<u64> {
        match self.member(name) {
            Some(JsonDoc::Unsigned(n)) => if n <= max {
                Some(n)
            } else {
                None
            },
            _ => None,
        }
    }

    /// The items of the member `name`, where it is a list.
    pub open spec fn list_of(self, name: Seq<char>) -> Option<Seq<JsonDoc>> {
        match self.member(name) {
            Some(JsonDoc::List(items)) => Some(items),
            _ => None,
        }
    }
}

/// Where a name stands at `at` and nowhere else, the member of that name is
/// the value at `at`.
pub proof fn lemma_member_found(members: Seq<(Seq<char>, JsonDoc)>, name: Seq<char>, at: int)
    requires
        only_at(members, name, at),
    ensures
        JsonDoc::Object(members).member(name) == Some(members[at].1),
{
}

/// The meaning of a text that may be missing.
pub open spec fn text_view(text: Option<String>) -> Option<Seq<char>> {
    match text {
        Some(text) => Some(text@),
        None => None,
    }
}

impl Json {
    /// Looks up the member `name` of an object that holds the name exactly
    /// once.
    pub fn member(&self, name: &str) -> (found: Option<&Json>)
        ensures
            match found {
                Some(value) => self@.member(name@) == Some(value@),
                None => self@.member(name@) is None,
            },
    {
        match self {
            Json::Object(members) => {
                proof {
                    lemma_object_view(*self);
                }
                let ghost all = pairs(members@);
                let key = String::from_str(name);
                let mut at: Option<usize> = None;
                let mut twice = false;
                let mut k: usize = 0;
                while k < members.len()
                    invariant
                        k <= members.len(),
                        all == pairs(members@),
                        key@ == name@,
                        at is None ==> !twice && forall|j: int| 0 <= j < k ==> !named_at(all, name@, j),
                        at matches Some(first) ==> first < k && named_at(all, name@, first as int),
                        at matches Some(first) ==> (!twice ==> forall|j: int|
                            0 <= j < k && named_at(all, name@, j) ==> j == first),
                        at matches Some(first) ==> (twice ==> exists|j: int|
                            j != first && named_at(all, name@, j)),
                    decreases members.len() - k,
                {
                    if members[k].0 == key {
                        assert(named_at(all, name@, k as int));
                        if at.is_some() {
                            twice = true;
                        } else {
                            at = Some(k);
                        }
                    }
                    k += 1;
                }
                match at {
                    Some(first) => {
                        if twice {
                            None
                        } else {
                            proof {
                                lemma_member_found(all, name@, first as int);
                            }
                            Some(&members[first].1)
                        }
                    },
                    None => None,
                }
            },
            _ => None,
        }
    }

    /// Reads the member `name`, where it is a text.
    pub fn text_of(&self, name: &str) -> (text: Option<String>)
        ensures
            text_view(text) == self@.text_of(name@),
    {
        match self.member(name) {
            Some(Json::Text(text)) => Some(text.clone()),
            _ => None,
        }
    }

    /// Reads the member `name`, where it is an integer from 0 to `max`.
    pub fn unsigned_of(&self, name: &str, max: u64) -> (number: Option<u64>)
        ensures
            number == self@.unsigned_of(name@, max),
    {
        match self.member(name) {
            Some(Json::Unsigned(n)) => if *n <= max {
                Some(*n)
            } else {
                None
            },
            _ => None,
        }
    }

    /// Reads the items of the member `name`, where it is a list.
    pub fn list_of(&self, name: &str) -> (items: Option<&Vec<Json>>)
        ensures
            match items {
                Some(items) => self@.list_of(name@) == Some(docs(items@)),
                None => self@.list_of(name@) is None,
            },
    {
        match self.member(name) {
            Some(found) => match found {
                Json::List(items) => {
                    proof {
                        lemma_list_view(*found);
                    }
                    Some(items)
                },
                _ => None,
            },
            _ => None,
        }
    }
}

} // verus!

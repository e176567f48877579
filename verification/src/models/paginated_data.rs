use vstd::prelude::*;
use vstd::string::StringExecFns;
use crate::json::{docs, lemma_list_view, lemma_member_found, lemma_object_view, only_at, pairs, Json, JsonDoc};
use crate::models::paginated_joke::{lemma_paginated_joke_round_trip, PaginatedJoke, PaginatedJokeView};

verus! {

/// One page of a search, with what the service says of the whole search.
#[derive(Debug, Clone, PartialEq, Eq)]
pub struct PaginatedData<T> {
    pub current_page: u32,
    /// The largest number of results that the page was asked to hold.
    pub limit: u8,
    pub next_page: u32,
    pub previous_page: u32,
    pub results: Vec<T>,
    pub search_term: String,
    /// The status of the response, as the body repeats it.
    pub status: u16,
    pub total_jokes: u32,
    pub total_pages: u32,
}

/// What a [`PaginatedData`] means.
pub struct PaginatedDataView<V> {
    pub current_page: u32,
    pub limit: u8,
    pub next_page: u32,
    pub previous_page: u32,
    pub results: Seq<V>,
    pub search_term: Seq<char>,
    pub status: u16,
    pub total_jokes: u32,
    pub total_pages: u32,
}

impl<T: View> View for PaginatedData<T> {
    type V = PaginatedDataView<T::V>;

    open spec fn view(&self) -> PaginatedDataView<T::V> {
        PaginatedDataView {
            current_page: self.current_page,
            limit: self.limit,
            next_page: self.next_page,
            previous_page: self.previous_page,
            results: Seq::new(self.results@.len(), |i: int| self.results@[i]@),
            search_term: self.search_term@,
            status: self.status,
            total_jokes: self.total_jokes,
            total_pages: self.total_pages,
        }
    }
}

impl<V> PaginatedDataView<V> {
    /// The page holds no more results than it was asked to hold.
    pub open spec fn respects_limit(self) -> bool {
        self.results.len() <= self.limit
    }
}

impl<T: View> PaginatedData<T> {
    /// Whether the page holds no more results than it was asked to hold. A
    /// service that behaves sends no other page, but nothing here turns one
    /// away: the caller decides what to do with it.
    pub fn respects_limit(&self) -> (kept: bool)
        ensures
            kept == self@.respects_limit(),
    {
        self.results.len() <= self.limit as usize
    }
}

/// The jokes that the items of a list describe, where each item describes
/// one.
pub open spec fn decode_results(items: Seq<JsonDoc>) -> Option<Seq<PaginatedJokeView>> {
    if forall|i: int| 0 <= i < items.len() ==> PaginatedJoke::decode(#[trigger] items[i]) is Some {
        Some(Seq::new(items.len(), |i: int| PaginatedJoke::decode(items[i])->0))
    } else {
        None
    }
}

/// The list whose items describe the given jokes.
pub open spec fn encode_results(results: Seq<PaginatedJokeView>) -> Seq<JsonDoc> {
    Seq::new(results.len(), |i: int| PaginatedJoke::encode(results[i]))
}

impl PaginatedData<PaginatedJoke> {
    /// The page that a document describes: an object that holds each of the
    /// nine fields once, the counters as integers that fit their fields,
    /// `search_term` as a text and `results` as a list of jokes. Members of
    /// other names are passed over.
    pub open spec fn decode(doc: JsonDoc) -> Option<PaginatedDataView<PaginatedJokeView>> {
        let current_page = doc.unsigned_of("current_page"@, 0xffff_ffff);
        let limit = doc.unsigned_of("limit"@, 0xff);
        let next_page = doc.unsigned_of("next_page"@, 0xffff_ffff);
        let previous_page = doc.unsigned_of("previous_page"@, 0xffff_ffff);
        let results = match doc.list_of("results"@) {
            Some(items) => decode_results(items),
            None => None,
        };
        let search_term = doc.text_of("search_term"@);
        let status = doc.unsigned_of("status"@, 0xffff);
        let total_jokes = doc.unsigned_of("total_jokes"@, 0xffff_ffff);
        let total_pages = doc.unsigned_of("total_pages"@, 0xffff_ffff);
        if current_page is Some && limit is Some && next_page is Some && previous_page is Some
            && results is Some && search_term is Some && status is Some && total_jokes is Some
            && total_pages is Some {
            Some(
                PaginatedDataView {
                    current_page: current_page->0 as u32,
                    limit: limit->0 as u8,
                    next_page: next_page->0 as u32,
                    previous_page: previous_page->0 as u32,
                    results: results->0,
                    search_term: search_term->0,
                    status: status->0 as u16,
                    total_jokes: total_jokes->0 as u32,
                    total_pages: total_pages->0 as u32,
                },
            )
        } else {
            None
        }
    }

    /// The document that describes a page: its nine members, in the order of
    /// the fields.
    pub open spec fn encode(page: PaginatedDataView<PaginatedJokeView>) -> JsonDoc {
        JsonDoc::Object(
            seq![
                ("current_page"@, JsonDoc::Unsigned(page.current_page as u64)),
                ("limit"@, JsonDoc::Unsigned(page.limit as u64)),
                ("next_page"@, JsonDoc::Unsigned(page.next_page as u64)),
                ("previous_page"@, JsonDoc::Unsigned(page.previous_page as u64)),
                ("results"@, JsonDoc::List(encode_results(page.results))),
                ("search_term"@, JsonDoc::Text(page.search_term)),
                ("status"@, JsonDoc::Unsigned(page.status as u64)),
                ("total_jokes"@, JsonDoc::Unsigned(page.total_jokes as u64)),
                ("total_pages"@, JsonDoc::Unsigned(page.total_pages as u64)),
            ],
        )
    }

    /// Reads the jokes that the items of a list describe.
    fn results_from_json(items: &Vec<Json>) -> (results: Option<Vec<PaginatedJoke>>)
        ensures
            match results {
                Some(results) => decode_results(docs(items@)) == Some(
                    Seq::new(results@.len(), |i: int| results@[i]@),
                ),
                None => decode_results(docs(items@)) is None,
            },
    {
        let mut results: Vec<PaginatedJoke> = Vec::new();
        let mut k: usize = 0;
        while k < items.len()
            invariant
                k <= items.len(),
                results@.len() == k,
                forall|i: int|
                    0 <= i < k ==> PaginatedJoke::decode(#[trigger] docs(items@)[i]) == Some(
                        results@[i]@,
                    ),
            decreases items.len() - k,
        {
            match PaginatedJoke::from_json(&items[k]) {
                Some(joke) => {
                    results.push(joke);
                },
                None => {
                    assert(PaginatedJoke::decode(docs(items@)[k as int]) is None);
                    return None;
                },
            }
            k += 1;
        }
        assert(decode_results(docs(items@))->0 =~= Seq::new(
            results@.len(),
            |i: int| results@[i]@,
        ));
        Some(results)
    }

    /// Reads a page from a document, where the document describes one.
    pub fn from_json(doc: &Json) -> (page: Option<PaginatedData<PaginatedJoke>>)
        ensures
            match page {
                Some(page) => PaginatedData::<PaginatedJoke>::decode(doc@) == Some(page@),
                None => PaginatedData::<PaginatedJoke>::decode(doc@) is None,
            },
    {
        let current_page = match doc.unsigned_of("current_page", 0xffff_ffff) {
            Some(n) => n as u32,
            None => {
                return None;
            },
        };
        let limit = match doc.unsigned_of("limit", 0xff) {
            Some(n) => n as u8,
            None => {
                return None;
            },
        };
        let next_page = match doc.unsigned_of("next_page", 0xffff_ffff) {
            Some(n) => n as u32,
            None => {
                return None;
            },
        };
        let previous_page = match doc.unsigned_of("previous_page", 0xffff_ffff) {
            Some(n) => n as u32,
            None => {
                return None;
            },
        };
        let results = match doc.list_of("results") {
            Some(items) => match Self::results_from_json(items) {
                Some(results) => results,
                None => {
                    return None;
                },
            },
            None => {
                return None;
            },
        };
        let search_term = match doc.text_of("search_term") {
            Some(text) => text,
            None => {
                return None;
            },
        };
        let status = match doc.unsigned_of("status", 0xffff) {
            Some(n) => n as u16,
            None => {
                return None;
            },
        };
        let total_jokes = match doc.unsigned_of("total_jokes", 0xffff_ffff) {
            Some(n) => n as u32,
            None => {
                return None;
            },
        };
        let total_pages = match doc.unsigned_of("total_pages", 0xffff_ffff) {
            Some(n) => n as u32,
            None => {
                return None;
            },
        };
        Some(
            PaginatedData {
                current_page,
                limit,
                next_page,
                previous_page,
                results,
                search_term,
                status,
                total_jokes,
                total_pages,
            },
        )
    }

    /// Writes the page as a document.
    pub fn to_json(&self) -> (doc: Json)
        ensures
            doc@ == PaginatedData::<PaginatedJoke>::encode(self@),
    {
        let mut items: Vec<Json> = Vec::new();
        let mut k: usize = 0;
        while k < self.results.len()
            invariant
                k <= self.results.len(),
                items@.len() == k,
                forall|i: int| 0 <= i < k ==> (#[trigger] items@[i])@ == PaginatedJoke::encode(self.results@[i]@),
            decreases self.results.len() - k,
        {
            items.push(self.results[k].to_json());
            k += 1;
        }
        let list = Json::List(items);
        proof {
            lemma_list_view(list);
            assert(docs(list->List_0@) =~= encode_results(self@.results));
        }
        let mut members: Vec<(String, Json)> = Vec::new();
        members.push((String::from_str("current_page"), Json::Unsigned(self.current_page as u64)));
        members.push((String::from_str("limit"), Json::Unsigned(self.limit as u64)));
        members.push((String::from_str("next_page"), Json::Unsigned(self.next_page as u64)));
        members.push((String::from_str("previous_page"), Json::Unsigned(self.previous_page as u64)));
        members.push((String::from_str("results"), list));
        members.push((String::from_str("search_term"), Json::Text(self.search_term.clone())));
        members.push((String::from_str("status"), Json::Unsigned(self.status as u64)));
        members.push((String::from_str("total_jokes"), Json::Unsigned(self.total_jokes as u64)));
        members.push((String::from_str("total_pages"), Json::Unsigned(self.total_pages as u64)));
        let doc = Json::Object(members);
        proof {
            lemma_object_view(doc);
            assert(pairs(doc->Object_0@) =~= PaginatedData::<PaginatedJoke>::encode(
                self@,
            )->Object_0);
        }
        doc
    }
}

/// Jokes that are written as a list and read again are the same jokes.
pub proof fn lemma_results_round_trip(results: Seq<PaginatedJokeView>)
    ensures
        decode_results(encode_results(results)) == Some(results),
{
    let items = encode_results(results);
    assert forall|i: int| 0 <= i < items.len() implies PaginatedJoke::decode(
        #[trigger] items[i],
    ) == Some(results[i]) by {
        lemma_paginated_joke_round_trip(results[i]);
    }
}

/// A page that is written as a document and read again is the same page.
pub proof fn lemma_page_round_trip(page: PaginatedDataView<PaginatedJokeView>)
    ensures
        PaginatedData::<PaginatedJoke>::decode(PaginatedData::<PaginatedJoke>::encode(page))
            == Some(page),
{
    reveal_strlit("current_page");
    reveal_strlit("limit");
    reveal_strlit("next_page");
    reveal_strlit("previous_page");
    reveal_strlit("results");
    reveal_strlit("search_term");
    reveal_strlit("status");
    reveal_strlit("total_jokes");
    reveal_strlit("total_pages");
    let members = PaginatedData::<PaginatedJoke>::encode(page)->Object_0;
    assert(members[0].0 == "current_page"@);
    assert(members[1].0 == "limit"@);
    assert(members[2].0 == "next_page"@);
    assert(members[3].0 == "previous_page"@);
    assert(members[4].0 == "results"@);
    assert(members[5].0 == "search_term"@);
    assert(members[6].0 == "status"@);
    assert(members[7].0 == "total_jokes"@);
    assert(members[8].0 == "total_pages"@);
    assert("search_term"@[0] != "total_jokes"@[0]);
    assert("search_term"@[0] != "total_pages"@[0]);
    assert("total_jokes"@[6] != "total_pages"@[6]);
    lemma_member_found(members, "current_page"@, 0);
    lemma_member_found(members, "limit"@, 1);
    lemma_member_found(members, "next_page"@, 2);
    lemma_member_found(members, "previous_page"@, 3);
    lemma_member_found(members, "results"@, 4);
    lemma_member_found(members, "search_term"@, 5);
    lemma_member_found(members, "status"@, 6);
    lemma_member_found(members, "total_jokes"@, 7);
    lemma_member_found(members, "total_pages"@, 8);
    lemma_results_round_trip(page.results);
}

/// A page that is read from a document holds as many results as the document
/// lists, under the limit that the document gives. So the page respects its
/// limit exactly where the document does: reading adds no result and drops
/// none.
pub proof fn lemma_page_keeps_count_and_limit(
    doc: JsonDoc,
    page: PaginatedDataView<PaginatedJokeView>,
)
    requires
        PaginatedData::<PaginatedJoke>::decode(doc) == Some(page),
    ensures
        doc.list_of("results"@) is Some,
        doc.unsigned_of("limit"@, 0xff) is Some,
        page.results.len() == doc.list_of("results"@)->0.len(),
        page.limit == doc.unsigned_of("limit"@, 0xff)->0,
        page.respects_limit() <==> doc.list_of("results"@)->0.len() <= doc.unsigned_of(
            "limit"@,
            0xff,
        )->0,
{
}

} // verus!

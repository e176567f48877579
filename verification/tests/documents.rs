use icanhazdadjoke_sdk::json::Json;
use icanhazdadjoke_sdk::models::{Joke, PaginatedData, PaginatedJoke};

fn text(value: &str) -> Json {
    Json::Text(String::from(value))
}

fn object(members: Vec<(&str, Json)>) -> Json {
    Json::Object(members.into_iter().map(|(name, value)| (String::from(name), value)).collect())
}

fn joke_document() -> Json {
    object(vec![("id", text("R7UfaahVfFd")), ("joke", text("My dog used to chase people on a bike a lot. It got so bad I had to take his bike away.")), ("status", Json::Unsigned(200))])
}

fn page_members() -> Vec<(&'static str, Json)> {
    vec![
        ("current_page", Json::Unsigned(1)),
        ("limit", Json::Unsigned(2)),
        ("next_page", Json::Unsigned(2)),
        ("previous_page", Json::Unsigned(1)),
        (
            "results",
            Json::List(vec![
                object(vec![("id", text("M7wPC5wPKBd")), ("joke", text("Did you hear the one about the guy with the broken hearing aid? Neither did he."))]),
                object(vec![("id", text("MRZ0LJtHQCd")), ("joke", text("What do you call a fly without wings? A walk."))]),
            ]),
        ),
        ("search_term", text("")),
        ("status", Json::Unsigned(200)),
        ("total_jokes", Json::Unsigned(307)),
        ("total_pages", Json::Unsigned(154)),
    ]
}

fn page_without(name: &str) -> Json {
    object(page_members().into_iter().filter(|(member, _)| *member != name).collect())
}

fn page_with(name: &'static str, value: Json) -> Json {
    let mut members: Vec<(&'static str, Json)> =
        page_members().into_iter().filter(|(member, _)| *member != name).collect();
    members.push((name, value));
    object(members)
}

#[test]
fn member_finds_the_only_member_of_a_name() {
    let doc = joke_document();
    assert_eq!(doc.member("id"), Some(&text("R7UfaahVfFd")));
    assert_eq!(doc.member("status"), Some(&Json::Unsigned(200)));
}

#[test]
fn member_finds_nothing_under_a_missing_name() {
    assert_eq!(joke_document().member("message"), None);
    assert_eq!(object(vec![]).member("id"), None);
}

#[test]
fn member_finds_nothing_under_a_name_that_stands_twice() {
    let doc = object(vec![("id", text("a")), ("joke", text("j")), ("id", text("a"))]);
    assert_eq!(doc.member("id"), None);
    assert_eq!(doc.member("joke"), Some(&text("j")));
}

#[test]
fn member_finds_nothing_outside_an_object() {
    assert_eq!(Json::Null.member("id"), None);
    assert_eq!(text("id").member("id"), None);
    assert_eq!(Json::List(vec![joke_document()]).member("id"), None);
}

#[test]
fn member_tells_names_apart_by_every_character() {
    let doc = object(vec![("total_jokes", Json::Unsigned(1)), ("total_pages", Json::Unsigned(2))]);
    assert_eq!(doc.member("total_jokes"), Some(&Json::Unsigned(1)));
    assert_eq!(doc.member("total_pages"), Some(&Json::Unsigned(2)));
    assert_eq!(doc.member("total_"), None);
    assert_eq!(doc.member("Total_jokes"), None);
}

#[test]
fn text_of_reads_texts_only() {
    let doc = object(vec![("a", text("x")), ("b", Json::Unsigned(1)), ("c", Json::Null)]);
    assert_eq!(doc.text_of("a"), Some(String::from("x")));
    assert_eq!(doc.text_of("b"), None);
    assert_eq!(doc.text_of("c"), None);
    assert_eq!(doc.text_of("d"), None);
}

#[test]
fn unsigned_of_reads_integers_up_to_the_bound() {
    let doc = object(vec![
        ("a", Json::Unsigned(0)),
        ("b", Json::Unsigned(255)),
        ("c", Json::Unsigned(256)),
        ("d", Json::Negative(-1)),
        ("e", Json::Real(200.0f64.to_bits())),
        ("f", text("200")),
    ]);
    assert_eq!(doc.unsigned_of("a", 255), Some(0));
    assert_eq!(doc.unsigned_of("b", 255), Some(255));
    assert_eq!(doc.unsigned_of("c", 255), None);
    assert_eq!(doc.unsigned_of("c", 256), Some(256));
    assert_eq!(doc.unsigned_of("d", 255), None);
    assert_eq!(doc.unsigned_of("e", 255), None);
    assert_eq!(doc.unsigned_of("f", 255), None);
    assert_eq!(doc.unsigned_of("g", 255), None);
}

#[test]
fn list_of_reads_lists_only() {
    let doc = object(vec![("a", Json::List(vec![Json::Null, Json::Bool(true)])), ("b", text("x"))]);
    assert_eq!(doc.list_of("a"), Some(&vec![Json::Null, Json::Bool(true)]));
    assert_eq!(doc.list_of("b"), None);
    assert_eq!(doc.list_of("c"), None);
}

#[test]
fn joke_from_its_document() {
    let joke = Joke::from_json(&joke_document()).unwrap();
    assert_eq!(joke.id, "R7UfaahVfFd");
    assert_eq!(
        joke.joke,
        "My dog used to chase people on a bike a lot. It got so bad I had to take his bike away."
    );
    assert_eq!(joke.status, 200);
}

#[test]
fn joke_passes_over_members_that_it_does_not_know() {
    let doc = object(vec![
        ("extra", Json::List(vec![Json::Null])),
        ("status", Json::Unsigned(200)),
        ("joke", text("j")),
        ("more", object(vec![("id", text("inner"))])),
        ("id", text("a")),
    ]);
    assert_eq!(
        Joke::from_json(&doc),
        Some(Joke { id: String::from("a"), joke: String::from("j"), status: 200 })
    );
}

#[test]
fn joke_needs_each_of_its_fields() {
    let without_id = object(vec![("joke", text("j")), ("status", Json::Unsigned(200))]);
    let without_joke = object(vec![("id", text("a")), ("status", Json::Unsigned(200))]);
    let without_status = object(vec![("id", text("a")), ("joke", text("j"))]);
    assert_eq!(Joke::from_json(&without_id), None);
    assert_eq!(Joke::from_json(&without_joke), None);
    assert_eq!(Joke::from_json(&without_status), None);
    assert_eq!(Joke::from_json(&object(vec![])), None);
}

#[test]
fn joke_refuses_a_field_that_stands_twice() {
    let doc = object(vec![
        ("id", text("a")),
        ("joke", text("j")),
        ("status", Json::Unsigned(200)),
        ("status", Json::Unsigned(200)),
    ]);
    assert_eq!(Joke::from_json(&doc), None);
}

#[test]
fn joke_refuses_fields_of_another_type() {
    let id_as_number =
        object(vec![("id", Json::Unsigned(1)), ("joke", text("j")), ("status", Json::Unsigned(200))]);
    let joke_as_null =
        object(vec![("id", text("a")), ("joke", Json::Null), ("status", Json::Unsigned(200))]);
    let status_as_text = object(vec![("id", text("a")), ("joke", text("j")), ("status", text("200"))]);
    assert_eq!(Joke::from_json(&id_as_number), None);
    assert_eq!(Joke::from_json(&joke_as_null), None);
    assert_eq!(Joke::from_json(&status_as_text), None);
}

#[test]
fn joke_status_has_sixteen_bits() {
    let with_status = |status: Json| object(vec![("id", text("a")), ("joke", text("j")), ("status", status)]);
    assert_eq!(Joke::from_json(&with_status(Json::Unsigned(0))).unwrap().status, 0);
    assert_eq!(Joke::from_json(&with_status(Json::Unsigned(65535))).unwrap().status, 65535);
    assert_eq!(Joke::from_json(&with_status(Json::Unsigned(65536))), None);
    assert_eq!(Joke::from_json(&with_status(Json::Unsigned(u64::MAX))), None);
    assert_eq!(Joke::from_json(&with_status(Json::Negative(-200))), None);
    assert_eq!(Joke::from_json(&with_status(Json::Real(200.5f64.to_bits()))), None);
}

#[test]
fn joke_is_read_from_objects_only() {
    assert_eq!(Joke::from_json(&Json::Null), None);
    assert_eq!(Joke::from_json(&text("joke")), None);
    assert_eq!(Joke::from_json(&Json::List(vec![text("a"), text("j"), Json::Unsigned(200)])), None);
}

#[test]
fn joke_to_its_document() {
    let joke = Joke { id: String::from("a"), joke: String::from("j"), status: 200 };
    assert_eq!(
        joke.to_json(),
        object(vec![("id", text("a")), ("joke", text("j")), ("status", Json::Unsigned(200))])
    );
}

#[test]
fn joke_round_trip() {
    for joke in [
        Joke { id: String::from("0189hNRf2g"), joke: String::from("I'm tired of following my dreams."), status: 200 },
        Joke { id: String::new(), joke: String::new(), status: 0 },
        Joke { id: String::from("\"quoted\" ☕"), joke: String::from("line\nbreak"), status: 65535 },
    ] {
        assert_eq!(Joke::from_json(&joke.to_json()), Some(joke));
    }
}

#[test]
fn paginated_joke_from_its_document() {
    let doc = object(vec![("id", text("a")), ("joke", text("j")), ("status", text("ignored"))]);
    assert_eq!(
        PaginatedJoke::from_json(&doc),
        Some(PaginatedJoke { id: String::from("a"), joke: String::from("j") })
    );
}

#[test]
fn paginated_joke_needs_each_of_its_fields() {
    assert_eq!(PaginatedJoke::from_json(&object(vec![("id", text("a"))])), None);
    assert_eq!(PaginatedJoke::from_json(&object(vec![("joke", text("j"))])), None);
    assert_eq!(
        PaginatedJoke::from_json(&object(vec![("id", text("a")), ("joke", Json::Unsigned(1))])),
        None
    );
    assert_eq!(
        PaginatedJoke::from_json(&object(vec![("id", text("a")), ("id", text("a")), ("joke", text("j"))])),
        None
    );
    assert_eq!(PaginatedJoke::from_json(&Json::Bool(true)), None);
}

#[test]
fn paginated_joke_round_trip() {
    let joke = PaginatedJoke { id: String::from("a"), joke: String::from("j") };
    assert_eq!(joke.to_json(), object(vec![("id", text("a")), ("joke", text("j"))]));
    assert_eq!(PaginatedJoke::from_json(&joke.to_json()), Some(joke));
}

#[test]
fn page_from_its_document() {
    let page = PaginatedData::<PaginatedJoke>::from_json(&object(page_members())).unwrap();
    assert_eq!(page.current_page, 1);
    assert_eq!(page.limit, 2);
    assert_eq!(page.next_page, 2);
    assert_eq!(page.previous_page, 1);
    assert_eq!(page.results.len(), 2);
    assert_eq!(page.results[0].id, "M7wPC5wPKBd");
    assert_eq!(page.results[1].joke, "What do you call a fly without wings? A walk.");
    assert_eq!(page.search_term, "");
    assert_eq!(page.status, 200);
    assert_eq!(page.total_jokes, 307);
    assert_eq!(page.total_pages, 154);
}

#[test]
fn page_needs_each_of_its_fields() {
    for name in [
        "current_page",
        "limit",
        "next_page",
        "previous_page",
        "results",
        "search_term",
        "status",
        "total_jokes",
        "total_pages",
    ] {
        assert_eq!(PaginatedData::<PaginatedJoke>::from_json(&page_without(name)), None, "{}", name);
    }
}

#[test]
fn page_counters_fit_their_fields() {
    assert_eq!(PaginatedData::<PaginatedJoke>::from_json(&page_with("limit", Json::Unsigned(255))).unwrap().limit, 255);
    assert_eq!(PaginatedData::<PaginatedJoke>::from_json(&page_with("limit", Json::Unsigned(256))), None);
    assert_eq!(
        PaginatedData::<PaginatedJoke>::from_json(&page_with("current_page", Json::Unsigned(4294967295)))
            .unwrap()
            .current_page,
        u32::MAX
    );
    assert_eq!(
        PaginatedData::<PaginatedJoke>::from_json(&page_with("current_page", Json::Unsigned(4294967296))),
        None
    );
    assert_eq!(PaginatedData::<PaginatedJoke>::from_json(&page_with("total_jokes", Json::Negative(-1))), None);
    assert_eq!(PaginatedData::<PaginatedJoke>::from_json(&page_with("status", Json::Unsigned(65536))), None);
    assert_eq!(PaginatedData::<PaginatedJoke>::from_json(&page_with("total_pages", text("1"))), None);
}

#[test]
fn page_results_are_a_list_of_jokes() {
    assert_eq!(PaginatedData::<PaginatedJoke>::from_json(&page_with("results", Json::Null)), None);
    assert_eq!(PaginatedData::<PaginatedJoke>::from_json(&page_with("results", object(vec![]))), None);
    let one_bad = Json::List(vec![
        object(vec![("id", text("a")), ("joke", text("j"))]),
        object(vec![("id", text("b"))]),
    ]);
    assert_eq!(PaginatedData::<PaginatedJoke>::from_json(&page_with("results", one_bad)), None);
    let empty = PaginatedData::<PaginatedJoke>::from_json(&page_with("results", Json::List(vec![]))).unwrap();
    assert!(empty.results.is_empty());
}

#[test]
fn page_round_trip() {
    let page = PaginatedData {
        current_page: 3,
        limit: 30,
        next_page: 4,
        previous_page: 2,
        results: vec![
            PaginatedJoke { id: String::from("a"), joke: String::from("first") },
            PaginatedJoke { id: String::from("b"), joke: String::from("second") },
            PaginatedJoke { id: String::from("c"), joke: String::from("third") },
        ],
        search_term: String::from("pizza"),
        status: 200,
        total_jokes: 649,
        total_pages: 22,
    };
    assert_eq!(PaginatedData::<PaginatedJoke>::from_json(&page.to_json()), Some(page));
}

#[test]
fn page_to_its_document() {
    let page = PaginatedData::<PaginatedJoke>::from_json(&object(page_members())).unwrap();
    assert_eq!(page.to_json(), object(page_members()));
}

#[test]
fn page_within_its_limit() {
    let mut page = PaginatedData::<PaginatedJoke>::from_json(&object(page_members())).unwrap();
    assert!(page.respects_limit());
    page.results.push(PaginatedJoke { id: String::from("c"), joke: String::from("third") });
    assert!(!page.respects_limit());
    page.limit = 3;
    assert!(page.respects_limit());
    page.results.clear();
    page.limit = 0;
    assert!(page.respects_limit());
}

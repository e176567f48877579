//! The three endpoints of the service.

use vstd::prelude::*;
use vstd::string::StringExecFns;
use crate::error::SdkError;
use crate::models::PaginationOpts;
use crate::request::{outcome_view, prepared, uri_accepts, Request};
use crate::url::{joke_url, random_url, search_url, url_of_joke, url_of_random, url_of_search};

verus! {

/// The caller's side of the icanhazdadjoke API: it holds the `User-Agent`
/// under which requests are made, and says for each endpoint which request
/// to send.
///
/// ## Examples
///
/// ```
/// use icanhazdadjoke_sdk::DadJokeSDK;
/// let dad_joke_sdk = DadJokeSDK::default(); // uses default user agent
/// ```
#[derive(Debug)]
pub struct DadJokeSDK {
    user_agent: String,
}

impl View for DadJokeSDK {
    type V = Seq<char>;

    /// The `User-Agent` that the requests carry.
    closed spec fn view(&self) -> Seq<char> {
        self.user_agent@
    }
}

impl DadJokeSDK {
    /// The `User-Agent` of a caller that gave none.
    pub open spec fn anonymous() -> Seq<char> {
        "Anonymous icanhazdadjoke Rust SDK User (https://github.com/sno2/icanhazdadjoke-sdk)"@
    }

    /// Sets the sdk up with the `User-Agent` that is sent with requests. The
    /// text is taken as it is; whether it can stand in a header shows when a
    /// request is prepared.
    pub fn new(user_agent: String) -> (sdk: Self)
        ensures
            sdk@ == user_agent@,
    {
        DadJokeSDK { user_agent }
    }

    /// The `User-Agent` that the requests carry.
    pub fn user_agent(&self) -> (text: &str)
        ensures
            text@ == self@,
    {
        self.user_agent.as_str()
    }

    /// Prepares the request for the joke with the given id. The id is not
    /// looked at: it follows `/j/` as it is, and an id that makes the
    /// address no URI fails the request.
    ///
    /// ## Examples
    ///
    /// ```
    /// use icanhazdadjoke_sdk::DadJokeSDK;
    /// let dad_joke_sdk = DadJokeSDK::default();
    /// let request = dad_joke_sdk.get_joke("0189hNRf2g".into()).unwrap();
    /// assert_eq!(request.url, "https://icanhazdadjoke.com/j/0189hNRf2g");
    /// ```
    pub fn get_joke(self, id: String) -> (outcome: Result<Request, SdkError>)
        ensures
            outcome_view(outcome) == prepared(
                url_of_joke(id@),
                self@,
                uri_accepts(url_of_joke(id@)),
            ),
    {
        Request::prepare(joke_url(id.as_str()), self.user_agent)
    }

    /// Prepares the request for a joke of the service's choosing.
    pub fn get_random_joke(self) -> (outcome: Result<Request, SdkError>)
        ensures
            outcome_view(outcome) == prepared(
                url_of_random(),
                self@,
                uri_accepts(url_of_random()),
            ),
    {
        Request::prepare(random_url(), self.user_agent)
    }

    /// Prepares the request for the page of the search for `term` that
    /// `pagination_opts` asks for. An empty term matches every joke.
    ///
    /// The term goes into the query as it is. One that holds `&` or `#`
    /// changes what the query says, and one that holds a space or a
    /// character outside ASCII fails the request: hand over what
    /// [`percent_encode`](crate::url::percent_encode) makes of such a term.
    pub fn query_jokes(self, term: String, pagination_opts: PaginationOpts) -> (outcome: Result<
        Request,
        SdkError,
    >)
        ensures
            outcome_view(outcome) == prepared(
                url_of_search(term@, pagination_opts.page as nat, pagination_opts.limit as nat),
                self@,
                uri_accepts(
                    url_of_search(term@, pagination_opts.page as nat, pagination_opts.limit as nat),
                ),
            ),
    {
        Request::prepare(search_url(term.as_str(), pagination_opts), self.user_agent)
    }
}

impl Default for DadJokeSDK {
    fn default() -> (sdk: Self)
        ensures
            sdk@ == DadJokeSDK::anonymous(),
    {
        DadJokeSDK::new(
            String::from_str(
                "Anonymous icanhazdadjoke Rust SDK User (https://github.com/sno2/icanhazdadjoke-sdk)",
            ),
        )
    }
}

} // verus!

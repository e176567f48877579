//! The request that an endpoint takes, and the two checks that it has to pass
//! before it can be sent.

use vstd::prelude::*;
use vstd::string::StringExecFns;
use vstd::utf8::encode_utf8;
use crate::error::SdkError;

verus! {

/// `hyper::Uri`, a parsed URI. Nothing here looks into one.
#[verifier::external_type_specification]
#[verifier::external_body]
pub struct ExUri(hyper::Uri);

/// `hyper::http::uri::InvalidUri`, the error of the URI parser.
#[verifier::external_type_specification]
#[verifier::external_body]
pub struct ExInvalidUri(hyper::http::uri::InvalidUri);

/// `hyper::header::HeaderValue`, a checked header value. Nothing here looks
/// into one.
#[verifier::external_type_specification]
#[verifier::external_body]
pub struct ExHeaderValue(hyper::header::HeaderValue);

/// `hyper::header::InvalidHeaderValue`, the error of a refused header value.
#[verifier::external_type_specification]
#[verifier::external_body]
pub struct ExInvalidHeaderValue(hyper::header::InvalidHeaderValue);

/// Whether the URI parser of the `http` crate, which `hyper` hands on as
/// `hyper::Uri`, takes `text` for a URI.
pub uninterp spec fn uri_accepts(text: Seq<char>) -> bool;

/// Parses `text` with `<hyper::Uri as FromStr>::from_str`. The parser reads
/// its argument and nothing else, so whether it succeeds depends on the text
/// alone; the contract gives that answer a name and claims no more.
#[verifier::external_body]
fn parse_uri(text: &str) -> (parsed: Result<hyper::Uri, hyper::http::uri::InvalidUri>)
    ensures
        parsed is Ok <==> uri_accepts(text@),
{
    text.parse::<hyper::Uri>()
}

/// A byte that may stand in the value of a header: a tab, or anything from
/// the space upwards but the delete character.
pub open spec fn header_byte(b: u8) -> bool {
    (b >= 32 && b != 127) || b == 9
}

/// Whether `text` can be the value of a header: every byte of its UTF-8 form
/// is a [`header_byte`].
pub open spec fn header_value_accepts(text: Seq<char>) -> bool {
    forall|i: int| 0 <= i < encode_utf8(text).len() ==> header_byte(#[trigger] encode_utf8(text)[i])
}

/// Makes a header value of `text` with `hyper::header::HeaderValue::from_str`,
/// which walks over the bytes of the text and refuses it at the first that is
/// below the space and no tab, or is the delete character. The contract says
/// that it succeeds on exactly the texts without such a byte.
#[verifier::external_body]
fn parse_header_value(text: &str) -> (parsed: Result<
    hyper::header::HeaderValue,
    hyper::header::InvalidHeaderValue,
>)
    ensures
        parsed is Ok <==> header_value_accepts(text@),
{
    hyper::header::HeaderValue::from_str(text)
}

/// How a request asks. The service is only ever read.
#[derive(Debug, Clone, Copy, PartialEq, Eq, Structural)]
pub enum Method {
    Get,
}

/// One header of a request.
#[derive(Debug, Clone, PartialEq, Eq)]
pub struct Header {
    pub name: String,
    pub value: String,
}

/// What a [`Header`] means.
pub struct HeaderView {
    pub name: Seq<char>,
    pub value: Seq<char>,
}

impl View for Header {
    type V = HeaderView;

    open spec fn view(&self) -> HeaderView {
        HeaderView { name: self.name@, value: self.value@ }
    }
}

/// A request that is ready to be sent: its address is a URI and each of its
/// header values can stand in a header.
#[derive(Debug, Clone, PartialEq, Eq)]
pub struct Request {
    pub method: Method,
    pub url: String,
    pub headers: Vec<Header>,
}

/// What a [`Request`] means.
pub struct RequestView {
    pub method: Method,
    pub url: Seq<char>,
    pub headers: Seq<HeaderView>,
}

impl View for Request {
    type V = RequestView;

    open spec fn view(&self) -> RequestView {
        RequestView {
            method: self.method,
            url: self.url@,
            headers: Seq::new(self.headers@.len(), |i: int| self.headers@[i]@),
        }
    }
}

/// The request that every endpoint takes: a `GET` of the address that asks
/// for JSON and names the caller.
pub open spec fn get_of(url: Seq<char>, user_agent: Seq<char>) -> RequestView {
    RequestView {
        method: Method::Get,
        url,
        headers: seq![
            HeaderView { name: "Accept"@, value: "application/json"@ },
            HeaderView { name: "User-Agent"@, value: user_agent },
        ],
    }
}

/// What comes of preparing a request for `url` in the name of `user_agent`,
/// given whether the address was taken for a URI. The address is judged
/// first, the `User-Agent` second.
pub open spec fn prepared(url: Seq<char>, user_agent: Seq<char>, url_accepted: bool) -> Result<
    RequestView,
    SdkError,
> {
    if !url_accepted {
        Err(SdkError::UrlConstruction)
    } else if !header_value_accepts(user_agent) {
        Err(SdkError::RequestConstruction)
    } else {
        Ok(get_of(url, user_agent))
    }
}

/// The meaning of the outcome of preparing a request.
pub open spec fn outcome_view(outcome: Result<Request, SdkError>) -> Result<RequestView, SdkError> {
    match outcome {
        Ok(request) => Ok(request@),
        Err(error) => Err(error),
    }
}

impl Request {
    /// Finishes a request for `url` once it is known whether the address is
    /// a URI: checks the `User-Agent` and puts the two headers in place.
    pub fn assemble(url: String, user_agent: String, url_accepted: bool) -> (outcome: Result<
        Request,
        SdkError,
    >)
        ensures
            outcome_view(outcome) == prepared(url@, user_agent@, url_accepted),
    {
        if !url_accepted {
            return Err(SdkError::UrlConstruction);
        }
        match parse_header_value(user_agent.as_str()) {
            Err(_) => Err(SdkError::RequestConstruction),
            Ok(_) => {
                let mut headers: Vec<Header> = Vec::new();
                headers.push(
                    Header {
                        name: String::from_str("Accept"),
                        value: String::from_str("application/json"),
                    },
                );
                headers.push(Header { name: String::from_str("User-Agent"), value: user_agent });
                let request = Request { method: Method::Get, url, headers };
                assert(request@.headers =~= get_of(url@, user_agent@).headers);
                Ok(request)
            },
        }
    }

    /// Prepares the `GET` of `url` in the name of `user_agent`.
    pub fn prepare(url: String, user_agent: String) -> (outcome: Result<Request, SdkError>)
        ensures
            outcome_view(outcome) == prepared(url@, user_agent@, uri_accepts(url@)),
    {
        let parsed = parse_uri(url.as_str());
        Request::assemble(url, user_agent, parsed.is_ok())
    }
}

} // verus!

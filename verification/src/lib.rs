//! A client for the [icanhazdadjoke API](https://icanhazdadjoke.com/).
//!
//! The crate holds everything about the service that can be decided without
//! touching the network: the request that each of the three endpoints takes,
//! the shape of the documents that come back, and the failure that each stage
//! of an exchange is reported as. Sending a request and reading the body of
//! its response is left to the caller's transport.
//!
//! # Examples
//!
//! ```
//! use icanhazdadjoke_sdk::json::Json;
//! use icanhazdadjoke_sdk::response::{read_joke, Reply};
//! use icanhazdadjoke_sdk::DadJokeSDK;
//!
//! let dad_joke_sdk = DadJokeSDK::new("NAME_YOUR_APP".into());
//! let request = dad_joke_sdk.get_joke("0189hNRf2g".into()).unwrap();
//! assert_eq!(request.url, "https://icanhazdadjoke.com/j/0189hNRf2g");
//!
//! // The transport sends the request and parses the body that comes back.
//! let reply = Reply::Document(Json::Object(vec![
//!     ("id".into(), Json::Text("0189hNRf2g".into())),
//!     ("joke".into(), Json::Text("...".into())),
//!     ("status".into(), Json::Unsigned(200)),
//! ]));
//! let joke = read_joke(&reply).unwrap();
//! assert_eq!(joke.status, 200);
//! ```

pub mod error;
pub mod json;
pub mod models;
pub mod request;
pub mod response;
mod sdk;
pub mod url;

pub use error::SdkError;
pub use models::PaginationOpts;
pub use sdk::DadJokeSDK;

//! The values that the service hands out and the options that it takes.

mod joke;
mod paginated_data;
mod paginated_joke;
mod pagination_opts;

pub use joke::{lemma_joke_round_trip, Joke, JokeView};
pub use paginated_data::{
    decode_results, encode_results, lemma_page_keeps_count_and_limit, lemma_page_round_trip,
    lemma_results_round_trip, PaginatedData, PaginatedDataView,
};
pub use paginated_joke::{lemma_paginated_joke_round_trip, PaginatedJoke, PaginatedJokeView};
pub use pagination_opts::PaginationOpts;

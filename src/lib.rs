//! A client for a joke service: it decodes the service's JSON reply, picks
//! the first joke, stamps it with the time it was fetched, and classifies
//! every failure as either a network error or a parse error.

mod time;
mod joke;
mod lex;
mod decode;
mod error;
mod client;

pub use time::Timestamp;
pub use joke::{Joke, JokeView, update_joke, stamp_joke, lemma_restamp_keeps_latest};
pub use decode::JokesResponse;
pub use error::{JokesClientError, ErrorView, lemma_kinds_render_apart};
pub use client::{JokesClient, select_first, API_URL, ENDPOINT};

use vstd::prelude::*;
use crate::decode::{JokesResponse, decode};
use crate::error::{ErrorView, JokesClientError};
use crate::joke::{Joke, JokeView, stamp_joke};
use crate::time::{Timestamp, clock_now};

verus! {

/// The service's address unless another is given.
pub const API_URL: &'static str = "https://official-joke-api.appspot.com/jokes";

/// The path, under the base address, of one random programming joke.
pub const ENDPOINT: &'static str = "programming/random";

/// How many characters of an undecodable reply a parse error quotes.
pub const EXCERPT_LEN: usize = 80;

pub open spec fn fetch_failed_message() -> Seq<char> {
    "Error fetching a joke: "@
}

pub open spec fn no_joke_message() -> Seq<char> {
    "The service returned no jokes."@
}

pub open spec fn parse_failed_message() -> Seq<char> {
    "Error parsing response: "@
}

/// The start of `body` that a parse error quotes.
pub open spec fn excerpt(body: Seq<char>) -> Seq<char> {
    if body.len() <= EXCERPT_LEN {
        body
    } else {
        body.subrange(0, EXCERPT_LEN as int)
    }
}

/// What the transport handed back: a reply body, or what went wrong.
pub open spec fn response_view(response: Result<String, String>) -> Result<Seq<char>, Seq<char>> {
    match response {
        Ok(body) => Ok(body@),
        Err(detail) => Err(detail@),
    }
}

pub open spec fn result_view(r: Result<Joke, JokesClientError>) -> Result<JokeView, ErrorView> {
    match r {
        Ok(j) => Ok(j@),
        Err(e) => Err(e@),
    }
}

/// The outcome of one fetch, given what the transport handed back and the
/// time read once a joke was selected: a failed request is a network error;
/// a body that does not decode is a parse error quoting its start; a body
/// with no joke is a network error; otherwise the first joke, stamped.
pub open spec fn outcome(response: Result<Seq<char>, Seq<char>>, now: Timestamp) -> Result<
    JokeView,
    ErrorView,
> {
    match response {
        Err(detail) => Err(ErrorView::Network(fetch_failed_message() + detail)),
        Ok(body) => match decode(body) {
            None => Err(ErrorView::Parse(parse_failed_message() + excerpt(body))),
            Some(jokes) => if jokes.len() == 0 {
                Err(ErrorView::Network(no_joke_message()))
            } else {
                Ok(jokes[0].stamped(now))
            },
        },
    }
}

/// The first joke of a reply, if it holds any.
pub fn select_first(response: JokesResponse) -> (r: Option<Joke>)
    ensures
        response@.len() == 0 ==> r is None,
        response@.len() > 0 ==> r is Some && r->0@ == response@[0],
{
    let mut jokes = response.inner();
    if jokes.len() == 0 {
        None
    } else {
        let first = jokes.remove(0);
        Some(first)
    }
}

/// A client of the joke service at a fixed base address.
pub struct JokesClient {
    base_url: String,
}

impl JokesClient {
    pub closed spec fn base(&self) -> Seq<char> {
        self.base_url@
    }

    /// A client of the service at its usual address.
    pub fn new() -> (r: JokesClient)
        ensures
            r.base() == API_URL@,
    {
        JokesClient { base_url: String::from_str(API_URL) }
    }

    /// A client of the service at `base_url`.
    pub fn with_base_url(base_url: String) -> (r: JokesClient)
        ensures
            r.base() == base_url@,
    {
        JokesClient { base_url }
    }

    pub fn base_url(&self) -> (r: &String)
        ensures
            r@ == self.base(),
    {
        &self.base_url
    }

    /// The address to request: the base, a slash, then the endpoint.
    pub fn endpoint_url(&self) -> (r: String)
        ensures
            r@ == self.base() + "/"@ + ENDPOINT@,
    {
        self.base_url.clone().concat("/").concat(ENDPOINT)
    }

    /// Turns what the transport handed back into a joke stamped with `now`,
    /// or the error that classifies the failure.
    pub fn resolve(response: Result<String, String>, now: Timestamp) -> (r: Result<
        Joke,
        JokesClientError,
    >)
        ensures
            result_view(r) == outcome(response_view(response), now),
    {
        match response {
            Err(detail) => Err(
                JokesClientError::NetworkError(
                    String::from_str("Error fetching a joke: ").concat(detail.as_str()),
                ),
            ),
            Ok(body) => match JokesResponse::decode(body.as_str()) {
                None => {
                    let n = body.as_str().unicode_len();
                    let end = if n <= EXCERPT_LEN {
                        n
                    } else {
                        EXCERPT_LEN
                    };
                    let quoted = body.as_str().substring_char(0, end);
                    assert(body@.subrange(0, n as int) =~= body@);
                    Err(
                        JokesClientError::ParseError(
                            String::from_str("Error parsing response: ").concat(quoted),
                        ),
                    )
                },
                Some(batch) => match stamp_joke(select_first(batch), now) {
                    Some(joke) => Ok(joke),
                    None => Err(
                        JokesClientError::NetworkError(
                            String::from_str("The service returned no jokes."),
                        ),
                    ),
                },
            },
        }
    }

    /// Completes one fetch from what the transport handed back: decodes the
    /// body, selects the first joke and stamps it with the wall-clock time
    /// read at that moment. The outcome is that of [`JokesClient::resolve`]
    /// for that time.
    pub fn fetch_joke(&self, response: Result<String, String>) -> (r: Result<
        Joke,
        JokesClientError,
    >)
        ensures
            exists|t: Timestamp| t.wf() && result_view(r) == #[trigger] outcome(response_view(response), t),
            response is Err ==> r is Err && r->Err_0 is NetworkError,
            response is Ok && decode(response->Ok_0@) is None ==> r is Err && r->Err_0 is ParseError,
            response is Ok && decode(response->Ok_0@) == Some(Seq::<JokeView>::empty()) ==> r is Err && r->Err_0 is NetworkError,
            response is Ok && decode(response->Ok_0@) is Some && decode(
                response->Ok_0@,
            )->0.len() > 0 ==> r is Ok && r->Ok_0@.fetched_at is Some && r->Ok_0@ == decode(
                response->Ok_0@,
            )->0[0].stamped(r->Ok_0.fetched_at->0),
            r is Ok ==> r->Ok_0.fetched_at is Some,
    {
        let now = clock_now();
        let ghost resp = response_view(response);
        let r = JokesClient::resolve(response, now);
        assert(result_view(r) == outcome(resp, now));
        r
    }
}

} // verus!

use vstd::prelude::*;
use crate::time::{Timestamp, clock_now};

verus! {

/// One joke as the service describes it, plus the local time at which it
/// was fetched (unset until the joke is stamped).
#[derive(Debug)]
pub struct Joke {
    pub joke_type: String,
    pub setup: String,
    pub punchline: String,
    pub id: i64,
    pub fetched_at: Option<Timestamp>,
}

/// The mathematical content of a [`Joke`].
pub ghost struct JokeView {
    pub joke_type: Seq<char>,
    pub setup: Seq<char>,
    pub punchline: Seq<char>,
    pub id: int,
    pub fetched_at: Option<Timestamp>,
}

impl View for Joke {
    type V = JokeView;

    open spec fn view(&self) -> JokeView {
        JokeView {
            joke_type: self.joke_type@,
            setup: self.setup@,
            punchline: self.punchline@,
            id: self.id as int,
            fetched_at: self.fetched_at,
        }
    }
}

impl JokeView {
    /// The same joke, with its fetch time overwritten by `at`.
    pub open spec fn stamped(self, at: Timestamp) -> JokeView {
        JokeView { fetched_at: Some(at), ..self }
    }
}

/// Overwrites the fetch time of `value`, if there is a joke, with `now`.
pub fn stamp_joke(value: Option<Joke>, now: Timestamp) -> (r: Option<Joke>)
    ensures
        match value {
            Some(j) => r is Some && r->0@ == j@.stamped(now),
            None => r is None,
        },
{
    match value {
        Some(mut j) => {
            j.fetched_at = Some(now);
            Some(j)
        },
        None => None,
    }
}

/// Stamps `value`, if there is a joke, with the wall-clock time read now.
pub fn update_joke(value: Option<Joke>) -> (r: Option<Joke>)
    ensures
        match value {
            Some(j) => r is Some && exists|t: Timestamp| t.wf() && r->0@ == #[trigger] j@.stamped(t),
            None => r is None,
        },
{
    let now = clock_now();
    stamp_joke(value, now)
}

/// Stamping twice leaves only the second time: the result is the joke
/// stamped once with the second time, so the first is no longer observable,
/// and when the clock did not go back between the two readings the joke
/// carries the later of them.
pub proof fn lemma_restamp_keeps_latest(j: JokeView, first: Timestamp, second: Timestamp)
    ensures
        j.stamped(first).stamped(second) == j.stamped(second),
        first.no_later_than(second) ==> j.stamped(first).stamped(second).fetched_at == Some(
            second,
        ),
{
}

} // verus!

use vstd::prelude::*;

verus! {

/// Why a joke could not be fetched.
///
/// A reply that decodes to no joke at all is reported as a `NetworkError`,
/// as the service not delivering a joke, so that callers keep one error for
/// "no joke came back" and one for "a reply came back that makes no sense".
#[derive(Debug)]
pub enum JokesClientError {
    /// No usable reply was obtained.
    NetworkError(String),
    /// A reply was obtained but is not a JSON array of jokes.
    ParseError(String),
}

/// The mathematical content of a [`JokesClientError`].
pub ghost enum ErrorView {
    Network(Seq<char>),
    Parse(Seq<char>),
}

impl View for JokesClientError {
    type V = ErrorView;

    open spec fn view(&self) -> ErrorView {
        match self {
            JokesClientError::NetworkError(m) => ErrorView::Network(m@),
            JokesClientError::ParseError(m) => ErrorView::Parse(m@),
        }
    }
}

pub open spec fn network_label() -> Seq<char> {
    "Network error: "@
}

pub open spec fn parse_label() -> Seq<char> {
    "Parse error: "@
}

impl ErrorView {
    /// The text shown to a user: a label naming the kind, then the message.
    pub open spec fn describe(self) -> Seq<char> {
        match self {
            ErrorView::Network(m) => network_label() + m,
            ErrorView::Parse(m) => parse_label() + m,
        }
    }
}

impl JokesClientError {
    /// The message carried by either kind.
    pub fn message(&self) -> (r: &String)
        ensures
            r@ == match self@ {
                ErrorView::Network(m) => m,
                ErrorView::Parse(m) => m,
            },
    {
        match self {
            JokesClientError::NetworkError(m) => m,
            JokesClientError::ParseError(m) => m,
        }
    }

    /// Renders the error for a user; the two kinds read differently.
    pub fn to_string(&self) -> (r: String)
        ensures
            r@ == self@.describe(),
    {
        match self {
            JokesClientError::NetworkError(m) => String::from_str("Network error: ").concat(
                m.as_str(),
            ),
            JokesClientError::ParseError(m) => String::from_str("Parse error: ").concat(
                m.as_str(),
            ),
        }
    }
}

/// Two errors of different kinds never render alike, and neither renders
/// as an empty text.
pub proof fn lemma_kinds_render_apart(network: Seq<char>, parse: Seq<char>)
    ensures
        ErrorView::Network(network).describe() != ErrorView::Parse(parse).describe(),
        ErrorView::Network(network).describe().len() > 0,
        ErrorView::Parse(parse).describe().len() > 0,
{
    reveal_strlit("Network error: ");
    reveal_strlit("Parse error: ");
    assert(ErrorView::Network(network).describe()[0] == 'N');
    assert(ErrorView::Parse(parse).describe()[0] == 'P');
}

} // verus!

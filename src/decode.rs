use vstd::prelude::*;
use crate::joke::{Joke, JokeView};
use crate::lex::{Tok, Token, lex, toks_view, tokenize};

verus! {

/// The members of a joke object read so far.
pub ghost struct Draft {
    pub joke_type: Option<Seq<char>>,
    pub setup: Option<Seq<char>>,
    pub punchline: Option<Seq<char>>,
    pub id: Option<int>,
}

/// Where the parser stands in the token sequence.
pub ghost enum ParseState {
    /// Before the opening `[`.
    Start,
    /// After `[`: a joke or `]`.
    FirstItem,
    /// After a `,` between jokes: a joke.
    Item,
    /// After `{`: a member name or `}`.
    FirstKey(Draft),
    /// After a `,` between members: a member name.
    Key(Draft),
    /// After a member name: `:`.
    Colon(Draft, Seq<char>),
    /// After `:`: the member's value.
    Value(Draft, Seq<char>),
    /// After a member: `,` or `}`.
    AfterMember(Draft),
    /// After a joke: `,` or `]`.
    AfterItem,
    /// After the closing `]`: nothing more.
    Done,
    /// Within a nested array or object that is the value of a member other
    /// than the four of a joke: the containers open (true for an object),
    /// innermost last, and what may come next.
    Nested(Draft, Seq<bool>, Expect),
}

/// What may come next within a nested value.
#[derive(Clone, Copy, PartialEq, Eq, Structural)]
pub enum Expect {
    /// After `[`: a value or `]`.
    FirstElem,
    /// After a `,` in an array: a value.
    Elem,
    /// After `{`: a member name or `}`.
    FirstKey,
    /// After a `,` in an object: a member name.
    Key,
    /// After a member name: `:`.
    Colon,
    /// After `:`: a value.
    Value,
    /// After a value: `,` or the closing bracket of the innermost container.
    After,
}

pub open spec fn empty_draft() -> Draft {
    Draft { joke_type: None, setup: None, punchline: None, id: None }
}

pub open spec fn key_type() -> Seq<char> {
    seq!['t', 'y', 'p', 'e']
}

pub open spec fn key_setup() -> Seq<char> {
    seq!['s', 'e', 't', 'u', 'p']
}

pub open spec fn key_punchline() -> Seq<char> {
    seq!['p', 'u', 'n', 'c', 'h', 'l', 'i', 'n', 'e']
}

pub open spec fn key_id() -> Seq<char> {
    seq!['i', 'd']
}

/// A value that is a single token.
pub open spec fn is_plain(v: Tok) -> bool {
    v is Text || v is Integer || v is Fractional || v is Literal
}

pub open spec fn is_member_key(key: Seq<char>) -> bool {
    key == key_type() || key == key_setup() || key == key_punchline() || key == key_id()
}

/// Records member `key` with value `v`. The four members of a joke must be
/// of their kind (text, or an integer within `i64`) and appear at most
/// once; any other member whose value is a single token is ignored.
pub open spec fn assign(d: Draft, key: Seq<char>, v: Tok) -> Option<Draft> {
    if key == key_type() {
        match v {
            Tok::Text(t) => if d.joke_type is None {
                Some(Draft { joke_type: Some(t), ..d })
            } else {
                None
            },
            _ => None,
        }
    } else if key == key_setup() {
        match v {
            Tok::Text(t) => if d.setup is None {
                Some(Draft { setup: Some(t), ..d })
            } else {
                None
            },
            _ => None,
        }
    } else if key == key_punchline() {
        match v {
            Tok::Text(t) => if d.punchline is None {
                Some(Draft { punchline: Some(t), ..d })
            } else {
                None
            },
            _ => None,
        }
    } else if key == key_id() {
        match v {
            Tok::Integer(Some(n)) => if d.id is None {
                Some(Draft { id: Some(n), ..d })
            } else {
                None
            },
            _ => None,
        }
    } else if is_plain(v) {
        Some(d)
    } else {
        None
    }
}

/// The joke that a finished object describes, if it has all four members.
pub open spec fn complete(d: Draft) -> Option<JokeView> {
    if d.joke_type is Some && d.setup is Some && d.punchline is Some && d.id is Some {
        Some(
            JokeView {
                joke_type: d.joke_type->0,
                setup: d.setup->0,
                punchline: d.punchline->0,
                id: d.id->0,
                fetched_at: None,
            },
        )
    } else {
        None
    }
}

/// Leaves the innermost nested container.
pub open spec fn close_nested(d: Draft, stack: Seq<bool>) -> ParseState {
    if stack.len() <= 1 {
        ParseState::AfterMember(d)
    } else {
        ParseState::Nested(d, stack.drop_last(), Expect::After)
    }
}

/// Reads a token where a nested value starts.
pub open spec fn nested_value(d: Draft, stack: Seq<bool>, t: Tok) -> Option<ParseState> {
    if is_plain(t) {
        Some(ParseState::Nested(d, stack, Expect::After))
    } else if t is OpenArray {
        Some(ParseState::Nested(d, stack.push(false), Expect::FirstElem))
    } else if t is OpenObject {
        Some(ParseState::Nested(d, stack.push(true), Expect::FirstKey))
    } else {
        None
    }
}

/// Reads one token `t` within a nested value.
pub open spec fn nested_step(d: Draft, stack: Seq<bool>, ex: Expect, t: Tok) -> Option<
    ParseState,
> {
    match ex {
        Expect::FirstElem => if t is CloseArray {
            Some(close_nested(d, stack))
        } else {
            nested_value(d, stack, t)
        },
        Expect::Elem => nested_value(d, stack, t),
        Expect::Value => nested_value(d, stack, t),
        Expect::FirstKey => if t is Text {
            Some(ParseState::Nested(d, stack, Expect::Colon))
        } else if t is CloseObject {
            Some(close_nested(d, stack))
        } else {
            None
        },
        Expect::Key => if t is Text {
            Some(ParseState::Nested(d, stack, Expect::Colon))
        } else {
            None
        },
        Expect::Colon => if t is Colon {
            Some(ParseState::Nested(d, stack, Expect::Value))
        } else {
            None
        },
        Expect::After => if t is Comma {
            Some(
                ParseState::Nested(
                    d,
                    stack,
                    if stack.last() {
                        Expect::Key
                    } else {
                        Expect::Elem
                    },
                ),
            )
        } else if (t is CloseArray && !stack.last()) || (t is CloseObject && stack.last()) {
            Some(close_nested(d, stack))
        } else {
            None
        },
    }
}

/// Reads one token `t` in state `st`, with the jokes `out` read so far.
pub open spec fn parse_step(st: ParseState, t: Tok, out: Seq<JokeView>) -> Option<
    (ParseState, Seq<JokeView>),
> {
    match st {
        ParseState::Start => if t is OpenArray {
            Some((ParseState::FirstItem, out))
        } else {
            None
        },
        ParseState::FirstItem => if t is OpenObject {
            Some((ParseState::FirstKey(empty_draft()), out))
        } else if t is CloseArray {
            Some((ParseState::Done, out))
        } else {
            None
        },
        ParseState::Item => if t is OpenObject {
            Some((ParseState::FirstKey(empty_draft()), out))
        } else {
            None
        },
        ParseState::FirstKey(d) => match t {
            Tok::Text(k) => Some((ParseState::Colon(d, k), out)),
            Tok::CloseObject => match complete(d) {
                Some(j) => Some((ParseState::AfterItem, out.push(j))),
                None => None,
            },
            _ => None,
        },
        ParseState::Key(d) => match t {
            Tok::Text(k) => Some((ParseState::Colon(d, k), out)),
            _ => None,
        },
        ParseState::Colon(d, k) => if t is Colon {
            Some((ParseState::Value(d, k), out))
        } else {
            None
        },
        ParseState::Value(d, k) => if !is_member_key(k) && t is OpenArray {
            Some((ParseState::Nested(d, seq![false], Expect::FirstElem), out))
        } else if !is_member_key(k) && t is OpenObject {
            Some((ParseState::Nested(d, seq![true], Expect::FirstKey), out))
        } else {
            match assign(d, k, t) {
                Some(d2) => Some((ParseState::AfterMember(d2), out)),
                None => None,
            }
        },
        ParseState::AfterMember(d) => match t {
            Tok::Comma => Some((ParseState::Key(d), out)),
            Tok::CloseObject => match complete(d) {
                Some(j) => Some((ParseState::AfterItem, out.push(j))),
                None => None,
            },
            _ => None,
        },
        ParseState::AfterItem => match t {
            Tok::Comma => Some((ParseState::Item, out)),
            Tok::CloseArray => Some((ParseState::Done, out)),
            _ => None,
        },
        ParseState::Done => None,
        ParseState::Nested(d, stack, ex) => match nested_step(d, stack, ex, t) {
            Some(next) => Some((next, out)),
            None => None,
        },
    }
}

pub open spec fn parse_from(ts: Seq<Tok>, k: int, st: ParseState, out: Seq<JokeView>) -> Option<
    Seq<JokeView>,
>
    decreases ts.len() - k,
{
    if k < 0 || k >= ts.len() {
        if st is Done {
            Some(out)
        } else {
            None
        }
    } else {
        match parse_step(st, ts[k], out) {
            Some((next, o)) => parse_from(ts, k + 1, next, o),
            None => None,
        }
    }
}

/// The jokes that the text `s` holds: `s` must be a JSON text whose value
/// is an array of objects, each with the string members `type`, `setup` and
/// `punchline` and the integer member `id` within `i64`, each once; other
/// members, of any value, are ignored. `None` when `s` is anything else.
pub open spec fn decode(s: Seq<char>) -> Option<Seq<JokeView>> {
    match lex(s) {
        Some(ts) => parse_from(ts, 0, ParseState::Start, Seq::empty()),
        None => None,
    }
}

pub open spec fn jokes_view(v: Seq<Joke>) -> Seq<JokeView> {
    v.map_values(|j: Joke| j@)
}

/// The jokes of one reply of the service, in the order it sent them.
#[derive(Debug)]
pub struct JokesResponse(Vec<Joke>);

impl View for JokesResponse {
    type V = Seq<JokeView>;

    closed spec fn view(&self) -> Seq<JokeView> {
        jokes_view(self.0@)
    }
}

impl JokesResponse {
    pub fn inner(self) -> (r: Vec<Joke>)
        ensures
            jokes_view(r@) == self@,
    {
        self.0
    }

    /// Decodes a reply body; `None` when it is not a JSON array of jokes.
    pub fn decode(body: &str) -> (r: Option<JokesResponse>)
        ensures
            match decode(body@) {
                Some(js) => r is Some && r->0@ == js,
                None => r is None,
            },
    {
        match tokenize(body) {
            Some(toks) => match parse_tokens(&toks) {
                Some(jokes) => Some(JokesResponse(jokes)),
                None => None,
            },
            None => None,
        }
    }
}

struct DraftJoke {
    joke_type: Option<String>,
    setup: Option<String>,
    punchline: Option<String>,
    id: Option<i64>,
}

spec fn text_view(o: Option<String>) -> Option<Seq<char>> {
    match o {
        Some(s) => Some(s@),
        None => None,
    }
}

impl View for DraftJoke {
    type V = Draft;

    closed spec fn view(&self) -> Draft {
        Draft {
            joke_type: text_view(self.joke_type),
            setup: text_view(self.setup),
            punchline: text_view(self.punchline),
            id: match self.id {
                Some(n) => Some(n as int),
                None => None,
            },
        }
    }
}

enum Parsing {
    Start,
    FirstItem,
    Item,
    FirstKey(DraftJoke),
    Key(DraftJoke),
    Colon(DraftJoke, String),
    Value(DraftJoke, String),
    AfterMember(DraftJoke),
    AfterItem,
    Done,
    Nested(DraftJoke, Vec<bool>, Expect),
}

impl Parsing {
    spec fn wf(&self) -> bool {
        match self {
            Parsing::Nested(_, stack, _) => stack@.len() > 0,
            _ => true,
        }
    }
}

impl View for Parsing {
    type V = ParseState;

    closed spec fn view(&self) -> ParseState {
        match self {
            Parsing::Start => ParseState::Start,
            Parsing::FirstItem => ParseState::FirstItem,
            Parsing::Item => ParseState::Item,
            Parsing::FirstKey(d) => ParseState::FirstKey(d@),
            Parsing::Key(d) => ParseState::Key(d@),
            Parsing::Colon(d, k) => ParseState::Colon(d@, k@),
            Parsing::Value(d, k) => ParseState::Value(d@, k@),
            Parsing::AfterMember(d) => ParseState::AfterMember(d@),
            Parsing::AfterItem => ParseState::AfterItem,
            Parsing::Done => ParseState::Done,
            Parsing::Nested(d, stack, ex) => ParseState::Nested(d@, stack@, *ex),
        }
    }
}

/// Whether two texts hold the same characters.
fn same_text(a: &str, b: &str) -> (r: bool)
    ensures
        r == (a@ == b@),
{
    let n = a.unicode_len();
    let m = b.unicode_len();
    if n != m {
        return false;
    }
    let mut i: usize = 0;
    while i < n
        invariant
            n == a@.len(),
            n == b@.len(),
            i <= n,
            a@.subrange(0, i as int) == b@.subrange(0, i as int),
        decreases n - i,
    {
        if a.get_char(i) != b.get_char(i) {
            return false;
        }
        assert(a@.subrange(0, i + 1) =~= a@.subrange(0, i as int).push(a@[i as int]));
        assert(b@.subrange(0, i + 1) =~= b@.subrange(0, i as int).push(b@[i as int]));
        i += 1;
    }
    assert(a@ =~= a@.subrange(0, n as int));
    assert(b@ =~= b@.subrange(0, n as int));
    true
}

fn fresh_draft() -> (r: DraftJoke)
    ensures
        r@ == empty_draft(),
{
    DraftJoke { joke_type: None, setup: None, punchline: None, id: None }
}

fn exec_assign(d: DraftJoke, key: &String, v: &Token) -> (r: Option<DraftJoke>)
    ensures
        match assign(d@, key@, v@) {
            Some(d2) => r is Some && r->0@ == d2,
            None => r is None,
        },
{
    proof {
        reveal_strlit("type");
        reveal_strlit("setup");
        reveal_strlit("punchline");
        reveal_strlit("id");
        assert("type"@ =~= key_type());
        assert("setup"@ =~= key_setup());
        assert("punchline"@ =~= key_punchline());
        assert("id"@ =~= key_id());
    }
    let mut d = d;
    if same_text(key.as_str(), "type") {
        match v {
            Token::Text(t) => if d.joke_type.is_none() {
                d.joke_type = Some(t.clone());
                Some(d)
            } else {
                None
            },
            _ => None,
        }
    } else if same_text(key.as_str(), "setup") {
        match v {
            Token::Text(t) => if d.setup.is_none() {
                d.setup = Some(t.clone());
                Some(d)
            } else {
                None
            },
            _ => None,
        }
    } else if same_text(key.as_str(), "punchline") {
        match v {
            Token::Text(t) => if d.punchline.is_none() {
                d.punchline = Some(t.clone());
                Some(d)
            } else {
                None
            },
            _ => None,
        }
    } else if same_text(key.as_str(), "id") {
        match v {
            Token::Integer(Some(n)) => if d.id.is_none() {
                d.id = Some(*n);
                Some(d)
            } else {
                None
            },
            _ => None,
        }
    } else {
        match v {
            Token::Text(_) | Token::Integer(_) | Token::Fractional | Token::Literal => Some(d),
            _ => None,
        }
    }
}

fn exec_is_member_key(key: &String) -> (r: bool)
    ensures
        r == is_member_key(key@),
{
    proof {
        reveal_strlit("type");
        reveal_strlit("setup");
        reveal_strlit("punchline");
        reveal_strlit("id");
        assert("type"@ =~= key_type());
        assert("setup"@ =~= key_setup());
        assert("punchline"@ =~= key_punchline());
        assert("id"@ =~= key_id());
    }
    same_text(key.as_str(), "type") || same_text(key.as_str(), "setup") || same_text(
        key.as_str(),
        "punchline",
    ) || same_text(key.as_str(), "id")
}

fn exec_is_plain(t: &Token) -> (r: bool)
    ensures
        r == is_plain(t@),
{
    match t {
        Token::Text(_) | Token::Integer(_) | Token::Fractional | Token::Literal => true,
        _ => false,
    }
}

fn exec_close_nested(d: DraftJoke, stack: Vec<bool>) -> (r: Parsing)
    requires
        stack@.len() > 0,
    ensures
        r@ == close_nested(d@, stack@),
        r.wf(),
{
    let mut stack = stack;
    if stack.len() <= 1 {
        Parsing::AfterMember(d)
    } else {
        stack.pop();
        Parsing::Nested(d, stack, Expect::After)
    }
}

fn exec_nested_value(d: DraftJoke, stack: Vec<bool>, t: &Token) -> (r: Option<Parsing>)
    requires
        stack@.len() > 0,
    ensures
        match nested_value(d@, stack@, t@) {
            Some(next) => r is Some && r->0@ == next && r->0.wf(),
            None => r is None,
        },
{
    let mut stack = stack;
    if exec_is_plain(t) {
        Some(Parsing::Nested(d, stack, Expect::After))
    } else {
        match t {
            Token::OpenArray => {
                stack.push(false);
                Some(Parsing::Nested(d, stack, Expect::FirstElem))
            },
            Token::OpenObject => {
                stack.push(true);
                Some(Parsing::Nested(d, stack, Expect::FirstKey))
            },
            _ => None,
        }
    }
}

fn exec_nested_step(d: DraftJoke, stack: Vec<bool>, ex: Expect, t: &Token) -> (r: Option<
    Parsing,
>)
    requires
        stack@.len() > 0,
    ensures
        match nested_step(d@, stack@, ex, t@) {
            Some(next) => r is Some && r->0@ == next && r->0.wf(),
            None => r is None,
        },
{
    let innermost_is_object = stack[stack.len() - 1];
    match ex {
        Expect::FirstElem => match t {
            Token::CloseArray => Some(exec_close_nested(d, stack)),
            _ => exec_nested_value(d, stack, t),
        },
        Expect::Elem => exec_nested_value(d, stack, t),
        Expect::Value => exec_nested_value(d, stack, t),
        Expect::FirstKey => match t {
            Token::Text(_) => Some(Parsing::Nested(d, stack, Expect::Colon)),
            Token::CloseObject => Some(exec_close_nested(d, stack)),
            _ => None,
        },
        Expect::Key => match t {
            Token::Text(_) => Some(Parsing::Nested(d, stack, Expect::Colon)),
            _ => None,
        },
        Expect::Colon => match t {
            Token::Colon => Some(Parsing::Nested(d, stack, Expect::Value)),
            _ => None,
        },
        Expect::After => match t {
            Token::Comma => {
                let next = if innermost_is_object {
                    Expect::Key
                } else {
                    Expect::Elem
                };
                Some(Parsing::Nested(d, stack, next))
            },
            Token::CloseArray => if !innermost_is_object {
                Some(exec_close_nested(d, stack))
            } else {
                None
            },
            Token::CloseObject => if innermost_is_object {
                Some(exec_close_nested(d, stack))
            } else {
                None
            },
            _ => None,
        },
    }
}

fn exec_complete(d: DraftJoke) -> (r: Option<Joke>)
    ensures
        match complete(d@) {
            Some(j) => r is Some && r->0@ == j,
            None => r is None,
        },
{
    match (d.joke_type, d.setup, d.punchline, d.id) {
        (Some(joke_type), Some(setup), Some(punchline), Some(id)) => Some(
            Joke { joke_type, setup, punchline, id, fetched_at: None },
        ),
        _ => None,
    }
}

fn push_joke(out: &mut Vec<Joke>, j: Joke)
    ensures
        jokes_view(final(out)@) == jokes_view(old(out)@).push(j@),
{
    out.push(j);
    assert(jokes_view(out@) =~= jokes_view(old(out)@).push(j@));
}

fn exec_parse_step(st: Parsing, t: &Token, out: &mut Vec<Joke>) -> (r: Option<Parsing>)
    requires
        st.wf(),
    ensures
        match parse_step(st@, t@, jokes_view(old(out)@)) {
            Some((next, o)) => r is Some && r->0@ == next && r->0.wf() && jokes_view(final(out)@)
                == o,
            None => r is None,
        },
{
    match st {
        Parsing::Start => match t {
            Token::OpenArray => Some(Parsing::FirstItem),
            _ => None,
        },
        Parsing::FirstItem => match t {
            Token::OpenObject => Some(Parsing::FirstKey(fresh_draft())),
            Token::CloseArray => Some(Parsing::Done),
            _ => None,
        },
        Parsing::Item => match t {
            Token::OpenObject => Some(Parsing::FirstKey(fresh_draft())),
            _ => None,
        },
        Parsing::FirstKey(d) => match t {
            Token::Text(k) => Some(Parsing::Colon(d, k.clone())),
            Token::CloseObject => match exec_complete(d) {
                Some(j) => {
                    push_joke(out, j);
                    Some(Parsing::AfterItem)
                },
                None => None,
            },
            _ => None,
        },
        Parsing::Key(d) => match t {
            Token::Text(k) => Some(Parsing::Colon(d, k.clone())),
            _ => None,
        },
        Parsing::Colon(d, k) => match t {
            Token::Colon => Some(Parsing::Value(d, k)),
            _ => None,
        },
        Parsing::Value(d, k) => {
            let member = exec_is_member_key(&k);
            match t {
                Token::OpenArray if !member => {
                    let mut stack: Vec<bool> = Vec::new();
                    stack.push(false);
                    assert(stack@ =~= seq![false]);
                    Some(Parsing::Nested(d, stack, Expect::FirstElem))
                },
                Token::OpenObject if !member => {
                    let mut stack: Vec<bool> = Vec::new();
                    stack.push(true);
                    assert(stack@ =~= seq![true]);
                    Some(Parsing::Nested(d, stack, Expect::FirstKey))
                },
                _ => match exec_assign(d, &k, t) {
                    Some(d2) => Some(Parsing::AfterMember(d2)),
                    None => None,
                },
            }
        },
        Parsing::AfterMember(d) => match t {
            Token::Comma => Some(Parsing::Key(d)),
            Token::CloseObject => match exec_complete(d) {
                Some(j) => {
                    push_joke(out, j);
                    Some(Parsing::AfterItem)
                },
                None => None,
            },
            _ => None,
        },
        Parsing::AfterItem => match t {
            Token::Comma => Some(Parsing::Item),
            Token::CloseArray => Some(Parsing::Done),
            _ => None,
        },
        Parsing::Done => None,
        Parsing::Nested(d, stack, ex) => exec_nested_step(d, stack, ex, t),
    }
}

fn parse_tokens(toks: &Vec<Token>) -> (r: Option<Vec<Joke>>)
    ensures
        match parse_from(toks_view(toks@), 0, ParseState::Start, Seq::empty()) {
            Some(js) => r is Some && jokes_view(r->0@) == js,
            None => r is None,
        },
{
    let ghost ts = toks_view(toks@);
    let mut st = Parsing::Start;
    let mut out: Vec<Joke> = Vec::new();
    assert(jokes_view(out@) =~= Seq::<JokeView>::empty());
    let mut k: usize = 0;
    while k < toks.len()
        invariant
            ts == toks_view(toks@),
            k <= toks.len(),
            st.wf(),
            parse_from(ts, 0, ParseState::Start, Seq::empty()) == parse_from(
                ts,
                k as int,
                st@,
                jokes_view(out@),
            ),
        decreases toks.len() - k,
    {
        assert(ts[k as int] == toks@[k as int]@);
        match exec_parse_step(st, &toks[k], &mut out) {
            Some(next) => {
                st = next;
            },
            None => {
                return None;
            },
        }
        k += 1;
    }
    match st {
        Parsing::Done => Some(out),
        _ => None,
    }
}

} // verus!

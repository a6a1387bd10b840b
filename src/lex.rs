use vstd::prelude::*;
use vstd::utf8::is_scalar;

verus! {

/// Integer magnitudes beyond this (2^63) lie outside `i64` whatever the sign.
pub const MAGNITUDE_LIMIT: u64 = 9223372036854775808;

/// A lexical token of a JSON text, as a mathematical value.
pub ghost enum Tok {
    OpenArray,
    CloseArray,
    OpenObject,
    CloseObject,
    Colon,
    Comma,
    Text(Seq<char>),
    /// A number without fraction or exponent: its value when that lies
    /// within `i64`, else `None`.
    Integer(Option<int>),
    /// A number with a fraction or an exponent.
    Fractional,
    Literal,
}

/// What the lexer is in the middle of, between two characters.
pub ghost enum LexState {
    Between,
    InText(Seq<char>),
    /// After a backslash in a string.
    Escape(Seq<char>),
    /// Within `\u`: the hex digits read so far and their value.
    Hex(Seq<char>, int, int),
    /// After a high surrogate: a `\` must follow.
    AwaitLow(Seq<char>, int),
    /// After a high surrogate and `\`: a `u` must follow.
    AwaitLowU(Seq<char>, int),
    /// Within the `\u` of a low surrogate, after the high surrogate.
    LowHex(Seq<char>, int, int, int),
    /// After a minus sign.
    NumSign,
    /// After a leading zero; true when negative.
    NumZero(bool),
    /// Within the digits of an integer part that does not start with zero:
    /// the sign, and the magnitude so far, or `None` once it passed the limit.
    NumInt(bool, Option<int>),
    FracStart,
    FracDigits,
    ExpStart,
    ExpSign,
    ExpDigits,
    InWord(Seq<char>),
}

pub open spec fn is_space(c: char) -> bool {
    c == ' ' || c == '\t' || c == '\n' || c == '\r'
}

pub open spec fn is_digit(c: char) -> bool {
    '0' <= c && c <= '9'
}

pub open spec fn digit_value(c: char) -> int {
    c as int - '0' as int
}

pub open spec fn is_letter(c: char) -> bool {
    'a' <= c && c <= 'z'
}

pub open spec fn hex_value(c: char) -> Option<int> {
    if '0' <= c && c <= '9' {
        Some(c as int - '0' as int)
    } else if 'a' <= c && c <= 'f' {
        Some(c as int - 'a' as int + 10)
    } else if 'A' <= c && c <= 'F' {
        Some(c as int - 'A' as int + 10)
    } else {
        None
    }
}

pub open spec fn is_high_surrogate(v: int) -> bool {
    0xD800 <= v && v <= 0xDBFF
}

pub open spec fn is_low_surrogate(v: int) -> bool {
    0xDC00 <= v && v <= 0xDFFF
}

/// The code point that a surrogate pair stands for.
pub open spec fn pair_value(high: int, low: int) -> int {
    0x10000 + (high - 0xD800) * 0x400 + (low - 0xDC00)
}

/// The character that a backslash followed by `c` stands for inside a
/// string (`\u` is read apart).
pub open spec fn unescape(c: char) -> Option<char> {
    if c == '"' {
        Some('"')
    } else if c == '\\' {
        Some('\\')
    } else if c == '/' {
        Some('/')
    } else if c == 'b' {
        Some('\x08')
    } else if c == 'f' {
        Some('\x0c')
    } else if c == 'n' {
        Some('\n')
    } else if c == 'r' {
        Some('\r')
    } else if c == 't' {
        Some('\t')
    } else {
        None
    }
}

/// The three bare words of JSON.
pub open spec fn is_literal_word(w: Seq<char>) -> bool {
    w == seq!['t', 'r', 'u', 'e'] || w == seq!['f', 'a', 'l', 's', 'e'] || w == seq![
        'n',
        'u',
        'l',
        'l',
    ]
}

/// The token for an integer with sign `negative` and magnitude `m`.
pub open spec fn integer_token(negative: bool, m: Option<int>) -> Tok {
    match m {
        Some(v) => {
            let x = if negative {
                -v
            } else {
                v
            };
            if i64::MIN <= x && x <= i64::MAX {
                Tok::Integer(Some(x))
            } else {
                Tok::Integer(None)
            }
        },
        None => Tok::Integer(None),
    }
}

/// The number token that ends in state `st`, if a number may end there.
pub open spec fn number_end(st: LexState) -> Option<Tok> {
    match st {
        LexState::NumZero(_) => Some(Tok::Integer(Some(0))),
        LexState::NumInt(negative, m) => Some(integer_token(negative, m)),
        LexState::FracDigits => Some(Tok::Fractional),
        LexState::ExpDigits => Some(Tok::Fractional),
        _ => None,
    }
}

/// Reads `c` where no token is under way.
pub open spec fn start_token(c: char, toks: Seq<Tok>) -> Option<(LexState, Seq<Tok>)> {
    if is_space(c) {
        Some((LexState::Between, toks))
    } else if c == '[' {
        Some((LexState::Between, toks.push(Tok::OpenArray)))
    } else if c == ']' {
        Some((LexState::Between, toks.push(Tok::CloseArray)))
    } else if c == '{' {
        Some((LexState::Between, toks.push(Tok::OpenObject)))
    } else if c == '}' {
        Some((LexState::Between, toks.push(Tok::CloseObject)))
    } else if c == ':' {
        Some((LexState::Between, toks.push(Tok::Colon)))
    } else if c == ',' {
        Some((LexState::Between, toks.push(Tok::Comma)))
    } else if c == '"' {
        Some((LexState::InText(Seq::empty()), toks))
    } else if c == '-' {
        Some((LexState::NumSign, toks))
    } else if c == '0' {
        Some((LexState::NumZero(false), toks))
    } else if is_digit(c) {
        Some((LexState::NumInt(false, Some(digit_value(c))), toks))
    } else if is_letter(c) {
        Some((LexState::InWord(seq![c]), toks))
    } else {
        None
    }
}

/// Reads `c` within a number in state `st`: the next state, or `None` when
/// `c` cannot continue the number.
pub open spec fn number_step(st: LexState, c: char) -> Option<LexState> {
    match st {
        LexState::NumSign => if c == '0' {
            Some(LexState::NumZero(true))
        } else if is_digit(c) {
            Some(LexState::NumInt(true, Some(digit_value(c))))
        } else {
            None
        },
        LexState::NumZero(_) => if c == '.' {
            Some(LexState::FracStart)
        } else if c == 'e' || c == 'E' {
            Some(LexState::ExpStart)
        } else {
            None
        },
        LexState::NumInt(negative, m) => if is_digit(c) {
            Some(
                LexState::NumInt(
                    negative,
                    match m {
                        Some(v) => if v * 10 + digit_value(c) > MAGNITUDE_LIMIT {
                            None
                        } else {
                            Some(v * 10 + digit_value(c))
                        },
                        None => None,
                    },
                ),
            )
        } else if c == '.' {
            Some(LexState::FracStart)
        } else if c == 'e' || c == 'E' {
            Some(LexState::ExpStart)
        } else {
            None
        },
        LexState::FracStart => if is_digit(c) {
            Some(LexState::FracDigits)
        } else {
            None
        },
        LexState::FracDigits => if is_digit(c) {
            Some(LexState::FracDigits)
        } else if c == 'e' || c == 'E' {
            Some(LexState::ExpStart)
        } else {
            None
        },
        LexState::ExpStart => if c == '+' || c == '-' {
            Some(LexState::ExpSign)
        } else if is_digit(c) {
            Some(LexState::ExpDigits)
        } else {
            None
        },
        LexState::ExpSign => if is_digit(c) {
            Some(LexState::ExpDigits)
        } else {
            None
        },
        LexState::ExpDigits => if is_digit(c) {
            Some(LexState::ExpDigits)
        } else {
            None
        },
        _ => None,
    }
}

pub open spec fn is_number_state(st: LexState) -> bool {
    st is NumSign || st is NumZero || st is NumInt || st is FracStart || st is FracDigits
        || st is ExpStart || st is ExpSign || st is ExpDigits
}

/// Reads one character `c` in state `st`, with `toks` lexed so far.
pub open spec fn step(st: LexState, c: char, toks: Seq<Tok>) -> Option<(LexState, Seq<Tok>)> {
    match st {
        LexState::Between => start_token(c, toks),
        LexState::InText(acc) => {
            if c == '"' {
                Some((LexState::Between, toks.push(Tok::Text(acc))))
            } else if c == '\\' {
                Some((LexState::Escape(acc), toks))
            } else if (c as u32) < 32 {
                None
            } else {
                Some((LexState::InText(acc.push(c)), toks))
            }
        },
        LexState::Escape(acc) => if c == 'u' {
            Some((LexState::Hex(acc, 0, 0), toks))
        } else {
            match unescape(c) {
                Some(e) => Some((LexState::InText(acc.push(e)), toks)),
                None => None,
            }
        },
        LexState::Hex(acc, n, v) => match hex_value(c) {
            Some(h) => {
                let w = v * 16 + h;
                if n + 1 < 4 {
                    Some((LexState::Hex(acc, n + 1, w), toks))
                } else if is_high_surrogate(w) {
                    Some((LexState::AwaitLow(acc, w), toks))
                } else if is_low_surrogate(w) {
                    None
                } else {
                    Some((LexState::InText(acc.push((w as u32) as char)), toks))
                }
            },
            None => None,
        },
        LexState::AwaitLow(acc, high) => if c == '\\' {
            Some((LexState::AwaitLowU(acc, high), toks))
        } else {
            None
        },
        LexState::AwaitLowU(acc, high) => if c == 'u' {
            Some((LexState::LowHex(acc, high, 0, 0), toks))
        } else {
            None
        },
        LexState::LowHex(acc, high, n, v) => match hex_value(c) {
            Some(h) => {
                let w = v * 16 + h;
                if n + 1 < 4 {
                    Some((LexState::LowHex(acc, high, n + 1, w), toks))
                } else if is_low_surrogate(w) {
                    Some(
                        (LexState::InText(acc.push((pair_value(high, w) as u32) as char)), toks),
                    )
                } else {
                    None
                }
            },
            None => None,
        },
        LexState::InWord(w) => {
            if is_letter(c) {
                Some((LexState::InWord(w.push(c)), toks))
            } else if is_literal_word(w) {
                start_token(c, toks.push(Tok::Literal))
            } else {
                None
            }
        },
        _ => match number_step(st, c) {
            Some(next) => Some((next, toks)),
            None => match number_end(st) {
                Some(t) => start_token(c, toks.push(t)),
                None => None,
            },
        },
    }
}

/// Ends the text in state `st`.
pub open spec fn finish(st: LexState, toks: Seq<Tok>) -> Option<Seq<Tok>> {
    match st {
        LexState::Between => Some(toks),
        LexState::InWord(w) => {
            if is_literal_word(w) {
                Some(toks.push(Tok::Literal))
            } else {
                None
            }
        },
        _ => match number_end(st) {
            Some(t) => Some(toks.push(t)),
            None => None,
        },
    }
}

pub open spec fn lex_from(s: Seq<char>, i: int, st: LexState, toks: Seq<Tok>) -> Option<Seq<Tok>>
    decreases s.len() - i,
{
    if i < 0 || i >= s.len() {
        finish(st, toks)
    } else {
        match step(st, s[i], toks) {
            Some((next, ts)) => lex_from(s, i + 1, next, ts),
            None => None,
        }
    }
}

/// The tokens of the text `s`, or `None` when `s` is not made of JSON
/// tokens.
pub open spec fn lex(s: Seq<char>) -> Option<Seq<Tok>> {
    lex_from(s, 0, LexState::Between, Seq::empty())
}

/// A lexical token of a JSON text.
pub enum Token {
    OpenArray,
    CloseArray,
    OpenObject,
    CloseObject,
    Colon,
    Comma,
    Text(String),
    Integer(Option<i64>),
    Fractional,
    Literal,
}

impl View for Token {
    type V = Tok;

    open spec fn view(&self) -> Tok {
        match self {
            Token::OpenArray => Tok::OpenArray,
            Token::CloseArray => Tok::CloseArray,
            Token::OpenObject => Tok::OpenObject,
            Token::CloseObject => Tok::CloseObject,
            Token::Colon => Tok::Colon,
            Token::Comma => Tok::Comma,
            Token::Text(s) => Tok::Text(s@),
            Token::Integer(n) => Tok::Integer(
                match n {
                    Some(v) => Some(*v as int),
                    None => None,
                },
            ),
            Token::Fractional => Tok::Fractional,
            Token::Literal => Tok::Literal,
        }
    }
}

pub open spec fn toks_view(v: Seq<Token>) -> Seq<Tok> {
    v.map_values(|t: Token| t@)
}

enum Lexing {
    Between,
    InText(String),
    Escape(String),
    Hex(String, u32, u32),
    AwaitLow(String, u32),
    AwaitLowU(String, u32),
    LowHex(String, u32, u32, u32),
    NumSign,
    NumZero(bool),
    NumInt(bool, Option<u64>),
    FracStart,
    FracDigits,
    ExpStart,
    ExpSign,
    ExpDigits,
    InWord(Vec<char>),
}

/// The value of `n` hex digits stays below 16 to the power `n`.
spec fn hex_bound(n: u32, v: u32) -> bool {
    n < 4 && (n == 0 ==> v == 0) && (n == 1 ==> v < 16) && (n == 2 ==> v < 256) && (n == 3
        ==> v < 4096)
}

impl Lexing {
    spec fn wf(&self) -> bool {
        match self {
            Lexing::Hex(_, n, v) => hex_bound(*n, *v),
            Lexing::AwaitLow(_, h) => is_high_surrogate(*h as int),
            Lexing::AwaitLowU(_, h) => is_high_surrogate(*h as int),
            Lexing::LowHex(_, h, n, v) => is_high_surrogate(*h as int) && hex_bound(*n, *v),
            Lexing::NumInt(_, Some(m)) => *m <= MAGNITUDE_LIMIT,
            _ => true,
        }
    }
}

impl View for Lexing {
    type V = LexState;

    closed spec fn view(&self) -> LexState {
        match self {
            Lexing::Between => LexState::Between,
            Lexing::InText(s) => LexState::InText(s@),
            Lexing::Escape(s) => LexState::Escape(s@),
            Lexing::Hex(s, n, v) => LexState::Hex(s@, *n as int, *v as int),
            Lexing::AwaitLow(s, h) => LexState::AwaitLow(s@, *h as int),
            Lexing::AwaitLowU(s, h) => LexState::AwaitLowU(s@, *h as int),
            Lexing::LowHex(s, h, n, v) => LexState::LowHex(s@, *h as int, *n as int, *v as int),
            Lexing::NumSign => LexState::NumSign,
            Lexing::NumZero(neg) => LexState::NumZero(*neg),
            Lexing::NumInt(neg, m) => LexState::NumInt(
                *neg,
                match m {
                    Some(v) => Some(*v as int),
                    None => None,
                },
            ),
            Lexing::FracStart => LexState::FracStart,
            Lexing::FracDigits => LexState::FracDigits,
            Lexing::ExpStart => LexState::ExpStart,
            Lexing::ExpSign => LexState::ExpSign,
            Lexing::ExpDigits => LexState::ExpDigits,
            Lexing::InWord(w) => LexState::InWord(w@),
        }
    }
}

/// Relies on `String::push`: appends one character.
#[verifier::external_body]
fn push_char(s: &mut String, c: char)
    ensures
        final(s)@ == old(s)@.push(c),
{
    s.push(c);
}

/// Relies on `char::from_u32`: the character of code point `v` exactly when
/// `v` is a Unicode scalar value, else `None`.
#[verifier::external_body]
fn char_from_u32(v: u32) -> (r: Option<char>)
    ensures
        is_scalar(v) ==> r == Some(v as char),
        !is_scalar(v) ==> r is None,
{
    char::from_u32(v)
}

fn push_token(toks: &mut Vec<Token>, t: Token)
    ensures
        toks_view(final(toks)@) == toks_view(old(toks)@).push(t@),
{
    toks.push(t);
    assert(toks_view(toks@) =~= toks_view(old(toks)@).push(t@));
}

fn exec_start_token(c: char, toks: &mut Vec<Token>) -> (r: Option<Lexing>)
    ensures
        match start_token(c, toks_view(old(toks)@)) {
            Some((st, ts)) => r is Some && r->0@ == st && r->0.wf() && toks_view(final(toks)@)
                == ts,
            None => r is None,
        },
{
    if c == ' ' || c == '\t' || c == '\n' || c == '\r' {
        Some(Lexing::Between)
    } else if c == '[' {
        push_token(toks, Token::OpenArray);
        Some(Lexing::Between)
    } else if c == ']' {
        push_token(toks, Token::CloseArray);
        Some(Lexing::Between)
    } else if c == '{' {
        push_token(toks, Token::OpenObject);
        Some(Lexing::Between)
    } else if c == '}' {
        push_token(toks, Token::CloseObject);
        Some(Lexing::Between)
    } else if c == ':' {
        push_token(toks, Token::Colon);
        Some(Lexing::Between)
    } else if c == ',' {
        push_token(toks, Token::Comma);
        Some(Lexing::Between)
    } else if c == '"' {
        Some(Lexing::InText(String::new()))
    } else if c == '-' {
        Some(Lexing::NumSign)
    } else if c == '0' {
        Some(Lexing::NumZero(false))
    } else if '0' <= c && c <= '9' {
        Some(Lexing::NumInt(false, Some((c as u32 - '0' as u32) as u64)))
    } else if 'a' <= c && c <= 'z' {
        let mut w: Vec<char> = Vec::new();
        w.push(c);
        assert(w@ =~= seq![c]);
        Some(Lexing::InWord(w))
    } else {
        None
    }
}

fn exec_is_literal_word(w: &Vec<char>) -> (r: bool)
    ensures
        r == is_literal_word(w@),
{
    let n = w.len();
    let r = if n == 4 {
        (w[0] == 't' && w[1] == 'r' && w[2] == 'u' && w[3] == 'e') || (w[0] == 'n' && w[1] == 'u'
            && w[2] == 'l' && w[3] == 'l')
    } else if n == 5 {
        w[0] == 'f' && w[1] == 'a' && w[2] == 'l' && w[3] == 's' && w[4] == 'e'
    } else {
        false
    };
    if r {
        if n == 4 && w[0] == 't' {
            assert(w@ =~= seq!['t', 'r', 'u', 'e']);
        } else if n == 4 {
            assert(w@ =~= seq!['n', 'u', 'l', 'l']);
        } else {
            assert(w@ =~= seq!['f', 'a', 'l', 's', 'e']);
        }
    }
    r
}

fn exec_unescape(c: char) -> (r: Option<char>)
    ensures
        r == unescape(c),
{
    if c == '"' {
        Some('"')
    } else if c == '\\' {
        Some('\\')
    } else if c == '/' {
        Some('/')
    } else if c == 'b' {
        Some('\x08')
    } else if c == 'f' {
        Some('\x0c')
    } else if c == 'n' {
        Some('\n')
    } else if c == 'r' {
        Some('\r')
    } else if c == 't' {
        Some('\t')
    } else {
        None
    }
}

fn exec_hex_value(c: char) -> (r: Option<u32>)
    ensures
        match hex_value(c) {
            Some(h) => r is Some && r->0 as int == h && r->0 < 16,
            None => r is None,
        },
{
    if '0' <= c && c <= '9' {
        Some(c as u32 - '0' as u32)
    } else if 'a' <= c && c <= 'f' {
        Some(c as u32 - 'a' as u32 + 10)
    } else if 'A' <= c && c <= 'F' {
        Some(c as u32 - 'A' as u32 + 10)
    } else {
        None
    }
}

fn exec_number_step(st: &Lexing, c: char) -> (r: Option<Lexing>)
    requires
        st.wf(),
    ensures
        match number_step(st@, c) {
            Some(next) => r is Some && r->0@ == next && r->0.wf(),
            None => r is None,
        },
{
    let digit = '0' <= c && c <= '9';
    let exponent = c == 'e' || c == 'E';
    match st {
        Lexing::NumSign => if c == '0' {
            Some(Lexing::NumZero(true))
        } else if digit {
            Some(Lexing::NumInt(true, Some((c as u32 - '0' as u32) as u64)))
        } else {
            None
        },
        Lexing::NumZero(_) => if c == '.' {
            Some(Lexing::FracStart)
        } else if exponent {
            Some(Lexing::ExpStart)
        } else {
            None
        },
        Lexing::NumInt(negative, m) => if digit {
            let next = match m {
                Some(v) => {
                    let w: u128 = (*v as u128) * 10 + (c as u32 - '0' as u32) as u128;
                    if w > MAGNITUDE_LIMIT as u128 {
                        None
                    } else {
                        Some(w as u64)
                    }
                },
                None => None,
            };
            Some(Lexing::NumInt(*negative, next))
        } else if c == '.' {
            Some(Lexing::FracStart)
        } else if exponent {
            Some(Lexing::ExpStart)
        } else {
            None
        },
        Lexing::FracStart => if digit {
            Some(Lexing::FracDigits)
        } else {
            None
        },
        Lexing::FracDigits => if digit {
            Some(Lexing::FracDigits)
        } else if exponent {
            Some(Lexing::ExpStart)
        } else {
            None
        },
        Lexing::ExpStart => if c == '+' || c == '-' {
            Some(Lexing::ExpSign)
        } else if digit {
            Some(Lexing::ExpDigits)
        } else {
            None
        },
        Lexing::ExpSign => if digit {
            Some(Lexing::ExpDigits)
        } else {
            None
        },
        Lexing::ExpDigits => if digit {
            Some(Lexing::ExpDigits)
        } else {
            None
        },
        _ => None,
    }
}

fn exec_number_end(st: &Lexing) -> (r: Option<Token>)
    requires
        st.wf(),
    ensures
        match number_end(st@) {
            Some(t) => r is Some && r->0@ == t,
            None => r is None,
        },
{
    match st {
        Lexing::NumZero(_) => Some(Token::Integer(Some(0))),
        Lexing::NumInt(negative, m) => match m {
            Some(v) => {
                let x: i128 = if *negative {
                    -(*v as i128)
                } else {
                    *v as i128
                };
                if i64::MIN as i128 <= x && x <= i64::MAX as i128 {
                    Some(Token::Integer(Some(x as i64)))
                } else {
                    Some(Token::Integer(None))
                }
            },
            None => Some(Token::Integer(None)),
        },
        Lexing::FracDigits => Some(Token::Fractional),
        Lexing::ExpDigits => Some(Token::Fractional),
        _ => None,
    }
}

/// Reads character `c`.
fn exec_step(st: Lexing, c: char, toks: &mut Vec<Token>) -> (r: Option<Lexing>)
    requires
        st.wf(),
    ensures
        match step(st@, c, toks_view(old(toks)@)) {
            Some((next, ts)) => r is Some && r->0@ == next && r->0.wf() && toks_view(final(toks)@)
                == ts,
            None => r is None,
        },
{
    match st {
        Lexing::Between => exec_start_token(c, toks),
        Lexing::InText(mut acc) => {
            if c == '"' {
                push_token(toks, Token::Text(acc));
                Some(Lexing::Between)
            } else if c == '\\' {
                Some(Lexing::Escape(acc))
            } else if (c as u32) < 32 {
                None
            } else {
                push_char(&mut acc, c);
                Some(Lexing::InText(acc))
            }
        },
        Lexing::Escape(mut acc) => if c == 'u' {
            Some(Lexing::Hex(acc, 0, 0))
        } else {
            match exec_unescape(c) {
                Some(e) => {
                    push_char(&mut acc, e);
                    Some(Lexing::InText(acc))
                },
                None => None,
            }
        },
        Lexing::Hex(mut acc, n, v) => match exec_hex_value(c) {
            Some(h) => {
                let w = v * 16 + h;
                if n + 1 < 4 {
                    Some(Lexing::Hex(acc, n + 1, w))
                } else if 0xD800 <= w && w <= 0xDBFF {
                    Some(Lexing::AwaitLow(acc, w))
                } else if 0xDC00 <= w && w <= 0xDFFF {
                    None
                } else {
                    assert(is_scalar(w));
                    match char_from_u32(w) {
                        Some(ch) => {
                            push_char(&mut acc, ch);
                            Some(Lexing::InText(acc))
                        },
                        None => None,
                    }
                }
            },
            None => None,
        },
        Lexing::AwaitLow(acc, high) => if c == '\\' {
            Some(Lexing::AwaitLowU(acc, high))
        } else {
            None
        },
        Lexing::AwaitLowU(acc, high) => if c == 'u' {
            Some(Lexing::LowHex(acc, high, 0, 0))
        } else {
            None
        },
        Lexing::LowHex(mut acc, high, n, v) => match exec_hex_value(c) {
            Some(h) => {
                let w = v * 16 + h;
                if n + 1 < 4 {
                    Some(Lexing::LowHex(acc, high, n + 1, w))
                } else if 0xDC00 <= w && w <= 0xDFFF {
                    let code: u32 = 0x10000 + (high - 0xD800) * 0x400 + (w - 0xDC00);
                    assert(code as int == pair_value(high as int, w as int));
                    assert(is_scalar(code));
                    match char_from_u32(code) {
                        Some(ch) => {
                            push_char(&mut acc, ch);
                            Some(Lexing::InText(acc))
                        },
                        None => None,
                    }
                } else {
                    None
                }
            },
            None => None,
        },
        Lexing::InWord(mut w) => {
            if 'a' <= c && c <= 'z' {
                w.push(c);
                Some(Lexing::InWord(w))
            } else if exec_is_literal_word(&w) {
                push_token(toks, Token::Literal);
                exec_start_token(c, toks)
            } else {
                None
            }
        },
        other => match exec_number_step(&other, c) {
            Some(next) => Some(next),
            None => match exec_number_end(&other) {
                Some(t) => {
                    push_token(toks, t);
                    exec_start_token(c, toks)
                },
                None => None,
            },
        },
    }
}

fn exec_finish(st: Lexing, toks: &mut Vec<Token>) -> (r: bool)
    requires
        st.wf(),
    ensures
        match finish(st@, toks_view(old(toks)@)) {
            Some(ts) => r && toks_view(final(toks)@) == ts,
            None => !r,
        },
{
    match st {
        Lexing::Between => true,
        Lexing::InWord(w) => {
            if exec_is_literal_word(&w) {
                push_token(toks, Token::Literal);
                true
            } else {
                false
            }
        },
        other => match exec_number_end(&other) {
            Some(t) => {
                push_token(toks, t);
                true
            },
            None => false,
        },
    }
}

/// Splits `body` into JSON tokens.
///
/// Characters are read by position, so the work grows with the square of the
/// body's length; a reply of the service is a few hundred characters.
pub fn tokenize(body: &str) -> (r: Option<Vec<Token>>)
    ensures
        match lex(body@) {
            Some(ts) => r is Some && toks_view(r->0@) == ts,
            None => r is None,
        },
{
    let n = body.unicode_len();
    let mut st = Lexing::Between;
    let mut toks: Vec<Token> = Vec::new();
    assert(toks_view(toks@) =~= Seq::<Tok>::empty());
    let mut i: usize = 0;
    while i < n
        invariant
            n == body@.len(),
            i <= n,
            st.wf(),
            lex(body@) == lex_from(body@, i as int, st@, toks_view(toks@)),
        decreases n - i,
    {
        let c = body.get_char(i);
        match exec_step(st, c, &mut toks) {
            Some(next) => {
                st = next;
            },
            None => {
                return None;
            },
        }
        i += 1;
    }
    if exec_finish(st, &mut toks) {
        Some(toks)
    } else {
        None
    }
}

} // verus!

use vstd::prelude::*;

verus! {

/// Punctuation that the declaration language distinguishes.
#[derive(Clone, Copy, Debug, PartialEq, Eq, Structural)]
pub enum Punct {
    Amp,
    Star,
    Colon,
    PathSep,
    Dot,
    Comma,
    Semi,
    Arrow,
    OpenParen,
    CloseParen,
    OpenBrace,
    CloseBrace,
    OpenBracket,
    CloseBracket,
    Lt,
    Gt,
}

/// One token of a declaration block, as handed over by the host lexer.
/// Keywords such as `self`, `mut` and `class` arrive as identifiers.
#[derive(Clone, Debug)]
pub enum Token {
    Ident(String),
    /// A lifetime, written with its leading quote (`'a`).
    Lifetime(String),
    Punct(Punct),
    /// Any other token (a literal, another operator), with its text.
    Other(String),
}

pub open spec fn punct_at(t: Seq<Token>, i: int, p: Punct) -> bool {
    0 <= i < t.len() && t[i] == Token::Punct(p)
}

pub open spec fn word_at(t: Seq<Token>, i: int, w: Seq<char>) -> bool {
    0 <= i < t.len() && match t[i] {
        Token::Ident(s) => s@ == w,
        _ => false,
    }
}

pub open spec fn ident_at(t: Seq<Token>, i: int) -> bool {
    0 <= i < t.len() && t[i] is Ident
}

pub open spec fn lifetime_at(t: Seq<Token>, i: int) -> bool {
    0 <= i < t.len() && t[i] is Lifetime
}

/// The text of an identifier or lifetime token.
pub open spec fn text_at(t: Seq<Token>, i: int) -> Seq<char> {
    match t[i] {
        Token::Ident(s) => s@,
        Token::Lifetime(s) => s@,
        Token::Other(s) => s@,
        Token::Punct(_) => Seq::empty(),
    }
}

/// A token sequence always has a length that fits in `usize`.
pub proof fn lemma_tokens_fit(toks: &Vec<Token>)
    ensures
        toks@.len() <= usize::MAX,
{
    assert(toks@.len() == toks.len());
}

/// The token at `i` is a literal or identifier that can stand as an array length.
pub open spec fn length_at(t: Seq<Token>, i: int) -> bool {
    0 <= i < t.len() && (t[i] is Ident || t[i] is Other)
}

pub fn check_length(toks: &Vec<Token>, i: usize) -> (r: bool)
    ensures
        r == length_at(toks@, i as int),
{
    i < toks.len() && match &toks[i] {
        Token::Ident(_) => true,
        Token::Other(_) => true,
        _ => false,
    }
}

pub fn check_punct(toks: &Vec<Token>, i: usize, p: Punct) -> (r: bool)
    ensures
        r == punct_at(toks@, i as int, p),
{
    if i < toks.len() {
        match &toks[i] {
            Token::Punct(q) => *q == p,
            _ => false,
        }
    } else {
        false
    }
}

pub fn check_word(toks: &Vec<Token>, i: usize, w: &str) -> (r: bool)
    ensures
        r == word_at(toks@, i as int, w@),
{
    if i < toks.len() {
        match &toks[i] {
            Token::Ident(s) => *s == w.to_owned(),
            _ => false,
        }
    } else {
        false
    }
}

pub fn check_ident(toks: &Vec<Token>, i: usize) -> (r: bool)
    ensures
        r == ident_at(toks@, i as int),
{
    i < toks.len() && match &toks[i] {
        Token::Ident(_) => true,
        _ => false,
    }
}

pub fn check_lifetime(toks: &Vec<Token>, i: usize) -> (r: bool)
    ensures
        r == lifetime_at(toks@, i as int),
{
    i < toks.len() && match &toks[i] {
        Token::Lifetime(_) => true,
        _ => false,
    }
}

/// A copy of the text of the identifier or lifetime at `i`.
pub fn token_text(toks: &Vec<Token>, i: usize) -> (r: String)
    requires
        i < toks@.len(),
    ensures
        r@ == text_at(toks@, i as int),
{
    match &toks[i] {
        Token::Ident(s) => s.clone(),
        Token::Lifetime(s) => s.clone(),
        Token::Other(s) => s.clone(),
        Token::Punct(_) => String::new(),
    }
}

} // verus!

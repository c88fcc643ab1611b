//! The tokenizer: template source text to a token stream.
//!
//! Identifiers and string literal contents are kept as spans into the
//! source. A string literal runs from `"` to the next `"` with no escape
//! sequences. `lex` is the specification; `tokenize` is verified against it.

use crate::ast::Span;
use crate::ast::span_text;
use vstd::prelude::*;

verus! {

/// A parse error, tagged with the character offset (from the tokenizer) or
/// the token index (from the parser) where the input stopped making sense.
#[derive(Clone, Copy, PartialEq, Eq, Structural, Debug)]
pub struct ParseError {
    pub at: usize,
}

/// One token.
#[derive(Clone, Copy, PartialEq, Eq, Structural, Debug)]
pub enum Tok {
    /// An identifier that is not a keyword.
    Ident(Span),
    /// A string literal's contents, without the quotes.
    Str(Span),
    /// An integer literal.
    Int(u64),
    KwIf,
    KwElse,
    KwFor,
    KwIn,
    KwMatch,
    KwLet,
    KwTrue,
    KwFalse,
    Hash,
    Dot,
    Dollar,
    At,
    LBrace,
    RBrace,
    LBrack,
    RBrack,
    LParen,
    RParen,
    Semi,
    Comma,
    EqSign,
    EqEq,
    NotEq,
    FatArrow,
    Pipe,
    Plus,
    Minus,
    Star,
    Lt,
    Gt,
    Colon,
    Under,
}

/// Whitespace.
pub open spec fn is_ws(c: char) -> bool {
    c == ' ' || c == '\n' || c == '\t' || c == '\r'
}

/// A decimal digit.
pub open spec fn is_digit(c: char) -> bool {
    48 <= c as u32 <= 57
}

/// A character that may start an identifier.
pub open spec fn is_ident_start(c: char) -> bool {
    (65 <= c as u32 <= 90) || (97 <= c as u32 <= 122) || c as u32 == 95
}

/// A character that may continue an identifier.
pub open spec fn is_ident_char(c: char) -> bool {
    is_ident_start(c) || is_digit(c)
}

/// The first index at or after `i` that does not continue an identifier.
pub open spec fn scan_ident(src: Seq<char>, i: int) -> int
    decreases src.len() - i,
{
    if i < 0 || i >= src.len() || !is_ident_char(src[i]) {
        i
    } else {
        scan_ident(src, i + 1)
    }
}

/// `scan_ident` stays within the source.
pub proof fn lemma_scan_ident_bounds(src: Seq<char>, i: int)
    requires
        0 <= i <= src.len(),
    ensures
        i <= scan_ident(src, i) <= src.len(),
    decreases src.len() - i,
{
    if i < src.len() && is_ident_char(src[i]) {
        lemma_scan_ident_bounds(src, i + 1);
    }
}

/// The index of the next `"` at or after `i`, if any.
pub open spec fn scan_str(src: Seq<char>, i: int) -> Option<int>
    decreases src.len() - i,
{
    if i < 0 || i >= src.len() {
        None
    } else if src[i] == '"' {
        Some(i)
    } else {
        scan_str(src, i + 1)
    }
}

/// A found closing quote lies within the source.
pub proof fn lemma_scan_str_bounds(src: Seq<char>, i: int)
    requires
        0 <= i <= src.len(),
    ensures
        match scan_str(src, i) {
            Some(j) => i <= j < src.len(),
            None => true,
        },
    decreases src.len() - i,
{
    if i < src.len() && src[i] != '"' {
        lemma_scan_str_bounds(src, i + 1);
    }
}

/// Folds decimal digits from `i` into `acc`; fails at the digit that would
/// overflow.
pub open spec fn scan_int(src: Seq<char>, i: int, acc: u64) -> Result<(u64, int), int>
    decreases src.len() - i,
{
    if i < 0 || i >= src.len() || !is_digit(src[i]) {
        Ok((acc, i))
    } else {
        let d = (src[i] as u32 - 48) as u64;
        if acc > (u64::MAX - d) / 10 {
            Err(i)
        } else {
            scan_int(src, i + 1, (acc * 10 + d) as u64)
        }
    }
}

/// A successful digit scan stays within the source and, on a digit, advances.
pub proof fn lemma_scan_int_bounds(src: Seq<char>, i: int, acc: u64)
    requires
        0 <= i <= src.len(),
    ensures
        match scan_int(src, i, acc) {
            Ok((_, j)) => i <= j <= src.len() && (i < src.len() && is_digit(src[i]) ==> i < j),
            Err(_) => true,
        },
    decreases src.len() - i,
{
    if i < src.len() && is_digit(src[i]) {
        let d = (src[i] as u32 - 48) as u64;
        if acc <= (u64::MAX - d) / 10 {
            lemma_scan_int_bounds(src, i + 1, (acc * 10 + d) as u64);
        }
    }
}

/// The token an identifier span stands for: a keyword or a plain identifier.
pub open spec fn classify(src: Seq<char>, sp: Span) -> Tok {
    let t = span_text(src, sp);
    if t == "if"@ {
        Tok::KwIf
    } else if t == "else"@ {
        Tok::KwElse
    } else if t == "for"@ {
        Tok::KwFor
    } else if t == "in"@ {
        Tok::KwIn
    } else if t == "match"@ {
        Tok::KwMatch
    } else if t == "let"@ {
        Tok::KwLet
    } else if t == "true"@ {
        Tok::KwTrue
    } else if t == "false"@ {
        Tok::KwFalse
    } else if t == "_"@ {
        Tok::Under
    } else {
        Tok::Ident(sp)
    }
}

/// The token stream of `src[i..]`, or the offset of the first bad character.
pub open spec fn lex(src: Seq<char>, i: int) -> Result<Seq<Tok>, int>
    decreases src.len() - i,
    via lex_dec
{
    if i < 0 {
        Err(0)
    } else if i >= src.len() {
        Ok(Seq::empty())
    } else {
        let c = src[i];
        if is_ws(c) {
            lex(src, i + 1)
        } else if is_ident_start(c) {
            let j = scan_ident(src, i + 1);
            let t = classify(src, Span { lo: i as usize, hi: j as usize });
            match lex(src, j) {
                Ok(ts) => Ok(seq![t] + ts),
                Err(e) => Err(e),
            }
        } else if is_digit(c) {
            match scan_int(src, i, 0) {
                Ok((v, j)) => match lex(src, j) {
                    Ok(ts) => Ok(seq![Tok::Int(v)] + ts),
                    Err(e) => Err(e),
                },
                Err(e) => Err(e),
            }
        } else if c == '"' {
            match scan_str(src, i + 1) {
                Some(j) => match lex(src, j + 1) {
                    Ok(ts) => Ok(seq![Tok::Str(Span { lo: (i + 1) as usize, hi: j as usize })] + ts),
                    Err(e) => Err(e),
                },
                None => Err(i),
            }
        } else if c == '=' {
            if i + 1 < src.len() && src[i + 1] == '=' {
                match lex(src, i + 2) {
                    Ok(ts) => Ok(seq![Tok::EqEq] + ts),
                    Err(e) => Err(e),
                }
            } else if i + 1 < src.len() && src[i + 1] == '>' {
                match lex(src, i + 2) {
                    Ok(ts) => Ok(seq![Tok::FatArrow] + ts),
                    Err(e) => Err(e),
                }
            } else {
                match lex(src, i + 1) {
                    Ok(ts) => Ok(seq![Tok::EqSign] + ts),
                    Err(e) => Err(e),
                }
            }
        } else if c == '!' {
            if i + 1 < src.len() && src[i + 1] == '=' {
                match lex(src, i + 2) {
                    Ok(ts) => Ok(seq![Tok::NotEq] + ts),
                    Err(e) => Err(e),
                }
            } else {
                Err(i)
            }
        } else {
            let t = if c == '#' {
                Some(Tok::Hash)
            } else if c == '.' {
                Some(Tok::Dot)
            } else if c == '$' {
                Some(Tok::Dollar)
            } else if c == '@' {
                Some(Tok::At)
            } else if c == '{' {
                Some(Tok::LBrace)
            } else if c == '}' {
                Some(Tok::RBrace)
            } else if c == '[' {
                Some(Tok::LBrack)
            } else if c == ']' {
                Some(Tok::RBrack)
            } else if c == '(' {
                Some(Tok::LParen)
            } else if c == ')' {
                Some(Tok::RParen)
            } else if c == ';' {
                Some(Tok::Semi)
            } else if c == ',' {
                Some(Tok::Comma)
            } else if c == '|' {
                Some(Tok::Pipe)
            } else if c == '+' {
                Some(Tok::Plus)
            } else if c == '-' {
                Some(Tok::Minus)
            } else if c == '*' {
                Some(Tok::Star)
            } else if c == '<' {
                Some(Tok::Lt)
            } else if c == '>' {
                Some(Tok::Gt)
            } else if c == ':' {
                Some(Tok::Colon)
            } else {
                None
            };
            match t {
                Some(tok) => match lex(src, i + 1) {
                    Ok(ts) => Ok(seq![tok] + ts),
                    Err(e) => Err(e),
                },
                None => Err(i),
            }
        }
    }
}

#[via_fn]
proof fn lex_dec(src: Seq<char>, i: int) {
    if 0 <= i < src.len() {
        let c = src[i];
        if is_ident_start(c) {
            lemma_scan_ident_bounds(src, i + 1);
        }
        if is_digit(c) {
            lemma_scan_int_bounds(src, i, 0);
        }
        if c == '"' {
            lemma_scan_str_bounds(src, i + 1);
        }
    }
}

/// Executable identifier scan.
fn scan_ident_x(src: &Vec<char>, i: usize) -> (j: usize)
    requires
        i <= src.len(),
    ensures
        j == scan_ident(src@, i as int),
        i <= j <= src.len(),
    decreases src.len() - i,
{
    proof {
        lemma_scan_ident_bounds(src@, i as int);
    }
    if i < src.len() {
        let c = src[i];
        let ic = (65 <= c as u32 && c as u32 <= 90) || (97 <= c as u32 && c as u32 <= 122) || c
            as u32 == 95 || (48 <= c as u32 && c as u32 <= 57);
        if ic {
            scan_ident_x(src, i + 1)
        } else {
            i
        }
    } else {
        i
    }
}

/// Executable closing-quote scan.
fn scan_str_x(src: &Vec<char>, i: usize) -> (r: Option<usize>)
    requires
        i <= src.len(),
    ensures
        match r {
            Some(j) => scan_str(src@, i as int) == Some(j as int) && i <= j < src.len(),
            None => scan_str(src@, i as int) is None,
        },
    decreases src.len() - i,
{
    if i < src.len() {
        if src[i] == '"' {
            Some(i)
        } else {
            scan_str_x(src, i + 1)
        }
    } else {
        None
    }
}

/// Executable digit fold.
fn scan_int_x(src: &Vec<char>, i: usize, acc: u64) -> (r: Result<(u64, usize), ParseError>)
    requires
        i <= src.len(),
    ensures
        match r {
            Ok((v, j)) => scan_int(src@, i as int, acc) == Ok::<(u64, int), int>((v, j as int)) && i
                <= j <= src.len(),
            Err(e) => scan_int(src@, i as int, acc) == Err::<(u64, int), int>(e.at as int),
        },
    decreases src.len() - i,
{
    if i < src.len() {
        let c = src[i];
        if 48 <= c as u32 && c as u32 <= 57 {
            let d: u64 = (c as u32 - 48) as u64;
            if acc > (u64::MAX - d) / 10 {
                Err(ParseError { at: i })
            } else {
                scan_int_x(src, i + 1, acc * 10 + d)
            }
        } else {
            Ok((acc, i))
        }
    } else {
        Ok((acc, i))
    }
}

/// Executable keyword classification.
fn classify_x(src: &Vec<char>, sp: Span) -> (t: Tok)
    ensures
        t == classify(src@, sp),
{
    let s = crate::eval::span_to_string(src, sp);
    if s == String::from_str("if") {
        Tok::KwIf
    } else if s == String::from_str("else") {
        Tok::KwElse
    } else if s == String::from_str("for") {
        Tok::KwFor
    } else if s == String::from_str("in") {
        Tok::KwIn
    } else if s == String::from_str("match") {
        Tok::KwMatch
    } else if s == String::from_str("let") {
        Tok::KwLet
    } else if s == String::from_str("true") {
        Tok::KwTrue
    } else if s == String::from_str("false") {
        Tok::KwFalse
    } else if s == String::from_str("_") {
        Tok::Under
    } else {
        Tok::Ident(sp)
    }
}

/// Appends the tokens of `src[i..]`.
fn lex_into(src: &Vec<char>, i: usize, out: &mut Vec<Tok>) -> (r: Result<(), ParseError>)
    requires
        i <= src.len(),
    ensures
        match r {
            Ok(()) => match lex(src@, i as int) {
                Ok(ts) => final(out)@ == old(out)@ + ts,
                Err(_) => false,
            },
            Err(e) => lex(src@, i as int) == Err::<Seq<Tok>, int>(e.at as int),
        },
    decreases src.len() - i,
{
    if i == src.len() {
        assert(final(out)@ =~= old(out)@ + Seq::<Tok>::empty());
        Ok(())
    } else {
        let c = src[i];
        if c == ' ' || c == '\n' || c == '\t' || c == '\r' {
            lex_into(src, i + 1, out)
        } else if (65 <= c as u32 && c as u32 <= 90) || (97 <= c as u32 && c as u32 <= 122) || c
            as u32 == 95 {
            let j = scan_ident_x(src, i + 1);
            let t = classify_x(src, Span { lo: i, hi: j });
            out.push(t);
            let r = lex_into(src, j, out);
            proof {
                if r is Ok {
                    let ts = lex(src@, j as int)->Ok_0;
                    assert(final(out)@ =~= old(out)@ + (seq![t] + ts));
                }
            }
            r
        } else if 48 <= c as u32 && c as u32 <= 57 {
            match scan_int_x(src, i, 0) {
                Ok((v, j)) => {
                    proof {
                        lemma_scan_int_bounds(src@, i as int, 0);
                    }
                    out.push(Tok::Int(v));
                    let r = lex_into(src, j, out);
                    proof {
                        if r is Ok {
                            let ts = lex(src@, j as int)->Ok_0;
                            assert(final(out)@ =~= old(out)@ + (seq![Tok::Int(v)] + ts));
                        }
                    }
                    r
                },
                Err(e) => Err(e),
            }
        } else if c == '"' {
            match scan_str_x(src, i + 1) {
                Some(j) => {
                    let t = Tok::Str(Span { lo: i + 1, hi: j });
                    out.push(t);
                    let r = lex_into(src, j + 1, out);
                    proof {
                        if r is Ok {
                            let ts = lex(src@, j + 1 as int)->Ok_0;
                            assert(final(out)@ =~= old(out)@ + (seq![t] + ts));
                        }
                    }
                    r
                },
                None => Err(ParseError { at: i }),
            }
        } else if c == '=' {
            let two = i + 1 < src.len();
            if two && src[i + 1] == '=' {
                out.push(Tok::EqEq);
                let r = lex_into(src, i + 2, out);
                proof {
                    if r is Ok {
                        let ts = lex(src@, i + 2 as int)->Ok_0;
                        assert(final(out)@ =~= old(out)@ + (seq![Tok::EqEq] + ts));
                    }
                }
                r
            } else if two && src[i + 1] == '>' {
                out.push(Tok::FatArrow);
                let r = lex_into(src, i + 2, out);
                proof {
                    if r is Ok {
                        let ts = lex(src@, i + 2 as int)->Ok_0;
                        assert(final(out)@ =~= old(out)@ + (seq![Tok::FatArrow] + ts));
                    }
                }
                r
            } else {
                out.push(Tok::EqSign);
                let r = lex_into(src, i + 1, out);
                proof {
                    if r is Ok {
                        let ts = lex(src@, i + 1 as int)->Ok_0;
                        assert(final(out)@ =~= old(out)@ + (seq![Tok::EqSign] + ts));
                    }
                }
                r
            }
        } else if c == '!' {
            if i + 1 < src.len() && src[i + 1] == '=' {
                out.push(Tok::NotEq);
                let r = lex_into(src, i + 2, out);
                proof {
                    if r is Ok {
                        let ts = lex(src@, i + 2 as int)->Ok_0;
                        assert(final(out)@ =~= old(out)@ + (seq![Tok::NotEq] + ts));
                    }
                }
                r
            } else {
                Err(ParseError { at: i })
            }
        } else {
            let t = if c == '#' {
                Some(Tok::Hash)
            } else if c == '.' {
                Some(Tok::Dot)
            } else if c == '$' {
                Some(Tok::Dollar)
            } else if c == '@' {
                Some(Tok::At)
            } else if c == '{' {
                Some(Tok::LBrace)
            } else if c == '}' {
                Some(Tok::RBrace)
            } else if c == '[' {
                Some(Tok::LBrack)
            } else if c == ']' {
                Some(Tok::RBrack)
            } else if c == '(' {
                Some(Tok::LParen)
            } else if c == ')' {
                Some(Tok::RParen)
            } else if c == ';' {
                Some(Tok::Semi)
            } else if c == ',' {
                Some(Tok::Comma)
            } else if c == '|' {
                Some(Tok::Pipe)
            } else if c == '+' {
                Some(Tok::Plus)
            } else if c == '-' {
                Some(Tok::Minus)
            } else if c == '*' {
                Some(Tok::Star)
            } else if c == '<' {
                Some(Tok::Lt)
            } else if c == '>' {
                Some(Tok::Gt)
            } else if c == ':' {
                Some(Tok::Colon)
            } else {
                None
            };
            match t {
                Some(tok) => {
                    out.push(tok);
                    let r = lex_into(src, i + 1, out);
                    proof {
                        if r is Ok {
                            let ts = lex(src@, i + 1 as int)->Ok_0;
                            assert(final(out)@ =~= old(out)@ + (seq![tok] + ts));
                        }
                    }
                    r
                },
                None => Err(ParseError { at: i }),
            }
        }
    }
}

/// Tokenizes the whole source.
pub fn tokenize(src: &Vec<char>) -> (r: Result<Vec<Tok>, ParseError>)
    ensures
        match r {
            Ok(ts) => lex(src@, 0) == Ok::<Seq<Tok>, int>(ts@),
            Err(e) => lex(src@, 0) == Err::<Seq<Tok>, int>(e.at as int),
        },
{
    let mut out: Vec<Tok> = Vec::new();
    match lex_into(src, 0, &mut out) {
        Ok(()) => Ok(out),
        Err(e) => Err(e),
    }
}

} // verus!

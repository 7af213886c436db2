// The DuelScript lexer: splits source text into words, numbers, string
// literals and symbols, skipping whitespace and `//` comments.

use vstd::prelude::*;
use super::text::{blank_text, chars_of, string_of};

verus! {

/// The kind of a token.
#[derive(Debug, Clone, Copy, PartialEq, Eq, Structural)]
pub enum TokKind {
    /// A word: letters, digits, `_`, and `-` between letters or digits,
    /// not all digits.
    Ident,
    /// A run of decimal digits.
    Number,
    /// A string literal; its text holds the characters between the quotes.
    Str,
    /// One of `{ } ( ) [ ] , : . | + - * / ? >= <= == != > <`.
    Sym,
}

/// A token and the character span it came from.
#[derive(Debug)]
pub struct Token {
    pub kind: TokKind,
    pub text: String,
    /// Offset of the first character of the token.
    pub start: usize,
    /// Offset just past the last character of the token.
    pub end: usize,
}

/// A lexing error: the character offset where it was found.
#[derive(Debug, Clone, Copy, PartialEq, Eq, Structural)]
pub struct LexError {
    pub offset: usize,
    /// `true` for an unterminated string literal, `false` for a character
    /// that starts no token.
    pub unterminated: bool,
}

pub open spec fn is_word_start(c: char) -> bool {
    ('a' <= c && c <= 'z') || ('A' <= c && c <= 'Z') || c == '_'
}

pub open spec fn is_digit(c: char) -> bool {
    '0' <= c && c <= '9'
}

pub open spec fn is_word_char(c: char) -> bool {
    is_word_start(c) || is_digit(c)
}

pub open spec fn is_space(c: char) -> bool {
    c == ' ' || c == '\t' || c == '\n' || c == '\r'
}

/// Whether `c` is a single-character symbol.
pub open spec fn is_symbol(c: char) -> bool {
    c == '{' || c == '}' || c == '(' || c == ')' || c == '[' || c == ']' || c == ',' || c == ':'
        || c == '.' || c == '|' || c == '+' || c == '-' || c == '*' || c == '/' || c == '?'
        || c == '>' || c == '<' || c == '=' || c == '!'
}

fn word_start(c: char) -> (r: bool)
    ensures
        r == is_word_start(c),
{
    ('a' <= c && c <= 'z') || ('A' <= c && c <= 'Z') || c == '_'
}

fn digit(c: char) -> (r: bool)
    ensures
        r == is_digit(c),
{
    '0' <= c && c <= '9'
}

fn word_char(c: char) -> (r: bool)
    ensures
        r == is_word_char(c),
{
    word_start(c) || digit(c)
}

fn space(c: char) -> (r: bool)
    ensures
        r == is_space(c),
{
    c == ' ' || c == '\t' || c == '\n' || c == '\r'
}

fn symbol(c: char) -> (r: bool)
    ensures
        r == is_symbol(c),
{
    c == '{' || c == '}' || c == '(' || c == ')' || c == '[' || c == ']' || c == ',' || c == ':'
        || c == '.' || c == '|' || c == '+' || c == '-' || c == '*' || c == '/' || c == '?'
        || c == '>' || c == '<' || c == '=' || c == '!'
}

/// Whether the tokens are well formed with respect to the source: each
/// lies in the source, in order, without overlap; a string token's text
/// is what lies between its quotes, any other token's text is its span.
pub open spec fn tokens_of(src: Seq<char>, toks: Seq<Token>) -> bool {
    &&& forall|i: int|
        0 <= i < toks.len() ==> {
            let t = #[trigger] toks[i];
            &&& t.start < t.end <= src.len()
            &&& if t.kind == TokKind::Str {
                &&& t.end >= t.start + 2
                &&& t.text@ == src.subrange(t.start + 1, t.end - 1)
                &&& src[t.start as int] == '"' && src[t.end - 1] == '"'
            } else {
                t.text@ == src.subrange(t.start as int, t.end as int)
            }
        }
    &&& forall|i: int, j: int| 0 <= i < j < toks.len() ==> toks[i].end <= toks[j].start
}

/// Where the lexer stands while it reads a character: between tokens,
/// inside a `//` comment, inside a string literal opened at an offset, or
/// inside a word or number begun at an offset (with whether it holds only
/// digits so far).
pub enum LexMode {
    Normal,
    Comment,
    Text(usize),
    Word(usize, bool),
}

pub open spec fn mode_rank(m: LexMode) -> int {
    match m {
        LexMode::Word(_, _) => 1,
        _ => 0,
    }
}

/// Whether character `k` carries on a word begun at `start`: a letter,
/// digit or `_`, or a `-` between two of them.
pub open spec fn word_continues(src: Seq<char>, start: int, k: int) -> bool {
    &&& 0 <= k < src.len()
    &&& (is_word_char(src[k]) || (src[k] == '-' && k > start && k + 1 < src.len() && is_word_char(src[k + 1])))
}

/// `t`, then what `r` gives, unless `r` is an error.
pub open spec fn cons_tok(t: (TokKind, int, int), r: Result<Seq<(TokKind, int, int)>, LexError>) -> Result<
    Seq<(TokKind, int, int)>,
    LexError,
> {
    match r {
        Ok(ts) => Ok(seq![t] + ts),
        Err(e) => Err(e),
    }
}

/// `ts`, then what `r` gives, unless `r` is an error.
pub open spec fn prepend_toks(ts: Seq<(TokKind, int, int)>, r: Result<Seq<(TokKind, int, int)>, LexError>) -> Result<
    Seq<(TokKind, int, int)>,
    LexError,
> {
    match r {
        Ok(more) => Ok(ts + more),
        Err(e) => Err(e),
    }
}

/// The tokens (kind, start, end) of the text from offset `i` on, read in
/// mode `m`, or the first lexing error: whitespace and `//` comments up to
/// the end of the line are skipped; `"` opens a string literal that runs to
/// the next `"` (unterminated when there is none); a word is the longest
/// run that `word_continues` allows, a number when all its characters are
/// digits; `>=`, `<=`, `==` and `!=` are symbols of two characters, a lone
/// `=` or `!` is an error, as is any other character that starts no token.
pub open spec fn lex_run(src: Seq<char>, i: int, m: LexMode) -> Result<Seq<(TokKind, int, int)>, LexError>
    decreases src.len() - i, mode_rank(m),
{
    if i < 0 || i >= src.len() {
        match m {
            LexMode::Text(st) => Err(LexError { offset: st, unterminated: true }),
            LexMode::Word(st, d) => Ok(
                seq![
                    (
                        if d {
                            TokKind::Number
                        } else {
                            TokKind::Ident
                        },
                        st as int,
                        i,
                    ),
                ],
            ),
            _ => Ok(Seq::empty()),
        }
    } else {
        let c = src[i];
        match m {
            LexMode::Normal => if is_space(c) {
                lex_run(src, i + 1, LexMode::Normal)
            } else if c == '/' && i + 1 < src.len() && src[i + 1] == '/' {
                lex_run(src, i + 2, LexMode::Comment)
            } else if c == '"' {
                lex_run(src, i + 1, LexMode::Text(i as usize))
            } else if is_word_char(c) {
                lex_run(src, i + 1, LexMode::Word(i as usize, is_digit(c)))
            } else if is_symbol(c) {
                let two = i + 1 < src.len() && src[i + 1] == '=' && (c == '>' || c == '<' || c == '=' || c == '!');
                if !two && (c == '=' || c == '!') {
                    Err(LexError { offset: i as usize, unterminated: false })
                } else {
                    let e = if two {
                        i + 2
                    } else {
                        i + 1
                    };
                    cons_tok((TokKind::Sym, i, e), lex_run(src, e, LexMode::Normal))
                }
            } else {
                Err(LexError { offset: i as usize, unterminated: false })
            },
            LexMode::Comment => if c == '\n' {
                lex_run(src, i + 1, LexMode::Normal)
            } else {
                lex_run(src, i + 1, LexMode::Comment)
            },
            LexMode::Text(st) => if c == '"' {
                cons_tok((TokKind::Str, st as int, i + 1), lex_run(src, i + 1, LexMode::Normal))
            } else {
                lex_run(src, i + 1, LexMode::Text(st))
            },
            LexMode::Word(st, d) => if word_continues(src, st as int, i) {
                lex_run(src, i + 1, LexMode::Word(st, d && is_digit(c)))
            } else {
                cons_tok(
                    (
                        if d {
                            TokKind::Number
                        } else {
                            TokKind::Ident
                        },
                        st as int,
                        i,
                    ),
                    lex_run(src, i, LexMode::Normal),
                )
            },
        }
    }
}

/// The tokens of a whole text, or the first lexing error.
pub open spec fn lex(src: Seq<char>) -> Result<Seq<(TokKind, int, int)>, LexError> {
    lex_run(src, 0, LexMode::Normal)
}

/// Whether the tokens have the kinds and spans of `ts`.
pub open spec fn same_tokens(toks: Seq<Token>, ts: Seq<(TokKind, int, int)>) -> bool {
    &&& toks.len() == ts.len()
    &&& forall|k: int|
        0 <= k < ts.len() ==> (#[trigger] toks[k]).kind == ts[k].0 && toks[k].start == ts[k].1 && toks[k].end
            == ts[k].2
}

proof fn lemma_prepend_cons(ts: Seq<(TokKind, int, int)>, t: (TokKind, int, int), r: Result<Seq<(TokKind, int, int)>, LexError>)
    ensures
        prepend_toks(ts, cons_tok(t, r)) == prepend_toks(ts.push(t), r),
{
    match r {
        Ok(more) => {
            assert(ts + (seq![t] + more) =~= ts.push(t) + more);
        },
        Err(_) => {},
    }
}

/// Split `source` into tokens.
pub fn tokenize(source: &str) -> (r: Result<Vec<Token>, LexError>)
    ensures
        match r {
            Ok(toks) => tokens_of(source@, toks@) && (lex(source@) matches Ok(ts) && same_tokens(toks@, ts)),
            Err(e) => e.offset < source@.len() && lex(source@) == Err::<Seq<(TokKind, int, int)>, LexError>(e),
        },
        blank_text(source@) ==> (r matches Ok(toks) && toks@.len() == 0),
{
    let cs = chars_of(source);
    let n = cs.len();
    let mut toks: Vec<Token> = Vec::new();
    let ghost mut ts: Seq<(TokKind, int, int)> = Seq::empty();
    let mut i: usize = 0;
    while i < n
        invariant
            n == cs@.len(),
            cs@ == source@,
            i <= n,
            tokens_of(source@, toks@),
            forall|k: int| 0 <= k < toks@.len() ==> toks@[k].end <= i,
            blank_text(source@) ==> toks@.len() == 0,
            same_tokens(toks@, ts),
            lex(source@) == prepend_toks(ts, lex_run(source@, i as int, LexMode::Normal)),
        decreases n - i,
    {
        let c = cs[i];
        assert(blank_text(source@) ==> is_space(source@[i as int]));
        if space(c) {
            i += 1;
        } else if c == '/' && i + 1 < n && cs[i + 1] == '/' {
            let s0 = i;
            i += 2;
            while i < n && cs[i] != '\n'
                invariant
                    s0 < i <= n,
                    n == cs@.len(),
                    cs@ == source@,
                    forall|k: int| 0 <= k < toks@.len() ==> toks@[k].end <= i,
                    lex(source@) == prepend_toks(ts, lex_run(source@, i as int, LexMode::Comment)),
                decreases n - i,
            {
                i += 1;
            }
            proof {
                if i < n {
                    assert(lex_run(source@, i as int, LexMode::Comment) == lex_run(source@, i + 1, LexMode::Normal));
                    assert(lex_run(source@, i as int, LexMode::Normal) == lex_run(source@, i + 1, LexMode::Normal));
                }
            }
        } else if c == '"' {
            let start = i;
            let mut j = i + 1;
            while j < n && cs[j] != '"'
                invariant
                    start < j <= n,
                    n == cs@.len(),
                    cs@ == source@,
                    lex(source@) == prepend_toks(ts, lex_run(source@, j as int, LexMode::Text(start))),
                decreases n - j,
            {
                j += 1;
            }
            if j >= n {
                return Err(LexError { offset: start, unterminated: true });
            }
            let text = string_of(&cs, start + 1, j);
            let ghost before = toks@;
            toks.push(Token { kind: TokKind::Str, text, start, end: j + 1 });
            proof {
                assert forall|a: int, b: int| 0 <= a < b < toks@.len() implies toks@[a].end <= toks@[b].start by {
                    if b < before.len() {
                        assert(toks@[a] == before[a] && toks@[b] == before[b]);
                    }
                }
                lemma_prepend_cons(ts, (TokKind::Str, start as int, j + 1), lex_run(source@, j + 1, LexMode::Normal));
                ts = ts.push((TokKind::Str, start as int, j + 1));
                assert forall|k: int| 0 <= k < ts.len() implies (#[trigger] toks@[k]).kind == ts[k].0 && toks@[k].start
                    == ts[k].1 && toks@[k].end == ts[k].2 by {
                    if k < before.len() {
                        assert(toks@[k] == before[k]);
                    }
                }
            }
            i = j + 1;
        } else if word_char(c) {
            let start = i;
            let mut j = i;
            let mut all_digits = true;
            while j < n && (word_char(cs[j]) || (cs[j] == '-' && j > start && j + 1 < n && word_char(cs[j + 1])))
                invariant
                    start <= j <= n,
                    start < n,
                    n == cs@.len(),
                    cs@ == source@,
                    is_word_char(cs@[start as int]),
                    j == start ==> all_digits && lex(source@) == prepend_toks(
                        ts,
                        lex_run(source@, start as int, LexMode::Normal),
                    ),
                    j > start ==> lex(source@) == prepend_toks(
                        ts,
                        lex_run(source@, j as int, LexMode::Word(start, all_digits)),
                    ),
                decreases n - j,
            {
                proof {
                    if j > start {
                        assert(word_continues(source@, start as int, j as int));
                    }
                }
                if !digit(cs[j]) {
                    all_digits = false;
                }
                j += 1;
            }
            assert(j > start);
            let kind = if all_digits { TokKind::Number } else { TokKind::Ident };
            let text = string_of(&cs, start, j);
            let ghost before = toks@;
            toks.push(Token { kind, text, start, end: j });
            proof {
                assert forall|a: int, b: int| 0 <= a < b < toks@.len() implies toks@[a].end <= toks@[b].start by {
                    if b < before.len() {
                        assert(toks@[a] == before[a] && toks@[b] == before[b]);
                    }
                }
                let t = (kind, start as int, j as int);
                if j < n {
                    assert(!word_continues(source@, start as int, j as int));
                    assert(lex_run(source@, j as int, LexMode::Word(start, all_digits)) == cons_tok(
                        t,
                        lex_run(source@, j as int, LexMode::Normal),
                    ));
                } else {
                    assert(lex_run(source@, j as int, LexMode::Normal) == Ok::<Seq<(TokKind, int, int)>, LexError>(
                        Seq::empty(),
                    ));
                    assert(seq![t] =~= seq![t] + Seq::<(TokKind, int, int)>::empty());
                }
                lemma_prepend_cons(ts, t, lex_run(source@, j as int, LexMode::Normal));
                ts = ts.push(t);
                assert forall|k: int| 0 <= k < ts.len() implies (#[trigger] toks@[k]).kind == ts[k].0 && toks@[k].start
                    == ts[k].1 && toks@[k].end == ts[k].2 by {
                    if k < before.len() {
                        assert(toks@[k] == before[k]);
                    }
                }
            }
            i = j;
        } else if symbol(c) {
            let start = i;
            let two = i + 1 < n && cs[i + 1] == '=' && (c == '>' || c == '<' || c == '=' || c == '!');
            if !two && (c == '=' || c == '!') {
                return Err(LexError { offset: start, unterminated: false });
            }
            let end = if two { i + 2 } else { i + 1 };
            let text = string_of(&cs, start, end);
            let ghost before = toks@;
            toks.push(Token { kind: TokKind::Sym, text, start, end });
            proof {
                assert forall|a: int, b: int| 0 <= a < b < toks@.len() implies toks@[a].end <= toks@[b].start by {
                    if b < before.len() {
                        assert(toks@[a] == before[a] && toks@[b] == before[b]);
                    }
                }
                let t = (TokKind::Sym, start as int, end as int);
                lemma_prepend_cons(ts, t, lex_run(source@, end as int, LexMode::Normal));
                ts = ts.push(t);
                assert forall|k: int| 0 <= k < ts.len() implies (#[trigger] toks@[k]).kind == ts[k].0 && toks@[k].start
                    == ts[k].1 && toks@[k].end == ts[k].2 by {
                    if k < before.len() {
                        assert(toks@[k] == before[k]);
                    }
                }
            }
            i = end;
        } else {
            return Err(LexError { offset: i, unterminated: false });
        }
    }
    proof {
        assert(ts + Seq::<(TokKind, int, int)>::empty() =~= ts);
    }
    Ok(toks)
}

} // verus!

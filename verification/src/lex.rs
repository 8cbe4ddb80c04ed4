//! The lexer shared by the frontends. It turns source text into a token
//! sequence; every token carries the position it starts at, and the lexer
//! also reports the position of the end of input, which the parsers use for
//! errors at an unexpected end.
use vstd::prelude::*;
use crate::ir::Span;
use crate::err::{ParseError, ParseErrorKind};

verus! {

// ===== Tokens =====

/// A lexical token.
pub enum Tok {
    /// An identifier or keyword.
    Ident { text: String },
    /// `@` immediately followed by a word, as in an attribute.
    AtWord { text: String },
    /// An unsigned 32-bit number literal.
    Number { value: u32 },
    LParen,
    RParen,
    LBrace,
    RBrace,
    Semi,
    Comma,
    Colon,
    Assign,
    Plus,
    Star,
    Lt,
    Gt,
}

pub struct Token {
    pub tok: Tok,
    pub span: Span,
}

/// Ghost view of a token.
pub enum TokView {
    Ident { text: Seq<char> },
    AtWord { text: Seq<char> },
    Number { value: u32 },
    LParen,
    RParen,
    LBrace,
    RBrace,
    Semi,
    Comma,
    Colon,
    Assign,
    Plus,
    Star,
    Lt,
    Gt,
}

pub struct TokenView {
    pub tok: TokView,
    pub span: Span,
}

pub open spec fn view_tok(t: Tok) -> TokView {
    match t {
        Tok::Ident { text } => TokView::Ident { text: text@ },
        Tok::AtWord { text } => TokView::AtWord { text: text@ },
        Tok::Number { value } => TokView::Number { value },
        Tok::LParen => TokView::LParen,
        Tok::RParen => TokView::RParen,
        Tok::LBrace => TokView::LBrace,
        Tok::RBrace => TokView::RBrace,
        Tok::Semi => TokView::Semi,
        Tok::Comma => TokView::Comma,
        Tok::Colon => TokView::Colon,
        Tok::Assign => TokView::Assign,
        Tok::Plus => TokView::Plus,
        Tok::Star => TokView::Star,
        Tok::Lt => TokView::Lt,
        Tok::Gt => TokView::Gt,
    }
}

pub open spec fn view_token(t: Token) -> TokenView {
    TokenView { tok: view_tok(t.tok), span: t.span }
}

pub open spec fn view_tokens(ts: Seq<Token>) -> Seq<TokenView>
    decreases ts,
{
    if ts.len() == 0 {
        Seq::empty()
    } else {
        seq![view_token(ts[0])] + view_tokens(ts.skip(1))
    }
}

pub proof fn lemma_view_tokens(ts: Seq<Token>)
    ensures
        view_tokens(ts).len() == ts.len(),
        forall|i: int| 0 <= i < ts.len() ==> view_tokens(ts)[i] == view_token(ts[i]),
    decreases ts,
{
    if ts.len() > 0 {
        lemma_view_tokens(ts.skip(1));
    }
}

pub proof fn lemma_view_tokens_push(ts: Seq<Token>, t: Token)
    ensures
        view_tokens(ts.push(t)) =~= view_tokens(ts).push(view_token(t)),
{
    lemma_view_tokens(ts.push(t));
    lemma_view_tokens(ts);
    assert(ts.push(t)[ts.len() as int] == t);
    assert(forall|i: int| 0 <= i < ts.len() ==> ts.push(t)[i] == ts[i]);
}

// ===== Character classes =====

pub open spec fn is_ws(c: char) -> bool {
    c == ' ' || c == '\t' || c == '\r' || c == '\n'
}

pub open spec fn is_digit(c: char) -> bool {
    48 <= c as u32 <= 57
}

pub open spec fn digit_val(c: char) -> u32 {
    (c as u32 - 48) as u32
}

pub open spec fn is_ident_start(c: char) -> bool {
    (97 <= c as u32 <= 122) || (65 <= c as u32 <= 90) || c == '_'
}

pub open spec fn is_ident_char(c: char) -> bool {
    is_ident_start(c) || is_digit(c)
}

/// Returns whether `c` is a decimal digit.
pub fn ch_is_digit(c: char) -> (r: bool)
    ensures
        r == is_digit(c),
{
    let u = c as u32;
    48 <= u && u <= 57
}

/// Returns whether `c` may start an identifier.
pub fn ch_is_ident_start(c: char) -> (r: bool)
    ensures
        r == is_ident_start(c),
{
    let u = c as u32;
    (97 <= u && u <= 122) || (65 <= u && u <= 90) || c == '_'
}

/// Returns whether `c` may continue an identifier.
pub fn ch_is_ident_char(c: char) -> (r: bool)
    ensures
        r == is_ident_char(c),
{
    ch_is_ident_start(c) || ch_is_digit(c)
}

/// The token a single symbol character lexes to, if any.
pub open spec fn sym_tok(c: char) -> Option<TokView> {
    if c == '(' {
        Some(TokView::LParen)
    } else if c == ')' {
        Some(TokView::RParen)
    } else if c == '{' {
        Some(TokView::LBrace)
    } else if c == '}' {
        Some(TokView::RBrace)
    } else if c == ';' {
        Some(TokView::Semi)
    } else if c == ',' {
        Some(TokView::Comma)
    } else if c == ':' {
        Some(TokView::Colon)
    } else if c == '=' {
        Some(TokView::Assign)
    } else if c == '+' {
        Some(TokView::Plus)
    } else if c == '*' {
        Some(TokView::Star)
    } else if c == '<' {
        Some(TokView::Lt)
    } else if c == '>' {
        Some(TokView::Gt)
    } else {
        None
    }
}

// ===== Scanning helpers =====

/// The first index at or after `i` that is not a decimal digit.
pub open spec fn spec_scan_digits(s: Seq<char>, i: int) -> int
    decreases s.len() - i,
{
    if i < 0 || i >= s.len() || !is_digit(s[i]) {
        i
    } else {
        spec_scan_digits(s, i + 1)
    }
}

/// The first index at or after `i` that cannot continue an identifier.
pub open spec fn spec_scan_ident(s: Seq<char>, i: int) -> int
    decreases s.len() - i,
{
    if i < 0 || i >= s.len() || !is_ident_char(s[i]) {
        i
    } else {
        spec_scan_ident(s, i + 1)
    }
}

/// The index of the next line feed at or after `i`, or the end of input.
pub open spec fn spec_line_end(s: Seq<char>, i: int) -> int
    decreases s.len() - i,
{
    if i < 0 || i >= s.len() || s[i] == '\n' {
        i
    } else {
        spec_line_end(s, i + 1)
    }
}

/// The value of the digit run `s[i..j]`, read in base ten.
pub open spec fn spec_digits_val(s: Seq<char>, i: int, j: int) -> int
    decreases j - i,
{
    if j <= i {
        0
    } else {
        spec_digits_val(s, i, j - 1) * 10 + digit_val(s[j - 1])
    }
}

pub proof fn lemma_scan_digits_bounds(s: Seq<char>, i: int)
    requires
        0 <= i <= s.len(),
    ensures
        i <= spec_scan_digits(s, i) <= s.len(),
    decreases s.len() - i,
{
    if !(i >= s.len() || !is_digit(s[i])) {
        lemma_scan_digits_bounds(s, i + 1);
    }
}

pub proof fn lemma_scan_ident_bounds(s: Seq<char>, i: int)
    requires
        0 <= i <= s.len(),
    ensures
        i <= spec_scan_ident(s, i) <= s.len(),
    decreases s.len() - i,
{
    if !(i >= s.len() || !is_ident_char(s[i])) {
        lemma_scan_ident_bounds(s, i + 1);
    }
}

pub proof fn lemma_line_end_bounds(s: Seq<char>, i: int)
    requires
        0 <= i <= s.len(),
    ensures
        i <= spec_line_end(s, i) <= s.len(),
    decreases s.len() - i,
{
    if !(i >= s.len() || s[i] == '\n') {
        lemma_line_end_bounds(s, i + 1);
    }
}

/// Returns the first index at or after `from` that is not a digit.
fn scan_digits(source: &str, from: usize, n: usize) -> (j: usize)
    requires
        n == source@.len(),
        from <= n,
    ensures
        j == spec_scan_digits(source@, from as int),
        from <= j <= n,
    decreases n - from,
{
    if from >= n {
        return from;
    }
    let c = source.get_char(from);
    if ch_is_digit(c) {
        scan_digits(source, from + 1, n)
    } else {
        from
    }
}

/// Returns the first index at or after `from` that cannot continue an
/// identifier.
fn scan_ident(source: &str, from: usize, n: usize) -> (j: usize)
    requires
        n == source@.len(),
        from <= n,
    ensures
        j == spec_scan_ident(source@, from as int),
        from <= j <= n,
    decreases n - from,
{
    if from >= n {
        return from;
    }
    let c = source.get_char(from);
    if ch_is_ident_char(c) {
        scan_ident(source, from + 1, n)
    } else {
        from
    }
}

/// Returns the index of the next line feed at or after `from`, or `n`.
fn scan_line_end(source: &str, from: usize, n: usize) -> (j: usize)
    requires
        n == source@.len(),
        from <= n,
    ensures
        j == spec_line_end(source@, from as int),
        from <= j <= n,
    decreases n - from,
{
    if from >= n {
        return from;
    }
    let c = source.get_char(from);
    if c == '\n' {
        from
    } else {
        scan_line_end(source, from + 1, n)
    }
}

/// One more than the largest number literal, used to mark overflow.
pub open spec fn lit_overflow() -> int {
    0x1_0000_0000
}

/// Reads the value of the digit run `source[from..to]`, clamped at
/// `lit_overflow` when it does not fit a `u32`.
fn digits_value(source: &str, from: usize, to: usize, n: usize) -> (r: u64)
    requires
        n == source@.len(),
        from <= to <= n,
        forall|k: int| from <= k < to ==> is_digit(source@[k]),
    ensures
        r <= lit_overflow(),
        spec_digits_val(source@, from as int, to as int) <= u32::MAX ==> r == spec_digits_val(
            source@,
            from as int,
            to as int,
        ),
        spec_digits_val(source@, from as int, to as int) > u32::MAX ==> r == lit_overflow(),
    decreases to - from,
{
    if to <= from {
        return 0u64;
    }
    let sub = digits_value(source, from, to - 1, n);
    let c = source.get_char(to - 1);
    let d = {
        let u = c as u32;
        proof {
            assert(is_digit(source@[to - 1]));
        }
        (u - 48) as u64
    };
    proof {
        let v_prev = spec_digits_val(source@, from as int, to - 1);
        let v = spec_digits_val(source@, from as int, to as int);
        assert(v == v_prev * 10 + digit_val(source@[to - 1]));
        if v_prev > u32::MAX {
            assert(v_prev * 10 >= v_prev * 1);
            assert(v > u32::MAX);
        }
        assert(v_prev >= 0) by {
            lemma_digits_val_nonneg(source@, from as int, to - 1);
        }
    }
    let full = sub * 10 + d;
    if full > 0xffff_ffffu64 {
        0x1_0000_0000u64
    } else {
        full
    }
}

pub proof fn lemma_digits_val_nonneg(s: Seq<char>, i: int, j: int)
    ensures
        spec_digits_val(s, i, j) >= 0,
    decreases j - i,
{
    if j > i {
        lemma_digits_val_nonneg(s, i, j - 1);
    }
}

// ===== The lexer =====

/// The token sequence of `s` with the end-of-input position, or the first
/// lexical error. `i` is the current position, at line `line` and column
/// `col`, both 1-based.
pub open spec fn spec_lex_from(s: Seq<char>, i: int, line: int, col: int) -> Result<
    (Seq<TokenView>, Span),
    ParseError,
>
    decreases s.len() - i,
{
    if i < 0 || i >= s.len() {
        Ok((Seq::empty(), Span { line: line as usize, col: col as usize, offset: i as usize }))
    } else {
        let c = s[i];
        let here = Span { line: line as usize, col: col as usize, offset: i as usize };
        if c == '\n' {
            spec_lex_from(s, i + 1, line + 1, 1)
        } else if is_ws(c) {
            spec_lex_from(s, i + 1, line, col + 1)
        } else if c == '/' && i + 1 < s.len() && s[i + 1] == '/' {
            let j = spec_line_end(s, i);
            proof {
                lemma_line_end_bounds(s, i + 1);
            }
            spec_lex_from(s, j, line, col + (j - i))
        } else if is_digit(c) {
            let j = spec_scan_digits(s, i);
            proof {
                lemma_scan_digits_bounds(s, i + 1);
            }
            let v = spec_digits_val(s, i, j);
            if v > u32::MAX {
                Err(ParseError { span: here, kind: ParseErrorKind::NumberTooLarge })
            } else {
                lex_prepend(
                    TokenView { tok: TokView::Number { value: v as u32 }, span: here },
                    spec_lex_from(s, j, line, col + (j - i)),
                )
            }
        } else if is_ident_start(c) {
            let j = spec_scan_ident(s, i);
            proof {
                lemma_scan_ident_bounds(s, i + 1);
            }
            lex_prepend(
                TokenView { tok: TokView::Ident { text: s.subrange(i, j) }, span: here },
                spec_lex_from(s, j, line, col + (j - i)),
            )
        } else if c == '@' && i + 1 < s.len() && is_ident_start(s[i + 1]) {
            let j = spec_scan_ident(s, i + 1);
            proof {
                lemma_scan_ident_bounds(s, i + 2);
            }
            lex_prepend(
                TokenView { tok: TokView::AtWord { text: s.subrange(i + 1, j) }, span: here },
                spec_lex_from(s, j, line, col + (j - i)),
            )
        } else if sym_tok(c) is Some {
            lex_prepend(
                TokenView { tok: sym_tok(c)->Some_0, span: here },
                spec_lex_from(s, i + 1, line, col + 1),
            )
        } else {
            Err(ParseError { span: here, kind: ParseErrorKind::UnexpectedChar })
        }
    }
}

/// Prepends a token to a lexer outcome.
pub open spec fn lex_prepend(
    t: TokenView,
    r: Result<(Seq<TokenView>, Span), ParseError>,
) -> Result<(Seq<TokenView>, Span), ParseError> {
    match r {
        Ok((ts, eof)) => Ok((seq![t] + ts, eof)),
        Err(e) => Err(e),
    }
}

/// The token sequence of `s`, or the first lexical error.
pub open spec fn spec_lex(s: Seq<char>) -> Result<(Seq<TokenView>, Span), ParseError> {
    spec_lex_from(s, 0, 1, 1)
}

/// Whether the executable lexer outcome carries exactly the ghost outcome.
pub open spec fn lex_matches(
    r: Result<(Vec<Token>, Span), ParseError>,
    s: Result<(Seq<TokenView>, Span), ParseError>,
) -> bool {
    match (r, s) {
        (Ok(p), Ok(q)) => view_tokens(p.0@) == q.0 && p.1 == q.1,
        (Err(e), Err(f)) => e == f,
        _ => false,
    }
}

/// Lexes `source` into tokens, reporting the first lexical error and the
/// position of the end of input.
pub fn lex(source: &str) -> (r: Result<(Vec<Token>, Span), ParseError>)
    requires
        source@.len() < usize::MAX,
    ensures
        lex_matches(r, spec_lex(source@)),
{
    let s_len = source.unicode_len();
    let mut toks: Vec<Token> = Vec::new();
    let mut i: usize = 0;
    let mut line: usize = 1;
    let mut col: usize = 1;
    loop
        invariant
            s_len == source@.len(),
            s_len < usize::MAX,
            i <= s_len,
            1 <= line <= i + 1,
            1 <= col <= i + 1,
            spec_lex(source@) == lex_combine(
                view_tokens(toks@),
                spec_lex_from(source@, i as int, line as int, col as int),
            ),
        decreases s_len - i,
    {
        let ghost rest = spec_lex_from(source@, i as int, line as int, col as int);
        if i >= s_len {
            proof {
                assert(view_tokens(toks@) + Seq::<TokenView>::empty() =~= view_tokens(toks@));
            }
            return Ok((toks, Span { line, col, offset: i }));
        }
        let c = source.get_char(i);
        let here = Span { line, col, offset: i };
        if c == '\n' {
            i = i + 1;
            line = line + 1;
            col = 1;
        } else if c == ' ' || c == '\t' || c == '\r' {
            i = i + 1;
            col = col + 1;
        } else if c == '/' && i + 1 < s_len && source.get_char(i + 1) == '/' {
            let j = scan_line_end(source, i, s_len);
            proof {
                lemma_line_end_bounds(source@, i + 1);
            }
            col = col + (j - i);
            i = j;
        } else if ch_is_digit(c) {
            let j = scan_digits(source, i, s_len);
            proof {
                lemma_scan_digits_chars(source@, i as int);
                lemma_scan_digits_bounds(source@, i + 1);
            }
            let v = digits_value(source, i, j, s_len);
            if v > 0xffff_ffffu64 {
                proof {
                    assert(rest is Err);
                }
                return Err(ParseError { span: here, kind: ParseErrorKind::NumberTooLarge });
            }
            let t = Token { tok: Tok::Number { value: v as u32 }, span: here };
            proof {
                lemma_lex_step(toks@, t, source@, j as int, line as int, col + (j - i));
            }
            toks.push(t);
            col = col + (j - i);
            i = j;
        } else if ch_is_ident_start(c) {
            let j = scan_ident(source, i, s_len);
            proof {
                lemma_scan_ident_bounds(source@, i + 1);
            }
            let text = source.substring_char(i, j).to_owned();
            let t = Token { tok: Tok::Ident { text }, span: here };
            proof {
                lemma_lex_step(toks@, t, source@, j as int, line as int, col + (j - i));
            }
            toks.push(t);
            col = col + (j - i);
            i = j;
        } else if c == '@' && i + 1 < s_len {
            let c2 = source.get_char(i + 1);
            if ch_is_ident_start(c2) {
                let j = scan_ident(source, i + 1, s_len);
                let text = source.substring_char(i + 1, j).to_owned();
                let t = Token { tok: Tok::AtWord { text }, span: here };
                proof {
                    lemma_lex_step(toks@, t, source@, j as int, line as int, col + (j - i));
                }
                toks.push(t);
                col = col + (j - i);
                i = j;
            } else {
                proof {
                    assert(rest is Err);
                }
                return Err(ParseError { span: here, kind: ParseErrorKind::UnexpectedChar });
            }
        } else {
            let sym = match_sym(c);
            match sym {
                Some(tk) => {
                    let t = Token { tok: tk, span: here };
                    proof {
                        lemma_lex_step(toks@, t, source@, i + 1, line as int, col + 1);
                    }
                    toks.push(t);
                    col = col + 1;
                    i = i + 1;
                },
                None => {
                    proof {
                        assert(rest is Err);
                    }
                    return Err(ParseError { span: here, kind: ParseErrorKind::UnexpectedChar });
                },
            }
        }
    }
}

/// Combines already-read tokens with the outcome for the remaining input.
pub open spec fn lex_combine(
    prefix: Seq<TokenView>,
    r: Result<(Seq<TokenView>, Span), ParseError>,
) -> Result<(Seq<TokenView>, Span), ParseError> {
    match r {
        Ok((ts, eof)) => Ok((prefix + ts, eof)),
        Err(e) => Err(e),
    }
}

/// Returns the single-symbol token of `c`, if any.
fn match_sym(c: char) -> (r: Option<Tok>)
    ensures
        match r {
            Some(t) => sym_tok(c) == Some(view_tok(t)),
            None => sym_tok(c) is None,
        },
{
    if c == '(' {
        Some(Tok::LParen)
    } else if c == ')' {
        Some(Tok::RParen)
    } else if c == '{' {
        Some(Tok::LBrace)
    } else if c == '}' {
        Some(Tok::RBrace)
    } else if c == ';' {
        Some(Tok::Semi)
    } else if c == ',' {
        Some(Tok::Comma)
    } else if c == ':' {
        Some(Tok::Colon)
    } else if c == '=' {
        Some(Tok::Assign)
    } else if c == '+' {
        Some(Tok::Plus)
    } else if c == '*' {
        Some(Tok::Star)
    } else if c == '<' {
        Some(Tok::Lt)
    } else if c == '>' {
        Some(Tok::Gt)
    } else {
        None
    }
}

/// Every character of a digit run is a digit.
pub proof fn lemma_scan_digits_chars(s: Seq<char>, i: int)
    requires
        0 <= i <= s.len(),
    ensures
        forall|k: int| i <= k < spec_scan_digits(s, i) ==> is_digit(s[k]),
    decreases s.len() - i,
{
    if !(i >= s.len() || !is_digit(s[i])) {
        lemma_scan_digits_chars(s, i + 1);
        lemma_scan_digits_bounds(s, i + 1);
    }
}

/// Rewrites one combined lexer step around a newly read token.
proof fn lemma_lex_step(toks: Seq<Token>, t: Token, s: Seq<char>, i: int, line: int, col: int)
    ensures
        lex_combine(view_tokens(toks), lex_prepend(view_token(t), spec_lex_from(s, i, line, col)))
            == lex_combine(view_tokens(toks.push(t)), spec_lex_from(s, i, line, col)),
{
    lemma_view_tokens_push(toks, t);
    match spec_lex_from(s, i, line, col) {
        Ok((ts, eof)) => {
            assert(view_tokens(toks) + (seq![view_token(t)] + ts) =~= view_tokens(toks).push(
                view_token(t),
            ) + ts);
        },
        Err(_) => {},
    }
}

} // verus!

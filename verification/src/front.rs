//! The two frontends. The GLSL-like frontend parses a source text for a
//! requested stage, after applying preprocessor-style defines, and marks the
//! requested entry-point function. The WGSL-like frontend reads the stages
//! from entry-point attributes in the text itself.
use vstd::prelude::*;
use crate::ir::{
    Function, FunctionView, Global, GlobalClass, GlobalView, Module, ModuleView, ShaderStage, Span,
    EntryPoint, EntryPointView, stage_bit, stage_mask, lemma_view_globals, lemma_view_functions,
    lemma_view_entries, lemma_view_globals_push, lemma_view_functions_push,
    lemma_view_entries_push, view_entries, view_entry, view_function, view_functions, view_global,
    view_globals, view_module,
};
use crate::err::{ParseError, ParseErrorKind};
use crate::lex::{
    Token, TokenView, Tok, TokView, lex, spec_lex, view_tok, view_token, view_tokens,
    lemma_view_tokens,
};
use crate::parse::{
    Dialect, at_least, clamp_at_least, expect_sym, find_function, find_global, idx_matches,
    is_reserved, num_matches, p_stmts, read_ident, read_number, reserved_word, spec_expect,
    spec_find_function, spec_find_global, spec_p_stmts, spec_read_ident, spec_read_number,
    spec_ty_keyword, stmts_matches, tokens_rem, ty_keyword, word_is, word_matches,
};

verus! {

// ===== Preprocessor-style defines =====

/// A name-to-value substitution applied to the token stream before parsing.
pub struct Define {
    pub name: String,
    pub value: String,
}

/// Ghost view of a define: name and value.
pub open spec fn view_defines(ds: Seq<Define>) -> Seq<(Seq<char>, Seq<char>)>
    decreases ds,
{
    if ds.len() == 0 {
        Seq::empty()
    } else {
        seq![(ds[0].name@, ds[0].value@)] + view_defines(ds.skip(1))
    }
}

pub proof fn lemma_view_defines(ds: Seq<Define>)
    ensures
        view_defines(ds).len() == ds.len(),
        forall|i: int|
            0 <= i < ds.len() ==> view_defines(ds)[i] == (ds[i].name@, ds[i].value@),
    decreases ds,
{
    if ds.len() > 0 {
        lemma_view_defines(ds.skip(1));
    }
}

/// The single token a define's value must lex to. A value the machine
/// cannot even index is rejected like one that lexes wrongly.
pub open spec fn spec_define_tok(value: Seq<char>) -> Result<TokView, ParseError> {
    if value.len() >= usize::MAX {
        Err(
            ParseError {
                span: Span { line: 0, col: 0, offset: 0 },
                kind: ParseErrorKind::InvalidDefine,
            },
        )
    } else {
        spec_define_tok_lexed(value)
    }
}

pub open spec fn spec_define_tok_lexed(value: Seq<char>) -> Result<TokView, ParseError> {
    match spec_lex(value) {
        Ok((ts, _)) => if ts.len() == 1 {
            Ok(ts[0].tok)
        } else {
            Err(
                ParseError {
                    span: Span { line: 0, col: 0, offset: 0 },
                    kind: ParseErrorKind::InvalidDefine,
                },
            )
        },
        Err(_) => Err(
            ParseError {
                span: Span { line: 0, col: 0, offset: 0 },
                kind: ParseErrorKind::InvalidDefine,
            },
        ),
    }
}

/// The first define whose value is not a single token, if any.
pub open spec fn spec_first_bad_define(ds: Seq<(Seq<char>, Seq<char>)>, j: int) -> Option<int>
    decreases ds.len() - j,
{
    if j < 0 || j >= ds.len() {
        None
    } else if spec_define_tok(ds[j].1) is Err {
        Some(j)
    } else {
        spec_first_bad_define(ds, j + 1)
    }
}

/// The first define at or after `j` whose name is `w`, if any.
pub open spec fn spec_find_define(ds: Seq<(Seq<char>, Seq<char>)>, j: int, w: Seq<char>) -> Option<
    int,
>
    decreases ds.len() - j,
{
    if j < 0 || j >= ds.len() {
        None
    } else if ds[j].0 == w {
        Some(j)
    } else {
        spec_find_define(ds, j + 1, w)
    }
}

/// One token after substitution: an identifier matching a define is replaced
/// by the define's value token, keeping its position.
pub open spec fn spec_subst_one(tv: TokenView, ds: Seq<(Seq<char>, Seq<char>)>) -> TokenView {
    match tv.tok {
        TokView::Ident { text } => match spec_find_define(ds, 0, text) {
            Some(k) => TokenView { tok: spec_define_tok(ds[k].1)->Ok_0, span: tv.span },
            None => tv,
        },
        _ => tv,
    }
}

/// The token stream after applying every define once, or the first define
/// whose value is not a single token.
pub open spec fn spec_apply_defines(
    ts: Seq<TokenView>,
    ds: Seq<(Seq<char>, Seq<char>)>,
) -> Result<Seq<TokenView>, ParseError> {
    if spec_first_bad_define(ds, 0) is Some {
        Err(
            ParseError {
                span: Span { line: 0, col: 0, offset: 0 },
                kind: ParseErrorKind::InvalidDefine,
            },
        )
    } else {
        Ok(Seq::new(ts.len(), |i: int| spec_subst_one(ts[i], ds)))
    }
}

/// Returns a clone of the token.
fn tok_clone(t: &Tok) -> (r: Tok)
    ensures
        view_tok(r) == view_tok(*t),
{
    match t {
        Tok::Ident { text } => Tok::Ident { text: text.clone() },
        Tok::AtWord { text } => Tok::AtWord { text: text.clone() },
        Tok::Number { value } => Tok::Number { value: *value },
        Tok::LParen => Tok::LParen,
        Tok::RParen => Tok::RParen,
        Tok::LBrace => Tok::LBrace,
        Tok::RBrace => Tok::RBrace,
        Tok::Semi => Tok::Semi,
        Tok::Comma => Tok::Comma,
        Tok::Colon => Tok::Colon,
        Tok::Assign => Tok::Assign,
        Tok::Plus => Tok::Plus,
        Tok::Star => Tok::Star,
        Tok::Lt => Tok::Lt,
        Tok::Gt => Tok::Gt,
    }
}

/// A define with its value already lexed to its single token.
struct ReadyDefine {
    name: String,
    tok: Tok,
}

/// Applies the defines to the token stream.
fn apply_defines(toks: Vec<Token>, defines: &Vec<Define>) -> (r: Result<Vec<Token>, ParseError>)
    ensures
        match (r, spec_apply_defines(view_tokens(toks@), view_defines(defines@))) {
            (Ok(p), Ok(q)) => view_tokens(p@) == q,
            (Err(a), Err(b)) => a == b,
            _ => false,
        },
{
    proof {
        lemma_view_tokens(toks@);
        lemma_view_defines(defines@);
    }
    let ghost dsv = view_defines(defines@);
    let mut ready: Vec<ReadyDefine> = Vec::new();
    let mut di: usize = 0;
    while di < defines.len()
        invariant
            di <= defines.len(),
            dsv == view_defines(defines@),
            dsv.len() == defines@.len(),
            forall|k: int| 0 <= k < defines@.len() ==> dsv[k] == (defines@[k].name@, defines@[k].value@),
            forall|k: int| 0 <= k < di ==> spec_define_tok(dsv[k].1) is Ok,
            ready@.len() == di,
            forall|k: int|
                0 <= k < di ==> (#[trigger] ready@[k]).name@ == dsv[k].0 && view_tok(ready@[k].tok)
                    == spec_define_tok(dsv[k].1)->Ok_0,
        decreases defines.len() - di,
    {
        let value: &String = &defines[di].value;
        let bad = ParseError {
            span: Span { line: 0, col: 0, offset: 0 },
            kind: ParseErrorKind::InvalidDefine,
        };
        if value.as_str().unicode_len() >= usize::MAX {
            proof {
                assert(spec_define_tok(dsv[di as int].1) is Err);
                lemma_first_bad_is_some(dsv, 0, di as int);
            }
            return Err(bad);
        }
        let lr = lex(value.as_str());
        match lr {
            Ok((ts, _)) => {
                if ts.len() != 1 {
                    proof {
                        lemma_view_tokens(ts@);
                        assert(spec_define_tok(dsv[di as int].1) is Err);
                        lemma_first_bad_is_some(dsv, 0, di as int);
                    }
                    return Err(bad);
                }
                let t0 = tok_clone(&ts[0].tok);
                proof {
                    lemma_view_tokens(ts@);
                    assert(spec_define_tok(dsv[di as int].1) is Ok);
                    assert(view_tok(t0) == spec_define_tok(dsv[di as int].1)->Ok_0);
                }
                ready.push(ReadyDefine { name: defines[di].name.clone(), tok: t0 });
            },
            Err(_) => {
                proof {
                    assert(spec_define_tok(dsv[di as int].1) is Err);
                    lemma_first_bad_is_some(dsv, 0, di as int);
                }
                return Err(bad);
            },
        }
        di = di + 1;
    }
    proof {
        if spec_first_bad_define(dsv, 0) is Some {
            let b = spec_first_bad_define(dsv, 0)->Some_0;
            lemma_first_bad_bounds(dsv, 0);
            assert(spec_define_tok(dsv[b].1) is Ok);
            lemma_first_bad_at(dsv, 0);
            assert(false);
        }
    }
    let ghost tsv = view_tokens(toks@);
    let mut out: Vec<Token> = Vec::new();
    let mut i: usize = 0;
    while i < toks.len()
        invariant
            i <= toks.len(),
            tsv == view_tokens(toks@),
            tsv.len() == toks@.len(),
            forall|k: int| 0 <= k < toks@.len() ==> tsv[k] == view_token(toks@[k]),
            dsv == view_defines(defines@),
            ready@.len() == dsv.len(),
            forall|k: int|
                0 <= k < dsv.len() ==> (#[trigger] ready@[k]).name@ == dsv[k].0 && view_tok(
                    ready@[k].tok,
                ) == spec_define_tok(dsv[k].1)->Ok_0,
            out@.len() == i,
            forall|k: int|
                0 <= k < i ==> view_token(#[trigger] out@[k]) == spec_subst_one(tsv[k], dsv),
        decreases toks.len() - i,
    {
        let sp = toks[i].span;
        let replaced: Token = match &toks[i].tok {
            Tok::Ident { text } => {
                match find_ready(&ready, 0, text) {
                    Some(k) => {
                        proof {
                            assert(dsv[k as int].0 == text@);
                            assert forall|m: int| 0 <= m < k implies dsv[m].0 != text@ by {
                                assert(ready@[m].name@ != text@);
                            }
                            lemma_find_define_pointwise(dsv, 0, text@, k as int);
                        }
                        Token { tok: tok_clone(&ready[k].tok), span: sp }
                    },
                    None => {
                        proof {
                            assert forall|m: int| 0 <= m < dsv.len() implies dsv[m].0 != text@ by {
                                assert(ready@[m].name@ != text@);
                            }
                            lemma_find_define_none(dsv, 0, text@);
                        }
                        Token { tok: tok_clone(&toks[i].tok), span: sp }
                    },
                }
            },
            _ => Token { tok: tok_clone(&toks[i].tok), span: sp },
        };
        proof {
            assert(view_token(replaced) == spec_subst_one(tsv[i as int], dsv));
        }
        out.push(replaced);
        i = i + 1;
    }
    proof {
        lemma_view_tokens(out@);
        assert(view_tokens(out@) =~= Seq::new(tsv.len(), |k: int| spec_subst_one(tsv[k], dsv)));
    }
    Ok(out)
}

/// A bad define at `k` makes `spec_first_bad_define` from an all-good prefix
/// return a bad index at or before `k`.
proof fn lemma_first_bad_is_some(ds: Seq<(Seq<char>, Seq<char>)>, j: int, k: int)
    requires
        0 <= j <= k < ds.len(),
        spec_define_tok(ds[k].1) is Err,
    ensures
        spec_first_bad_define(ds, j) is Some,
    decreases k - j,
{
    if !(spec_define_tok(ds[j].1) is Err) {
        lemma_first_bad_is_some(ds, j + 1, k);
    }
}

/// The index `spec_first_bad_define` returns is in range.
proof fn lemma_first_bad_bounds(ds: Seq<(Seq<char>, Seq<char>)>, j: int)
    requires
        0 <= j,
        spec_first_bad_define(ds, j) is Some,
    ensures
        j <= spec_first_bad_define(ds, j)->Some_0 < ds.len(),
    decreases ds.len() - j,
{
    if j < ds.len() && !(spec_define_tok(ds[j].1) is Err) {
        lemma_first_bad_bounds(ds, j + 1);
    }
}

/// The define `spec_first_bad_define` points at is bad.
proof fn lemma_first_bad_at(ds: Seq<(Seq<char>, Seq<char>)>, j: int)
    requires
        0 <= j,
        spec_first_bad_define(ds, j) is Some,
    ensures
        spec_define_tok(ds[spec_first_bad_define(ds, j)->Some_0].1) is Err,
    decreases ds.len() - j,
{
    if j < ds.len() && !(spec_define_tok(ds[j].1) is Err) {
        lemma_first_bad_at(ds, j + 1);
    }
}

/// Returns the first ready define at or after `j` named `w`, mirroring
/// `spec_find_define` over the define list it was built from.
fn find_ready(ready: &Vec<ReadyDefine>, j: usize, w: &String) -> (r: Option<usize>)
    requires
        j <= ready@.len(),
    ensures
        match r {
            Some(k) => j <= k < ready@.len() && ready@[k as int].name@ == w@ && (forall|m: int|
                j <= m < k ==> (#[trigger] ready@[m]).name@ != w@),
            None => forall|m: int| j <= m < ready@.len() ==> (#[trigger] ready@[m]).name@ != w@,
        },
    decreases ready@.len() - j,
{
    if j >= ready.len() {
        return None;
    }
    if ready[j].name == *w {
        Some(j)
    } else {
        find_ready(ready, j + 1, w)
    }
}

/// `spec_find_define` agrees with a pointwise description.
proof fn lemma_find_define_pointwise(
    ds: Seq<(Seq<char>, Seq<char>)>,
    j: int,
    w: Seq<char>,
    k: int,
)
    requires
        0 <= j <= k < ds.len(),
        ds[k].0 == w,
        forall|m: int| j <= m < k ==> ds[m].0 != w,
    ensures
        spec_find_define(ds, j, w) == Some(k),
    decreases k - j,
{
    if j < k {
        lemma_find_define_pointwise(ds, j + 1, w, k);
    }
}

/// `spec_find_define` is `None` when nothing matches.
proof fn lemma_find_define_none(ds: Seq<(Seq<char>, Seq<char>)>, j: int, w: Seq<char>)
    requires
        0 <= j,
        forall|m: int| j <= m < ds.len() ==> ds[m].0 != w,
    ensures
        spec_find_define(ds, j, w) is None,
    decreases ds.len() - j,
{
    if j < ds.len() {
        lemma_find_define_none(ds, j + 1, w);
    }
}


// ===== Shared top-level helpers =====

/// Consumes the identifier `w` at `i`.
pub open spec fn spec_expect_word(t: Seq<TokenView>, i: int, eof: Span, w: Seq<char>) -> Result<
    int,
    ParseError,
> {
    match spec_read_ident(t, i, eof) {
        Ok((x, xsp, j)) => if x == w {
            Ok(j)
        } else {
            Err(ParseError { span: xsp, kind: ParseErrorKind::UnexpectedToken })
        },
        Err(er) => Err(er),
    }
}

/// Consumes the identifier `w` at `i`.
pub fn expect_word(t: &Vec<Token>, i: usize, eof: Span, w: &str) -> (r: Result<usize, ParseError>)
    ensures
        idx_matches(r, spec_expect_word(view_tokens(t@), i as int, eof, w@)),
{
    match read_ident(t, i, eof) {
        Ok((x, xsp, j)) => if word_is(&x, w) {
            Ok(j)
        } else {
            Err(ParseError { span: xsp, kind: ParseErrorKind::UnexpectedToken })
        },
        Err(er) => Err(er),
    }
}

/// The error a top-level declared name raises, if any: reserved words and
/// names already bound by a global or function are refused.
pub open spec fn spec_top_name_err(
    name: Seq<char>,
    nsp: Span,
    g: Seq<GlobalView>,
    f: Seq<FunctionView>,
) -> Option<ParseError> {
    if is_reserved(name) {
        Some(ParseError { span: nsp, kind: ParseErrorKind::ReservedWord })
    } else if spec_find_global(g, 0, name) is Some {
        Some(ParseError { span: nsp, kind: ParseErrorKind::DuplicateName })
    } else if spec_find_function(f, 0, name) is Some {
        Some(ParseError { span: nsp, kind: ParseErrorKind::DuplicateName })
    } else {
        None
    }
}

/// Checks a top-level declared name.
pub fn top_name_err(name: &String, nsp: Span, g: &Vec<Global>, f: &Vec<Function>) -> (r: Option<
    ParseError,
>)
    ensures
        r == spec_top_name_err(name@, nsp, view_globals(g@), view_functions(f@)),
{
    if reserved_word(name) {
        Some(ParseError { span: nsp, kind: ParseErrorKind::ReservedWord })
    } else if find_global(g, 0, name).is_some() {
        Some(ParseError { span: nsp, kind: ParseErrorKind::DuplicateName })
    } else if find_function(f, 0, name).is_some() {
        Some(ParseError { span: nsp, kind: ParseErrorKind::DuplicateName })
    } else {
        None
    }
}

/// Whether an executable global-declaration outcome carries the ghost one.
pub open spec fn global_matches(
    r: Result<(Global, usize), ParseError>,
    s: Result<(GlobalView, int), ParseError>,
) -> bool {
    match (r, s) {
        (Ok(p), Ok(q)) => view_global(p.0) == q.0 && p.1 == q.1,
        (Err(a), Err(b)) => a == b,
        _ => false,
    }
}

/// Whether an executable function-declaration outcome carries the ghost one.
pub open spec fn function_matches(
    r: Result<(Function, usize), ParseError>,
    s: Result<(FunctionView, int), ParseError>,
) -> bool {
    match (r, s) {
        (Ok(p), Ok(q)) => view_function(p.0) == q.0 && p.1 == q.1,
        (Err(a), Err(b)) => a == b,
        _ => false,
    }
}

/// Whether an executable module outcome carries the ghost one.
pub open spec fn module_matches(
    r: Result<Module, ParseError>,
    s: Result<ModuleView, ParseError>,
) -> bool {
    match (r, s) {
        (Ok(m), Ok(sm)) => view_module(m) == sm,
        (Err(a), Err(b)) => a == b,
        _ => false,
    }
}

// ===== The GLSL-like frontend =====

/// Parses the rest of a stage input after `in`: a value type, a fresh name
/// and `;`. The attribute's location is the count of attributes before it.
pub open spec fn spec_p_glsl_attr_tail(
    t: Seq<TokenView>,
    i: int,
    sp: Span,
    nattr: int,
    eof: Span,
    g: Seq<GlobalView>,
    f: Seq<FunctionView>,
) -> Result<(GlobalView, int), ParseError> {
    match spec_read_ident(t, i, eof) {
        Ok((tyword, tysp, j)) => match spec_ty_keyword(Dialect::Glsl, tyword) {
            Some(ty) => match spec_read_ident(t, j, eof) {
                Ok((name, nsp, j2)) => match spec_top_name_err(name, nsp, g, f) {
                    Some(er) => Err(er),
                    None => match spec_expect(t, j2, eof, TokView::Semi) {
                        Ok(j3) => Ok(
                            (
                                GlobalView {
                                    name,
                                    class: GlobalClass::Attribute {
                                        location: nattr as usize,
                                        ty,
                                    },
                                    span: sp,
                                },
                                j3,
                            ),
                        ),
                        Err(er) => Err(er),
                    },
                },
                Err(er) => Err(er),
            },
            None => Err(ParseError { span: tysp, kind: ParseErrorKind::UnexpectedToken }),
        },
        Err(er) => Err(er),
    }
}

/// Parses the rest of a stage input after `in`.
pub fn p_glsl_attr_tail(
    t: &Vec<Token>,
    i: usize,
    sp: Span,
    nattr: usize,
    eof: Span,
    g: &Vec<Global>,
    f: &Vec<Function>,
) -> (r: Result<(Global, usize), ParseError>)
    ensures
        global_matches(
            r,
            spec_p_glsl_attr_tail(
                view_tokens(t@),
                i as int,
                sp,
                nattr as int,
                eof,
                view_globals(g@),
                view_functions(f@),
            ),
        ),
{
    let (tyword, tysp, j) = match read_ident(t, i, eof) {
        Ok(p) => p,
        Err(er) => {
            return Err(er);
        },
    };
    let ty = match ty_keyword(Dialect::Glsl, &tyword) {
        Some(ty) => ty,
        None => {
            return Err(ParseError { span: tysp, kind: ParseErrorKind::UnexpectedToken });
        },
    };
    let (name, nsp, j2) = match read_ident(t, j, eof) {
        Ok(p) => p,
        Err(er) => {
            return Err(er);
        },
    };
    if let Some(er) = top_name_err(&name, nsp, g, f) {
        return Err(er);
    }
    let j3 = match expect_sym(t, j2, eof, Tok::Semi) {
        Ok(p) => p,
        Err(er) => {
            return Err(er);
        },
    };
    Ok(
        (
            Global {
                name,
                class: GlobalClass::Attribute { location: nattr, ty },
                span: sp,
            },
            j3,
        ),
    )
}

/// The resource class a GLSL resource keyword pair names, given the
/// `(group, binding)` pair and the visibility of the parsed stage.
pub open spec fn spec_glsl_res_class(
    kw: Seq<char>,
    w2: Seq<char>,
    gnum: u32,
    bnum: u32,
    vis: u32,
) -> Option<GlobalClass> {
    if kw == "uniform"@ {
        match spec_ty_keyword(Dialect::Glsl, w2) {
            Some(ty) => Some(
                GlobalClass::UniformBuffer { group: gnum, binding: bnum, visibility: vis, ty },
            ),
            None => if w2 == "texture2D"@ {
                Some(
                    GlobalClass::Texture {
                        group: gnum,
                        binding: bnum,
                        visibility: vis,
                        multisampled_array: false,
                    },
                )
            } else if w2 == "texture2DMSArray"@ {
                Some(
                    GlobalClass::Texture {
                        group: gnum,
                        binding: bnum,
                        visibility: vis,
                        multisampled_array: true,
                    },
                )
            } else if w2 == "sampler"@ {
                Some(GlobalClass::Sampler { group: gnum, binding: bnum, visibility: vis })
            } else {
                None
            },
        }
    } else if kw == "buffer"@ {
        match spec_ty_keyword(Dialect::Glsl, w2) {
            Some(ty) => Some(
                GlobalClass::StorageBuffer { group: gnum, binding: bnum, visibility: vis, ty },
            ),
            None => None,
        }
    } else {
        None
    }
}

/// Returns the resource class of a GLSL resource keyword pair.
pub fn glsl_res_class(kw: &String, w2: &String, gnum: u32, bnum: u32, vis: u32) -> (r: Option<
    GlobalClass,
>)
    ensures
        r == spec_glsl_res_class(kw@, w2@, gnum, bnum, vis),
{
    if word_is(kw, "uniform") {
        match ty_keyword(Dialect::Glsl, w2) {
            Some(ty) => Some(
                GlobalClass::UniformBuffer { group: gnum, binding: bnum, visibility: vis, ty },
            ),
            None => if word_is(w2, "texture2D") {
                Some(
                    GlobalClass::Texture {
                        group: gnum,
                        binding: bnum,
                        visibility: vis,
                        multisampled_array: false,
                    },
                )
            } else if word_is(w2, "texture2DMSArray") {
                Some(
                    GlobalClass::Texture {
                        group: gnum,
                        binding: bnum,
                        visibility: vis,
                        multisampled_array: true,
                    },
                )
            } else if word_is(w2, "sampler") {
                Some(GlobalClass::Sampler { group: gnum, binding: bnum, visibility: vis })
            } else {
                None
            },
        }
    } else if word_is(kw, "buffer") {
        match ty_keyword(Dialect::Glsl, w2) {
            Some(ty) => Some(
                GlobalClass::StorageBuffer { group: gnum, binding: bnum, visibility: vis, ty },
            ),
            None => None,
        }
    } else {
        None
    }
}

/// Parses the rest of a resource declaration after `layout`:
/// `( set = N , binding = M )` and the classed, named resource.
pub open spec fn spec_p_glsl_layout_tail(
    t: Seq<TokenView>,
    i: int,
    sp: Span,
    stage: ShaderStage,
    eof: Span,
    g: Seq<GlobalView>,
    f: Seq<FunctionView>,
) -> Result<(GlobalView, int), ParseError> {
    match spec_expect(t, i, eof, TokView::LParen) {
        Ok(j0) => match spec_expect_word(t, j0, eof, "set"@) {
            Ok(j1) => match spec_expect(t, j1, eof, TokView::Assign) {
                Ok(j2) => match spec_read_number(t, j2, eof) {
                    Ok((gnum, _, j3)) => match spec_expect(t, j3, eof, TokView::Comma) {
                        Ok(j4) => match spec_expect_word(t, j4, eof, "binding"@) {
                            Ok(j5) => match spec_expect(t, j5, eof, TokView::Assign) {
                                Ok(j6) => match spec_read_number(t, j6, eof) {
                                    Ok((bnum, _, j7)) => match spec_expect(
                                        t,
                                        j7,
                                        eof,
                                        TokView::RParen,
                                    ) {
                                        Ok(j8) => match spec_read_ident(t, j8, eof) {
                                            Ok((kw, ksp, j9)) => match spec_read_ident(
                                                t,
                                                j9,
                                                eof,
                                            ) {
                                                Ok((w2, w2sp, j10)) => match spec_glsl_res_class(
                                                    kw,
                                                    w2,
                                                    gnum,
                                                    bnum,
                                                    stage_bit(stage),
                                                ) {
                                                    Some(class) => match spec_read_ident(
                                                        t,
                                                        j10,
                                                        eof,
                                                    ) {
                                                        Ok((name, nsp, j11)) => match spec_top_name_err(
                                                            name,
                                                            nsp,
                                                            g,
                                                            f,
                                                        ) {
                                                            Some(er) => Err(er),
                                                            None => match spec_expect(
                                                                t,
                                                                j11,
                                                                eof,
                                                                TokView::Semi,
                                                            ) {
                                                                Ok(j12) => Ok(
                                                                    (
                                                                        GlobalView {
                                                                            name,
                                                                            class,
                                                                            span: sp,
                                                                        },
                                                                        j12,
                                                                    ),
                                                                ),
                                                                Err(er) => Err(er),
                                                            },
                                                        },
                                                        Err(er) => Err(er),
                                                    },
                                                    None => Err(
                                                        ParseError {
                                                            span: w2sp,
                                                            kind: ParseErrorKind::UnexpectedToken,
                                                        },
                                                    ),
                                                },
                                                Err(er) => Err(er),
                                            },
                                            Err(er) => Err(er),
                                        },
                                        Err(er) => Err(er),
                                    },
                                    Err(er) => Err(er),
                                },
                                Err(er) => Err(er),
                            },
                            Err(er) => Err(er),
                        },
                        Err(er) => Err(er),
                    },
                    Err(er) => Err(er),
                },
                Err(er) => Err(er),
            },
            Err(er) => Err(er),
        },
        Err(er) => Err(er),
    }
}

/// Parses the rest of a resource declaration after `layout`.
#[verifier::rlimit(100)]
pub fn p_glsl_layout_tail(
    t: &Vec<Token>,
    i: usize,
    sp: Span,
    stage: ShaderStage,
    eof: Span,
    g: &Vec<Global>,
    f: &Vec<Function>,
) -> (r: Result<(Global, usize), ParseError>)
    ensures
        global_matches(
            r,
            spec_p_glsl_layout_tail(
                view_tokens(t@),
                i as int,
                sp,
                stage,
                eof,
                view_globals(g@),
                view_functions(f@),
            ),
        ),
{
    let j0 = match expect_sym(t, i, eof, Tok::LParen) {
        Ok(p) => p,
        Err(er) => {
            return Err(er);
        },
    };
    let j1 = match expect_word(t, j0, eof, "set") {
        Ok(p) => p,
        Err(er) => {
            return Err(er);
        },
    };
    let j2 = match expect_sym(t, j1, eof, Tok::Assign) {
        Ok(p) => p,
        Err(er) => {
            return Err(er);
        },
    };
    let (gnum, _gsp, j3) = match read_number(t, j2, eof) {
        Ok(p) => p,
        Err(er) => {
            return Err(er);
        },
    };
    let j4 = match expect_sym(t, j3, eof, Tok::Comma) {
        Ok(p) => p,
        Err(er) => {
            return Err(er);
        },
    };
    let j5 = match expect_word(t, j4, eof, "binding") {
        Ok(p) => p,
        Err(er) => {
            return Err(er);
        },
    };
    let j6 = match expect_sym(t, j5, eof, Tok::Assign) {
        Ok(p) => p,
        Err(er) => {
            return Err(er);
        },
    };
    let (bnum, _bsp, j7) = match read_number(t, j6, eof) {
        Ok(p) => p,
        Err(er) => {
            return Err(er);
        },
    };
    let j8 = match expect_sym(t, j7, eof, Tok::RParen) {
        Ok(p) => p,
        Err(er) => {
            return Err(er);
        },
    };
    let (kw, _ksp, j9) = match read_ident(t, j8, eof) {
        Ok(p) => p,
        Err(er) => {
            return Err(er);
        },
    };
    let (w2, w2sp, j10) = match read_ident(t, j9, eof) {
        Ok(p) => p,
        Err(er) => {
            return Err(er);
        },
    };
    let class = match glsl_res_class(&kw, &w2, gnum, bnum, stage_mask(stage)) {
        Some(c) => c,
        None => {
            return Err(ParseError { span: w2sp, kind: ParseErrorKind::UnexpectedToken });
        },
    };
    let (name, nsp, j11) = match read_ident(t, j10, eof) {
        Ok(p) => p,
        Err(er) => {
            return Err(er);
        },
    };
    if let Some(er) = top_name_err(&name, nsp, g, f) {
        return Err(er);
    }
    let j12 = match expect_sym(t, j11, eof, Tok::Semi) {
        Ok(p) => p,
        Err(er) => {
            return Err(er);
        },
    };
    Ok((Global { name, class, span: sp }, j12))
}

/// Parses the rest of a function after `void`: a fresh name, `( )` and the
/// body, under the requested stage.
pub open spec fn spec_p_glsl_fn_tail(
    t: Seq<TokenView>,
    i: int,
    sp: Span,
    stage: ShaderStage,
    eof: Span,
    g: Seq<GlobalView>,
    f: Seq<FunctionView>,
) -> Result<(FunctionView, int), ParseError>
    decreases tokens_rem(t.len() as int, i), 10int,
{
    if i < 0 || i >= t.len() {
        Err(ParseError { span: eof, kind: ParseErrorKind::UnexpectedEof })
    } else {
        match spec_read_ident(t, i, eof) {
            Ok((name, nsp, j)) => match spec_top_name_err(name, nsp, g, f) {
                Some(er) => Err(er),
                None => match spec_expect(t, j, eof, TokView::LParen) {
                    Ok(j1) => match spec_expect(t, j1, eof, TokView::RParen) {
                        Ok(j2) => match spec_expect(t, j2, eof, TokView::LBrace) {
                            Ok(j3) => match spec_p_stmts(
                                t,
                                at_least(j3, i + 1),
                                eof,
                                Dialect::Glsl,
                                Some(stage),
                                g,
                                Seq::empty(),
                                Seq::empty(),
                            ) {
                                Ok((body, locals, j4)) => Ok(
                                    (FunctionView { name, locals, body, span: sp }, j4),
                                ),
                                Err(er) => Err(er),
                            },
                            Err(er) => Err(er),
                        },
                        Err(er) => Err(er),
                    },
                    Err(er) => Err(er),
                },
            },
            Err(er) => Err(er),
        }
    }
}

/// Parses the rest of a function after `void`.
pub fn p_glsl_fn_tail(
    t: &Vec<Token>,
    i: usize,
    sp: Span,
    stage: ShaderStage,
    eof: Span,
    g: &Vec<Global>,
    f: &Vec<Function>,
) -> (r: Result<(Function, usize), ParseError>)
    ensures
        function_matches(
            r,
            spec_p_glsl_fn_tail(
                view_tokens(t@),
                i as int,
                sp,
                stage,
                eof,
                view_globals(g@),
                view_functions(f@),
            ),
        ),
{
    proof {
        lemma_view_tokens(t@);
    }
    if i >= t.len() {
        return Err(ParseError { span: eof, kind: ParseErrorKind::UnexpectedEof });
    }
    let (name, nsp, j) = match read_ident(t, i, eof) {
        Ok(p) => p,
        Err(er) => {
            return Err(er);
        },
    };
    if let Some(er) = top_name_err(&name, nsp, g, f) {
        return Err(er);
    }
    let j1 = match expect_sym(t, j, eof, Tok::LParen) {
        Ok(p) => p,
        Err(er) => {
            return Err(er);
        },
    };
    let j2 = match expect_sym(t, j1, eof, Tok::RParen) {
        Ok(p) => p,
        Err(er) => {
            return Err(er);
        },
    };
    let j3 = match expect_sym(t, j2, eof, Tok::LBrace) {
        Ok(p) => p,
        Err(er) => {
            return Err(er);
        },
    };
    match p_stmts(
        t,
        clamp_at_least(j3, i + 1),
        eof,
        Dialect::Glsl,
        Some(stage),
        g,
        Vec::new(),
        Vec::new(),
    ) {
        Ok((body, locals, j4)) => Ok((Function { name, locals, body, span: sp }, j4)),
        Err(er) => Err(er),
    }
}

/// Parses a whole GLSL translation unit from `i`, accumulating globals,
/// functions and the entry point named by the request.
pub open spec fn spec_p_glsl_module(
    t: Seq<TokenView>,
    i: int,
    eof: Span,
    stage: ShaderStage,
    entry: Seq<char>,
    g: Seq<GlobalView>,
    f: Seq<FunctionView>,
    e: Seq<EntryPointView>,
    nattr: int,
) -> Result<ModuleView, ParseError>
    decreases tokens_rem(t.len() as int, i), 11int,
{
    if i < 0 || i >= t.len() {
        if e.len() == 0 {
            Err(ParseError { span: eof, kind: ParseErrorKind::MissingEntry })
        } else {
            Ok(ModuleView { globals: g, functions: f, entry_points: e })
        }
    } else {
        match t[i].tok {
            TokView::Ident { text } => if text == "in"@ {
                match spec_p_glsl_attr_tail(t, i + 1, t[i].span, nattr, eof, g, f) {
                    Ok((gv, j)) => spec_p_glsl_module(
                        t,
                        at_least(j, i + 1),
                        eof,
                        stage,
                        entry,
                        g.push(gv),
                        f,
                        e,
                        nattr + 1,
                    ),
                    Err(er) => Err(er),
                }
            } else if text == "layout"@ {
                match spec_p_glsl_layout_tail(t, i + 1, t[i].span, stage, eof, g, f) {
                    Ok((gv, j)) => spec_p_glsl_module(
                        t,
                        at_least(j, i + 1),
                        eof,
                        stage,
                        entry,
                        g.push(gv),
                        f,
                        e,
                        nattr,
                    ),
                    Err(er) => Err(er),
                }
            } else if text == "void"@ {
                match spec_p_glsl_fn_tail(t, i + 1, t[i].span, stage, eof, g, f) {
                    Ok((fv, j)) => spec_p_glsl_module(
                        t,
                        at_least(j, i + 1),
                        eof,
                        stage,
                        entry,
                        g,
                        f.push(fv),
                        if fv.name == entry {
                            e.push(
                                EntryPointView {
                                    name: fv.name,
                                    stage,
                                    function: f.len() as usize,
                                },
                            )
                        } else {
                            e
                        },
                        nattr,
                    ),
                    Err(er) => Err(er),
                }
            } else {
                Err(ParseError { span: t[i].span, kind: ParseErrorKind::UnexpectedToken })
            },
            _ => Err(ParseError { span: t[i].span, kind: ParseErrorKind::UnexpectedToken }),
        }
    }
}

/// Parses a whole GLSL translation unit from `i`.
pub fn p_glsl_module(
    t: &Vec<Token>,
    i: usize,
    eof: Span,
    stage: ShaderStage,
    entry: &String,
    g: Vec<Global>,
    f: Vec<Function>,
    e: Vec<EntryPoint>,
    nattr: usize,
) -> (r: Result<Module, ParseError>)
    requires
        nattr <= i,
    ensures
        module_matches(
            r,
            spec_p_glsl_module(
                view_tokens(t@),
                i as int,
                eof,
                stage,
                entry@,
                view_globals(g@),
                view_functions(f@),
                view_entries(e@),
                nattr as int,
            ),
        ),
    decreases tokens_rem(t@.len() as int, i as int), 11int,
{
    proof {
        lemma_view_tokens(t@);
        lemma_view_entries(e@);
    }
    if i >= t.len() {
        if e.len() == 0 {
            return Err(ParseError { span: eof, kind: ParseErrorKind::MissingEntry });
        }
        return Ok(Module { globals: g, functions: f, entry_points: e });
    }
    let sp = t[i].span;
    match &t[i].tok {
        Tok::Ident { text } => {
            if word_is(text, "in") {
                match p_glsl_attr_tail(t, i + 1, sp, nattr, eof, &g, &f) {
                    Ok((gl, j)) => {
                        let mut g2 = g;
                        proof {
                            lemma_view_globals_push(g2@, gl);
                        }
                        g2.push(gl);
                        p_glsl_module(
                            t,
                            clamp_at_least(j, i + 1),
                            eof,
                            stage,
                            entry,
                            g2,
                            f,
                            e,
                            nattr + 1,
                        )
                    },
                    Err(er) => Err(er),
                }
            } else if word_is(text, "layout") {
                match p_glsl_layout_tail(t, i + 1, sp, stage, eof, &g, &f) {
                    Ok((gl, j)) => {
                        let mut g2 = g;
                        proof {
                            lemma_view_globals_push(g2@, gl);
                        }
                        g2.push(gl);
                        p_glsl_module(
                            t,
                            clamp_at_least(j, i + 1),
                            eof,
                            stage,
                            entry,
                            g2,
                            f,
                            e,
                            nattr,
                        )
                    },
                    Err(er) => Err(er),
                }
            } else if word_is(text, "void") {
                match p_glsl_fn_tail(t, i + 1, sp, stage, eof, &g, &f) {
                    Ok((fnc, j)) => {
                        let is_entry = fnc.name == *entry;
                        let fidx = f.len();
                        let mut e2 = e;
                        if is_entry {
                            let ep = EntryPoint { name: fnc.name.clone(), stage, function: fidx };
                            proof {
                                lemma_view_entries_push(e2@, ep);
                            }
                            e2.push(ep);
                        }
                        let mut f2 = f;
                        proof {
                            lemma_view_functions(f2@);
                            lemma_view_functions_push(f2@, fnc);
                        }
                        f2.push(fnc);
                        p_glsl_module(
                            t,
                            clamp_at_least(j, i + 1),
                            eof,
                            stage,
                            entry,
                            g,
                            f2,
                            e2,
                            nattr,
                        )
                    },
                    Err(er) => Err(er),
                }
            } else {
                Err(ParseError { span: sp, kind: ParseErrorKind::UnexpectedToken })
            }
        },
        _ => Err(ParseError { span: sp, kind: ParseErrorKind::UnexpectedToken }),
    }
}


// ===== The WGSL-like frontend =====

/// Reads an attribute word token at `i`.
pub open spec fn spec_read_atword(t: Seq<TokenView>, i: int, eof: Span) -> Result<
    (Seq<char>, Span, int),
    ParseError,
> {
    if i < 0 || i >= t.len() {
        Err(ParseError { span: eof, kind: ParseErrorKind::UnexpectedEof })
    } else {
        match t[i].tok {
            TokView::AtWord { text } => Ok((text, t[i].span, i + 1)),
            _ => Err(ParseError { span: t[i].span, kind: ParseErrorKind::UnexpectedToken }),
        }
    }
}

/// Reads an attribute word token at `i`.
pub fn read_atword(t: &Vec<Token>, i: usize, eof: Span) -> (r: Result<
    (String, Span, usize),
    ParseError,
>)
    ensures
        word_matches(r, spec_read_atword(view_tokens(t@), i as int, eof)),
{
    proof {
        lemma_view_tokens(t@);
    }
    if i >= t.len() {
        return Err(ParseError { span: eof, kind: ParseErrorKind::UnexpectedEof });
    }
    match &t[i].tok {
        Tok::AtWord { text } => Ok((text.clone(), t[i].span, i + 1)),
        _ => Err(ParseError { span: t[i].span, kind: ParseErrorKind::UnexpectedToken }),
    }
}

/// The stage an entry-point attribute word names, if any.
pub open spec fn spec_stage_word(w: Seq<char>) -> Option<ShaderStage> {
    if w == "vertex"@ {
        Some(ShaderStage::Vertex)
    } else if w == "fragment"@ {
        Some(ShaderStage::Fragment)
    } else if w == "compute"@ {
        Some(ShaderStage::Compute)
    } else {
        None
    }
}

/// Returns the stage an entry-point attribute word names.
pub fn stage_word(w: &String) -> (r: Option<ShaderStage>)
    ensures
        r == spec_stage_word(w@),
{
    if word_is(w, "vertex") {
        Some(ShaderStage::Vertex)
    } else if word_is(w, "fragment") {
        Some(ShaderStage::Fragment)
    } else if word_is(w, "compute") {
        Some(ShaderStage::Compute)
    } else {
        None
    }
}

/// The resource class a WGSL address-space word and type word name; the
/// visibility mask is filled in after the whole file is read.
pub open spec fn spec_wgsl_res_class(
    space: Seq<char>,
    tyword: Seq<char>,
    gnum: u32,
    bnum: u32,
) -> Option<GlobalClass> {
    if space == "uniform"@ {
        match spec_ty_keyword(Dialect::Wgsl, tyword) {
            Some(ty) => Some(
                GlobalClass::UniformBuffer { group: gnum, binding: bnum, visibility: 0, ty },
            ),
            None => None,
        }
    } else if space == "storage"@ {
        match spec_ty_keyword(Dialect::Wgsl, tyword) {
            Some(ty) => Some(
                GlobalClass::StorageBuffer { group: gnum, binding: bnum, visibility: 0, ty },
            ),
            None => None,
        }
    } else if space == "handle"@ {
        if tyword == "texture2d"@ {
            Some(
                GlobalClass::Texture {
                    group: gnum,
                    binding: bnum,
                    visibility: 0,
                    multisampled_array: false,
                },
            )
        } else if tyword == "texturems2darray"@ {
            Some(
                GlobalClass::Texture {
                    group: gnum,
                    binding: bnum,
                    visibility: 0,
                    multisampled_array: true,
                },
            )
        } else if tyword == "sampler"@ {
            Some(GlobalClass::Sampler { group: gnum, binding: bnum, visibility: 0 })
        } else {
            None
        }
    } else {
        None
    }
}

/// Returns the resource class of a WGSL address-space and type word pair.
pub fn wgsl_res_class(space: &String, tyword: &String, gnum: u32, bnum: u32) -> (r: Option<
    GlobalClass,
>)
    ensures
        r == spec_wgsl_res_class(space@, tyword@, gnum, bnum),
{
    if word_is(space, "uniform") {
        match ty_keyword(Dialect::Wgsl, tyword) {
            Some(ty) => Some(
                GlobalClass::UniformBuffer { group: gnum, binding: bnum, visibility: 0, ty },
            ),
            None => None,
        }
    } else if word_is(space, "storage") {
        match ty_keyword(Dialect::Wgsl, tyword) {
            Some(ty) => Some(
                GlobalClass::StorageBuffer { group: gnum, binding: bnum, visibility: 0, ty },
            ),
            None => None,
        }
    } else if word_is(space, "handle") {
        if word_is(tyword, "texture2d") {
            Some(
                GlobalClass::Texture {
                    group: gnum,
                    binding: bnum,
                    visibility: 0,
                    multisampled_array: false,
                },
            )
        } else if word_is(tyword, "texturems2darray") {
            Some(
                GlobalClass::Texture {
                    group: gnum,
                    binding: bnum,
                    visibility: 0,
                    multisampled_array: true,
                },
            )
        } else if word_is(tyword, "sampler") {
            Some(GlobalClass::Sampler { group: gnum, binding: bnum, visibility: 0 })
        } else {
            None
        }
    } else {
        None
    }
}

/// Parses the rest of a WGSL resource declaration after `@group`.
pub open spec fn spec_p_wgsl_res_tail(
    t: Seq<TokenView>,
    i: int,
    sp: Span,
    eof: Span,
    g: Seq<GlobalView>,
    f: Seq<FunctionView>,
) -> Result<(GlobalView, int), ParseError> {
    match spec_expect(t, i, eof, TokView::LParen) {
        Ok(j0) => match spec_read_number(t, j0, eof) {
            Ok((gnum, _, j1)) => match spec_expect(t, j1, eof, TokView::RParen) {
                Ok(j2) => match spec_read_atword(t, j2, eof) {
                    Ok((bw, bwsp, j3)) => if bw != "binding"@ {
                        Err(ParseError { span: bwsp, kind: ParseErrorKind::UnexpectedToken })
                    } else {
                        match spec_expect(t, j3, eof, TokView::LParen) {
                            Ok(j4) => match spec_read_number(t, j4, eof) {
                                Ok((bnum, _, j5)) => match spec_expect(t, j5, eof, TokView::RParen) {
                                    Ok(j6) => match spec_expect_word(t, j6, eof, "var"@) {
                                        Ok(j7) => match spec_expect(t, j7, eof, TokView::Lt) {
                                            Ok(j8) => match spec_read_ident(t, j8, eof) {
                                                Ok((space, _ssp, j9)) => match spec_expect(
                                                    t,
                                                    j9,
                                                    eof,
                                                    TokView::Gt,
                                                ) {
                                                    Ok(j10) => match spec_read_ident(t, j10, eof) {
                                                        Ok((name, nsp, j11)) => match spec_top_name_err(
                                                            name,
                                                            nsp,
                                                            g,
                                                            f,
                                                        ) {
                                                            Some(er) => Err(er),
                                                            None => match spec_expect(
                                                                t,
                                                                j11,
                                                                eof,
                                                                TokView::Colon,
                                                            ) {
                                                                Ok(j12) => match spec_read_ident(
                                                                    t,
                                                                    j12,
                                                                    eof,
                                                                ) {
                                                                    Ok((tyword, tysp, j13)) => match spec_wgsl_res_class(
                                                                        space,
                                                                        tyword,
                                                                        gnum,
                                                                        bnum,
                                                                    ) {
                                                                        Some(class) => match spec_expect(
                                                                            t,
                                                                            j13,
                                                                            eof,
                                                                            TokView::Semi,
                                                                        ) {
                                                                            Ok(j14) => Ok(
                                                                                (
                                                                                    GlobalView {
                                                                                        name,
                                                                                        class,
                                                                                        span: sp,
                                                                                    },
                                                                                    j14,
                                                                                ),
                                                                            ),
                                                                            Err(er) => Err(er),
                                                                        },
                                                                        None => Err(
                                                                            ParseError {
                                                                                span: tysp,
                                                                                kind: ParseErrorKind::UnexpectedToken,
                                                                            },
                                                                        ),
                                                                    },
                                                                    Err(er) => Err(er),
                                                                },
                                                                Err(er) => Err(er),
                                                            },
                                                        },
                                                        Err(er) => Err(er),
                                                    },
                                                    Err(er) => Err(er),
                                                },
                                                Err(er) => Err(er),
                                            },
                                            Err(er) => Err(er),
                                        },
                                        Err(er) => Err(er),
                                    },
                                    Err(er) => Err(er),
                                },
                                Err(er) => Err(er),
                            },
                            Err(er) => Err(er),
                        }
                    },
                    Err(er) => Err(er),
                },
                Err(er) => Err(er),
            },
            Err(er) => Err(er),
        },
        Err(er) => Err(er),
    }
}

/// Parses the rest of a WGSL resource declaration after `@group`.
#[verifier::rlimit(100)]
pub fn p_wgsl_res_tail(
    t: &Vec<Token>,
    i: usize,
    sp: Span,
    eof: Span,
    g: &Vec<Global>,
    f: &Vec<Function>,
) -> (r: Result<(Global, usize), ParseError>)
    ensures
        global_matches(
            r,
            spec_p_wgsl_res_tail(
                view_tokens(t@),
                i as int,
                sp,
                eof,
                view_globals(g@),
                view_functions(f@),
            ),
        ),
{
    let j0 = match expect_sym(t, i, eof, Tok::LParen) {
        Ok(p) => p,
        Err(er) => {
            return Err(er);
        },
    };
    let (gnum, _gsp, j1) = match read_number(t, j0, eof) {
        Ok(p) => p,
        Err(er) => {
            return Err(er);
        },
    };
    let j2 = match expect_sym(t, j1, eof, Tok::RParen) {
        Ok(p) => p,
        Err(er) => {
            return Err(er);
        },
    };
    let (bw, bwsp, j3) = match read_atword(t, j2, eof) {
        Ok(p) => p,
        Err(er) => {
            return Err(er);
        },
    };
    if !word_is(&bw, "binding") {
        return Err(ParseError { span: bwsp, kind: ParseErrorKind::UnexpectedToken });
    }
    let j4 = match expect_sym(t, j3, eof, Tok::LParen) {
        Ok(p) => p,
        Err(er) => {
            return Err(er);
        },
    };
    let (bnum, _bsp, j5) = match read_number(t, j4, eof) {
        Ok(p) => p,
        Err(er) => {
            return Err(er);
        },
    };
    let j6 = match expect_sym(t, j5, eof, Tok::RParen) {
        Ok(p) => p,
        Err(er) => {
            return Err(er);
        },
    };
    let j7 = match expect_word(t, j6, eof, "var") {
        Ok(p) => p,
        Err(er) => {
            return Err(er);
        },
    };
    let j8 = match expect_sym(t, j7, eof, Tok::Lt) {
        Ok(p) => p,
        Err(er) => {
            return Err(er);
        },
    };
    let (space, _ssp, j9) = match read_ident(t, j8, eof) {
        Ok(p) => p,
        Err(er) => {
            return Err(er);
        },
    };
    let j10 = match expect_sym(t, j9, eof, Tok::Gt) {
        Ok(p) => p,
        Err(er) => {
            return Err(er);
        },
    };
    let (name, nsp, j11) = match read_ident(t, j10, eof) {
        Ok(p) => p,
        Err(er) => {
            return Err(er);
        },
    };
    if let Some(er) = top_name_err(&name, nsp, g, f) {
        return Err(er);
    }
    let j12 = match expect_sym(t, j11, eof, Tok::Colon) {
        Ok(p) => p,
        Err(er) => {
            return Err(er);
        },
    };
    let (tyword, tysp, j13) = match read_ident(t, j12, eof) {
        Ok(p) => p,
        Err(er) => {
            return Err(er);
        },
    };
    let class = match wgsl_res_class(&space, &tyword, gnum, bnum) {
        Some(c) => c,
        None => {
            return Err(ParseError { span: tysp, kind: ParseErrorKind::UnexpectedToken });
        },
    };
    let j14 = match expect_sym(t, j13, eof, Tok::Semi) {
        Ok(p) => p,
        Err(er) => {
            return Err(er);
        },
    };
    Ok((Global { name, class, span: sp }, j14))
}

/// Parses the rest of a WGSL stage-input declaration after `@location`.
pub open spec fn spec_p_wgsl_attr_tail(
    t: Seq<TokenView>,
    i: int,
    sp: Span,
    eof: Span,
    g: Seq<GlobalView>,
    f: Seq<FunctionView>,
) -> Result<(GlobalView, int), ParseError> {
    match spec_expect(t, i, eof, TokView::LParen) {
        Ok(j0) => match spec_read_number(t, j0, eof) {
            Ok((loc, _, j1)) => match spec_expect(t, j1, eof, TokView::RParen) {
                Ok(j2) => match spec_expect_word(t, j2, eof, "var"@) {
                    Ok(j3) => match spec_expect(t, j3, eof, TokView::Lt) {
                        Ok(j4) => match spec_expect_word(t, j4, eof, "in"@) {
                            Ok(j5) => match spec_expect(t, j5, eof, TokView::Gt) {
                                Ok(j6) => match spec_read_ident(t, j6, eof) {
                                    Ok((name, nsp, j7)) => match spec_top_name_err(name, nsp, g, f) {
                                        Some(er) => Err(er),
                                        None => match spec_expect(t, j7, eof, TokView::Colon) {
                                            Ok(j8) => match spec_read_ident(t, j8, eof) {
                                                Ok((tyword, tysp, j9)) => match spec_ty_keyword(
                                                    Dialect::Wgsl,
                                                    tyword,
                                                ) {
                                                    Some(ty) => match spec_expect(
                                                        t,
                                                        j9,
                                                        eof,
                                                        TokView::Semi,
                                                    ) {
                                                        Ok(j10) => Ok(
                                                            (
                                                                GlobalView {
                                                                    name,
                                                                    class: GlobalClass::Attribute {
                                                                        location: loc as usize,
                                                                        ty,
                                                                    },
                                                                    span: sp,
                                                                },
                                                                j10,
                                                            ),
                                                        ),
                                                        Err(er) => Err(er),
                                                    },
                                                    None => Err(
                                                        ParseError {
                                                            span: tysp,
                                                            kind: ParseErrorKind::UnexpectedToken,
                                                        },
                                                    ),
                                                },
                                                Err(er) => Err(er),
                                            },
                                            Err(er) => Err(er),
                                        },
                                    },
                                    Err(er) => Err(er),
                                },
                                Err(er) => Err(er),
                            },
                            Err(er) => Err(er),
                        },
                        Err(er) => Err(er),
                    },
                    Err(er) => Err(er),
                },
                Err(er) => Err(er),
            },
            Err(er) => Err(er),
        },
        Err(er) => Err(er),
    }
}

/// Parses the rest of a WGSL stage-input declaration after `@location`.
#[verifier::rlimit(100)]
pub fn p_wgsl_attr_tail(
    t: &Vec<Token>,
    i: usize,
    sp: Span,
    eof: Span,
    g: &Vec<Global>,
    f: &Vec<Function>,
) -> (r: Result<(Global, usize), ParseError>)
    ensures
        global_matches(
            r,
            spec_p_wgsl_attr_tail(
                view_tokens(t@),
                i as int,
                sp,
                eof,
                view_globals(g@),
                view_functions(f@),
            ),
        ),
{
    let j0 = match expect_sym(t, i, eof, Tok::LParen) {
        Ok(p) => p,
        Err(er) => {
            return Err(er);
        },
    };
    let (loc, _lsp, j1) = match read_number(t, j0, eof) {
        Ok(p) => p,
        Err(er) => {
            return Err(er);
        },
    };
    let j2 = match expect_sym(t, j1, eof, Tok::RParen) {
        Ok(p) => p,
        Err(er) => {
            return Err(er);
        },
    };
    let j3 = match expect_word(t, j2, eof, "var") {
        Ok(p) => p,
        Err(er) => {
            return Err(er);
        },
    };
    let j4 = match expect_sym(t, j3, eof, Tok::Lt) {
        Ok(p) => p,
        Err(er) => {
            return Err(er);
        },
    };
    let j5 = match expect_word(t, j4, eof, "in") {
        Ok(p) => p,
        Err(er) => {
            return Err(er);
        },
    };
    let j6 = match expect_sym(t, j5, eof, Tok::Gt) {
        Ok(p) => p,
        Err(er) => {
            return Err(er);
        },
    };
    let (name, nsp, j7) = match read_ident(t, j6, eof) {
        Ok(p) => p,
        Err(er) => {
            return Err(er);
        },
    };
    if let Some(er) = top_name_err(&name, nsp, g, f) {
        return Err(er);
    }
    let j8 = match expect_sym(t, j7, eof, Tok::Colon) {
        Ok(p) => p,
        Err(er) => {
            return Err(er);
        },
    };
    let (tyword, tysp, j9) = match read_ident(t, j8, eof) {
        Ok(p) => p,
        Err(er) => {
            return Err(er);
        },
    };
    let ty = match ty_keyword(Dialect::Wgsl, &tyword) {
        Some(ty) => ty,
        None => {
            return Err(ParseError { span: tysp, kind: ParseErrorKind::UnexpectedToken });
        },
    };
    let j10 = match expect_sym(t, j9, eof, Tok::Semi) {
        Ok(p) => p,
        Err(er) => {
            return Err(er);
        },
    };
    Ok(
        (
            Global { name, class: GlobalClass::Attribute { location: loc as usize, ty }, span: sp },
            j10,
        ),
    )
}

/// Parses the rest of a WGSL function after `fn`, under the stage its
/// attribute declared, or none for a helper function.
pub open spec fn spec_p_wgsl_fn_tail(
    t: Seq<TokenView>,
    i: int,
    sp: Span,
    sc: Option<ShaderStage>,
    eof: Span,
    g: Seq<GlobalView>,
    f: Seq<FunctionView>,
) -> Result<(FunctionView, int), ParseError>
    decreases tokens_rem(t.len() as int, i), 10int,
{
    if i < 0 || i >= t.len() {
        Err(ParseError { span: eof, kind: ParseErrorKind::UnexpectedEof })
    } else {
        match spec_read_ident(t, i, eof) {
            Ok((name, nsp, j)) => match spec_top_name_err(name, nsp, g, f) {
                Some(er) => Err(er),
                None => match spec_expect(t, j, eof, TokView::LParen) {
                    Ok(j1) => match spec_expect(t, j1, eof, TokView::RParen) {
                        Ok(j2) => match spec_expect(t, j2, eof, TokView::LBrace) {
                            Ok(j3) => match spec_p_stmts(
                                t,
                                at_least(j3, i + 1),
                                eof,
                                Dialect::Wgsl,
                                sc,
                                g,
                                Seq::empty(),
                                Seq::empty(),
                            ) {
                                Ok((body, locals, j4)) => Ok(
                                    (FunctionView { name, locals, body, span: sp }, j4),
                                ),
                                Err(er) => Err(er),
                            },
                            Err(er) => Err(er),
                        },
                        Err(er) => Err(er),
                    },
                    Err(er) => Err(er),
                },
            },
            Err(er) => Err(er),
        }
    }
}

/// Parses the rest of a WGSL function after `fn`.
pub fn p_wgsl_fn_tail(
    t: &Vec<Token>,
    i: usize,
    sp: Span,
    sc: Option<ShaderStage>,
    eof: Span,
    g: &Vec<Global>,
    f: &Vec<Function>,
) -> (r: Result<(Function, usize), ParseError>)
    ensures
        function_matches(
            r,
            spec_p_wgsl_fn_tail(
                view_tokens(t@),
                i as int,
                sp,
                sc,
                eof,
                view_globals(g@),
                view_functions(f@),
            ),
        ),
{
    proof {
        lemma_view_tokens(t@);
    }
    if i >= t.len() {
        return Err(ParseError { span: eof, kind: ParseErrorKind::UnexpectedEof });
    }
    let (name, nsp, j) = match read_ident(t, i, eof) {
        Ok(p) => p,
        Err(er) => {
            return Err(er);
        },
    };
    if let Some(er) = top_name_err(&name, nsp, g, f) {
        return Err(er);
    }
    let j1 = match expect_sym(t, j, eof, Tok::LParen) {
        Ok(p) => p,
        Err(er) => {
            return Err(er);
        },
    };
    let j2 = match expect_sym(t, j1, eof, Tok::RParen) {
        Ok(p) => p,
        Err(er) => {
            return Err(er);
        },
    };
    let j3 = match expect_sym(t, j2, eof, Tok::LBrace) {
        Ok(p) => p,
        Err(er) => {
            return Err(er);
        },
    };
    match p_stmts(
        t,
        clamp_at_least(j3, i + 1),
        eof,
        Dialect::Wgsl,
        sc,
        g,
        Vec::new(),
        Vec::new(),
    ) {
        Ok((body, locals, j4)) => Ok((Function { name, locals, body, span: sp }, j4)),
        Err(er) => Err(er),
    }
}

/// The union of the stage bits of the entry points at or after `j`.
pub open spec fn spec_entries_mask(e: Seq<EntryPointView>, j: int) -> u32
    decreases e.len() - j,
{
    if j < 0 || j >= e.len() {
        0u32
    } else {
        stage_bit(e[j].stage) | spec_entries_mask(e, j + 1)
    }
}

/// Returns the union of the stage bits of the entry points at or after `j`.
pub fn entries_mask(e: &Vec<EntryPoint>, j: usize) -> (r: u32)
    requires
        j <= e@.len(),
    ensures
        r == spec_entries_mask(view_entries(e@), j as int),
    decreases e@.len() - j,
{
    proof {
        lemma_view_entries(e@);
    }
    if j >= e.len() {
        return 0;
    }
    stage_mask(e[j].stage) | entries_mask(e, j + 1)
}

/// The class with its visibility replaced; attributes are untouched.
pub open spec fn spec_class_with_vis(c: GlobalClass, mask: u32) -> GlobalClass {
    match c {
        GlobalClass::Attribute { location, ty } => GlobalClass::Attribute { location, ty },
        GlobalClass::UniformBuffer { group, binding, ty, .. } => GlobalClass::UniformBuffer {
            group,
            binding,
            visibility: mask,
            ty,
        },
        GlobalClass::StorageBuffer { group, binding, ty, .. } => GlobalClass::StorageBuffer {
            group,
            binding,
            visibility: mask,
            ty,
        },
        GlobalClass::Texture { group, binding, multisampled_array, .. } => GlobalClass::Texture {
            group,
            binding,
            visibility: mask,
            multisampled_array,
        },
        GlobalClass::Sampler { group, binding, .. } => GlobalClass::Sampler {
            group,
            binding,
            visibility: mask,
        },
    }
}

/// Returns the class with its visibility replaced.
pub fn class_with_vis(c: GlobalClass, mask: u32) -> (r: GlobalClass)
    ensures
        r == spec_class_with_vis(c, mask),
{
    match c {
        GlobalClass::Attribute { location, ty } => GlobalClass::Attribute { location, ty },
        GlobalClass::UniformBuffer { group, binding, ty, visibility: _ } => GlobalClass::UniformBuffer {
            group,
            binding,
            visibility: mask,
            ty,
        },
        GlobalClass::StorageBuffer { group, binding, ty, visibility: _ } => GlobalClass::StorageBuffer {
            group,
            binding,
            visibility: mask,
            ty,
        },
        GlobalClass::Texture { group, binding, multisampled_array, visibility: _ } => GlobalClass::Texture {
            group,
            binding,
            visibility: mask,
            multisampled_array,
        },
        GlobalClass::Sampler { group, binding, visibility: _ } => GlobalClass::Sampler {
            group,
            binding,
            visibility: mask,
        },
    }
}

/// Every global with its resource visibility set to `mask`.
pub open spec fn spec_set_vis(g: Seq<GlobalView>, mask: u32) -> Seq<GlobalView> {
    Seq::new(
        g.len(),
        |k: int|
            GlobalView {
                name: g[k].name,
                class: spec_class_with_vis(g[k].class, mask),
                span: g[k].span,
            },
    )
}

/// Returns the globals with every resource visibility set to `mask`.
pub fn set_vis(g: Vec<Global>, mask: u32) -> (r: Vec<Global>)
    ensures
        view_globals(r@) == spec_set_vis(view_globals(g@), mask),
{
    proof {
        lemma_view_globals(g@);
    }
    let ghost gv = view_globals(g@);
    let mut out: Vec<Global> = Vec::new();
    let mut k: usize = 0;
    while k < g.len()
        invariant
            k <= g.len(),
            gv == view_globals(g@),
            gv.len() == g@.len(),
            forall|m: int| 0 <= m < g@.len() ==> gv[m] == view_global(g@[m]),
            out@.len() == k,
            forall|m: int|
                0 <= m < k ==> view_global(#[trigger] out@[m]) == (GlobalView {
                    name: gv[m].name,
                    class: spec_class_with_vis(gv[m].class, mask),
                    span: gv[m].span,
                }),
        decreases g.len() - k,
    {
        let ng = Global {
            name: g[k].name.clone(),
            class: class_with_vis(g[k].class, mask),
            span: g[k].span,
        };
        out.push(ng);
        k = k + 1;
    }
    proof {
        lemma_view_globals(out@);
        assert(view_globals(out@) =~= spec_set_vis(gv, mask));
    }
    out
}

/// Parses a whole WGSL translation unit from `i`. Entry points are the
/// functions with a stage attribute, in file order; when the file has been
/// read, every resource is made visible to exactly the declared stages.
pub open spec fn spec_p_wgsl_module(
    t: Seq<TokenView>,
    i: int,
    eof: Span,
    g: Seq<GlobalView>,
    f: Seq<FunctionView>,
    e: Seq<EntryPointView>,
) -> Result<ModuleView, ParseError>
    decreases tokens_rem(t.len() as int, i), 11int,
{
    if i < 0 || i >= t.len() {
        Ok(
            ModuleView {
                globals: spec_set_vis(g, spec_entries_mask(e, 0)),
                functions: f,
                entry_points: e,
            },
        )
    } else {
        match t[i].tok {
            TokView::AtWord { text } => if text == "group"@ {
                match spec_p_wgsl_res_tail(t, i + 1, t[i].span, eof, g, f) {
                    Ok((gvw, j)) => spec_p_wgsl_module(t, at_least(j, i + 1), eof, g.push(gvw), f, e),
                    Err(er) => Err(er),
                }
            } else if text == "location"@ {
                match spec_p_wgsl_attr_tail(t, i + 1, t[i].span, eof, g, f) {
                    Ok((gvw, j)) => spec_p_wgsl_module(t, at_least(j, i + 1), eof, g.push(gvw), f, e),
                    Err(er) => Err(er),
                }
            } else {
                match spec_stage_word(text) {
                    Some(st) => match spec_expect_word(t, i + 1, eof, "fn"@) {
                        Ok(j0) => match spec_p_wgsl_fn_tail(
                            t,
                            at_least(j0, i + 1),
                            t[i].span,
                            Some(st),
                            eof,
                            g,
                            f,
                        ) {
                            Ok((fv, j)) => spec_p_wgsl_module(
                                t,
                                at_least(j, i + 1),
                                eof,
                                g,
                                f.push(fv),
                                e.push(
                                    EntryPointView {
                                        name: fv.name,
                                        stage: st,
                                        function: f.len() as usize,
                                    },
                                ),
                            ),
                            Err(er) => Err(er),
                        },
                        Err(er) => Err(er),
                    },
                    None => Err(
                        ParseError { span: t[i].span, kind: ParseErrorKind::UnexpectedToken },
                    ),
                }
            },
            TokView::Ident { text } => if text == "fn"@ {
                match spec_p_wgsl_fn_tail(t, i + 1, t[i].span, None, eof, g, f) {
                    Ok((fv, j)) => spec_p_wgsl_module(t, at_least(j, i + 1), eof, g, f.push(fv), e),
                    Err(er) => Err(er),
                }
            } else {
                Err(ParseError { span: t[i].span, kind: ParseErrorKind::UnexpectedToken })
            },
            _ => Err(ParseError { span: t[i].span, kind: ParseErrorKind::UnexpectedToken }),
        }
    }
}

/// Parses a whole WGSL translation unit from `i`.
pub fn p_wgsl_module(
    t: &Vec<Token>,
    i: usize,
    eof: Span,
    g: Vec<Global>,
    f: Vec<Function>,
    e: Vec<EntryPoint>,
) -> (r: Result<Module, ParseError>)
    ensures
        module_matches(
            r,
            spec_p_wgsl_module(
                view_tokens(t@),
                i as int,
                eof,
                view_globals(g@),
                view_functions(f@),
                view_entries(e@),
            ),
        ),
    decreases tokens_rem(t@.len() as int, i as int), 11int,
{
    proof {
        lemma_view_tokens(t@);
        lemma_view_entries(e@);
        lemma_view_functions(f@);
    }
    if i >= t.len() {
        let mask = entries_mask(&e, 0);
        let g2 = set_vis(g, mask);
        return Ok(Module { globals: g2, functions: f, entry_points: e });
    }
    let sp = t[i].span;
    match &t[i].tok {
        Tok::AtWord { text } => {
            if word_is(text, "group") {
                match p_wgsl_res_tail(t, i + 1, sp, eof, &g, &f) {
                    Ok((gl, j)) => {
                        let mut g2 = g;
                        proof {
                            lemma_view_globals_push(g2@, gl);
                        }
                        g2.push(gl);
                        p_wgsl_module(t, clamp_at_least(j, i + 1), eof, g2, f, e)
                    },
                    Err(er) => Err(er),
                }
            } else if word_is(text, "location") {
                match p_wgsl_attr_tail(t, i + 1, sp, eof, &g, &f) {
                    Ok((gl, j)) => {
                        let mut g2 = g;
                        proof {
                            lemma_view_globals_push(g2@, gl);
                        }
                        g2.push(gl);
                        p_wgsl_module(t, clamp_at_least(j, i + 1), eof, g2, f, e)
                    },
                    Err(er) => Err(er),
                }
            } else {
                match stage_word(text) {
                    Some(st) => {
                        let j0 = match expect_word(t, i + 1, eof, "fn") {
                            Ok(p) => p,
                            Err(er) => {
                                return Err(er);
                            },
                        };
                        match p_wgsl_fn_tail(
                            t,
                            clamp_at_least(j0, i + 1),
                            sp,
                            Some(st),
                            eof,
                            &g,
                            &f,
                        ) {
                            Ok((fnc, j)) => {
                                let fidx = f.len();
                                let ep = EntryPoint {
                                    name: fnc.name.clone(),
                                    stage: st,
                                    function: fidx,
                                };
                                let mut e2 = e;
                                proof {
                                    lemma_view_entries_push(e2@, ep);
                                }
                                e2.push(ep);
                                let mut f2 = f;
                                proof {
                                    lemma_view_functions_push(f2@, fnc);
                                }
                                f2.push(fnc);
                                p_wgsl_module(t, clamp_at_least(j, i + 1), eof, g, f2, e2)
                            },
                            Err(er) => Err(er),
                        }
                    },
                    None => Err(ParseError { span: sp, kind: ParseErrorKind::UnexpectedToken }),
                }
            }
        },
        Tok::Ident { text } => {
            if word_is(text, "fn") {
                match p_wgsl_fn_tail(t, i + 1, sp, None, eof, &g, &f) {
                    Ok((fnc, j)) => {
                        let mut f2 = f;
                        proof {
                            lemma_view_functions_push(f2@, fnc);
                        }
                        f2.push(fnc);
                        p_wgsl_module(t, clamp_at_least(j, i + 1), eof, g, f2, e)
                    },
                    Err(er) => Err(er),
                }
            } else {
                Err(ParseError { span: sp, kind: ParseErrorKind::UnexpectedToken })
            }
        },
        _ => Err(ParseError { span: sp, kind: ParseErrorKind::UnexpectedToken }),
    }
}

// ===== The public frontends =====

/// Options of the GLSL-like frontend: an entry-point name override, and
/// preprocessor-style defines applied to the token stream before parsing.
pub struct FrontendOptions {
    pub entry_name: Option<String>,
    pub defines: Vec<Define>,
}

impl FrontendOptions {
    /// The default options: entry point `main`, no defines.
    pub fn new() -> (r: FrontendOptions)
        ensures
            r.entry_name is None,
            r.defines@.len() == 0,
    {
        FrontendOptions { entry_name: None, defines: Vec::new() }
    }
}

/// The entry-point name the options request: the override, or `main`.
pub open spec fn spec_options_entry(o: FrontendOptions) -> Seq<char> {
    match o.entry_name {
        Some(s) => s@,
        None => "main"@,
    }
}

/// The outcome of parsing GLSL-like source for `stage` with an entry name
/// and defines: lex, substitute, then parse declarations.
pub open spec fn spec_parse_glsl(
    src: Seq<char>,
    stage: ShaderStage,
    entry: Seq<char>,
    ds: Seq<(Seq<char>, Seq<char>)>,
) -> Result<ModuleView, ParseError> {
    match spec_lex(src) {
        Ok((ts, eof)) => match spec_apply_defines(ts, ds) {
            Ok(ts2) => spec_p_glsl_module(
                ts2,
                0,
                eof,
                stage,
                entry,
                Seq::empty(),
                Seq::empty(),
                Seq::empty(),
                0,
            ),
            Err(er) => Err(er),
        },
        Err(er) => Err(er),
    }
}

/// Parses GLSL-like source text into a module for the requested stage, or
/// fails with the first lexical, syntactic or resolution error. On success
/// the module's single entry point is the function the options name.
pub fn parse(source: &str, stage: ShaderStage, options: &FrontendOptions) -> (r: Result<
    Module,
    ParseError,
>)
    requires
        source@.len() < usize::MAX,
    ensures
        module_matches(
            r,
            spec_parse_glsl(
                source@,
                stage,
                spec_options_entry(*options),
                view_defines(options.defines@),
            ),
        ),
{
    let (toks, eof) = match lex(source) {
        Ok(p) => p,
        Err(er) => {
            return Err(er);
        },
    };
    let toks2 = match apply_defines(toks, &options.defines) {
        Ok(p) => p,
        Err(er) => {
            return Err(er);
        },
    };
    let entry: String = match &options.entry_name {
        Some(s) => s.clone(),
        None => String::from_str("main"),
    };
    p_glsl_module(&toks2, 0, eof, stage, &entry, Vec::new(), Vec::new(), Vec::new(), 0)
}

/// The outcome of parsing WGSL-like source: lex, then parse declarations,
/// reading entry stages from their attributes.
pub open spec fn spec_parse_wgsl(src: Seq<char>) -> Result<ModuleView, ParseError> {
    match spec_lex(src) {
        Ok((ts, eof)) => spec_p_wgsl_module(ts, 0, eof, Seq::empty(), Seq::empty(), Seq::empty()),
        Err(er) => Err(er),
    }
}

/// Parses WGSL-like source text into a module, or fails with the first
/// lexical, syntactic or resolution error. Entry points and their stages
/// are read from `@vertex`, `@fragment` and `@compute` attributes.
pub fn parse_wgsl(source: &str) -> (r: Result<Module, ParseError>)
    requires
        source@.len() < usize::MAX,
    ensures
        module_matches(r, spec_parse_wgsl(source@)),
{
    let (toks, eof) = match lex(source) {
        Ok(p) => p,
        Err(er) => {
            return Err(er);
        },
    };
    p_wgsl_module(&toks, 0, eof, Vec::new(), Vec::new(), Vec::new())
}

} // verus!

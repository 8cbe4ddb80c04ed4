//! The recursive-descent parser for expressions and statements, shared by
//! the two frontends through a dialect parameter. It resolves every name to
//! a local slot, a global index or a built-in, so the module it helps build
//! carries no symbolic reference.
use vstd::prelude::*;
use crate::ir::{
    BinOp, BuiltinVar, Expr, Function, FunctionView, Global, GlobalView, LocalVar, LocalVarView, ScalarKind,
    ShaderStage, Span, Stmt, StmtView, Ty, builtin_stage, builtin_stage_of, builtin_ty,
    builtin_writable, builtin_writable_of, lemma_view_functions, lemma_view_globals,
    lemma_view_locals, lemma_view_stmts, lemma_view_stmts_push, lemma_view_locals_push,
    view_functions, view_globals, view_local, view_locals, view_stmt, view_stmts,
};
use crate::err::{ParseError, ParseErrorKind};
use crate::lex::{
    Token, TokenView, Tok, TokView, view_tokens, view_token, view_tok, lemma_view_tokens,
};

verus! {

/// The surface syntax being parsed.
#[derive(Clone, Copy, PartialEq, Eq, Structural, Debug)]
pub enum Dialect {
    Glsl,
    Wgsl,
}

// ===== Keyword tables =====

/// The value type a type keyword of dialect `d` names, if any.
pub open spec fn spec_ty_keyword(d: Dialect, w: Seq<char>) -> Option<Ty> {
    if d == Dialect::Glsl {
        if w == "float"@ {
            Some(Ty::Scalar(ScalarKind::F32))
        } else if w == "double"@ {
            Some(Ty::Scalar(ScalarKind::F64))
        } else if w == "uint"@ {
            Some(Ty::Scalar(ScalarKind::U32))
        } else if w == "bool"@ {
            Some(Ty::Scalar(ScalarKind::Bool))
        } else if w == "vec4"@ {
            Some(Ty::Vec4)
        } else {
            None
        }
    } else {
        if w == "f32"@ {
            Some(Ty::Scalar(ScalarKind::F32))
        } else if w == "f64"@ {
            Some(Ty::Scalar(ScalarKind::F64))
        } else if w == "u32"@ {
            Some(Ty::Scalar(ScalarKind::U32))
        } else if w == "bool"@ {
            Some(Ty::Scalar(ScalarKind::Bool))
        } else if w == "vec4f32"@ {
            Some(Ty::Vec4)
        } else {
            None
        }
    }
}

/// The built-in variable a word of dialect `d` names, if any.
pub open spec fn spec_builtin_keyword(d: Dialect, w: Seq<char>) -> Option<BuiltinVar> {
    if d == Dialect::Glsl {
        if w == "gl_Position"@ {
            Some(BuiltinVar::Position)
        } else if w == "gl_VertexIndex"@ {
            Some(BuiltinVar::VertexIndex)
        } else if w == "gl_FragCoord"@ {
            Some(BuiltinVar::FragCoord)
        } else if w == "gl_FragDepth"@ {
            Some(BuiltinVar::FragDepth)
        } else if w == "gl_LocalInvocationIndex"@ {
            Some(BuiltinVar::LocalInvocationIndex)
        } else if w == "gl_WorkGroupID"@ {
            Some(BuiltinVar::WorkGroupId)
        } else {
            None
        }
    } else {
        if w == "wg_position"@ {
            Some(BuiltinVar::Position)
        } else if w == "wg_vertex_index"@ {
            Some(BuiltinVar::VertexIndex)
        } else if w == "wg_frag_coord"@ {
            Some(BuiltinVar::FragCoord)
        } else if w == "wg_frag_depth"@ {
            Some(BuiltinVar::FragDepth)
        } else if w == "wg_local_invocation_index"@ {
            Some(BuiltinVar::LocalInvocationIndex)
        } else if w == "wg_workgroup_id"@ {
            Some(BuiltinVar::WorkGroupId)
        } else {
            None
        }
    }
}

/// The word that builds a four-component vector in dialect `d`.
pub open spec fn spec_ctor_word(d: Dialect) -> Seq<char> {
    if d == Dialect::Glsl {
        "vec4"@
    } else {
        "vec4f32"@
    }
}

/// The word that names the workgroup barrier in dialect `d`.
pub open spec fn spec_barrier_word(d: Dialect) -> Seq<char> {
    if d == Dialect::Glsl {
        "barrier"@
    } else {
        "workgroupBarrier"@
    }
}

/// Words no declaration of either dialect may use as a name.
pub open spec fn is_reserved(w: Seq<char>) -> bool {
    ||| w == "in"@
    ||| w == "layout"@
    ||| w == "set"@
    ||| w == "binding"@
    ||| w == "uniform"@
    ||| w == "buffer"@
    ||| w == "void"@
    ||| w == "if"@
    ||| w == "var"@
    ||| w == "fn"@
    ||| w == "storage"@
    ||| w == "handle"@
    ||| w == "float"@
    ||| w == "double"@
    ||| w == "uint"@
    ||| w == "bool"@
    ||| w == "vec4"@
    ||| w == "f32"@
    ||| w == "f64"@
    ||| w == "u32"@
    ||| w == "vec4f32"@
    ||| w == "texture2D"@
    ||| w == "texture2DMSArray"@
    ||| w == "texture2d"@
    ||| w == "texturems2darray"@
    ||| w == "sampler"@
    ||| w == "barrier"@
    ||| w == "workgroupBarrier"@
    ||| w == "gl_Position"@
    ||| w == "gl_VertexIndex"@
    ||| w == "gl_FragCoord"@
    ||| w == "gl_FragDepth"@
    ||| w == "gl_LocalInvocationIndex"@
    ||| w == "gl_WorkGroupID"@
    ||| w == "wg_position"@
    ||| w == "wg_vertex_index"@
    ||| w == "wg_frag_coord"@
    ||| w == "wg_frag_depth"@
    ||| w == "wg_local_invocation_index"@
    ||| w == "wg_workgroup_id"@
}

/// Returns whether `w` equals the literal `kw`.
pub fn word_is(w: &String, kw: &str) -> (r: bool)
    ensures
        r == (w@ == kw@),
{
    let t = String::from_str(kw);
    *w == t
}

/// Returns the value type named by `w` in dialect `d`.
pub fn ty_keyword(d: Dialect, w: &String) -> (r: Option<Ty>)
    ensures
        r == spec_ty_keyword(d, w@),
{
    match d {
        Dialect::Glsl => {
            if word_is(w, "float") {
                Some(Ty::Scalar(ScalarKind::F32))
            } else if word_is(w, "double") {
                Some(Ty::Scalar(ScalarKind::F64))
            } else if word_is(w, "uint") {
                Some(Ty::Scalar(ScalarKind::U32))
            } else if word_is(w, "bool") {
                Some(Ty::Scalar(ScalarKind::Bool))
            } else if word_is(w, "vec4") {
                Some(Ty::Vec4)
            } else {
                None
            }
        },
        Dialect::Wgsl => {
            if word_is(w, "f32") {
                Some(Ty::Scalar(ScalarKind::F32))
            } else if word_is(w, "f64") {
                Some(Ty::Scalar(ScalarKind::F64))
            } else if word_is(w, "u32") {
                Some(Ty::Scalar(ScalarKind::U32))
            } else if word_is(w, "bool") {
                Some(Ty::Scalar(ScalarKind::Bool))
            } else if word_is(w, "vec4f32") {
                Some(Ty::Vec4)
            } else {
                None
            }
        },
    }
}

/// Returns the built-in named by `w` in dialect `d`.
pub fn builtin_keyword(d: Dialect, w: &String) -> (r: Option<BuiltinVar>)
    ensures
        r == spec_builtin_keyword(d, w@),
{
    match d {
        Dialect::Glsl => {
            if word_is(w, "gl_Position") {
                Some(BuiltinVar::Position)
            } else if word_is(w, "gl_VertexIndex") {
                Some(BuiltinVar::VertexIndex)
            } else if word_is(w, "gl_FragCoord") {
                Some(BuiltinVar::FragCoord)
            } else if word_is(w, "gl_FragDepth") {
                Some(BuiltinVar::FragDepth)
            } else if word_is(w, "gl_LocalInvocationIndex") {
                Some(BuiltinVar::LocalInvocationIndex)
            } else if word_is(w, "gl_WorkGroupID") {
                Some(BuiltinVar::WorkGroupId)
            } else {
                None
            }
        },
        Dialect::Wgsl => {
            if word_is(w, "wg_position") {
                Some(BuiltinVar::Position)
            } else if word_is(w, "wg_vertex_index") {
                Some(BuiltinVar::VertexIndex)
            } else if word_is(w, "wg_frag_coord") {
                Some(BuiltinVar::FragCoord)
            } else if word_is(w, "wg_frag_depth") {
                Some(BuiltinVar::FragDepth)
            } else if word_is(w, "wg_local_invocation_index") {
                Some(BuiltinVar::LocalInvocationIndex)
            } else if word_is(w, "wg_workgroup_id") {
                Some(BuiltinVar::WorkGroupId)
            } else {
                None
            }
        },
    }
}

/// Returns whether `w` is reserved in either dialect.
pub fn reserved_word(w: &String) -> (r: bool)
    ensures
        r == is_reserved(w@),
{
    word_is(w, "in") || word_is(w, "layout") || word_is(w, "set") || word_is(w, "binding")
        || word_is(w, "uniform") || word_is(w, "buffer") || word_is(w, "void") || word_is(w, "if")
        || word_is(w, "var") || word_is(w, "fn") || word_is(w, "storage") || word_is(w, "handle")
        || word_is(w, "float") || word_is(w, "double") || word_is(w, "uint") || word_is(w, "bool")
        || word_is(w, "vec4") || word_is(w, "f32") || word_is(w, "f64") || word_is(w, "u32")
        || word_is(w, "vec4f32") || word_is(w, "texture2D") || word_is(w, "texture2DMSArray")
        || word_is(w, "texture2d") || word_is(w, "texturems2darray") || word_is(w, "sampler")
        || word_is(w, "barrier") || word_is(w, "workgroupBarrier") || word_is(w, "gl_Position")
        || word_is(w, "gl_VertexIndex") || word_is(w, "gl_FragCoord") || word_is(w, "gl_FragDepth")
        || word_is(w, "gl_LocalInvocationIndex") || word_is(w, "gl_WorkGroupID")
        || word_is(w, "wg_position") || word_is(w, "wg_vertex_index") || word_is(w, "wg_frag_coord")
        || word_is(w, "wg_frag_depth") || word_is(w, "wg_local_invocation_index")
        || word_is(w, "wg_workgroup_id")
}

// ===== Name lookup =====

/// The first local slot at or after `j` named `name`, if any.
pub open spec fn spec_find_local(ls: Seq<LocalVarView>, j: int, name: Seq<char>) -> Option<int>
    decreases ls.len() - j,
{
    if j < 0 || j >= ls.len() {
        None
    } else if ls[j].name == name {
        Some(j)
    } else {
        spec_find_local(ls, j + 1, name)
    }
}

/// The first global at or after `j` named `name`, if any.
pub open spec fn spec_find_global(gs: Seq<GlobalView>, j: int, name: Seq<char>) -> Option<int>
    decreases gs.len() - j,
{
    if j < 0 || j >= gs.len() {
        None
    } else if gs[j].name == name {
        Some(j)
    } else {
        spec_find_global(gs, j + 1, name)
    }
}

/// The first function at or after `j` named `name`, if any.
pub open spec fn spec_find_function(fs: Seq<FunctionView>, j: int, name: Seq<char>) -> Option<int>
    decreases fs.len() - j,
{
    if j < 0 || j >= fs.len() {
        None
    } else if fs[j].name == name {
        Some(j)
    } else {
        spec_find_function(fs, j + 1, name)
    }
}

/// Returns the first local slot at or after `j` named `name`.
pub fn find_local(ls: &Vec<LocalVar>, j: usize, name: &String) -> (r: Option<usize>)
    requires
        j <= ls@.len(),
    ensures
        match r {
            Some(k) => spec_find_local(view_locals(ls@), j as int, name@) == Some(k as int) && k
                < ls@.len(),
            None => spec_find_local(view_locals(ls@), j as int, name@) is None,
        },
    decreases ls@.len() - j,
{
    proof {
        lemma_view_locals(ls@);
    }
    if j >= ls.len() {
        return None;
    }
    if ls[j].name == *name {
        Some(j)
    } else {
        find_local(ls, j + 1, name)
    }
}

/// Returns the first global at or after `j` named `name`.
pub fn find_global(gs: &Vec<Global>, j: usize, name: &String) -> (r: Option<usize>)
    requires
        j <= gs@.len(),
    ensures
        match r {
            Some(k) => spec_find_global(view_globals(gs@), j as int, name@) == Some(k as int) && k
                < gs@.len(),
            None => spec_find_global(view_globals(gs@), j as int, name@) is None,
        },
    decreases gs@.len() - j,
{
    proof {
        lemma_view_globals(gs@);
    }
    if j >= gs.len() {
        return None;
    }
    if gs[j].name == *name {
        Some(j)
    } else {
        find_global(gs, j + 1, name)
    }
}

/// Returns the first function at or after `j` named `name`.
pub fn find_function(fs: &Vec<Function>, j: usize, name: &String) -> (r: Option<usize>)
    requires
        j <= fs@.len(),
    ensures
        match r {
            Some(k) => spec_find_function(view_functions(fs@), j as int, name@) == Some(k as int)
                && k < fs@.len(),
            None => spec_find_function(view_functions(fs@), j as int, name@) is None,
        },
    decreases fs@.len() - j,
{
    proof {
        lemma_view_functions(fs@);
    }
    if j >= fs.len() {
        return None;
    }
    if fs[j].name == *name {
        Some(j)
    } else {
        find_function(fs, j + 1, name)
    }
}


// ===== Token helpers =====

/// The remaining-token measure that drives termination of the parsers.
pub open spec fn tokens_rem(n: int, i: int) -> int {
    if i <= n {
        n - i
    } else {
        0
    }
}

/// Raises `j` to at least `lo`; the parsers apply it to every index a
/// sub-parse returned, which keeps their recursion visibly bounded.
pub open spec fn at_least(j: int, lo: int) -> int {
    if j < lo {
        lo
    } else {
        j
    }
}

/// Returns `j` raised to at least `lo`.
pub fn clamp_at_least(j: usize, lo: usize) -> (r: usize)
    ensures
        r == at_least(j as int, lo as int),
{
    if j < lo {
        lo
    } else {
        j
    }
}

/// Consumes the symbol token `want` at `i`, or reports what stood there.
pub open spec fn spec_expect(t: Seq<TokenView>, i: int, eof: Span, want: TokView) -> Result<
    int,
    ParseError,
> {
    if i < 0 || i >= t.len() {
        Err(ParseError { span: eof, kind: ParseErrorKind::UnexpectedEof })
    } else if t[i].tok == want {
        Ok(i + 1)
    } else {
        Err(ParseError { span: t[i].span, kind: ParseErrorKind::UnexpectedToken })
    }
}

/// Whether `want` is a symbol token, which carries no payload.
pub open spec fn is_sym_tok(want: Tok) -> bool {
    match want {
        Tok::Ident { .. } => false,
        Tok::AtWord { .. } => false,
        Tok::Number { .. } => false,
        _ => true,
    }
}

/// Returns whether `a` is the same symbol as the payload-free token `b`.
fn tok_sym_eq(a: &Tok, b: &Tok) -> (r: bool)
    requires
        is_sym_tok(*b),
    ensures
        r == (view_tok(*a) == view_tok(*b)),
{
    match (a, b) {
        (Tok::LParen, Tok::LParen) => true,
        (Tok::RParen, Tok::RParen) => true,
        (Tok::LBrace, Tok::LBrace) => true,
        (Tok::RBrace, Tok::RBrace) => true,
        (Tok::Semi, Tok::Semi) => true,
        (Tok::Comma, Tok::Comma) => true,
        (Tok::Colon, Tok::Colon) => true,
        (Tok::Assign, Tok::Assign) => true,
        (Tok::Plus, Tok::Plus) => true,
        (Tok::Star, Tok::Star) => true,
        (Tok::Lt, Tok::Lt) => true,
        (Tok::Gt, Tok::Gt) => true,
        (_, _) => false,
    }
}

/// Whether an executable index outcome carries exactly the ghost outcome.
pub open spec fn idx_matches(r: Result<usize, ParseError>, s: Result<int, ParseError>) -> bool {
    match (r, s) {
        (Ok(j), Ok(sj)) => j == sj,
        (Err(a), Err(b)) => a == b,
        _ => false,
    }
}

/// Consumes the symbol token `want` at `i`.
pub fn expect_sym(t: &Vec<Token>, i: usize, eof: Span, want: Tok) -> (r: Result<usize, ParseError>)
    requires
        is_sym_tok(want),
    ensures
        idx_matches(r, spec_expect(view_tokens(t@), i as int, eof, view_tok(want))),
{
    proof {
        lemma_view_tokens(t@);
    }
    if i >= t.len() {
        return Err(ParseError { span: eof, kind: ParseErrorKind::UnexpectedEof });
    }
    if tok_sym_eq(&t[i].tok, &want) {
        Ok(i + 1)
    } else {
        Err(ParseError { span: t[i].span, kind: ParseErrorKind::UnexpectedToken })
    }
}

/// Reads an identifier token at `i`.
pub open spec fn spec_read_ident(t: Seq<TokenView>, i: int, eof: Span) -> Result<
    (Seq<char>, Span, int),
    ParseError,
> {
    if i < 0 || i >= t.len() {
        Err(ParseError { span: eof, kind: ParseErrorKind::UnexpectedEof })
    } else {
        match t[i].tok {
            TokView::Ident { text } => Ok((text, t[i].span, i + 1)),
            _ => Err(ParseError { span: t[i].span, kind: ParseErrorKind::UnexpectedToken }),
        }
    }
}

/// Whether an executable word outcome carries exactly the ghost outcome.
pub open spec fn word_matches(
    r: Result<(String, Span, usize), ParseError>,
    s: Result<(Seq<char>, Span, int), ParseError>,
) -> bool {
    match (r, s) {
        (Ok(p), Ok(q)) => p.0@ == q.0 && p.1 == q.1 && p.2 == q.2,
        (Err(a), Err(b)) => a == b,
        _ => false,
    }
}

/// Reads an identifier token at `i`.
pub fn read_ident(t: &Vec<Token>, i: usize, eof: Span) -> (r: Result<
    (String, Span, usize),
    ParseError,
>)
    ensures
        word_matches(r, spec_read_ident(view_tokens(t@), i as int, eof)),
{
    proof {
        lemma_view_tokens(t@);
    }
    if i >= t.len() {
        return Err(ParseError { span: eof, kind: ParseErrorKind::UnexpectedEof });
    }
    match &t[i].tok {
        Tok::Ident { text } => Ok((text.clone(), t[i].span, i + 1)),
        _ => Err(ParseError { span: t[i].span, kind: ParseErrorKind::UnexpectedToken }),
    }
}

/// Reads a number token at `i`.
pub open spec fn spec_read_number(t: Seq<TokenView>, i: int, eof: Span) -> Result<
    (u32, Span, int),
    ParseError,
> {
    if i < 0 || i >= t.len() {
        Err(ParseError { span: eof, kind: ParseErrorKind::UnexpectedEof })
    } else {
        match t[i].tok {
            TokView::Number { value } => Ok((value, t[i].span, i + 1)),
            _ => Err(ParseError { span: t[i].span, kind: ParseErrorKind::UnexpectedToken }),
        }
    }
}

/// Whether an executable number outcome carries exactly the ghost outcome.
pub open spec fn num_matches(
    r: Result<(u32, Span, usize), ParseError>,
    s: Result<(u32, Span, int), ParseError>,
) -> bool {
    match (r, s) {
        (Ok(p), Ok(q)) => p.0 == q.0 && p.1 == q.1 && p.2 == q.2,
        (Err(a), Err(b)) => a == b,
        _ => false,
    }
}

/// Reads a number token at `i`.
pub fn read_number(t: &Vec<Token>, i: usize, eof: Span) -> (r: Result<
    (u32, Span, usize),
    ParseError,
>)
    ensures
        num_matches(r, spec_read_number(view_tokens(t@), i as int, eof)),
{
    proof {
        lemma_view_tokens(t@);
    }
    if i >= t.len() {
        return Err(ParseError { span: eof, kind: ParseErrorKind::UnexpectedEof });
    }
    match &t[i].tok {
        Tok::Number { value } => Ok((*value, t[i].span, i + 1)),
        _ => Err(ParseError { span: t[i].span, kind: ParseErrorKind::UnexpectedToken }),
    }
}

// ===== Identifier resolution in expressions =====

/// Resolves `w` at `sp` to a local slot, a declared global or a built-in of
/// the parse's stage, in that order.
pub open spec fn spec_resolve_ident(
    w: Seq<char>,
    sp: Span,
    d: Dialect,
    sc: Option<ShaderStage>,
    g: Seq<GlobalView>,
    l: Seq<LocalVarView>,
) -> Result<Expr, ParseError> {
    match spec_find_local(l, 0, w) {
        Some(k) => Ok(Expr::LocalRef { index: k as usize }),
        None => match spec_find_global(g, 0, w) {
            Some(k) => Ok(Expr::GlobalRef { index: k as usize }),
            None => match spec_builtin_keyword(d, w) {
                Some(b) => match sc {
                    Some(s) => if builtin_stage(b) == s {
                        Ok(Expr::BuiltinRef { builtin: b })
                    } else {
                        Err(ParseError { span: sp, kind: ParseErrorKind::StageMismatch })
                    },
                    None => Ok(Expr::BuiltinRef { builtin: b }),
                },
                None => Err(ParseError { span: sp, kind: ParseErrorKind::UnknownIdent }),
            },
        },
    }
}

/// Whether an executable expression outcome carries exactly the ghost one.
pub open spec fn expr_matches(
    r: Result<(Expr, usize), ParseError>,
    s: Result<(Expr, int), ParseError>,
) -> bool {
    match (r, s) {
        (Ok(p), Ok(q)) => p.0 == q.0 && p.1 == q.1,
        (Err(a), Err(b)) => a == b,
        _ => false,
    }
}

/// Resolves `w` at `sp` against locals, globals and built-ins.
pub fn resolve_ident(
    w: &String,
    sp: Span,
    d: Dialect,
    sc: Option<ShaderStage>,
    g: &Vec<Global>,
    l: &Vec<LocalVar>,
) -> (r: Result<Expr, ParseError>)
    ensures
        match (r, spec_resolve_ident(w@, sp, d, sc, view_globals(g@), view_locals(l@))) {
            (Ok(e), Ok(se)) => e == se,
            (Err(a), Err(b)) => a == b,
            _ => false,
        },
{
    match find_local(l, 0, w) {
        Some(k) => Ok(Expr::LocalRef { index: k }),
        None => match find_global(g, 0, w) {
            Some(k) => Ok(Expr::GlobalRef { index: k }),
            None => match builtin_keyword(d, w) {
                Some(b) => match sc {
                    Some(s) => if builtin_stage_of(b) == s {
                        Ok(Expr::BuiltinRef { builtin: b })
                    } else {
                        Err(ParseError { span: sp, kind: ParseErrorKind::StageMismatch })
                    },
                    None => Ok(Expr::BuiltinRef { builtin: b }),
                },
                None => Err(ParseError { span: sp, kind: ParseErrorKind::UnknownIdent }),
            },
        },
    }
}


// ===== Expression parsing =====

// The grammar, in precedence order: a comparison is two sums joined by `<`
// or a single sum; sums and products associate to the left; a primary is a
// number, a parenthesised comparison, a vector constructor or a name.

/// Parses a vector constructor whose word stands at `i`.
pub open spec fn spec_p_ctor(
    t: Seq<TokenView>,
    i: int,
    eof: Span,
    d: Dialect,
    sc: Option<ShaderStage>,
    g: Seq<GlobalView>,
    l: Seq<LocalVarView>,
) -> Result<(Expr, int), ParseError>
    decreases tokens_rem(t.len() as int, i), 0int,
{
    if i < 0 || i >= t.len() {
        Err(ParseError { span: eof, kind: ParseErrorKind::UnexpectedEof })
    } else {
        match spec_expect(t, i + 1, eof, TokView::LParen) {
            Ok(j0) => match spec_p_cmp(t, at_least(j0, i + 1), eof, d, sc, g, l) {
                Ok((e1, j1)) => match spec_expect(t, j1, eof, TokView::Comma) {
                    Ok(j2) => match spec_p_cmp(t, at_least(j2, i + 1), eof, d, sc, g, l) {
                        Ok((e2, j3)) => match spec_expect(t, j3, eof, TokView::Comma) {
                            Ok(j4) => match spec_p_cmp(t, at_least(j4, i + 1), eof, d, sc, g, l) {
                                Ok((e3, j5)) => match spec_expect(t, j5, eof, TokView::Comma) {
                                    Ok(j6) => match spec_p_cmp(
                                        t,
                                        at_least(j6, i + 1),
                                        eof,
                                        d,
                                        sc,
                                        g,
                                        l,
                                    ) {
                                        Ok((e4, j7)) => match spec_expect(
                                            t,
                                            j7,
                                            eof,
                                            TokView::RParen,
                                        ) {
                                            Ok(j8) => Ok(
                                                (
                                                    Expr::Vec4Ctor {
                                                        x: Box::new(e1),
                                                        y: Box::new(e2),
                                                        z: Box::new(e3),
                                                        w: Box::new(e4),
                                                    },
                                                    j8,
                                                ),
                                            ),
                                            Err(er) => Err(er),
                                        },
                                        Err(er) => Err(er),
                                    },
                                    Err(er) => Err(er),
                                },
                                Err(er) => Err(er),
                            },
                            Err(er) => Err(er),
                        },
                        Err(er) => Err(er),
                    },
                    Err(er) => Err(er),
                },
                Err(er) => Err(er),
            },
            Err(er) => Err(er),
        }
    }
}

pub open spec fn spec_p_primary(
    t: Seq<TokenView>,
    i: int,
    eof: Span,
    d: Dialect,
    sc: Option<ShaderStage>,
    g: Seq<GlobalView>,
    l: Seq<LocalVarView>,
) -> Result<(Expr, int), ParseError>
    decreases tokens_rem(t.len() as int, i), 1int,
{
    if i < 0 || i >= t.len() {
        Err(ParseError { span: eof, kind: ParseErrorKind::UnexpectedEof })
    } else {
        match t[i].tok {
            TokView::Number { value } => Ok((Expr::Literal { value }, i + 1)),
            TokView::LParen => match spec_p_cmp(t, at_least(i + 1, i + 1), eof, d, sc, g, l) {
                Ok((e, j)) => match spec_expect(t, j, eof, TokView::RParen) {
                    Ok(j2) => Ok((e, j2)),
                    Err(er) => Err(er),
                },
                Err(er) => Err(er),
            },
            TokView::Ident { text } => if text == spec_ctor_word(d) {
                spec_p_ctor(t, i, eof, d, sc, g, l)
            } else {
                match spec_resolve_ident(text, t[i].span, d, sc, g, l) {
                    Ok(e) => Ok((e, i + 1)),
                    Err(er) => Err(er),
                }
            },
            _ => Err(ParseError { span: t[i].span, kind: ParseErrorKind::UnexpectedToken }),
        }
    }
}

pub open spec fn spec_p_mul_more(
    t: Seq<TokenView>,
    i: int,
    lhs: Expr,
    eof: Span,
    d: Dialect,
    sc: Option<ShaderStage>,
    g: Seq<GlobalView>,
    l: Seq<LocalVarView>,
) -> Result<(Expr, int), ParseError>
    decreases tokens_rem(t.len() as int, i), 2int,
{
    if i < 0 || i >= t.len() {
        Ok((lhs, i))
    } else if t[i].tok is Star {
        match spec_p_primary(t, at_least(i + 1, i + 1), eof, d, sc, g, l) {
            Ok((rhs, j)) => spec_p_mul_more(
                t,
                at_least(j, i + 1),
                Expr::Binary { op: BinOp::Mul, lhs: Box::new(lhs), rhs: Box::new(rhs) },
                eof,
                d,
                sc,
                g,
                l,
            ),
            Err(er) => Err(er),
        }
    } else {
        Ok((lhs, i))
    }
}

pub open spec fn spec_p_mul(
    t: Seq<TokenView>,
    i: int,
    eof: Span,
    d: Dialect,
    sc: Option<ShaderStage>,
    g: Seq<GlobalView>,
    l: Seq<LocalVarView>,
) -> Result<(Expr, int), ParseError>
    decreases tokens_rem(t.len() as int, i), 3int,
{
    if i < 0 || i >= t.len() {
        Err(ParseError { span: eof, kind: ParseErrorKind::UnexpectedEof })
    } else {
        match spec_p_primary(t, i, eof, d, sc, g, l) {
            Ok((e, j)) => spec_p_mul_more(t, at_least(j, i + 1), e, eof, d, sc, g, l),
            Err(er) => Err(er),
        }
    }
}

pub open spec fn spec_p_add_more(
    t: Seq<TokenView>,
    i: int,
    lhs: Expr,
    eof: Span,
    d: Dialect,
    sc: Option<ShaderStage>,
    g: Seq<GlobalView>,
    l: Seq<LocalVarView>,
) -> Result<(Expr, int), ParseError>
    decreases tokens_rem(t.len() as int, i), 4int,
{
    if i < 0 || i >= t.len() {
        Ok((lhs, i))
    } else if t[i].tok is Plus {
        match spec_p_mul(t, at_least(i + 1, i + 1), eof, d, sc, g, l) {
            Ok((rhs, j)) => spec_p_add_more(
                t,
                at_least(j, i + 1),
                Expr::Binary { op: BinOp::Add, lhs: Box::new(lhs), rhs: Box::new(rhs) },
                eof,
                d,
                sc,
                g,
                l,
            ),
            Err(er) => Err(er),
        }
    } else {
        Ok((lhs, i))
    }
}

pub open spec fn spec_p_add(
    t: Seq<TokenView>,
    i: int,
    eof: Span,
    d: Dialect,
    sc: Option<ShaderStage>,
    g: Seq<GlobalView>,
    l: Seq<LocalVarView>,
) -> Result<(Expr, int), ParseError>
    decreases tokens_rem(t.len() as int, i), 5int,
{
    if i < 0 || i >= t.len() {
        Err(ParseError { span: eof, kind: ParseErrorKind::UnexpectedEof })
    } else {
        match spec_p_mul(t, i, eof, d, sc, g, l) {
            Ok((e, j)) => spec_p_add_more(t, at_least(j, i + 1), e, eof, d, sc, g, l),
            Err(er) => Err(er),
        }
    }
}

pub open spec fn spec_p_cmp(
    t: Seq<TokenView>,
    i: int,
    eof: Span,
    d: Dialect,
    sc: Option<ShaderStage>,
    g: Seq<GlobalView>,
    l: Seq<LocalVarView>,
) -> Result<(Expr, int), ParseError>
    decreases tokens_rem(t.len() as int, i), 6int,
{
    if i < 0 || i >= t.len() {
        Err(ParseError { span: eof, kind: ParseErrorKind::UnexpectedEof })
    } else {
        match spec_p_add(t, i, eof, d, sc, g, l) {
            Ok((e, j)) => if 0 <= j < t.len() && t[j].tok is Lt {
                match spec_p_add(t, at_least(j + 1, i + 1), eof, d, sc, g, l) {
                    Ok((e2, j2)) => Ok(
                        (
                            Expr::Binary { op: BinOp::Less, lhs: Box::new(e), rhs: Box::new(e2) },
                            j2,
                        ),
                    ),
                    Err(er) => Err(er),
                }
            } else {
                Ok((e, j))
            },
            Err(er) => Err(er),
        }
    }
}

/// Returns whether `w` is the vector constructor word of dialect `d`.
pub fn is_ctor_word(d: Dialect, w: &String) -> (r: bool)
    ensures
        r == (w@ == spec_ctor_word(d)),
{
    match d {
        Dialect::Glsl => word_is(w, "vec4"),
        Dialect::Wgsl => word_is(w, "vec4f32"),
    }
}

/// Parses a vector constructor whose word stands at `i`.
#[verifier::rlimit(100)]
pub fn p_ctor(
    t: &Vec<Token>,
    i: usize,
    eof: Span,
    d: Dialect,
    sc: Option<ShaderStage>,
    g: &Vec<Global>,
    l: &Vec<LocalVar>,
) -> (r: Result<(Expr, usize), ParseError>)
    ensures
        expr_matches(
            r,
            spec_p_ctor(view_tokens(t@), i as int, eof, d, sc, view_globals(g@), view_locals(l@)),
        ),
    decreases tokens_rem(t@.len() as int, i as int), 0int,
{
    proof {
        lemma_view_tokens(t@);
    }
    if i >= t.len() {
        return Err(ParseError { span: eof, kind: ParseErrorKind::UnexpectedEof });
    }
    let j0 = match expect_sym(t, i + 1, eof, Tok::LParen) {
        Ok(j) => j,
        Err(er) => {
            return Err(er);
        },
    };
    let (e1, j1) = match p_cmp(t, clamp_at_least(j0, i + 1), eof, d, sc, g, l) {
        Ok(p) => p,
        Err(er) => {
            return Err(er);
        },
    };
    let j2 = match expect_sym(t, j1, eof, Tok::Comma) {
        Ok(j) => j,
        Err(er) => {
            return Err(er);
        },
    };
    let (e2, j3) = match p_cmp(t, clamp_at_least(j2, i + 1), eof, d, sc, g, l) {
        Ok(p) => p,
        Err(er) => {
            return Err(er);
        },
    };
    let j4 = match expect_sym(t, j3, eof, Tok::Comma) {
        Ok(j) => j,
        Err(er) => {
            return Err(er);
        },
    };
    let (e3, j5) = match p_cmp(t, clamp_at_least(j4, i + 1), eof, d, sc, g, l) {
        Ok(p) => p,
        Err(er) => {
            return Err(er);
        },
    };
    let j6 = match expect_sym(t, j5, eof, Tok::Comma) {
        Ok(j) => j,
        Err(er) => {
            return Err(er);
        },
    };
    let (e4, j7) = match p_cmp(t, clamp_at_least(j6, i + 1), eof, d, sc, g, l) {
        Ok(p) => p,
        Err(er) => {
            return Err(er);
        },
    };
    let j8 = match expect_sym(t, j7, eof, Tok::RParen) {
        Ok(j) => j,
        Err(er) => {
            return Err(er);
        },
    };
    Ok(
        (
            Expr::Vec4Ctor {
                x: Box::new(e1),
                y: Box::new(e2),
                z: Box::new(e3),
                w: Box::new(e4),
            },
            j8,
        ),
    )
}

/// Parses a primary expression at `i`.
pub fn p_primary(
    t: &Vec<Token>,
    i: usize,
    eof: Span,
    d: Dialect,
    sc: Option<ShaderStage>,
    g: &Vec<Global>,
    l: &Vec<LocalVar>,
) -> (r: Result<(Expr, usize), ParseError>)
    ensures
        expr_matches(
            r,
            spec_p_primary(view_tokens(t@), i as int, eof, d, sc, view_globals(g@), view_locals(l@)),
        ),
    decreases tokens_rem(t@.len() as int, i as int), 1int,
{
    proof {
        lemma_view_tokens(t@);
    }
    if i >= t.len() {
        return Err(ParseError { span: eof, kind: ParseErrorKind::UnexpectedEof });
    }
    match &t[i].tok {
        Tok::Number { value } => Ok((Expr::Literal { value: *value }, i + 1)),
        Tok::LParen => {
            let (e, j) = match p_cmp(t, clamp_at_least(i + 1, i + 1), eof, d, sc, g, l) {
                Ok(p) => p,
                Err(er) => {
                    return Err(er);
                },
            };
            let j2 = match expect_sym(t, j, eof, Tok::RParen) {
                Ok(j2) => j2,
                Err(er) => {
                    return Err(er);
                },
            };
            Ok((e, j2))
        },
        Tok::Ident { text } => {
            if is_ctor_word(d, text) {
                p_ctor(t, i, eof, d, sc, g, l)
            } else {
                match resolve_ident(text, t[i].span, d, sc, g, l) {
                    Ok(e) => Ok((e, i + 1)),
                    Err(er) => Err(er),
                }
            }
        },
        _ => Err(ParseError { span: t[i].span, kind: ParseErrorKind::UnexpectedToken }),
    }
}

/// Parses the `* primary` continuations of a product.
pub fn p_mul_more(
    t: &Vec<Token>,
    i: usize,
    lhs: Expr,
    eof: Span,
    d: Dialect,
    sc: Option<ShaderStage>,
    g: &Vec<Global>,
    l: &Vec<LocalVar>,
) -> (r: Result<(Expr, usize), ParseError>)
    ensures
        expr_matches(
            r,
            spec_p_mul_more(
                view_tokens(t@),
                i as int,
                lhs,
                eof,
                d,
                sc,
                view_globals(g@),
                view_locals(l@),
            ),
        ),
    decreases tokens_rem(t@.len() as int, i as int), 2int,
{
    proof {
        lemma_view_tokens(t@);
    }
    if i >= t.len() {
        return Ok((lhs, i));
    }
    if tok_sym_eq(&t[i].tok, &Tok::Star) {
        match p_primary(t, clamp_at_least(i + 1, i + 1), eof, d, sc, g, l) {
            Ok((rhs, j)) => p_mul_more(
                t,
                clamp_at_least(j, i + 1),
                Expr::Binary { op: BinOp::Mul, lhs: Box::new(lhs), rhs: Box::new(rhs) },
                eof,
                d,
                sc,
                g,
                l,
            ),
            Err(er) => Err(er),
        }
    } else {
        Ok((lhs, i))
    }
}

/// Parses a product at `i`.
pub fn p_mul(
    t: &Vec<Token>,
    i: usize,
    eof: Span,
    d: Dialect,
    sc: Option<ShaderStage>,
    g: &Vec<Global>,
    l: &Vec<LocalVar>,
) -> (r: Result<(Expr, usize), ParseError>)
    ensures
        expr_matches(
            r,
            spec_p_mul(view_tokens(t@), i as int, eof, d, sc, view_globals(g@), view_locals(l@)),
        ),
    decreases tokens_rem(t@.len() as int, i as int), 3int,
{
    proof {
        lemma_view_tokens(t@);
    }
    if i >= t.len() {
        return Err(ParseError { span: eof, kind: ParseErrorKind::UnexpectedEof });
    }
    match p_primary(t, i, eof, d, sc, g, l) {
        Ok((e, j)) => p_mul_more(t, clamp_at_least(j, i + 1), e, eof, d, sc, g, l),
        Err(er) => Err(er),
    }
}

/// Parses the `+ product` continuations of a sum.
pub fn p_add_more(
    t: &Vec<Token>,
    i: usize,
    lhs: Expr,
    eof: Span,
    d: Dialect,
    sc: Option<ShaderStage>,
    g: &Vec<Global>,
    l: &Vec<LocalVar>,
) -> (r: Result<(Expr, usize), ParseError>)
    ensures
        expr_matches(
            r,
            spec_p_add_more(
                view_tokens(t@),
                i as int,
                lhs,
                eof,
                d,
                sc,
                view_globals(g@),
                view_locals(l@),
            ),
        ),
    decreases tokens_rem(t@.len() as int, i as int), 4int,
{
    proof {
        lemma_view_tokens(t@);
    }
    if i >= t.len() {
        return Ok((lhs, i));
    }
    if tok_sym_eq(&t[i].tok, &Tok::Plus) {
        match p_mul(t, clamp_at_least(i + 1, i + 1), eof, d, sc, g, l) {
            Ok((rhs, j)) => p_add_more(
                t,
                clamp_at_least(j, i + 1),
                Expr::Binary { op: BinOp::Add, lhs: Box::new(lhs), rhs: Box::new(rhs) },
                eof,
                d,
                sc,
                g,
                l,
            ),
            Err(er) => Err(er),
        }
    } else {
        Ok((lhs, i))
    }
}

/// Parses a sum at `i`.
pub fn p_add(
    t: &Vec<Token>,
    i: usize,
    eof: Span,
    d: Dialect,
    sc: Option<ShaderStage>,
    g: &Vec<Global>,
    l: &Vec<LocalVar>,
) -> (r: Result<(Expr, usize), ParseError>)
    ensures
        expr_matches(
            r,
            spec_p_add(view_tokens(t@), i as int, eof, d, sc, view_globals(g@), view_locals(l@)),
        ),
    decreases tokens_rem(t@.len() as int, i as int), 5int,
{
    proof {
        lemma_view_tokens(t@);
    }
    if i >= t.len() {
        return Err(ParseError { span: eof, kind: ParseErrorKind::UnexpectedEof });
    }
    match p_mul(t, i, eof, d, sc, g, l) {
        Ok((e, j)) => p_add_more(t, clamp_at_least(j, i + 1), e, eof, d, sc, g, l),
        Err(er) => Err(er),
    }
}

/// Parses a comparison at `i`: a sum, optionally `< sum`.
pub fn p_cmp(
    t: &Vec<Token>,
    i: usize,
    eof: Span,
    d: Dialect,
    sc: Option<ShaderStage>,
    g: &Vec<Global>,
    l: &Vec<LocalVar>,
) -> (r: Result<(Expr, usize), ParseError>)
    ensures
        expr_matches(
            r,
            spec_p_cmp(view_tokens(t@), i as int, eof, d, sc, view_globals(g@), view_locals(l@)),
        ),
    decreases tokens_rem(t@.len() as int, i as int), 6int,
{
    proof {
        lemma_view_tokens(t@);
    }
    if i >= t.len() {
        return Err(ParseError { span: eof, kind: ParseErrorKind::UnexpectedEof });
    }
    match p_add(t, i, eof, d, sc, g, l) {
        Ok((e, j)) => {
            if j < t.len() && tok_sym_eq(&t[j].tok, &Tok::Lt) {
                match p_add(t, clamp_at_least(j + 1, i + 1), eof, d, sc, g, l) {
                    Ok((e2, j2)) => Ok(
                        (
                            Expr::Binary { op: BinOp::Less, lhs: Box::new(e), rhs: Box::new(e2) },
                            j2,
                        ),
                    ),
                    Err(er) => Err(er),
                }
            } else {
                Ok((e, j))
            }
        },
        Err(er) => Err(er),
    }
}


// ===== Statement parsing =====

/// Whether an executable statement outcome carries exactly the ghost one.
pub open spec fn stmt_matches(
    r: Result<(Stmt, Vec<LocalVar>, usize), ParseError>,
    s: Result<(StmtView, Seq<LocalVarView>, int), ParseError>,
) -> bool {
    match (r, s) {
        (Ok(p), Ok(q)) => view_stmt(p.0) == q.0 && view_locals(p.1@) == q.1 && p.2 == q.2,
        (Err(a), Err(b)) => a == b,
        _ => false,
    }
}

/// Whether an executable statement-list outcome carries exactly the ghost
/// one.
pub open spec fn stmts_matches(
    r: Result<(Vec<Stmt>, Vec<LocalVar>, usize), ParseError>,
    s: Result<(Seq<StmtView>, Seq<LocalVarView>, int), ParseError>,
) -> bool {
    match (r, s) {
        (Ok(p), Ok(q)) => view_stmts(p.0@) == q.0 && view_locals(p.1@) == q.1 && p.2 == q.2,
        (Err(a), Err(b)) => a == b,
        _ => false,
    }
}

/// Resolves the target of an assignment to `w`: a local slot, or a writable
/// built-in of the parse's stage; globals are read-only.
pub open spec fn spec_resolve_target(
    w: Seq<char>,
    sp: Span,
    d: Dialect,
    sc: Option<ShaderStage>,
    g: Seq<GlobalView>,
    l: Seq<LocalVarView>,
) -> Result<StmtView, ParseError> {
    match spec_find_local(l, 0, w) {
        Some(k) => Ok(
            StmtView::AssignLocal { index: k as usize, value: Expr::Literal { value: 0 }, span: sp },
        ),
        None => match spec_find_global(g, 0, w) {
            Some(_) => Err(ParseError { span: sp, kind: ParseErrorKind::NotWritable }),
            None => match spec_builtin_keyword(d, w) {
                Some(b) => if !builtin_writable(b) {
                    Err(ParseError { span: sp, kind: ParseErrorKind::NotWritable })
                } else {
                    match sc {
                        Some(s) => if builtin_stage(b) == s {
                            Ok(
                                StmtView::AssignBuiltin {
                                    builtin: b,
                                    value: Expr::Literal { value: 0 },
                                    span: sp,
                                },
                            )
                        } else {
                            Err(ParseError { span: sp, kind: ParseErrorKind::StageMismatch })
                        },
                        None => Ok(
                            StmtView::AssignBuiltin {
                                builtin: b,
                                value: Expr::Literal { value: 0 },
                                span: sp,
                            },
                        ),
                    }
                },
                None => Err(ParseError { span: sp, kind: ParseErrorKind::UnknownIdent }),
            },
        },
    }
}

/// Resolves the target of an assignment to `w`; the value expression in the
/// returned statement is a placeholder the caller replaces.
pub fn resolve_target(
    w: &String,
    sp: Span,
    d: Dialect,
    sc: Option<ShaderStage>,
    g: &Vec<Global>,
    l: &Vec<LocalVar>,
) -> (r: Result<Stmt, ParseError>)
    ensures
        match (r, spec_resolve_target(w@, sp, d, sc, view_globals(g@), view_locals(l@))) {
            (Ok(st), Ok(sv)) => view_stmt(st) == sv,
            (Err(a), Err(b)) => a == b,
            _ => false,
        },
{
    match find_local(l, 0, w) {
        Some(k) => Ok(Stmt::AssignLocal { index: k, value: Expr::Literal { value: 0 }, span: sp }),
        None => match find_global(g, 0, w) {
            Some(_) => Err(ParseError { span: sp, kind: ParseErrorKind::NotWritable }),
            None => match builtin_keyword(d, w) {
                Some(b) => if !builtin_writable_of(b) {
                    Err(ParseError { span: sp, kind: ParseErrorKind::NotWritable })
                } else {
                    match sc {
                        Some(s) => if builtin_stage_of(b) == s {
                            Ok(
                                Stmt::AssignBuiltin {
                                    builtin: b,
                                    value: Expr::Literal { value: 0 },
                                    span: sp,
                                },
                            )
                        } else {
                            Err(ParseError { span: sp, kind: ParseErrorKind::StageMismatch })
                        },
                        None => Ok(
                            Stmt::AssignBuiltin {
                                builtin: b,
                                value: Expr::Literal { value: 0 },
                                span: sp,
                            },
                        ),
                    }
                },
                None => Err(ParseError { span: sp, kind: ParseErrorKind::UnknownIdent }),
            },
        },
    }
}

/// Parses the rest of a local declaration: the name stands at `i`, the
/// declaring statement started at `sp`, and its type is already known.
pub open spec fn spec_p_local_tail(
    t: Seq<TokenView>,
    i: int,
    sp: Span,
    ty: Ty,
    eof: Span,
    d: Dialect,
    sc: Option<ShaderStage>,
    g: Seq<GlobalView>,
    l: Seq<LocalVarView>,
) -> Result<(StmtView, Seq<LocalVarView>, int), ParseError>
    decreases tokens_rem(t.len() as int, i), 7int,
{
    match spec_read_ident(t, i, eof) {
        Ok((name, nsp, j)) => if is_reserved(name) {
            Err(ParseError { span: nsp, kind: ParseErrorKind::ReservedWord })
        } else if spec_find_local(l, 0, name) is Some || spec_find_global(g, 0, name) is Some {
            Err(ParseError { span: nsp, kind: ParseErrorKind::DuplicateName })
        } else {
            match spec_expect(t, j, eof, TokView::Assign) {
                Ok(j2) => match spec_p_cmp(t, at_least(j2, i + 1), eof, d, sc, g, l) {
                    Ok((e, j3)) => match spec_expect(t, j3, eof, TokView::Semi) {
                        Ok(j4) => Ok(
                            (
                                StmtView::Local { index: l.len() as usize, ty, init: e, span: sp },
                                l.push(LocalVarView { name, ty }),
                                j4,
                            ),
                        ),
                        Err(er) => Err(er),
                    },
                    Err(er) => Err(er),
                },
                Err(er) => Err(er),
            }
        },
        Err(er) => Err(er),
    }
}

/// Parses the rest of an `if`: the opening parenthesis stands at `i`.
pub open spec fn spec_p_if_tail(
    t: Seq<TokenView>,
    i: int,
    sp: Span,
    eof: Span,
    d: Dialect,
    sc: Option<ShaderStage>,
    g: Seq<GlobalView>,
    l: Seq<LocalVarView>,
) -> Result<(StmtView, Seq<LocalVarView>, int), ParseError>
    decreases tokens_rem(t.len() as int, i), 7int,
{
    match spec_expect(t, i, eof, TokView::LParen) {
        Ok(j0) => match spec_p_cmp(t, at_least(j0, i + 1), eof, d, sc, g, l) {
            Ok((c, j1)) => match spec_expect(t, j1, eof, TokView::RParen) {
                Ok(j2) => match spec_expect(t, j2, eof, TokView::LBrace) {
                    Ok(j3) => match spec_p_stmts(
                        t,
                        at_least(j3, i + 1),
                        eof,
                        d,
                        sc,
                        g,
                        l,
                        Seq::empty(),
                    ) {
                        Ok((body, l2, j4)) => Ok(
                            (StmtView::If { cond: c, body, span: sp }, l2, j4),
                        ),
                        Err(er) => Err(er),
                    },
                    Err(er) => Err(er),
                },
                Err(er) => Err(er),
            },
            Err(er) => Err(er),
        },
        Err(er) => Err(er),
    }
}

/// Parses the rest of an assignment: `=` stands at `i` and the resolved
/// target is given.
pub open spec fn spec_p_assign_tail(
    t: Seq<TokenView>,
    i: int,
    sp: Span,
    target: StmtView,
    eof: Span,
    d: Dialect,
    sc: Option<ShaderStage>,
    g: Seq<GlobalView>,
    l: Seq<LocalVarView>,
) -> Result<(StmtView, Seq<LocalVarView>, int), ParseError>
    decreases tokens_rem(t.len() as int, i), 7int,
{
    match spec_expect(t, i, eof, TokView::Assign) {
        Ok(j0) => match spec_p_cmp(t, at_least(j0, i + 1), eof, d, sc, g, l) {
            Ok((e, j1)) => match spec_expect(t, j1, eof, TokView::Semi) {
                Ok(j2) => match target {
                    StmtView::AssignLocal { index, .. } => Ok(
                        (StmtView::AssignLocal { index, value: e, span: sp }, l, j2),
                    ),
                    StmtView::AssignBuiltin { builtin, .. } => Ok(
                        (StmtView::AssignBuiltin { builtin, value: e, span: sp }, l, j2),
                    ),
                    _ => Err(ParseError { span: sp, kind: ParseErrorKind::UnknownIdent }),
                },
                Err(er) => Err(er),
            },
            Err(er) => Err(er),
        },
        Err(er) => Err(er),
    }
}

/// Parses the rest of a WGSL local declaration: the name stands at `i`.
pub open spec fn spec_p_var_tail(
    t: Seq<TokenView>,
    i: int,
    sp: Span,
    eof: Span,
    d: Dialect,
    sc: Option<ShaderStage>,
    g: Seq<GlobalView>,
    l: Seq<LocalVarView>,
) -> Result<(StmtView, Seq<LocalVarView>, int), ParseError>
    decreases tokens_rem(t.len() as int, i), 7int,
{
    match spec_read_ident(t, i, eof) {
        Ok((name, nsp, j)) => if is_reserved(name) {
            Err(ParseError { span: nsp, kind: ParseErrorKind::ReservedWord })
        } else if spec_find_local(l, 0, name) is Some || spec_find_global(g, 0, name) is Some {
            Err(ParseError { span: nsp, kind: ParseErrorKind::DuplicateName })
        } else {
            match spec_expect(t, j, eof, TokView::Colon) {
                Ok(j2) => match spec_read_ident(t, j2, eof) {
                    Ok((tyword, tysp, j3)) => match spec_ty_keyword(d, tyword) {
                        Some(ty) => match spec_expect(t, j3, eof, TokView::Assign) {
                            Ok(j4) => match spec_p_cmp(t, at_least(j4, i + 1), eof, d, sc, g, l) {
                                Ok((e, j5)) => match spec_expect(t, j5, eof, TokView::Semi) {
                                    Ok(j6) => Ok(
                                        (
                                            StmtView::Local {
                                                index: l.len() as usize,
                                                ty,
                                                init: e,
                                                span: sp,
                                            },
                                            l.push(LocalVarView { name, ty }),
                                            j6,
                                        ),
                                    ),
                                    Err(er) => Err(er),
                                },
                                Err(er) => Err(er),
                            },
                            Err(er) => Err(er),
                        },
                        None => Err(ParseError { span: tysp, kind: ParseErrorKind::UnexpectedToken }),
                    },
                    Err(er) => Err(er),
                },
                Err(er) => Err(er),
            }
        },
        Err(er) => Err(er),
    }
}

pub open spec fn spec_p_stmt(
    t: Seq<TokenView>,
    i: int,
    eof: Span,
    d: Dialect,
    sc: Option<ShaderStage>,
    g: Seq<GlobalView>,
    l: Seq<LocalVarView>,
) -> Result<(StmtView, Seq<LocalVarView>, int), ParseError>
    decreases tokens_rem(t.len() as int, i), 8int,
{
    if i < 0 || i >= t.len() {
        Err(ParseError { span: eof, kind: ParseErrorKind::UnexpectedEof })
    } else {
        let sp = t[i].span;
        match t[i].tok {
            TokView::Ident { text } => if d == Dialect::Glsl && spec_ty_keyword(d, text) is Some {
                spec_p_local_tail(
                    t,
                    i + 1,
                    sp,
                    spec_ty_keyword(d, text)->Some_0,
                    eof,
                    d,
                    sc,
                    g,
                    l,
                )
            } else if d == Dialect::Wgsl && text == "var"@ {
                spec_p_var_tail(t, i + 1, sp, eof, d, sc, g, l)
            } else if text == "if"@ {
                spec_p_if_tail(t, i + 1, sp, eof, d, sc, g, l)
            } else if text == spec_barrier_word(d) {
                if sc is Some && sc->0 != ShaderStage::Compute {
                    Err(ParseError { span: sp, kind: ParseErrorKind::StageMismatch })
                } else {
                    match spec_expect(t, i + 1, eof, TokView::LParen) {
                        Ok(j0) => match spec_expect(t, j0, eof, TokView::RParen) {
                            Ok(j1) => match spec_expect(t, j1, eof, TokView::Semi) {
                                Ok(j2) => Ok((StmtView::Barrier { span: sp }, l, j2)),
                                Err(er) => Err(er),
                            },
                            Err(er) => Err(er),
                        },
                        Err(er) => Err(er),
                    }
                }
            } else {
                match spec_resolve_target(text, sp, d, sc, g, l) {
                    Ok(target) => spec_p_assign_tail(t, i + 1, sp, target, eof, d, sc, g, l),
                    Err(er) => Err(er),
                }
            },
            _ => Err(ParseError { span: sp, kind: ParseErrorKind::UnexpectedToken }),
        }
    }
}

pub open spec fn spec_p_stmts(
    t: Seq<TokenView>,
    i: int,
    eof: Span,
    d: Dialect,
    sc: Option<ShaderStage>,
    g: Seq<GlobalView>,
    l: Seq<LocalVarView>,
    acc: Seq<StmtView>,
) -> Result<(Seq<StmtView>, Seq<LocalVarView>, int), ParseError>
    decreases tokens_rem(t.len() as int, i), 9int,
{
    if i < 0 || i >= t.len() {
        Err(ParseError { span: eof, kind: ParseErrorKind::UnexpectedEof })
    } else if t[i].tok is RBrace {
        Ok((acc, l, i + 1))
    } else {
        match spec_p_stmt(t, i, eof, d, sc, g, l) {
            Ok((s, l2, j)) => spec_p_stmts(t, at_least(j, i + 1), eof, d, sc, g, l2, acc.push(s)),
            Err(er) => Err(er),
        }
    }
}

/// Parses the rest of a local declaration after its type keyword.
pub fn p_local_tail(
    t: &Vec<Token>,
    i: usize,
    sp: Span,
    ty: Ty,
    eof: Span,
    d: Dialect,
    sc: Option<ShaderStage>,
    g: &Vec<Global>,
    l: Vec<LocalVar>,
) -> (r: Result<(Stmt, Vec<LocalVar>, usize), ParseError>)
    ensures
        stmt_matches(
            r,
            spec_p_local_tail(
                view_tokens(t@),
                i as int,
                sp,
                ty,
                eof,
                d,
                sc,
                view_globals(g@),
                view_locals(l@),
            ),
        ),
    decreases tokens_rem(t@.len() as int, i as int), 7int,
{
    proof {
        lemma_view_tokens(t@);
        lemma_view_locals(l@);
    }
    let (name, nsp, j) = match read_ident(t, i, eof) {
        Ok(p) => p,
        Err(er) => {
            return Err(er);
        },
    };
    if reserved_word(&name) {
        return Err(ParseError { span: nsp, kind: ParseErrorKind::ReservedWord });
    }
    if find_local(&l, 0, &name).is_some() || find_global(g, 0, &name).is_some() {
        return Err(ParseError { span: nsp, kind: ParseErrorKind::DuplicateName });
    }
    let j2 = match expect_sym(t, j, eof, Tok::Assign) {
        Ok(p) => p,
        Err(er) => {
            return Err(er);
        },
    };
    let (e, j3) = match p_cmp(t, clamp_at_least(j2, i + 1), eof, d, sc, g, &l) {
        Ok(p) => p,
        Err(er) => {
            return Err(er);
        },
    };
    let j4 = match expect_sym(t, j3, eof, Tok::Semi) {
        Ok(p) => p,
        Err(er) => {
            return Err(er);
        },
    };
    let idx = l.len();
    let st = Stmt::Local { index: idx, ty, init: e, span: sp };
    let mut l2 = l;
    let lv = LocalVar { name, ty };
    proof {
        lemma_view_locals_push(l2@, lv);
    }
    l2.push(lv);
    Ok((st, l2, j4))
}

/// Parses the rest of a WGSL local declaration after `var`.
pub fn p_var_tail(
    t: &Vec<Token>,
    i: usize,
    sp: Span,
    eof: Span,
    d: Dialect,
    sc: Option<ShaderStage>,
    g: &Vec<Global>,
    l: Vec<LocalVar>,
) -> (r: Result<(Stmt, Vec<LocalVar>, usize), ParseError>)
    ensures
        stmt_matches(
            r,
            spec_p_var_tail(
                view_tokens(t@),
                i as int,
                sp,
                eof,
                d,
                sc,
                view_globals(g@),
                view_locals(l@),
            ),
        ),
    decreases tokens_rem(t@.len() as int, i as int), 7int,
{
    proof {
        lemma_view_tokens(t@);
        lemma_view_locals(l@);
    }
    let (name, nsp, j) = match read_ident(t, i, eof) {
        Ok(p) => p,
        Err(er) => {
            return Err(er);
        },
    };
    if reserved_word(&name) {
        return Err(ParseError { span: nsp, kind: ParseErrorKind::ReservedWord });
    }
    if find_local(&l, 0, &name).is_some() || find_global(g, 0, &name).is_some() {
        return Err(ParseError { span: nsp, kind: ParseErrorKind::DuplicateName });
    }
    let j2 = match expect_sym(t, j, eof, Tok::Colon) {
        Ok(p) => p,
        Err(er) => {
            return Err(er);
        },
    };
    let (tyword, tysp, j3) = match read_ident(t, j2, eof) {
        Ok(p) => p,
        Err(er) => {
            return Err(er);
        },
    };
    let ty = match ty_keyword(d, &tyword) {
        Some(ty) => ty,
        None => {
            return Err(ParseError { span: tysp, kind: ParseErrorKind::UnexpectedToken });
        },
    };
    let j4 = match expect_sym(t, j3, eof, Tok::Assign) {
        Ok(p) => p,
        Err(er) => {
            return Err(er);
        },
    };
    let (e, j5) = match p_cmp(t, clamp_at_least(j4, i + 1), eof, d, sc, g, &l) {
        Ok(p) => p,
        Err(er) => {
            return Err(er);
        },
    };
    let j6 = match expect_sym(t, j5, eof, Tok::Semi) {
        Ok(p) => p,
        Err(er) => {
            return Err(er);
        },
    };
    let idx = l.len();
    let st = Stmt::Local { index: idx, ty, init: e, span: sp };
    let mut l2 = l;
    let lv = LocalVar { name, ty };
    proof {
        lemma_view_locals_push(l2@, lv);
    }
    l2.push(lv);
    Ok((st, l2, j6))
}

/// Parses the rest of an `if` after its keyword.
pub fn p_if_tail(
    t: &Vec<Token>,
    i: usize,
    sp: Span,
    eof: Span,
    d: Dialect,
    sc: Option<ShaderStage>,
    g: &Vec<Global>,
    l: Vec<LocalVar>,
) -> (r: Result<(Stmt, Vec<LocalVar>, usize), ParseError>)
    ensures
        stmt_matches(
            r,
            spec_p_if_tail(
                view_tokens(t@),
                i as int,
                sp,
                eof,
                d,
                sc,
                view_globals(g@),
                view_locals(l@),
            ),
        ),
    decreases tokens_rem(t@.len() as int, i as int), 7int,
{
    proof {
        lemma_view_tokens(t@);
    }
    let j0 = match expect_sym(t, i, eof, Tok::LParen) {
        Ok(p) => p,
        Err(er) => {
            return Err(er);
        },
    };
    let (c, j1) = match p_cmp(t, clamp_at_least(j0, i + 1), eof, d, sc, g, &l) {
        Ok(p) => p,
        Err(er) => {
            return Err(er);
        },
    };
    let j2 = match expect_sym(t, j1, eof, Tok::RParen) {
        Ok(p) => p,
        Err(er) => {
            return Err(er);
        },
    };
    let j3 = match expect_sym(t, j2, eof, Tok::LBrace) {
        Ok(p) => p,
        Err(er) => {
            return Err(er);
        },
    };
    match p_stmts(t, clamp_at_least(j3, i + 1), eof, d, sc, g, l, Vec::new()) {
        Ok((body, l2, j4)) => Ok((Stmt::If { cond: c, body, span: sp }, l2, j4)),
        Err(er) => Err(er),
    }
}

/// Parses the rest of an assignment after its target name.
pub fn p_assign_tail(
    t: &Vec<Token>,
    i: usize,
    sp: Span,
    target: Stmt,
    eof: Span,
    d: Dialect,
    sc: Option<ShaderStage>,
    g: &Vec<Global>,
    l: Vec<LocalVar>,
) -> (r: Result<(Stmt, Vec<LocalVar>, usize), ParseError>)
    ensures
        stmt_matches(
            r,
            spec_p_assign_tail(
                view_tokens(t@),
                i as int,
                sp,
                view_stmt(target),
                eof,
                d,
                sc,
                view_globals(g@),
                view_locals(l@),
            ),
        ),
    decreases tokens_rem(t@.len() as int, i as int), 7int,
{
    proof {
        lemma_view_tokens(t@);
    }
    let j0 = match expect_sym(t, i, eof, Tok::Assign) {
        Ok(p) => p,
        Err(er) => {
            return Err(er);
        },
    };
    let (e, j1) = match p_cmp(t, clamp_at_least(j0, i + 1), eof, d, sc, g, &l) {
        Ok(p) => p,
        Err(er) => {
            return Err(er);
        },
    };
    let j2 = match expect_sym(t, j1, eof, Tok::Semi) {
        Ok(p) => p,
        Err(er) => {
            return Err(er);
        },
    };
    match target {
        Stmt::AssignLocal { index, .. } => Ok(
            (Stmt::AssignLocal { index, value: e, span: sp }, l, j2),
        ),
        Stmt::AssignBuiltin { builtin, .. } => Ok(
            (Stmt::AssignBuiltin { builtin, value: e, span: sp }, l, j2),
        ),
        _ => Err(ParseError { span: sp, kind: ParseErrorKind::UnknownIdent }),
    }
}

/// Parses one statement at `i`, extending the local slots on a declaration.
pub fn p_stmt(
    t: &Vec<Token>,
    i: usize,
    eof: Span,
    d: Dialect,
    sc: Option<ShaderStage>,
    g: &Vec<Global>,
    l: Vec<LocalVar>,
) -> (r: Result<(Stmt, Vec<LocalVar>, usize), ParseError>)
    ensures
        stmt_matches(
            r,
            spec_p_stmt(view_tokens(t@), i as int, eof, d, sc, view_globals(g@), view_locals(l@)),
        ),
    decreases tokens_rem(t@.len() as int, i as int), 8int,
{
    proof {
        lemma_view_tokens(t@);
    }
    if i >= t.len() {
        return Err(ParseError { span: eof, kind: ParseErrorKind::UnexpectedEof });
    }
    let sp = t[i].span;
    match &t[i].tok {
        Tok::Ident { text } => {
            let tykw = if matches!(d, Dialect::Glsl) {
                ty_keyword(d, text)
            } else {
                None
            };
            if let Some(ty) = tykw {
                return p_local_tail(t, i + 1, sp, ty, eof, d, sc, g, l);
            }
            if matches!(d, Dialect::Wgsl) && word_is(text, "var") {
                return p_var_tail(t, i + 1, sp, eof, d, sc, g, l);
            }
            if word_is(text, "if") {
                return p_if_tail(t, i + 1, sp, eof, d, sc, g, l);
            }
            let is_barrier = match d {
                Dialect::Glsl => word_is(text, "barrier"),
                Dialect::Wgsl => word_is(text, "workgroupBarrier"),
            };
            if is_barrier {
                if let Some(s) = sc {
                    if !matches!(s, ShaderStage::Compute) {
                        return Err(ParseError { span: sp, kind: ParseErrorKind::StageMismatch });
                    }
                }
                let j0 = match expect_sym(t, i + 1, eof, Tok::LParen) {
                    Ok(p) => p,
                    Err(er) => {
                        return Err(er);
                    },
                };
                let j1 = match expect_sym(t, j0, eof, Tok::RParen) {
                    Ok(p) => p,
                    Err(er) => {
                        return Err(er);
                    },
                };
                let j2 = match expect_sym(t, j1, eof, Tok::Semi) {
                    Ok(p) => p,
                    Err(er) => {
                        return Err(er);
                    },
                };
                return Ok((Stmt::Barrier { span: sp }, l, j2));
            }
            let target = match resolve_target(text, sp, d, sc, g, &l) {
                Ok(st) => st,
                Err(er) => {
                    return Err(er);
                },
            };
            p_assign_tail(t, i + 1, sp, target, eof, d, sc, g, l)
        },
        _ => Err(ParseError { span: sp, kind: ParseErrorKind::UnexpectedToken }),
    }
}

/// Parses statements up to and including the closing brace.
pub fn p_stmts(
    t: &Vec<Token>,
    i: usize,
    eof: Span,
    d: Dialect,
    sc: Option<ShaderStage>,
    g: &Vec<Global>,
    l: Vec<LocalVar>,
    acc: Vec<Stmt>,
) -> (r: Result<(Vec<Stmt>, Vec<LocalVar>, usize), ParseError>)
    ensures
        stmts_matches(
            r,
            spec_p_stmts(
                view_tokens(t@),
                i as int,
                eof,
                d,
                sc,
                view_globals(g@),
                view_locals(l@),
                view_stmts(acc@),
            ),
        ),
    decreases tokens_rem(t@.len() as int, i as int), 9int,
{
    proof {
        lemma_view_tokens(t@);
    }
    if i >= t.len() {
        return Err(ParseError { span: eof, kind: ParseErrorKind::UnexpectedEof });
    }
    if tok_sym_eq(&t[i].tok, &Tok::RBrace) {
        return Ok((acc, l, i + 1));
    }
    match p_stmt(t, i, eof, d, sc, g, l) {
        Ok((s, l2, j)) => {
            let mut acc2 = acc;
            proof {
                lemma_view_stmts_push(acc2@, s);
            }
            acc2.push(s);
            p_stmts(t, clamp_at_least(j, i + 1), eof, d, sc, g, l2, acc2)
        },
        Err(er) => Err(er),
    }
}

} // verus!

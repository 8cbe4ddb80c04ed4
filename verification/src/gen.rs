//! The backend code generators. Each lowers a validated module into a
//! deterministic token sequence and renders it as target source text; a
//! construct the target cannot express under the given options fails with
//! a `CodegenError` rather than being approximated.
use vstd::prelude::*;
use crate::ir::{
    BinOp, BuiltinVar, EntryPointView, Expr, Function, FunctionView, Global, GlobalClass,
    GlobalView, LocalVar, LocalVarView, Module, ModuleView, ScalarKind, ShaderStage, Span, Stmt,
    StmtView, Ty, lemma_view_entries, lemma_view_functions, lemma_view_globals, lemma_view_locals,
    lemma_view_stmts, view_entries, view_function, view_functions, view_global, view_globals,
    view_local, view_locals, view_module, view_stmt, view_stmts,
};
use crate::err::{CodegenError, Construct};
use crate::lex::{Tok, TokView, view_tok, is_ident_char, is_ident_start};
use crate::parse::{
    is_reserved, reserved_word, spec_find_function, spec_find_global, spec_find_local,
    find_function, find_global, find_local,
};

verus! {

// ===== Targets and their options =====

/// A target language of the pipeline.
#[derive(Clone, Copy, PartialEq, Eq, Structural, Debug)]
pub enum TargetLang {
    Wgsl,
    Msl,
}

/// Per-backend configuration. The language version is the floor the
/// emitted code may assume (read by the MSL backend); the header flag only
/// adds a comment line and never changes what the code means.
#[derive(Clone, Copy, PartialEq, Eq, Structural, Debug)]
pub struct TargetOptions {
    pub lang_version_major: u32,
    pub lang_version_minor: u32,
    pub emit_header: bool,
}

impl TargetOptions {
    /// The default options: language version floor 2.1, no header.
    pub fn new() -> (r: TargetOptions)
        ensures
            r.lang_version_major == 2,
            r.lang_version_minor == 1,
            !r.emit_header,
    {
        TargetOptions { lang_version_major: 2, lang_version_minor: 1, emit_header: false }
    }
}

/// How one IR resource binding maps onto the target's flat slot space.
#[derive(Clone, Copy, PartialEq, Eq, Structural, Debug)]
pub struct BindingSlot {
    pub group: u32,
    pub binding: u32,
    pub slot: usize,
}

/// Backend-emitted metadata: how IR-level (group, binding) resource
/// identities map onto target-level slot indices, in declaration order.
/// Entry points keep their IR names, so they need no mapping.
pub struct TranslationInfo {
    pub bindings: Vec<BindingSlot>,
}

pub struct TranslationInfoView {
    pub bindings: Seq<BindingSlot>,
}

pub open spec fn view_tinfo(t: TranslationInfo) -> TranslationInfoView {
    TranslationInfoView { bindings: t.bindings@ }
}

// ===== Token lists =====

pub open spec fn view_toks(ts: Seq<Tok>) -> Seq<TokView>
    decreases ts,
{
    if ts.len() == 0 {
        Seq::empty()
    } else {
        seq![view_tok(ts[0])] + view_toks(ts.skip(1))
    }
}

pub proof fn lemma_view_toks(ts: Seq<Tok>)
    ensures
        view_toks(ts).len() == ts.len(),
        forall|i: int| 0 <= i < ts.len() ==> view_toks(ts)[i] == view_tok(ts[i]),
    decreases ts,
{
    if ts.len() > 0 {
        lemma_view_toks(ts.skip(1));
    }
}

pub proof fn lemma_view_toks_push(ts: Seq<Tok>, t: Tok)
    ensures
        view_toks(ts.push(t)) =~= view_toks(ts).push(view_tok(t)),
{
    lemma_view_toks(ts.push(t));
    lemma_view_toks(ts);
    assert(ts.push(t)[ts.len() as int] == t);
    assert(forall|i: int| 0 <= i < ts.len() ==> ts.push(t)[i] == ts[i]);
}

/// Returns an identifier token for the literal `w`.
fn mk_ident(w: &str) -> (r: Tok)
    ensures
        view_tok(r) == (TokView::Ident { text: w@ }),
{
    Tok::Ident { text: String::from_str(w) }
}

/// Returns an attribute-word token for the literal `w`.
fn mk_atword(w: &str) -> (r: Tok)
    ensures
        view_tok(r) == (TokView::AtWord { text: w@ }),
{
    Tok::AtWord { text: String::from_str(w) }
}

// ===== Word tables =====

/// The type word of `t` in target `tl`.
pub open spec fn emit_ty_word(tl: TargetLang, t: Ty) -> Seq<char> {
    if tl == TargetLang::Wgsl {
        match t {
            Ty::Scalar(ScalarKind::F32) => "f32"@,
            Ty::Scalar(ScalarKind::F64) => "f64"@,
            Ty::Scalar(ScalarKind::U32) => "u32"@,
            Ty::Scalar(ScalarKind::Bool) => "bool"@,
            Ty::Vec4 => "vec4f32"@,
        }
    } else {
        match t {
            Ty::Scalar(ScalarKind::F32) => "float"@,
            Ty::Scalar(ScalarKind::F64) => "double"@,
            Ty::Scalar(ScalarKind::U32) => "uint"@,
            Ty::Scalar(ScalarKind::Bool) => "bool"@,
            Ty::Vec4 => "float4"@,
        }
    }
}

/// Returns the type word of `t` in target `tl`.
fn ty_word_of(tl: TargetLang, t: Ty) -> (r: Tok)
    ensures
        view_tok(r) == (TokView::Ident { text: emit_ty_word(tl, t) }),
{
    match tl {
        TargetLang::Wgsl => match t {
            Ty::Scalar(ScalarKind::F32) => mk_ident("f32"),
            Ty::Scalar(ScalarKind::F64) => mk_ident("f64"),
            Ty::Scalar(ScalarKind::U32) => mk_ident("u32"),
            Ty::Scalar(ScalarKind::Bool) => mk_ident("bool"),
            Ty::Vec4 => mk_ident("vec4f32"),
        },
        TargetLang::Msl => match t {
            Ty::Scalar(ScalarKind::F32) => mk_ident("float"),
            Ty::Scalar(ScalarKind::F64) => mk_ident("double"),
            Ty::Scalar(ScalarKind::U32) => mk_ident("uint"),
            Ty::Scalar(ScalarKind::Bool) => mk_ident("bool"),
            Ty::Vec4 => mk_ident("float4"),
        },
    }
}

/// The word of built-in `b` in target `tl`.
pub open spec fn emit_builtin_word(tl: TargetLang, b: BuiltinVar) -> Seq<char> {
    if tl == TargetLang::Wgsl {
        match b {
            BuiltinVar::Position => "wg_position"@,
            BuiltinVar::VertexIndex => "wg_vertex_index"@,
            BuiltinVar::FragCoord => "wg_frag_coord"@,
            BuiltinVar::FragDepth => "wg_frag_depth"@,
            BuiltinVar::LocalInvocationIndex => "wg_local_invocation_index"@,
            BuiltinVar::WorkGroupId => "wg_workgroup_id"@,
        }
    } else {
        match b {
            BuiltinVar::Position => "mtl_position"@,
            BuiltinVar::VertexIndex => "mtl_vertex_index"@,
            BuiltinVar::FragCoord => "mtl_frag_coord"@,
            BuiltinVar::FragDepth => "mtl_frag_depth"@,
            BuiltinVar::LocalInvocationIndex => "mtl_local_invocation_index"@,
            BuiltinVar::WorkGroupId => "mtl_workgroup_id"@,
        }
    }
}

/// Returns the word of built-in `b` in target `tl`.
fn builtin_word_of(tl: TargetLang, b: BuiltinVar) -> (r: Tok)
    ensures
        view_tok(r) == (TokView::Ident { text: emit_builtin_word(tl, b) }),
{
    match tl {
        TargetLang::Wgsl => match b {
            BuiltinVar::Position => mk_ident("wg_position"),
            BuiltinVar::VertexIndex => mk_ident("wg_vertex_index"),
            BuiltinVar::FragCoord => mk_ident("wg_frag_coord"),
            BuiltinVar::FragDepth => mk_ident("wg_frag_depth"),
            BuiltinVar::LocalInvocationIndex => mk_ident("wg_local_invocation_index"),
            BuiltinVar::WorkGroupId => mk_ident("wg_workgroup_id"),
        },
        TargetLang::Msl => match b {
            BuiltinVar::Position => mk_ident("mtl_position"),
            BuiltinVar::VertexIndex => mk_ident("mtl_vertex_index"),
            BuiltinVar::FragCoord => mk_ident("mtl_frag_coord"),
            BuiltinVar::FragDepth => mk_ident("mtl_frag_depth"),
            BuiltinVar::LocalInvocationIndex => mk_ident("mtl_local_invocation_index"),
            BuiltinVar::WorkGroupId => mk_ident("mtl_workgroup_id"),
        },
    }
}

/// The vector constructor word of target `tl`.
pub open spec fn emit_ctor_word(tl: TargetLang) -> Seq<char> {
    if tl == TargetLang::Wgsl {
        "vec4f32"@
    } else {
        "float4"@
    }
}

/// The barrier word of target `tl`.
pub open spec fn emit_barrier_word(tl: TargetLang) -> Seq<char> {
    if tl == TargetLang::Wgsl {
        "workgroupBarrier"@
    } else {
        "threadgroup_barrier"@
    }
}

/// The stage word of `s` in target `tl`: an attribute word in WGSL, a
/// function qualifier in MSL, in both cases the marker the target reads
/// the stage from.
pub open spec fn emit_stage_word(tl: TargetLang, s: ShaderStage) -> Seq<char> {
    if tl == TargetLang::Wgsl {
        match s {
            ShaderStage::Vertex => "vertex"@,
            ShaderStage::Fragment => "fragment"@,
            ShaderStage::Compute => "compute"@,
        }
    } else {
        match s {
            ShaderStage::Vertex => "vertex"@,
            ShaderStage::Fragment => "fragment"@,
            ShaderStage::Compute => "kernel"@,
        }
    }
}

/// The stage token of `s` in target `tl`: `@vertex` and kin in WGSL, the
/// plain qualifier word in MSL.
pub open spec fn emit_stage_tok(tl: TargetLang, s: ShaderStage) -> TokView {
    if tl == TargetLang::Wgsl {
        TokView::AtWord { text: emit_stage_word(tl, s) }
    } else {
        TokView::Ident { text: emit_stage_word(tl, s) }
    }
}

/// Returns the stage token of `s` in target `tl`.
fn stage_tok_of(tl: TargetLang, s: ShaderStage) -> (r: Tok)
    ensures
        view_tok(r) == emit_stage_tok(tl, s),
{
    match tl {
        TargetLang::Wgsl => match s {
            ShaderStage::Vertex => mk_atword("vertex"),
            ShaderStage::Fragment => mk_atword("fragment"),
            ShaderStage::Compute => mk_atword("compute"),
        },
        TargetLang::Msl => match s {
            ShaderStage::Vertex => mk_ident("vertex"),
            ShaderStage::Fragment => mk_ident("fragment"),
            ShaderStage::Compute => mk_ident("kernel"),
        },
    }
}

// ===== Name and index checks =====

/// Whether `w` can stand as an identifier of the emitted text: identifier
/// characters only, and no reserved word of the surface languages.
pub open spec fn emit_name_ok(w: Seq<char>) -> bool {
    &&& w.len() > 0
    &&& is_ident_start(w[0])
    &&& forall|k: int| 0 <= k < w.len() ==> is_ident_char(#[trigger] w[k])
    &&& !is_reserved(w)
}

/// Returns whether `w` can stand as an emitted identifier.
pub fn name_ok(w: &String) -> (r: bool)
    ensures
        r == emit_name_ok(w@),
{
    let s = w.as_str();
    let n = s.unicode_len();
    if n == 0 {
        return false;
    }
    if !crate::lex::ch_is_ident_start(s.get_char(0)) {
        return false;
    }
    let mut k: usize = 0;
    while k < n
        invariant
            s@ == w@,
            n == s@.len(),
            k <= n,
            forall|q: int| 0 <= q < k ==> is_ident_char(#[trigger] s@[q]),
        decreases n - k,
    {
        if !crate::lex::ch_is_ident_char(s.get_char(k)) {
            proof {
                assert(!is_ident_char(w@[k as int]));
            }
            return false;
        }
        k = k + 1;
    }
    proof {
        assert(forall|q: int| 0 <= q < w@.len() ==> is_ident_char(#[trigger] w@[q]));
    }
    !reserved_word(w)
}

/// Every name a generator would emit is a valid identifier.
pub open spec fn names_valid(m: ModuleView) -> bool {
    &&& forall|i: int| 0 <= i < m.globals.len() ==> emit_name_ok((#[trigger] m.globals[i]).name)
    &&& forall|i: int| 0 <= i < m.functions.len() ==> emit_name_ok((#[trigger] m.functions[i]).name)
    &&& forall|i: int, k: int|
        0 <= i < m.functions.len() && 0 <= k < m.functions[i].locals.len() ==> emit_name_ok(
            (#[trigger] m.functions[i].locals[k]).name,
        )
}

/// No two emitted declarations share a name in a way that would change how
/// the emitted text resolves: globals and functions are pairwise distinct,
/// and no local shares a name with a global.
pub open spec fn names_unique(m: ModuleView) -> bool {
    &&& forall|j: int|
        0 <= j < m.globals.len() ==> spec_find_global(m.globals, 0, (#[trigger] m.globals[j]).name)
            == Some(j)
    &&& forall|j: int|
        0 <= j < m.functions.len() ==> spec_find_function(
            m.functions,
            0,
            (#[trigger] m.functions[j]).name,
        ) == Some(j) && spec_find_global(m.globals, 0, m.functions[j].name) is None
    &&& forall|j: int, k: int|
        0 <= j < m.functions.len() && 0 <= k < m.functions[j].locals.len() ==> spec_find_local(
            m.functions[j].locals,
            0,
            (#[trigger] m.functions[j].locals[k]).name,
        ) == Some(k) && spec_find_global(m.globals, 0, m.functions[j].locals[k].name) is None
}

/// Every number a generator must write fits the target's literal range.
pub open spec fn indices_fit(m: ModuleView) -> bool {
    &&& m.globals.len() <= u32::MAX
    &&& forall|i: int|
        0 <= i < m.globals.len() ==> ((#[trigger] m.globals[i]).class matches GlobalClass::Attribute {
            location,
            ..
        } ==> location <= u32::MAX)
}

/// Returns whether every emitted name is a valid identifier.
fn check_names_valid(m: &Module) -> (r: bool)
    ensures
        r == names_valid(view_module(*m)),
{
    let ghost mv = view_module(*m);
    proof {
        lemma_view_globals(m.globals@);
        lemma_view_functions(m.functions@);
    }
    let mut i: usize = 0;
    while i < m.globals.len()
        invariant
            i <= m.globals@.len(),
            mv == view_module(*m),
            mv.globals.len() == m.globals@.len(),
            forall|q: int| 0 <= q < m.globals@.len() ==> mv.globals[q] == view_global(m.globals@[q]),
            forall|q: int| 0 <= q < i ==> emit_name_ok((#[trigger] mv.globals[q]).name),
        decreases m.globals@.len() - i,
    {
        if !name_ok(&m.globals[i].name) {
            proof {
                assert(!emit_name_ok(mv.globals[i as int].name));
            }
            return false;
        }
        i = i + 1;
    }
    let mut j: usize = 0;
    while j < m.functions.len()
        invariant
            j <= m.functions@.len(),
            mv == view_module(*m),
            mv.functions.len() == m.functions@.len(),
            forall|q: int|
                0 <= q < m.functions@.len() ==> mv.functions[q] == view_function(m.functions@[q]),
            forall|q: int| 0 <= q < j ==> emit_name_ok((#[trigger] mv.functions[q]).name),
            forall|q: int, k: int|
                0 <= q < j && 0 <= k < mv.functions[q].locals.len() ==> emit_name_ok(
                    (#[trigger] mv.functions[q].locals[k]).name,
                ),
            forall|q: int| 0 <= q < mv.globals.len() ==> emit_name_ok((#[trigger] mv.globals[q]).name),
        decreases m.functions@.len() - j,
    {
        if !name_ok(&m.functions[j].name) {
            proof {
                assert(!emit_name_ok(mv.functions[j as int].name));
            }
            return false;
        }
        let locals = &m.functions[j].locals;
        proof {
            lemma_view_locals(locals@);
        }
        let mut k: usize = 0;
        while k < locals.len()
            invariant
                k <= locals@.len(),
                mv == view_module(*m),
                j < m.functions@.len(),
                mv.functions.len() == m.functions@.len(),
                locals == &m.functions@[j as int].locals,
                mv.functions[j as int] == view_function(m.functions@[j as int]),
                mv.functions[j as int].locals == view_locals(locals@),
                mv.functions[j as int].locals.len() == locals@.len(),
                forall|q: int|
                    0 <= q < locals@.len() ==> mv.functions[j as int].locals[q] == view_local(
                        locals@[q],
                    ),
                forall|q: int|
                    0 <= q < k ==> emit_name_ok((#[trigger] mv.functions[j as int].locals[q]).name),
            decreases locals@.len() - k,
        {
            if !name_ok(&locals[k].name) {
                proof {
                    assert(!emit_name_ok(mv.functions[j as int].locals[k as int].name));
                }
                return false;
            }
            k = k + 1;
        }
        j = j + 1;
    }
    true
}

/// Returns whether emitted names resolve unambiguously.
fn check_names_unique(m: &Module) -> (r: bool)
    ensures
        r == names_unique(view_module(*m)),
{
    let ghost mv = view_module(*m);
    proof {
        lemma_view_globals(m.globals@);
        lemma_view_functions(m.functions@);
    }
    let mut i: usize = 0;
    while i < m.globals.len()
        invariant
            i <= m.globals@.len(),
            mv == view_module(*m),
            mv.globals.len() == m.globals@.len(),
            forall|q: int| 0 <= q < m.globals@.len() ==> mv.globals[q] == view_global(m.globals@[q]),
            forall|q: int|
                0 <= q < i ==> spec_find_global(mv.globals, 0, (#[trigger] mv.globals[q]).name)
                    == Some(q),
        decreases m.globals@.len() - i,
    {
        match find_global(&m.globals, 0, &m.globals[i].name) {
            Some(k) => {
                if k != i {
                    proof {
                        assert(spec_find_global(mv.globals, 0, (#[trigger] mv.globals[i as int]).name)
                            != Some(i as int));
                    }
                    return false;
                }
            },
            None => {
                proof {
                    assert(spec_find_global(mv.globals, 0, (#[trigger] mv.globals[i as int]).name)
                        != Some(i as int));
                }
                return false;
            },
        }
        i = i + 1;
    }
    let mut j: usize = 0;
    while j < m.functions.len()
        invariant
            j <= m.functions@.len(),
            mv == view_module(*m),
            mv.functions.len() == m.functions@.len(),
            forall|q: int|
                0 <= q < m.functions@.len() ==> mv.functions[q] == view_function(m.functions@[q]),
            forall|q: int|
                0 <= q < j ==> spec_find_function(mv.functions, 0, (#[trigger] mv.functions[q]).name)
                    == Some(q) && spec_find_global(mv.globals, 0, mv.functions[q].name) is None,
            forall|q: int, k: int|
                0 <= q < j && 0 <= k < mv.functions[q].locals.len() ==> spec_find_local(
                    mv.functions[q].locals,
                    0,
                    (#[trigger] mv.functions[q].locals[k]).name,
                ) == Some(k) && spec_find_global(mv.globals, 0, mv.functions[q].locals[k].name) is None,
            forall|q: int|
                0 <= q < mv.globals.len() ==> spec_find_global(
                    mv.globals,
                    0,
                    (#[trigger] mv.globals[q]).name,
                ) == Some(q),
        decreases m.functions@.len() - j,
    {
        match find_function(&m.functions, 0, &m.functions[j].name) {
            Some(k) => {
                if k != j {
                    proof {
                        assert(spec_find_function(
                            mv.functions,
                            0,
                            (#[trigger] mv.functions[j as int]).name,
                        ) != Some(j as int));
                    }
                    return false;
                }
            },
            None => {
                proof {
                    assert(spec_find_function(
                        mv.functions,
                        0,
                        (#[trigger] mv.functions[j as int]).name,
                    ) != Some(j as int));
                }
                return false;
            },
        }
        if find_global(&m.globals, 0, &m.functions[j].name).is_some() {
            proof {
                assert(!(spec_find_global(
                    mv.globals,
                    0,
                    (#[trigger] mv.functions[j as int]).name,
                ) is None));
            }
            return false;
        }
        let locals = &m.functions[j].locals;
        proof {
            lemma_view_globals(m.globals@);
            lemma_view_locals(locals@);
        }
        let mut k: usize = 0;
        while k < locals.len()
            invariant
                k <= locals@.len(),
                mv == view_module(*m),
                j < m.functions@.len(),
                mv.functions.len() == m.functions@.len(),
                mv.globals.len() == m.globals@.len(),
                mv.globals == view_globals(m.globals@),
                locals == &m.functions@[j as int].locals,
                mv.functions[j as int] == view_function(m.functions@[j as int]),
                mv.functions[j as int].locals == view_locals(locals@),
                mv.functions[j as int].locals.len() == locals@.len(),
                forall|q: int|
                    0 <= q < locals@.len() ==> mv.functions[j as int].locals[q] == view_local(
                        locals@[q],
                    ),
                forall|q: int|
                    0 <= q < k ==> spec_find_local(
                        mv.functions[j as int].locals,
                        0,
                        (#[trigger] mv.functions[j as int].locals[q]).name,
                    ) == Some(q) && spec_find_global(
                        mv.globals,
                        0,
                        mv.functions[j as int].locals[q].name,
                    ) is None,
            decreases locals@.len() - k,
        {
            match find_local(locals, 0, &locals[k].name) {
                Some(q) => {
                    if q != k {
                        proof {
                            assert(spec_find_local(
                                mv.functions[j as int].locals,
                                0,
                                (#[trigger] mv.functions[j as int].locals[k as int]).name,
                            ) != Some(k as int));
                        }
                        return false;
                    }
                },
                None => {
                    proof {
                        assert(spec_find_local(
                            mv.functions[j as int].locals,
                            0,
                            (#[trigger] mv.functions[j as int].locals[k as int]).name,
                        ) != Some(k as int));
                    }
                    return false;
                },
            }
            if find_global(&m.globals, 0, &locals[k].name).is_some() {
                proof {
                    assert(!(spec_find_global(
                        mv.globals,
                        0,
                        (#[trigger] mv.functions[j as int].locals[k as int]).name,
                    ) is None));
                }
                return false;
            }
            k = k + 1;
        }
        j = j + 1;
    }
    true
}

/// Returns whether every emitted number fits the literal range.
fn check_indices_fit(m: &Module) -> (r: bool)
    ensures
        r == indices_fit(view_module(*m)),
{
    let ghost mv = view_module(*m);
    proof {
        lemma_view_globals(m.globals@);
    }
    if m.globals.len() > u32::MAX as usize {
        return false;
    }
    let mut i: usize = 0;
    while i < m.globals.len()
        invariant
            i <= m.globals@.len(),
            mv == view_module(*m),
            mv.globals.len() == m.globals@.len(),
            forall|q: int| 0 <= q < m.globals@.len() ==> mv.globals[q] == view_global(m.globals@[q]),
            forall|q: int|
                0 <= q < i ==> ((#[trigger] mv.globals[q]).class matches GlobalClass::Attribute {
                    location,
                    ..
                } ==> location <= u32::MAX),
        decreases m.globals@.len() - i,
    {
        if let GlobalClass::Attribute { location, .. } = m.globals[i].class {
            if location > u32::MAX as usize {
                proof {
                    assert(!(mv.globals[i as int].class matches GlobalClass::Attribute {
                        location,
                        ..
                    } ==> location <= u32::MAX));
                }
                return false;
            }
        }
        i = i + 1;
    }
    true
}


// ===== Token emission =====

/// The operator token of `op`.
pub open spec fn op_tok(op: BinOp) -> TokView {
    match op {
        BinOp::Add => TokView::Plus,
        BinOp::Mul => TokView::Star,
        BinOp::Less => TokView::Lt,
    }
}

/// Returns the operator token of `op`.
fn op_tok_of(op: BinOp) -> (r: Tok)
    ensures
        view_tok(r) == op_tok(op),
{
    match op {
        BinOp::Add => Tok::Plus,
        BinOp::Mul => Tok::Star,
        BinOp::Less => Tok::Lt,
    }
}

/// The tokens of an expression, fully parenthesised so that re-parsing
/// needs no precedence reasoning. References out of range (which a
/// well-formed module has none of) fall back to a zero literal.
pub open spec fn emit_expr(e: Expr, tl: TargetLang, g: Seq<GlobalView>, l: Seq<LocalVarView>) -> Seq<
    TokView,
>
    decreases e,
{
    match e {
        Expr::Literal { value } => seq![TokView::Number { value }],
        Expr::LocalRef { index } => if index < l.len() {
            seq![TokView::Ident { text: l[index as int].name }]
        } else {
            seq![TokView::Number { value: 0 }]
        },
        Expr::GlobalRef { index } => if index < g.len() {
            seq![TokView::Ident { text: g[index as int].name }]
        } else {
            seq![TokView::Number { value: 0 }]
        },
        Expr::BuiltinRef { builtin } => seq![
            TokView::Ident { text: emit_builtin_word(tl, builtin) },
        ],
        Expr::Binary { op, lhs, rhs } => seq![TokView::LParen] + emit_expr(*lhs, tl, g, l) + seq![
            op_tok(op),
        ] + emit_expr(*rhs, tl, g, l) + seq![TokView::RParen],
        Expr::Vec4Ctor { x, y, z, w } => seq![
            TokView::Ident { text: emit_ctor_word(tl) },
            TokView::LParen,
        ] + emit_expr(*x, tl, g, l) + seq![TokView::Comma] + emit_expr(*y, tl, g, l) + seq![
            TokView::Comma,
        ] + emit_expr(*z, tl, g, l) + seq![TokView::Comma] + emit_expr(*w, tl, g, l) + seq![
            TokView::RParen,
        ],
    }
}

/// Appends the tokens of `e` to `out`.
#[verifier::rlimit(100)]
fn gen_expr(e: &Expr, tl: TargetLang, g: &Vec<Global>, l: &Vec<LocalVar>, out: &mut Vec<Tok>)
    ensures
        view_toks(final(out)@) == view_toks(old(out)@) + emit_expr(
            *e,
            tl,
            view_globals(g@),
            view_locals(l@),
        ),
    decreases *e,
{
    proof {
        lemma_view_globals(g@);
        lemma_view_locals(l@);
    }
    let ghost base = view_toks(old(out)@);
    let ghost gv = view_globals(g@);
    let ghost lv = view_locals(l@);
    match e {
        Expr::Literal { value } => {
            proof {
                lemma_view_toks_push(out@, Tok::Number { value: *value });
            }
            out.push(Tok::Number { value: *value });
            proof {
                assert(view_toks(out@) =~= base + emit_expr(*e, tl, gv, lv));
            }
        },
        Expr::LocalRef { index } => {
            let t = if *index < l.len() {
                Tok::Ident { text: l[*index].name.clone() }
            } else {
                Tok::Number { value: 0 }
            };
            proof {
                lemma_view_toks_push(out@, t);
            }
            out.push(t);
            proof {
                assert(view_toks(out@) =~= base + emit_expr(*e, tl, gv, lv));
            }
        },
        Expr::GlobalRef { index } => {
            let t = if *index < g.len() {
                Tok::Ident { text: g[*index].name.clone() }
            } else {
                Tok::Number { value: 0 }
            };
            proof {
                lemma_view_toks_push(out@, t);
            }
            out.push(t);
            proof {
                assert(view_toks(out@) =~= base + emit_expr(*e, tl, gv, lv));
            }
        },
        Expr::BuiltinRef { builtin } => {
            let t = builtin_word_of(tl, *builtin);
            proof {
                lemma_view_toks_push(out@, t);
            }
            out.push(t);
            proof {
                assert(view_toks(out@) =~= base + emit_expr(*e, tl, gv, lv));
            }
        },
        Expr::Binary { op, lhs, rhs } => {
            proof {
                lemma_view_toks_push(out@, Tok::LParen);
            }
            out.push(Tok::LParen);
            gen_expr(lhs, tl, g, l, out);
            let t = op_tok_of(*op);
            proof {
                lemma_view_toks_push(out@, t);
            }
            out.push(t);
            gen_expr(rhs, tl, g, l, out);
            proof {
                lemma_view_toks_push(out@, Tok::RParen);
            }
            out.push(Tok::RParen);
            proof {
                assert(view_toks(out@) =~= base + emit_expr(*e, tl, gv, lv));
            }
        },
        Expr::Vec4Ctor { x, y, z, w } => {
            let c = match tl {
                TargetLang::Wgsl => mk_ident("vec4f32"),
                TargetLang::Msl => mk_ident("float4"),
            };
            proof {
                lemma_view_toks_push(out@, c);
            }
            out.push(c);
            proof {
                lemma_view_toks_push(out@, Tok::LParen);
            }
            out.push(Tok::LParen);
            gen_expr(x, tl, g, l, out);
            proof {
                lemma_view_toks_push(out@, Tok::Comma);
            }
            out.push(Tok::Comma);
            gen_expr(y, tl, g, l, out);
            proof {
                lemma_view_toks_push(out@, Tok::Comma);
            }
            out.push(Tok::Comma);
            gen_expr(z, tl, g, l, out);
            proof {
                lemma_view_toks_push(out@, Tok::Comma);
            }
            out.push(Tok::Comma);
            gen_expr(w, tl, g, l, out);
            proof {
                lemma_view_toks_push(out@, Tok::RParen);
            }
            out.push(Tok::RParen);
            proof {
                assert(view_toks(out@) =~= base + emit_expr(*e, tl, gv, lv));
            }
        },
    }
}

/// The local name slot `index` names, or an empty name out of range.
pub open spec fn local_name_at(l: Seq<LocalVarView>, index: int) -> Seq<char> {
    if 0 <= index < l.len() {
        l[index].name
    } else {
        Seq::empty()
    }
}

/// The tokens of one statement.
pub open spec fn emit_stmt(s: StmtView, tl: TargetLang, g: Seq<GlobalView>, l: Seq<LocalVarView>) -> Seq<
    TokView,
>
    decreases s,
{
    match s {
        StmtView::Local { index, ty, init, .. } => if tl == TargetLang::Wgsl {
            seq![
                TokView::Ident { text: "var"@ },
                TokView::Ident { text: local_name_at(l, index as int) },
                TokView::Colon,
                TokView::Ident { text: emit_ty_word(tl, ty) },
                TokView::Assign,
            ] + emit_expr(init, tl, g, l) + seq![TokView::Semi]
        } else {
            seq![
                TokView::Ident { text: emit_ty_word(tl, ty) },
                TokView::Ident { text: local_name_at(l, index as int) },
                TokView::Assign,
            ] + emit_expr(init, tl, g, l) + seq![TokView::Semi]
        },
        StmtView::AssignLocal { index, value, .. } => seq![
            TokView::Ident { text: local_name_at(l, index as int) },
            TokView::Assign,
        ] + emit_expr(value, tl, g, l) + seq![TokView::Semi],
        StmtView::AssignBuiltin { builtin, value, .. } => seq![
            TokView::Ident { text: emit_builtin_word(tl, builtin) },
            TokView::Assign,
        ] + emit_expr(value, tl, g, l) + seq![TokView::Semi],
        StmtView::If { cond, body, .. } => seq![
            TokView::Ident { text: "if"@ },
            TokView::LParen,
        ] + emit_expr(cond, tl, g, l) + seq![TokView::RParen, TokView::LBrace] + emit_stmts(
            body,
            tl,
            g,
            l,
        ) + seq![TokView::RBrace],
        StmtView::Barrier { .. } => seq![
            TokView::Ident { text: emit_barrier_word(tl) },
            TokView::LParen,
            TokView::RParen,
            TokView::Semi,
        ],
    }
}

pub open spec fn emit_stmts(ss: Seq<StmtView>, tl: TargetLang, g: Seq<GlobalView>, l: Seq<LocalVarView>) -> Seq<
    TokView,
>
    decreases ss,
{
    if ss.len() == 0 {
        Seq::empty()
    } else {
        emit_stmt(ss[0], tl, g, l) + emit_stmts(ss.skip(1), tl, g, l)
    }
}

/// Returns the local-name token for slot `index`.
fn local_name_tok(l: &Vec<LocalVar>, index: usize) -> (r: Tok)
    ensures
        view_tok(r) == (TokView::Ident { text: local_name_at(view_locals(l@), index as int) }),
{
    proof {
        lemma_view_locals(l@);
    }
    if index < l.len() {
        Tok::Ident { text: l[index].name.clone() }
    } else {
        Tok::Ident { text: String::new() }
    }
}

/// Appends the tokens of `s` to `out`.
#[verifier::rlimit(100)]
fn gen_stmt(s: &Stmt, tl: TargetLang, g: &Vec<Global>, l: &Vec<LocalVar>, out: &mut Vec<Tok>)
    ensures
        view_toks(final(out)@) == view_toks(old(out)@) + emit_stmt(
            view_stmt(*s),
            tl,
            view_globals(g@),
            view_locals(l@),
        ),
    decreases *s, 0int,
{
    let ghost base = view_toks(old(out)@);
    let ghost gv = view_globals(g@);
    let ghost lv = view_locals(l@);
    match s {
        Stmt::Local { index, ty, init, .. } => {
            match tl {
                TargetLang::Wgsl => {
                    let t0 = mk_ident("var");
                    proof {
                        lemma_view_toks_push(out@, t0);
                    }
                    out.push(t0);
                    let t1 = local_name_tok(l, *index);
                    proof {
                        lemma_view_toks_push(out@, t1);
                    }
                    out.push(t1);
                    proof {
                        lemma_view_toks_push(out@, Tok::Colon);
                    }
                    out.push(Tok::Colon);
                    let t2 = ty_word_of(tl, *ty);
                    proof {
                        lemma_view_toks_push(out@, t2);
                    }
                    out.push(t2);
                    proof {
                        lemma_view_toks_push(out@, Tok::Assign);
                    }
                    out.push(Tok::Assign);
                },
                TargetLang::Msl => {
                    let t2 = ty_word_of(tl, *ty);
                    proof {
                        lemma_view_toks_push(out@, t2);
                    }
                    out.push(t2);
                    let t1 = local_name_tok(l, *index);
                    proof {
                        lemma_view_toks_push(out@, t1);
                    }
                    out.push(t1);
                    proof {
                        lemma_view_toks_push(out@, Tok::Assign);
                    }
                    out.push(Tok::Assign);
                },
            }
            gen_expr(init, tl, g, l, out);
            proof {
                lemma_view_toks_push(out@, Tok::Semi);
            }
            out.push(Tok::Semi);
            proof {
                assert(view_toks(out@) =~= base + emit_stmt(view_stmt(*s), tl, gv, lv));
            }
        },
        Stmt::AssignLocal { index, value, .. } => {
            let t1 = local_name_tok(l, *index);
            proof {
                lemma_view_toks_push(out@, t1);
            }
            out.push(t1);
            proof {
                lemma_view_toks_push(out@, Tok::Assign);
            }
            out.push(Tok::Assign);
            gen_expr(value, tl, g, l, out);
            proof {
                lemma_view_toks_push(out@, Tok::Semi);
            }
            out.push(Tok::Semi);
            proof {
                assert(view_toks(out@) =~= base + emit_stmt(view_stmt(*s), tl, gv, lv));
            }
        },
        Stmt::AssignBuiltin { builtin, value, .. } => {
            let t1 = builtin_word_of(tl, *builtin);
            proof {
                lemma_view_toks_push(out@, t1);
            }
            out.push(t1);
            proof {
                lemma_view_toks_push(out@, Tok::Assign);
            }
            out.push(Tok::Assign);
            gen_expr(value, tl, g, l, out);
            proof {
                lemma_view_toks_push(out@, Tok::Semi);
            }
            out.push(Tok::Semi);
            proof {
                assert(view_toks(out@) =~= base + emit_stmt(view_stmt(*s), tl, gv, lv));
            }
        },
        Stmt::If { cond, body, .. } => {
            let t0 = mk_ident("if");
            proof {
                lemma_view_toks_push(out@, t0);
            }
            out.push(t0);
            proof {
                lemma_view_toks_push(out@, Tok::LParen);
            }
            out.push(Tok::LParen);
            gen_expr(cond, tl, g, l, out);
            proof {
                lemma_view_toks_push(out@, Tok::RParen);
            }
            out.push(Tok::RParen);
            proof {
                lemma_view_toks_push(out@, Tok::LBrace);
            }
            out.push(Tok::LBrace);
            proof {
                assert(view_stmts(body@).skip(0) =~= view_stmts(body@));
            }
            gen_stmts(body, 0, tl, g, l, out);
            proof {
                lemma_view_toks_push(out@, Tok::RBrace);
            }
            out.push(Tok::RBrace);
            proof {
                assert(view_toks(out@) =~= base + emit_stmt(view_stmt(*s), tl, gv, lv));
            }
        },
        Stmt::Barrier { .. } => {
            let t0 = match tl {
                TargetLang::Wgsl => mk_ident("workgroupBarrier"),
                TargetLang::Msl => mk_ident("threadgroup_barrier"),
            };
            proof {
                lemma_view_toks_push(out@, t0);
            }
            out.push(t0);
            proof {
                lemma_view_toks_push(out@, Tok::LParen);
            }
            out.push(Tok::LParen);
            proof {
                lemma_view_toks_push(out@, Tok::RParen);
            }
            out.push(Tok::RParen);
            proof {
                lemma_view_toks_push(out@, Tok::Semi);
            }
            out.push(Tok::Semi);
            proof {
                assert(view_toks(out@) =~= base + emit_stmt(view_stmt(*s), tl, gv, lv));
            }
        },
    }
}

/// Appends the tokens of the statements from `k` on to `out`.
fn gen_stmts(
    ss: &Vec<Stmt>,
    k: usize,
    tl: TargetLang,
    g: &Vec<Global>,
    l: &Vec<LocalVar>,
    out: &mut Vec<Tok>,
)
    requires
        k <= ss@.len(),
    ensures
        view_toks(final(out)@) == view_toks(old(out)@) + emit_stmts(
            view_stmts(ss@).skip(k as int),
            tl,
            view_globals(g@),
            view_locals(l@),
        ),
    decreases ss@, ss@.len() - k,
{
    proof {
        lemma_view_stmts(ss@);
    }
    if k >= ss.len() {
        proof {
            assert(view_stmts(ss@).skip(k as int) =~= Seq::<StmtView>::empty());
            assert(view_toks(out@) =~= view_toks(out@) + emit_stmts(
                view_stmts(ss@).skip(k as int),
                tl,
                view_globals(g@),
                view_locals(l@),
            ));
        }
        return;
    }
    let ghost base = view_toks(old(out)@);
    let ghost v = view_stmts(ss@);
    proof {
        assert(v.skip(k as int)[0] == v[k as int]);
        assert(v.skip(k as int).skip(1) =~= v.skip(k as int + 1));
    }
    gen_stmt(&ss[k], tl, g, l, out);
    gen_stmts(ss, k + 1, tl, g, l, out);
    proof {
        assert(view_toks(out@) =~= base + emit_stmts(
            v.skip(k as int),
            tl,
            view_globals(g@),
            view_locals(l@),
        ));
    }
}


// ===== Global and function emission =====

/// The group of a resource class; zero for attributes, which have none.
pub open spec fn res_group(c: GlobalClass) -> u32 {
    match c {
        GlobalClass::Attribute { .. } => 0,
        GlobalClass::UniformBuffer { group, .. } => group,
        GlobalClass::StorageBuffer { group, .. } => group,
        GlobalClass::Texture { group, .. } => group,
        GlobalClass::Sampler { group, .. } => group,
    }
}

/// The binding of a resource class; zero for attributes.
pub open spec fn res_binding(c: GlobalClass) -> u32 {
    match c {
        GlobalClass::Attribute { .. } => 0,
        GlobalClass::UniformBuffer { binding, .. } => binding,
        GlobalClass::StorageBuffer { binding, .. } => binding,
        GlobalClass::Texture { binding, .. } => binding,
        GlobalClass::Sampler { binding, .. } => binding,
    }
}

/// The WGSL address-space word and type word of a class.
pub open spec fn wgsl_space_word(c: GlobalClass) -> Seq<char> {
    match c {
        GlobalClass::Attribute { .. } => "in"@,
        GlobalClass::UniformBuffer { .. } => "uniform"@,
        GlobalClass::StorageBuffer { .. } => "storage"@,
        GlobalClass::Texture { .. } => "handle"@,
        GlobalClass::Sampler { .. } => "handle"@,
    }
}

pub open spec fn wgsl_gtype_word(c: GlobalClass) -> Seq<char> {
    match c {
        GlobalClass::Attribute { ty, .. } => emit_ty_word(TargetLang::Wgsl, ty),
        GlobalClass::UniformBuffer { ty, .. } => emit_ty_word(TargetLang::Wgsl, ty),
        GlobalClass::StorageBuffer { ty, .. } => emit_ty_word(TargetLang::Wgsl, ty),
        GlobalClass::Texture { multisampled_array, .. } => if multisampled_array {
            "texturems2darray"@
        } else {
            "texture2d"@
        },
        GlobalClass::Sampler { .. } => "sampler"@,
    }
}

/// The WGSL tokens of one global declaration.
pub open spec fn emit_global_wgsl(gv: GlobalView) -> Seq<TokView> {
    match gv.class {
        GlobalClass::Attribute { location, .. } => seq![
            TokView::AtWord { text: "location"@ },
            TokView::LParen,
            TokView::Number { value: location as u32 },
            TokView::RParen,
            TokView::Ident { text: "var"@ },
            TokView::Lt,
            TokView::Ident { text: "in"@ },
            TokView::Gt,
            TokView::Ident { text: gv.name },
            TokView::Colon,
            TokView::Ident { text: wgsl_gtype_word(gv.class) },
            TokView::Semi,
        ],
        _ => seq![
            TokView::AtWord { text: "group"@ },
            TokView::LParen,
            TokView::Number { value: res_group(gv.class) },
            TokView::RParen,
            TokView::AtWord { text: "binding"@ },
            TokView::LParen,
            TokView::Number { value: res_binding(gv.class) },
            TokView::RParen,
            TokView::Ident { text: "var"@ },
            TokView::Lt,
            TokView::Ident { text: wgsl_space_word(gv.class) },
            TokView::Gt,
            TokView::Ident { text: gv.name },
            TokView::Colon,
            TokView::Ident { text: wgsl_gtype_word(gv.class) },
            TokView::Semi,
        ],
    }
}

pub open spec fn emit_globals_wgsl(g: Seq<GlobalView>, k: int) -> Seq<TokView>
    decreases g.len() - k,
{
    if k < 0 || k >= g.len() {
        Seq::empty()
    } else {
        emit_global_wgsl(g[k]) + emit_globals_wgsl(g, k + 1)
    }
}

/// The MSL kind word of a class.
pub open spec fn msl_kind_word(c: GlobalClass) -> Seq<char> {
    match c {
        GlobalClass::Attribute { .. } => "attribute"@,
        GlobalClass::UniformBuffer { .. } => "constant"@,
        GlobalClass::StorageBuffer { .. } => "device"@,
        GlobalClass::Texture { multisampled_array, .. } => if multisampled_array {
            "texture2d_ms_array"@
        } else {
            "texture2d"@
        },
        GlobalClass::Sampler { .. } => "sampler"@,
    }
}

/// The MSL tokens of one global declaration; resources carry their flat
/// slot index.
pub open spec fn emit_global_msl(gv: GlobalView, slot: int) -> Seq<TokView> {
    match gv.class {
        GlobalClass::Attribute { location, ty } => seq![
            TokView::Ident { text: "attribute"@ },
            TokView::LParen,
            TokView::Number { value: location as u32 },
            TokView::RParen,
            TokView::Ident { text: emit_ty_word(TargetLang::Msl, ty) },
            TokView::Ident { text: gv.name },
            TokView::Semi,
        ],
        GlobalClass::UniformBuffer { ty, .. } => seq![
            TokView::Ident { text: "constant"@ },
            TokView::Ident { text: emit_ty_word(TargetLang::Msl, ty) },
            TokView::Ident { text: gv.name },
            TokView::Ident { text: "slot"@ },
            TokView::LParen,
            TokView::Number { value: slot as u32 },
            TokView::RParen,
            TokView::Semi,
        ],
        GlobalClass::StorageBuffer { ty, .. } => seq![
            TokView::Ident { text: "device"@ },
            TokView::Ident { text: emit_ty_word(TargetLang::Msl, ty) },
            TokView::Ident { text: gv.name },
            TokView::Ident { text: "slot"@ },
            TokView::LParen,
            TokView::Number { value: slot as u32 },
            TokView::RParen,
            TokView::Semi,
        ],
        GlobalClass::Texture { .. } => seq![
            TokView::Ident { text: msl_kind_word(gv.class) },
            TokView::Ident { text: gv.name },
            TokView::Ident { text: "slot"@ },
            TokView::LParen,
            TokView::Number { value: slot as u32 },
            TokView::RParen,
            TokView::Semi,
        ],
        GlobalClass::Sampler { .. } => seq![
            TokView::Ident { text: "sampler"@ },
            TokView::Ident { text: gv.name },
            TokView::Ident { text: "slot"@ },
            TokView::LParen,
            TokView::Number { value: slot as u32 },
            TokView::RParen,
            TokView::Semi,
        ],
    }
}

pub open spec fn emit_globals_msl(g: Seq<GlobalView>, k: int, next: int) -> Seq<TokView>
    decreases g.len() - k,
{
    if k < 0 || k >= g.len() {
        Seq::empty()
    } else if g[k].class is Attribute {
        emit_global_msl(g[k], 0) + emit_globals_msl(g, k + 1, next)
    } else {
        emit_global_msl(g[k], next) + emit_globals_msl(g, k + 1, next + 1)
    }
}

/// The binding table the MSL backend reports: slot `next + i` for the
/// `i`-th resource from `k` on.
pub open spec fn bindings_list(g: Seq<GlobalView>, k: int, next: int) -> Seq<BindingSlot>
    decreases g.len() - k,
{
    if k < 0 || k >= g.len() {
        Seq::empty()
    } else if g[k].class is Attribute {
        bindings_list(g, k + 1, next)
    } else {
        seq![
            BindingSlot {
                group: res_group(g[k].class),
                binding: res_binding(g[k].class),
                slot: next as usize,
            },
        ] + bindings_list(g, k + 1, next + 1)
    }
}

/// The stage of the first entry point from `j` on that names function
/// `fidx`, if any.
pub open spec fn entry_stage_for(e: Seq<EntryPointView>, fidx: int, j: int) -> Option<ShaderStage>
    decreases e.len() - j,
{
    if j < 0 || j >= e.len() {
        None
    } else if e[j].function == fidx {
        Some(e[j].stage)
    } else {
        entry_stage_for(e, fidx, j + 1)
    }
}

/// The tokens of one function, with its stage marker when it is an entry
/// point.
pub open spec fn emit_function(
    fv: FunctionView,
    stage: Option<ShaderStage>,
    tl: TargetLang,
    g: Seq<GlobalView>,
) -> Seq<TokView> {
    (match stage {
        Some(st) => seq![emit_stage_tok(tl, st)],
        None => Seq::empty(),
    }) + seq![
        TokView::Ident {
            text: if tl == TargetLang::Wgsl {
                "fn"@
            } else {
                "void"@
            },
        },
        TokView::Ident { text: fv.name },
        TokView::LParen,
        TokView::RParen,
        TokView::LBrace,
    ] + emit_stmts(fv.body, tl, g, fv.locals) + seq![TokView::RBrace]
}

pub open spec fn emit_functions(
    f: Seq<FunctionView>,
    k: int,
    e: Seq<EntryPointView>,
    tl: TargetLang,
    g: Seq<GlobalView>,
) -> Seq<TokView>
    decreases f.len() - k,
{
    if k < 0 || k >= f.len() {
        Seq::empty()
    } else {
        emit_function(f[k], entry_stage_for(e, k, 0), tl, g) + emit_functions(f, k + 1, e, tl, g)
    }
}

/// The whole token stream of the module in target `tl`: globals, then
/// functions.
pub open spec fn emit_module_toks(m: ModuleView, tl: TargetLang) -> Seq<TokView> {
    (if tl == TargetLang::Wgsl {
        emit_globals_wgsl(m.globals, 0)
    } else {
        emit_globals_msl(m.globals, 0, 0)
    }) + emit_functions(m.functions, 0, m.entry_points, tl, m.globals)
}

/// Appends the WGSL tokens of the global `gv` to `out`.
#[verifier::rlimit(100)]
fn gen_global_wgsl(gv: &Global, out: &mut Vec<Tok>)
    ensures
        view_toks(final(out)@) == view_toks(old(out)@) + emit_global_wgsl(view_global(*gv)),
{
    let ghost base = view_toks(old(out)@);
    match gv.class {
        GlobalClass::Attribute { location, ty } => {
            push4(out, mk_atword("location"),
                Tok::LParen,
                Tok::Number { value: #[verifier::truncate] (location as u32) },
                Tok::RParen);
            push4(out, mk_ident("var"), Tok::Lt, mk_ident("in"), Tok::Gt);
            push4(out, Tok::Ident { text: gv.name.clone() },
                Tok::Colon,
                ty_word_of(TargetLang::Wgsl, ty),
                Tok::Semi);
            proof {
                assert(view_toks(out@) =~= base + emit_global_wgsl(view_global(*gv)));
            }
        },
        _ => {
            let grp = crate::ir::class_group_of(gv.class);
            let bnd = crate::ir::class_binding_of(gv.class);
            push4(out, mk_atword("group"),
                Tok::LParen,
                Tok::Number { value: grp },
                Tok::RParen);
            push4(out, mk_atword("binding"),
                Tok::LParen,
                Tok::Number { value: bnd },
                Tok::RParen);
            let space = match gv.class {
                GlobalClass::Attribute { .. } => mk_ident("in"),
                GlobalClass::UniformBuffer { .. } => mk_ident("uniform"),
                GlobalClass::StorageBuffer { .. } => mk_ident("storage"),
                GlobalClass::Texture { .. } => mk_ident("handle"),
                GlobalClass::Sampler { .. } => mk_ident("handle"),
            };
            push4(out, mk_ident("var"), Tok::Lt, space, Tok::Gt);
            let tyw = match gv.class {
                GlobalClass::Attribute { ty, .. } => ty_word_of(TargetLang::Wgsl, ty),
                GlobalClass::UniformBuffer { ty, .. } => ty_word_of(TargetLang::Wgsl, ty),
                GlobalClass::StorageBuffer { ty, .. } => ty_word_of(TargetLang::Wgsl, ty),
                GlobalClass::Texture { multisampled_array, .. } => if multisampled_array {
                    mk_ident("texturems2darray")
                } else {
                    mk_ident("texture2d")
                },
                GlobalClass::Sampler { .. } => mk_ident("sampler"),
            };
            push4(out, Tok::Ident { text: gv.name.clone() },
                Tok::Colon,
                tyw,
                Tok::Semi);
            proof {
                assert(view_toks(out@) =~= base + emit_global_wgsl(view_global(*gv)));
            }
        },
    }
}

/// Pushes four tokens.
fn push4(out: &mut Vec<Tok>, a: Tok, b: Tok, c: Tok, d: Tok)
    ensures
        view_toks(final(out)@) == view_toks(old(out)@) + seq![
            view_tok(a),
            view_tok(b),
            view_tok(c),
            view_tok(d),
        ],
{
    proof {
        lemma_view_toks_push(out@, a);
    }
    out.push(a);
    proof {
        lemma_view_toks_push(out@, b);
    }
    out.push(b);
    proof {
        lemma_view_toks_push(out@, c);
    }
    out.push(c);
    proof {
        lemma_view_toks_push(out@, d);
    }
    out.push(d);
    proof {
        assert(view_toks(out@) =~= view_toks(old(out)@) + seq![
            view_tok(a),
            view_tok(b),
            view_tok(c),
            view_tok(d),
        ]);
    }
}

/// Appends the WGSL tokens of the globals from `k` on.
fn gen_globals_wgsl(g: &Vec<Global>, k: usize, out: &mut Vec<Tok>)
    requires
        k <= g@.len(),
    ensures
        view_toks(final(out)@) == view_toks(old(out)@) + emit_globals_wgsl(
            view_globals(g@),
            k as int,
        ),
    decreases g@.len() - k,
{
    proof {
        lemma_view_globals(g@);
    }
    if k >= g.len() {
        proof {
            assert(view_toks(out@) =~= view_toks(out@) + emit_globals_wgsl(
                view_globals(g@),
                k as int,
            ));
        }
        return;
    }
    let ghost base = view_toks(old(out)@);
    gen_global_wgsl(&g[k], out);
    gen_globals_wgsl(g, k + 1, out);
    proof {
        assert(view_toks(out@) =~= base + emit_globals_wgsl(view_globals(g@), k as int));
    }
}

/// Appends the MSL tokens of the global `gv` at `slot`.
#[verifier::rlimit(100)]
fn gen_global_msl(gv: &Global, slot: usize, out: &mut Vec<Tok>)
    ensures
        view_toks(final(out)@) == view_toks(old(out)@) + emit_global_msl(
            view_global(*gv),
            slot as int,
        ),
{
    let ghost base = view_toks(old(out)@);
    let slot32: u32 = #[verifier::truncate] (slot as u32);
    match gv.class {
        GlobalClass::Attribute { location, ty } => {
            push4(out, mk_ident("attribute"),
                Tok::LParen,
                Tok::Number { value: #[verifier::truncate] (location as u32) },
                Tok::RParen);
            let tyw = ty_word_of(TargetLang::Msl, ty);
            proof {
                lemma_view_toks_push(out@, tyw);
            }
            out.push(tyw);
            let nm = Tok::Ident { text: gv.name.clone() };
            proof {
                lemma_view_toks_push(out@, nm);
            }
            out.push(nm);
            proof {
                lemma_view_toks_push(out@, Tok::Semi);
            }
            out.push(Tok::Semi);
            proof {
                assert(view_toks(out@) =~= base + emit_global_msl(view_global(*gv), slot as int));
            }
        },
        GlobalClass::UniformBuffer { ty, .. } => {
            let kw = mk_ident("constant");
            proof {
                lemma_view_toks_push(out@, kw);
            }
            out.push(kw);
            let tyw = ty_word_of(TargetLang::Msl, ty);
            proof {
                lemma_view_toks_push(out@, tyw);
            }
            out.push(tyw);
            let nm = Tok::Ident { text: gv.name.clone() };
            proof {
                lemma_view_toks_push(out@, nm);
            }
            out.push(nm);
            push4(out, mk_ident("slot"),
                Tok::LParen,
                Tok::Number { value: slot32 },
                Tok::RParen);
            proof {
                lemma_view_toks_push(out@, Tok::Semi);
            }
            out.push(Tok::Semi);
            proof {
                assert(view_toks(out@) =~= base + emit_global_msl(view_global(*gv), slot as int));
            }
        },
        GlobalClass::StorageBuffer { ty, .. } => {
            let kw = mk_ident("device");
            proof {
                lemma_view_toks_push(out@, kw);
            }
            out.push(kw);
            let tyw = ty_word_of(TargetLang::Msl, ty);
            proof {
                lemma_view_toks_push(out@, tyw);
            }
            out.push(tyw);
            let nm = Tok::Ident { text: gv.name.clone() };
            proof {
                lemma_view_toks_push(out@, nm);
            }
            out.push(nm);
            push4(out, mk_ident("slot"),
                Tok::LParen,
                Tok::Number { value: slot32 },
                Tok::RParen);
            proof {
                lemma_view_toks_push(out@, Tok::Semi);
            }
            out.push(Tok::Semi);
            proof {
                assert(view_toks(out@) =~= base + emit_global_msl(view_global(*gv), slot as int));
            }
        },
        GlobalClass::Texture { multisampled_array, .. } => {
            let kw = if multisampled_array {
                mk_ident("texture2d_ms_array")
            } else {
                mk_ident("texture2d")
            };
            proof {
                lemma_view_toks_push(out@, kw);
            }
            out.push(kw);
            let nm = Tok::Ident { text: gv.name.clone() };
            proof {
                lemma_view_toks_push(out@, nm);
            }
            out.push(nm);
            push4(out, mk_ident("slot"),
                Tok::LParen,
                Tok::Number { value: slot32 },
                Tok::RParen);
            proof {
                lemma_view_toks_push(out@, Tok::Semi);
            }
            out.push(Tok::Semi);
            proof {
                assert(view_toks(out@) =~= base + emit_global_msl(view_global(*gv), slot as int));
            }
        },
        GlobalClass::Sampler { .. } => {
            let kw = mk_ident("sampler");
            proof {
                lemma_view_toks_push(out@, kw);
            }
            out.push(kw);
            let nm = Tok::Ident { text: gv.name.clone() };
            proof {
                lemma_view_toks_push(out@, nm);
            }
            out.push(nm);
            push4(out, mk_ident("slot"),
                Tok::LParen,
                Tok::Number { value: slot32 },
                Tok::RParen);
            proof {
                lemma_view_toks_push(out@, Tok::Semi);
            }
            out.push(Tok::Semi);
            proof {
                assert(view_toks(out@) =~= base + emit_global_msl(view_global(*gv), slot as int));
            }
        },
    }
}

/// Appends the MSL tokens of the globals from `k` on, with `next` the next
/// free slot.
fn gen_globals_msl(g: &Vec<Global>, k: usize, next: usize, out: &mut Vec<Tok>)
    requires
        k <= g@.len(),
        next <= k,
    ensures
        view_toks(final(out)@) == view_toks(old(out)@) + emit_globals_msl(
            view_globals(g@),
            k as int,
            next as int,
        ),
    decreases g@.len() - k,
{
    proof {
        lemma_view_globals(g@);
    }
    if k >= g.len() {
        proof {
            assert(view_toks(out@) =~= view_toks(out@) + emit_globals_msl(
                view_globals(g@),
                k as int,
                next as int,
            ));
        }
        return;
    }
    let ghost base = view_toks(old(out)@);
    if matches!(g[k].class, GlobalClass::Attribute { .. }) {
        gen_global_msl(&g[k], 0, out);
        gen_globals_msl(g, k + 1, next, out);
    } else {
        gen_global_msl(&g[k], next, out);
        gen_globals_msl(g, k + 1, next + 1, out);
    }
    proof {
        assert(view_toks(out@) =~= base + emit_globals_msl(
            view_globals(g@),
            k as int,
            next as int,
        ));
    }
}

/// Builds the binding table from `k` on, with `next` the next free slot.
fn bindings_of(g: &Vec<Global>, k: usize, next: usize, out: &mut Vec<BindingSlot>)
    requires
        k <= g@.len(),
        next <= k,
    ensures
        final(out)@ == old(out)@ + bindings_list(view_globals(g@), k as int, next as int),
    decreases g@.len() - k,
{
    proof {
        lemma_view_globals(g@);
    }
    if k >= g.len() {
        proof {
            assert(out@ =~= out@ + bindings_list(view_globals(g@), k as int, next as int));
        }
        return;
    }
    let ghost base = out@;
    if matches!(g[k].class, GlobalClass::Attribute { .. }) {
        bindings_of(g, k + 1, next, out);
    } else {
        let b = BindingSlot {
            group: crate::ir::class_group_of(g[k].class),
            binding: crate::ir::class_binding_of(g[k].class),
            slot: next,
        };
        out.push(b);
        bindings_of(g, k + 1, next + 1, out);
    }
    proof {
        assert(out@ =~= base + bindings_list(view_globals(g@), k as int, next as int));
    }
}

/// Returns the stage of the first entry point from `j` on naming `fidx`.
fn entry_stage_for_of(e: &Vec<crate::ir::EntryPoint>, fidx: usize, j: usize) -> (r: Option<
    ShaderStage,
>)
    requires
        j <= e@.len(),
    ensures
        r == entry_stage_for(view_entries(e@), fidx as int, j as int),
    decreases e@.len() - j,
{
    proof {
        lemma_view_entries(e@);
    }
    if j >= e.len() {
        return None;
    }
    if e[j].function == fidx {
        Some(e[j].stage)
    } else {
        entry_stage_for_of(e, fidx, j + 1)
    }
}

/// Appends the tokens of one function.
#[verifier::rlimit(100)]
fn gen_function(
    f: &Function,
    stage: Option<ShaderStage>,
    tl: TargetLang,
    g: &Vec<Global>,
    out: &mut Vec<Tok>,
)
    ensures
        view_toks(final(out)@) == view_toks(old(out)@) + emit_function(
            view_function(*f),
            stage,
            tl,
            view_globals(g@),
        ),
{
    let ghost base = view_toks(old(out)@);
    if let Some(st) = stage {
        let t = stage_tok_of(tl, st);
        proof {
            lemma_view_toks_push(out@, t);
        }
        out.push(t);
    }
    let kw = match tl {
        TargetLang::Wgsl => mk_ident("fn"),
        TargetLang::Msl => mk_ident("void"),
    };
    proof {
        lemma_view_toks_push(out@, kw);
    }
    out.push(kw);
    let nm = Tok::Ident { text: f.name.clone() };
    proof {
        lemma_view_toks_push(out@, nm);
    }
    out.push(nm);
    proof {
        lemma_view_toks_push(out@, Tok::LParen);
    }
    out.push(Tok::LParen);
    proof {
        lemma_view_toks_push(out@, Tok::RParen);
    }
    out.push(Tok::RParen);
    proof {
        lemma_view_toks_push(out@, Tok::LBrace);
    }
    out.push(Tok::LBrace);
    proof {
        assert(view_stmts(f.body@).skip(0) =~= view_stmts(f.body@));
    }
    gen_stmts(&f.body, 0, tl, g, &f.locals, out);
    proof {
        lemma_view_toks_push(out@, Tok::RBrace);
    }
    out.push(Tok::RBrace);
    proof {
        assert(view_toks(out@) =~= base + emit_function(
            view_function(*f),
            stage,
            tl,
            view_globals(g@),
        ));
    }
}

/// Appends the tokens of the functions from `k` on.
fn gen_functions(
    fs: &Vec<Function>,
    k: usize,
    e: &Vec<crate::ir::EntryPoint>,
    tl: TargetLang,
    g: &Vec<Global>,
    out: &mut Vec<Tok>,
)
    requires
        k <= fs@.len(),
    ensures
        view_toks(final(out)@) == view_toks(old(out)@) + emit_functions(
            view_functions(fs@),
            k as int,
            view_entries(e@),
            tl,
            view_globals(g@),
        ),
    decreases fs@.len() - k,
{
    proof {
        lemma_view_functions(fs@);
    }
    if k >= fs.len() {
        proof {
            assert(view_toks(out@) =~= view_toks(out@) + emit_functions(
                view_functions(fs@),
                k as int,
                view_entries(e@),
                tl,
                view_globals(g@),
            ));
        }
        return;
    }
    let ghost base = view_toks(old(out)@);
    let stage = entry_stage_for_of(e, k, 0);
    gen_function(&fs[k], stage, tl, g, out);
    gen_functions(fs, k + 1, e, tl, g, out);
    proof {
        assert(view_toks(out@) =~= base + emit_functions(
            view_functions(fs@),
            k as int,
            view_entries(e@),
            tl,
            view_globals(g@),
        ));
    }
}

/// Builds the whole token stream of the module in target `tl`.
fn gen_module_toks(m: &Module, tl: TargetLang) -> (r: Vec<Tok>)
    ensures
        view_toks(r@) == emit_module_toks(view_module(*m), tl),
{
    let mut out: Vec<Tok> = Vec::new();
    proof {
        assert(view_toks(out@) =~= Seq::<TokView>::empty());
    }
    match tl {
        TargetLang::Wgsl => gen_globals_wgsl(&m.globals, 0, &mut out),
        TargetLang::Msl => gen_globals_msl(&m.globals, 0, 0, &mut out),
    }
    gen_functions(&m.functions, 0, &m.entry_points, tl, &m.globals, &mut out);
    proof {
        assert(view_toks(out@) =~= emit_module_toks(view_module(*m), tl));
    }
    out
}


// ===== Rendering tokens as text =====

/// The decimal digit `d` as text.
pub open spec fn spec_digit(d: int) -> Seq<char> {
    if d == 0 {
        "0"@
    } else if d == 1 {
        "1"@
    } else if d == 2 {
        "2"@
    } else if d == 3 {
        "3"@
    } else if d == 4 {
        "4"@
    } else if d == 5 {
        "5"@
    } else if d == 6 {
        "6"@
    } else if d == 7 {
        "7"@
    } else if d == 8 {
        "8"@
    } else {
        "9"@
    }
}

/// The decimal text of `n`.
pub open spec fn spec_dec(n: int) -> Seq<char>
    decreases n,
{
    if n < 0 {
        Seq::empty()
    } else if n < 10 {
        spec_digit(n)
    } else {
        spec_dec(n / 10) + spec_digit(n % 10)
    }
}

/// Returns the decimal digit `d` as text.
fn digit_str(d: u32) -> (r: &'static str)
    requires
        d < 10,
    ensures
        r@ == spec_digit(d as int),
{
    if d == 0 {
        "0"
    } else if d == 1 {
        "1"
    } else if d == 2 {
        "2"
    } else if d == 3 {
        "3"
    } else if d == 4 {
        "4"
    } else if d == 5 {
        "5"
    } else if d == 6 {
        "6"
    } else if d == 7 {
        "7"
    } else if d == 8 {
        "8"
    } else {
        "9"
    }
}

/// Returns the decimal text of `n`.
pub fn dec_u32(n: u32) -> (r: String)
    ensures
        r@ == spec_dec(n as int),
    decreases n,
{
    if n < 10 {
        let mut s = String::new();
        s.append(digit_str(n));
        proof {
            assert(s@ =~= spec_dec(n as int));
        }
        s
    } else {
        let mut s = dec_u32(n / 10);
        s.append(digit_str(n % 10));
        s
    }
}

/// The text of one token.
pub open spec fn tok_text(tv: TokView) -> Seq<char> {
    match tv {
        TokView::Ident { text } => text,
        TokView::AtWord { text } => "@"@ + text,
        TokView::Number { value } => spec_dec(value as int),
        TokView::LParen => "("@,
        TokView::RParen => ")"@,
        TokView::LBrace => "{"@,
        TokView::RBrace => "}"@,
        TokView::Semi => ";"@,
        TokView::Comma => ","@,
        TokView::Colon => ":"@,
        TokView::Assign => "="@,
        TokView::Plus => "+"@,
        TokView::Star => "*"@,
        TokView::Lt => "<"@,
        TokView::Gt => ">"@,
    }
}

/// The separator written after one token: a line break after the tokens
/// that end a declaration, statement or block, a space otherwise.
pub open spec fn tok_sep(tv: TokView) -> Seq<char> {
    match tv {
        TokView::Semi => "\n"@,
        TokView::LBrace => "\n"@,
        TokView::RBrace => "\n"@,
        _ => " "@,
    }
}

/// The text of a token stream: each token's text and its separator.
pub open spec fn spec_render(ts: Seq<TokView>) -> Seq<char>
    decreases ts,
{
    if ts.len() == 0 {
        Seq::empty()
    } else {
        tok_text(ts[0]) + tok_sep(ts[0]) + spec_render(ts.skip(1))
    }
}

/// Appends the text of one token and its separator to `out`.
fn render_tok(t: &Tok, out: &mut String)
    ensures
        final(out)@ == old(out)@ + tok_text(view_tok(*t)) + tok_sep(view_tok(*t)),
{
    match t {
        Tok::Ident { text } => out.append(text.as_str()),
        Tok::AtWord { text } => {
            out.append("@");
            out.append(text.as_str());
        },
        Tok::Number { value } => {
            let d = dec_u32(*value);
            out.append(d.as_str());
        },
        Tok::LParen => out.append("("),
        Tok::RParen => out.append(")"),
        Tok::LBrace => out.append("{"),
        Tok::RBrace => out.append("}"),
        Tok::Semi => out.append(";"),
        Tok::Comma => out.append(","),
        Tok::Colon => out.append(":"),
        Tok::Assign => out.append("="),
        Tok::Plus => out.append("+"),
        Tok::Star => out.append("*"),
        Tok::Lt => out.append("<"),
        Tok::Gt => out.append(">"),
    }
    let sep = match t {
        Tok::Semi => "\n",
        Tok::LBrace => "\n",
        Tok::RBrace => "\n",
        _ => " ",
    };
    out.append(sep);
    proof {
        assert(out@ =~= old(out)@ + tok_text(view_tok(*t)) + tok_sep(view_tok(*t)));
    }
}

/// Renders a token stream as text.
fn render_toks(ts: &Vec<Tok>) -> (r: String)
    ensures
        r@ == spec_render(view_toks(ts@)),
{
    proof {
        lemma_view_toks(ts@);
    }
    let ghost v = view_toks(ts@);
    let mut out = String::new();
    proof {
        assert(v.skip(0) =~= v);
        assert(out@ + spec_render(v.skip(0)) =~= spec_render(v));
    }
    let mut k: usize = 0;
    while k < ts.len()
        invariant
            k <= ts@.len(),
            v == view_toks(ts@),
            v.len() == ts@.len(),
            forall|q: int| 0 <= q < ts@.len() ==> v[q] == view_tok(ts@[q]),
            spec_render(v) == out@ + spec_render(v.skip(k as int)),
        decreases ts@.len() - k,
    {
        proof {
            assert(v.skip(k as int)[0] == v[k as int]);
            assert(v.skip(k as int).skip(1) =~= v.skip(k as int + 1));
        }
        render_tok(&ts[k], &mut out);
        proof {
            assert(out@ + spec_render(v.skip(k as int + 1)) =~= spec_render(v));
        }
        k = k + 1;
    }
    proof {
        assert(v.skip(k as int) =~= Seq::<TokView>::empty());
        assert(out@ =~= spec_render(v));
    }
    out
}

// ===== The generators =====

/// The optional leading comment line the formatting options ask for.
pub open spec fn gen_header(opts: TargetOptions) -> Seq<char> {
    if opts.emit_header {
        "// shader module\n"@
    } else {
        Seq::empty()
    }
}

/// The full text a backend emits for `m` in target `tl`.
pub open spec fn spec_emit_text(m: ModuleView, tl: TargetLang, opts: TargetOptions) -> Seq<char> {
    gen_header(opts) + spec_render(emit_module_toks(m, tl))
}

/// Whether the module relies on double precision anywhere.
pub open spec fn module_uses_f64(m: ModuleView) -> bool {
    crate::valid::spec_check_caps(
        m,
        crate::caps::Capabilities { bits: 0xffff_fffeu32 },
    ) is Some
}

/// Returns whether the module relies on double precision anywhere.
fn check_uses_f64(m: &Module) -> (r: bool)
    ensures
        r == module_uses_f64(view_module(*m)),
{
    let allow_all_but_f64 = crate::caps::Capabilities::from_bits(0xffff_fffeu32);
    match crate::valid::capc_globals(&m.globals, 0, &allow_all_but_f64) {
        Some(_) => true,
        None => crate::valid::capc_functions(&m.functions, 0, &allow_all_but_f64).is_some(),
    }
}

/// The checks both backends share, in order: names must be valid target
/// identifiers, resolve unambiguously, and every emitted index literal
/// must fit.
pub open spec fn spec_emit_checks(m: ModuleView) -> Option<CodegenError> {
    if !names_valid(m) {
        Some(CodegenError { construct: Construct::InvalidIdentifier })
    } else if !names_unique(m) {
        Some(CodegenError { construct: Construct::DuplicateIdentifier })
    } else if !indices_fit(m) {
        Some(CodegenError { construct: Construct::OversizedIndex })
    } else {
        None
    }
}

/// Runs the shared backend checks.
fn emit_checks(m: &Module) -> (r: Option<CodegenError>)
    ensures
        r == spec_emit_checks(view_module(*m)),
{
    if !check_names_valid(m) {
        Some(CodegenError { construct: Construct::InvalidIdentifier })
    } else if !check_names_unique(m) {
        Some(CodegenError { construct: Construct::DuplicateIdentifier })
    } else if !check_indices_fit(m) {
        Some(CodegenError { construct: Construct::OversizedIndex })
    } else {
        None
    }
}

/// The outcome of the WGSL backend: the emitted text, or the construct the
/// target cannot express. WGSL has no double-precision type at any
/// version.
pub open spec fn spec_generate_wgsl(m: ModuleView, opts: TargetOptions) -> Result<
    Seq<char>,
    CodegenError,
> {
    match spec_emit_checks(m) {
        Some(er) => Err(er),
        None => if module_uses_f64(m) {
            Err(CodegenError { construct: Construct::F64Arithmetic })
        } else {
            Ok(spec_emit_text(m, TargetLang::Wgsl, opts))
        },
    }
}

/// Whether the MSL language-version floor has a double-precision type.
pub open spec fn msl_has_f64(opts: TargetOptions) -> bool {
    opts.lang_version_major >= 2
}

/// The outcome of the MSL backend: the emitted text with the binding
/// table, or the construct the target cannot express under the options.
pub open spec fn spec_generate_msl(m: ModuleView, opts: TargetOptions) -> Result<
    (Seq<char>, Seq<BindingSlot>),
    CodegenError,
> {
    match spec_emit_checks(m) {
        Some(er) => Err(er),
        None => if module_uses_f64(m) && !msl_has_f64(opts) {
            Err(CodegenError { construct: Construct::F64Arithmetic })
        } else {
            Ok((spec_emit_text(m, TargetLang::Msl, opts), bindings_list(m.globals, 0, 0)))
        },
    }
}

/// Emits WGSL-like source for the module, under the analysis the validator
/// computed for it.
pub fn generate_wgsl(
    m: &Module,
    info: &crate::valid::ModuleInfo,
    options: &TargetOptions,
) -> (r: Result<String, CodegenError>)
    requires
        crate::valid::view_module_info(*info) == crate::valid::spec_module_info(view_module(*m)),
    ensures
        match (r, spec_generate_wgsl(view_module(*m), *options)) {
            (Ok(s), Ok(t)) => s@ == t,
            (Err(a), Err(b)) => a == b,
            _ => false,
        },
{
    if let Some(er) = emit_checks(m) {
        return Err(er);
    }
    if check_uses_f64(m) {
        return Err(CodegenError { construct: Construct::F64Arithmetic });
    }
    let toks = gen_module_toks(m, TargetLang::Wgsl);
    let body = render_toks(&toks);
    let mut s = if options.emit_header {
        String::from_str("// shader module\n")
    } else {
        String::new()
    };
    s.append(body.as_str());
    proof {
        assert(s@ =~= spec_emit_text(view_module(*m), TargetLang::Wgsl, *options));
    }
    Ok(s)
}

/// Emits MSL-like source for the module together with the binding table
/// that maps IR (group, binding) pairs to flat slots.
pub fn generate_msl(
    m: &Module,
    info: &crate::valid::ModuleInfo,
    options: &TargetOptions,
) -> (r: Result<(String, TranslationInfo), CodegenError>)
    requires
        crate::valid::view_module_info(*info) == crate::valid::spec_module_info(view_module(*m)),
    ensures
        match (r, spec_generate_msl(view_module(*m), *options)) {
            (Ok(p), Ok(q)) => p.0@ == q.0 && p.1.bindings@ == q.1,
            (Err(a), Err(b)) => a == b,
            _ => false,
        },
{
    if let Some(er) = emit_checks(m) {
        return Err(er);
    }
    if check_uses_f64(m) && options.lang_version_major < 2 {
        return Err(CodegenError { construct: Construct::F64Arithmetic });
    }
    let toks = gen_module_toks(m, TargetLang::Msl);
    let body = render_toks(&toks);
    let mut s = if options.emit_header {
        String::from_str("// shader module\n")
    } else {
        String::new()
    };
    s.append(body.as_str());
    let mut bindings: Vec<BindingSlot> = Vec::new();
    bindings_of(&m.globals, 0, 0, &mut bindings);
    proof {
        assert(s@ =~= spec_emit_text(view_module(*m), TargetLang::Msl, *options));
        assert(bindings@ =~= bindings_list(view_globals(m.globals@), 0, 0));
    }
    Ok((s, TranslationInfo { bindings }))
}


// ===== Stage fidelity =====

/// The textual marker a target reads an entry point's stage from:
/// `@vertex` and kin in WGSL, the `vertex` / `fragment` / `kernel`
/// qualifier in MSL.
pub open spec fn stage_marker(tl: TargetLang, s: ShaderStage) -> Seq<char> {
    tok_text(emit_stage_tok(tl, s))
}

/// Rendering distributes over token concatenation.
pub proof fn lemma_render_concat(a: Seq<TokView>, b: Seq<TokView>)
    ensures
        spec_render(a + b) == spec_render(a) + spec_render(b),
    decreases a.len(),
{
    if a.len() == 0 {
        assert(a + b =~= b);
        assert(spec_render(a) + spec_render(b) =~= spec_render(b));
    } else {
        assert((a + b)[0] == a[0]);
        assert((a + b).len() > 0);
        assert((a + b).skip(1) =~= a.skip(1) + b);
        lemma_render_concat(a.skip(1), b);
        assert(spec_render(a + b) =~= tok_text(a[0]) + tok_sep(a[0]) + (spec_render(a.skip(1))
            + spec_render(b)));
        assert(tok_text(a[0]) + tok_sep(a[0]) + (spec_render(a.skip(1)) + spec_render(b)) =~= (
        tok_text(a[0]) + tok_sep(a[0]) + spec_render(a.skip(1))) + spec_render(b));
    }
}

/// Under the module invariant, looking an entry point's function up among
/// the entry points finds exactly that entry point's stage.
proof fn lemma_entry_stage_found(e: Seq<EntryPointView>, j: int, k: int)
    requires
        forall|a: int, b: int|
            0 <= a < b < e.len() ==> (#[trigger] e[a]).function < (#[trigger] e[b]).function,
        0 <= k <= j < e.len(),
    ensures
        entry_stage_for(e, e[j].function as int, k) == Some(e[j].stage),
    decreases j - k,
{
    if k < j {
        assert(e[k].function < e[j].function);
        lemma_entry_stage_found(e, j, k + 1);
    }
}

/// The emitted functions decompose around any one of them.
proof fn lemma_functions_contain(
    f: Seq<FunctionView>,
    k0: int,
    e: Seq<EntryPointView>,
    tl: TargetLang,
    g: Seq<GlobalView>,
    fidx: int,
) -> (r: (Seq<TokView>, Seq<TokView>))
    requires
        0 <= k0 <= fidx < f.len(),
    ensures
        emit_functions(f, k0, e, tl, g) == r.0 + emit_function(
            f[fidx],
            entry_stage_for(e, fidx, 0),
            tl,
            g,
        ) + r.1,
    decreases fidx - k0,
{
    let chunk = emit_function(f[fidx], entry_stage_for(e, fidx, 0), tl, g);
    if k0 == fidx {
        let rest = emit_functions(f, k0 + 1, e, tl, g);
        assert(emit_functions(f, k0, e, tl, g) =~= Seq::<TokView>::empty() + chunk + rest);
        (Seq::empty(), rest)
    } else {
        let head = emit_function(f[k0], entry_stage_for(e, k0, 0), tl, g);
        let (a, b) = lemma_functions_contain(f, k0 + 1, e, tl, g, fidx);
        assert(emit_functions(f, k0, e, tl, g) =~= (head + a) + chunk + b);
        (head + a, b)
    }
}

/// Stage fidelity: the text either backend emits for a module carries, for
/// every entry point, the marker of exactly that entry point's declared
/// stage. The returned pair is the text around the marker.
pub proof fn lemma_stage_fidelity(
    m: ModuleView,
    tl: TargetLang,
    opts: TargetOptions,
    j: int,
) -> (r: (Seq<char>, Seq<char>))
    requires
        crate::ir::wf_module(m),
        0 <= j < m.entry_points.len(),
    ensures
        spec_emit_text(m, tl, opts) == r.0 + stage_marker(tl, m.entry_points[j].stage) + r.1,
{
    let e = m.entry_points;
    let f = m.functions;
    let g = m.globals;
    let fidx = e[j].function as int;
    assert(fidx < f.len());
    lemma_entry_stage_found(e, j, 0);
    let (fa, fb) = lemma_functions_contain(f, 0, e, tl, g, fidx);
    let chunk = emit_function(f[fidx], Some(e[j].stage), tl, g);
    let st = emit_stage_tok(tl, e[j].stage);
    let rest2 = seq![
        TokView::Ident {
            text: if tl == TargetLang::Wgsl {
                "fn"@
            } else {
                "void"@
            },
        },
        TokView::Ident { text: f[fidx].name },
        TokView::LParen,
        TokView::RParen,
        TokView::LBrace,
    ] + emit_stmts(f[fidx].body, tl, g, f[fidx].locals) + seq![TokView::RBrace];
    assert(chunk =~= seq![st] + rest2);
    let gtoks = if tl == TargetLang::Wgsl {
        emit_globals_wgsl(g, 0)
    } else {
        emit_globals_msl(g, 0, 0)
    };
    let lead = gtoks + fa;
    let tail_toks = rest2 + fb;
    assert(emit_module_toks(m, tl) =~= lead + (seq![st] + tail_toks));
    lemma_render_concat(lead, seq![st] + tail_toks);
    assert((seq![st] + tail_toks)[0] == st);
    assert((seq![st] + tail_toks).skip(1) =~= tail_toks);
    assert(spec_render(seq![st] + tail_toks) =~= tok_text(st) + tok_sep(st) + spec_render(
        tail_toks,
    ));
    let before = gen_header(opts) + spec_render(lead);
    let after = tok_sep(st) + spec_render(tail_toks);
    assert(spec_emit_text(m, tl, opts) =~= before + stage_marker(tl, m.entry_points[j].stage)
        + after);
    (before, after)
}

/// No stage marker of a target is ever another stage's: a consumer reading
/// the marker reads exactly the declared stage.
pub proof fn lemma_stage_markers_distinct(tl: TargetLang, s1: ShaderStage, s2: ShaderStage)
    requires
        s1 != s2,
    ensures
        stage_marker(tl, s1) != stage_marker(tl, s2),
{
    reveal_strlit("vertex");
    reveal_strlit("fragment");
    reveal_strlit("compute");
    reveal_strlit("kernel");
    reveal_strlit("@");
    assert("vertex"@.len() == 6);
    assert("fragment"@.len() == 8);
    assert("compute"@.len() == 7);
    assert("kernel"@.len() == 6);
    assert("vertex"@[0] == 'v');
    assert("kernel"@[0] == 'k');
    if tl == TargetLang::Wgsl {
        assert(stage_marker(tl, s1).len() != stage_marker(tl, s2).len());
    } else {
        if stage_marker(tl, s1).len() == stage_marker(tl, s2).len() {
            assert(stage_marker(tl, s1)[0] != stage_marker(tl, s2)[0]);
        }
    }
}


// ===== Round-trip agreement of the WGSL word tables =====

/// The WGSL frontend reads back exactly the type word the WGSL backend
/// writes for every value type.
pub proof fn lemma_wgsl_ty_words_invert(t: Ty)
    ensures
        crate::parse::spec_ty_keyword(crate::parse::Dialect::Wgsl, emit_ty_word(TargetLang::Wgsl, t))
            == Some(t),
{
    reveal_strlit("f32");
    reveal_strlit("f64");
    reveal_strlit("u32");
    reveal_strlit("bool");
    reveal_strlit("vec4f32");
    assert("f32"@.len() == 3);
    assert("f64"@.len() == 3);
    assert("u32"@.len() == 3);
    assert("bool"@.len() == 4);
    assert("vec4f32"@.len() == 7);
    assert("f32"@[0] == 'f');
    assert("u32"@[0] == 'u');
    assert("f32"@[1] == '3');
    assert("f64"@[1] == '6');
}

/// The WGSL frontend reads back exactly the built-in word the WGSL backend
/// writes for every built-in variable.
pub proof fn lemma_wgsl_builtin_words_invert(b: BuiltinVar)
    ensures
        crate::parse::spec_builtin_keyword(
            crate::parse::Dialect::Wgsl,
            emit_builtin_word(TargetLang::Wgsl, b),
        ) == Some(b),
{
    reveal_strlit("wg_position");
    reveal_strlit("wg_vertex_index");
    reveal_strlit("wg_frag_coord");
    reveal_strlit("wg_frag_depth");
    reveal_strlit("wg_local_invocation_index");
    reveal_strlit("wg_workgroup_id");
    assert("wg_position"@.len() == 11);
    assert("wg_vertex_index"@.len() == 15);
    assert("wg_frag_coord"@.len() == 13);
    assert("wg_frag_depth"@.len() == 13);
    assert("wg_local_invocation_index"@.len() == 25);
    assert("wg_workgroup_id"@.len() == 15);
    assert("wg_frag_coord"@[8] == 'c');
    assert("wg_frag_depth"@[8] == 'd');
    assert("wg_vertex_index"@[3] == 'v');
    assert("wg_workgroup_id"@[3] == 'w');
}

/// The WGSL frontend reads back exactly the stage word the WGSL backend
/// writes for every stage.
pub proof fn lemma_wgsl_stage_words_invert(s: ShaderStage)
    ensures
        crate::front::spec_stage_word(emit_stage_word(TargetLang::Wgsl, s)) == Some(s),
{
    reveal_strlit("vertex");
    reveal_strlit("fragment");
    reveal_strlit("compute");
    assert("vertex"@.len() == 6);
    assert("fragment"@.len() == 8);
    assert("compute"@.len() == 7);
}


/// The WGSL frontend reads back exactly the resource class the WGSL
/// backend writes: the address-space and type words of a resource class
/// name that class again, with the visibility left for the frontend's
/// whole-file pass.
pub proof fn lemma_wgsl_res_class_inverts(c: GlobalClass)
    requires
        !(c is Attribute),
    ensures
        crate::front::spec_wgsl_res_class(
            wgsl_space_word(c),
            wgsl_gtype_word(c),
            res_group(c),
            res_binding(c),
        ) == Some(crate::front::spec_class_with_vis(c, 0)),
{
    reveal_strlit("uniform");
    reveal_strlit("storage");
    reveal_strlit("handle");
    reveal_strlit("texture2d");
    reveal_strlit("texturems2darray");
    reveal_strlit("sampler");
    assert("uniform"@.len() == 7);
    assert("storage"@.len() == 7);
    assert("handle"@.len() == 6);
    assert("uniform"@[0] == 'u');
    assert("storage"@[0] == 's');
    assert("texture2d"@.len() == 9);
    assert("texturems2darray"@.len() == 16);
    assert("sampler"@.len() == 7);
    match c {
        GlobalClass::UniformBuffer { ty, .. } => {
            lemma_wgsl_ty_words_invert(ty);
        },
        GlobalClass::StorageBuffer { ty, .. } => {
            lemma_wgsl_ty_words_invert(ty);
        },
        _ => {
            reveal_strlit("f32");
            reveal_strlit("f64");
            reveal_strlit("u32");
            reveal_strlit("bool");
            reveal_strlit("vec4f32");
            assert("f32"@.len() == 3);
            assert("f64"@.len() == 3);
            assert("u32"@.len() == 3);
            assert("bool"@.len() == 4);
            assert("vec4f32"@.len() == 7);
            assert("sampler"@[0] == 's');
            assert("texture2d"@[0] == 't');
        },
    }
}

} // verus!

//! The language-neutral intermediate representation of a shader: types,
//! global declarations, functions and entry points, together with the
//! ghost-level view of each node and the well-formedness predicate that
//! the frontends establish and the validator checks.
use vstd::prelude::*;

verus! {

// ===== Source positions =====

/// A position in source text: 1-based line and column, 0-based character offset.
#[derive(Clone, Copy, PartialEq, Eq, Structural, Debug)]
pub struct Span {
    pub line: usize,
    pub col: usize,
    pub offset: usize,
}

/// The placeholder position carried by nodes whose origin is not a text file.
pub open spec fn no_span() -> Span {
    Span { line: 0, col: 0, offset: 0 }
}

// ===== Shader stages =====

/// The pipeline stage an entry point executes in.
#[derive(Clone, Copy, PartialEq, Eq, Structural, Debug)]
pub enum ShaderStage {
    Vertex,
    Fragment,
    Compute,
}

/// The visibility bit a stage contributes to a resource's stage mask.
pub open spec fn stage_bit(s: ShaderStage) -> u32 {
    match s {
        ShaderStage::Vertex => 1,
        ShaderStage::Fragment => 2,
        ShaderStage::Compute => 4,
    }
}

/// Returns the visibility bit of `s`.
pub fn stage_mask(s: ShaderStage) -> (r: u32)
    ensures
        r == stage_bit(s),
{
    match s {
        ShaderStage::Vertex => 1,
        ShaderStage::Fragment => 2,
        ShaderStage::Compute => 4,
    }
}

// ===== Value types =====

#[derive(Clone, Copy, PartialEq, Eq, Structural, Debug)]
pub enum ScalarKind {
    F32,
    F64,
    U32,
    Bool,
}

/// A value type: a scalar, or a four-component vector of 32-bit floats.
#[derive(Clone, Copy, PartialEq, Eq, Structural, Debug)]
pub enum Ty {
    Scalar(ScalarKind),
    Vec4,
}

/// Numeric scalar types, the operand types of `+`, `*` and `<`.
pub open spec fn is_numeric_scalar(t: Ty) -> bool {
    match t {
        Ty::Scalar(k) => k != ScalarKind::Bool,
        Ty::Vec4 => false,
    }
}

/// Returns whether `t` is a numeric scalar type.
pub fn numeric_scalar(t: Ty) -> (r: bool)
    ensures
        r == is_numeric_scalar(t),
{
    match t {
        Ty::Scalar(k) => !matches!(k, ScalarKind::Bool),
        Ty::Vec4 => false,
    }
}

/// Whether `t` involves double precision.
pub open spec fn ty_uses_f64(t: Ty) -> bool {
    t == Ty::Scalar(ScalarKind::F64)
}

// ===== Built-in variables =====

/// The stage-specific built-in variables of the source languages.
#[derive(Clone, Copy, PartialEq, Eq, Structural, Debug)]
pub enum BuiltinVar {
    /// Clip-space position output (vertex).
    Position,
    /// Index of the vertex being processed (vertex, per-invocation).
    VertexIndex,
    /// Window-space coordinate of the fragment (fragment, per-invocation).
    FragCoord,
    /// Fragment depth output (fragment).
    FragDepth,
    /// Flat invocation index within the workgroup (compute, per-invocation).
    LocalInvocationIndex,
    /// Workgroup identifier (compute, uniform over the workgroup).
    WorkGroupId,
}

/// The unique stage a built-in belongs to.
pub open spec fn builtin_stage(b: BuiltinVar) -> ShaderStage {
    match b {
        BuiltinVar::Position => ShaderStage::Vertex,
        BuiltinVar::VertexIndex => ShaderStage::Vertex,
        BuiltinVar::FragCoord => ShaderStage::Fragment,
        BuiltinVar::FragDepth => ShaderStage::Fragment,
        BuiltinVar::LocalInvocationIndex => ShaderStage::Compute,
        BuiltinVar::WorkGroupId => ShaderStage::Compute,
    }
}

/// Whether the built-in is an output that a shader may assign.
pub open spec fn builtin_writable(b: BuiltinVar) -> bool {
    b == BuiltinVar::Position || b == BuiltinVar::FragDepth
}

/// The value type of a built-in variable.
pub open spec fn builtin_ty(b: BuiltinVar) -> Ty {
    match b {
        BuiltinVar::Position => Ty::Vec4,
        BuiltinVar::VertexIndex => Ty::Scalar(ScalarKind::U32),
        BuiltinVar::FragCoord => Ty::Vec4,
        BuiltinVar::FragDepth => Ty::Scalar(ScalarKind::F32),
        BuiltinVar::LocalInvocationIndex => Ty::Scalar(ScalarKind::U32),
        BuiltinVar::WorkGroupId => Ty::Scalar(ScalarKind::U32),
    }
}

/// Whether reading the built-in yields the same value for every invocation
/// of a synchronization group.
pub open spec fn builtin_is_uniform(b: BuiltinVar) -> bool {
    b == BuiltinVar::WorkGroupId
}

/// Returns the stage `b` belongs to.
pub fn builtin_stage_of(b: BuiltinVar) -> (r: ShaderStage)
    ensures
        r == builtin_stage(b),
{
    match b {
        BuiltinVar::Position => ShaderStage::Vertex,
        BuiltinVar::VertexIndex => ShaderStage::Vertex,
        BuiltinVar::FragCoord => ShaderStage::Fragment,
        BuiltinVar::FragDepth => ShaderStage::Fragment,
        BuiltinVar::LocalInvocationIndex => ShaderStage::Compute,
        BuiltinVar::WorkGroupId => ShaderStage::Compute,
    }
}

/// Returns whether `b` may stand on the left of an assignment.
pub fn builtin_writable_of(b: BuiltinVar) -> (r: bool)
    ensures
        r == builtin_writable(b),
{
    matches!(b, BuiltinVar::Position | BuiltinVar::FragDepth)
}

/// Returns the value type of `b`.
pub fn builtin_ty_of(b: BuiltinVar) -> (r: Ty)
    ensures
        r == builtin_ty(b),
{
    match b {
        BuiltinVar::Position => Ty::Vec4,
        BuiltinVar::VertexIndex => Ty::Scalar(ScalarKind::U32),
        BuiltinVar::FragCoord => Ty::Vec4,
        BuiltinVar::FragDepth => Ty::Scalar(ScalarKind::F32),
        BuiltinVar::LocalInvocationIndex => Ty::Scalar(ScalarKind::U32),
        BuiltinVar::WorkGroupId => Ty::Scalar(ScalarKind::U32),
    }
}

/// Returns whether `b` reads uniformly over a synchronization group.
pub fn builtin_uniform_of(b: BuiltinVar) -> (r: bool)
    ensures
        r == builtin_is_uniform(b),
{
    matches!(b, BuiltinVar::WorkGroupId)
}

// ===== Global declarations =====

/// What a global declaration is: a stage input attribute or a bound resource.
/// Resources carry a (group, binding) location and a visibility mask over
/// stages, built from `stage_bit`.
#[derive(Clone, Copy, PartialEq, Eq, Structural, Debug)]
pub enum GlobalClass {
    Attribute { location: usize, ty: Ty },
    UniformBuffer { group: u32, binding: u32, visibility: u32, ty: Ty },
    StorageBuffer { group: u32, binding: u32, visibility: u32, ty: Ty },
    Texture { group: u32, binding: u32, visibility: u32, multisampled_array: bool },
    Sampler { group: u32, binding: u32, visibility: u32 },
}

/// Whether the class is a bound resource (everything except an attribute).
pub open spec fn class_is_resource(c: GlobalClass) -> bool {
    !(c is Attribute)
}

/// The visibility mask of a resource class; attributes are visible to the
/// stage that consumes them by construction.
pub open spec fn class_visibility(c: GlobalClass) -> u32 {
    match c {
        GlobalClass::Attribute { .. } => 0xffff_ffffu32,
        GlobalClass::UniformBuffer { visibility, .. } => visibility,
        GlobalClass::StorageBuffer { visibility, .. } => visibility,
        GlobalClass::Texture { visibility, .. } => visibility,
        GlobalClass::Sampler { visibility, .. } => visibility,
    }
}

/// The value type a shader expression sees when reading the global, if any.
pub open spec fn class_value_ty(c: GlobalClass) -> Option<Ty> {
    match c {
        GlobalClass::Attribute { ty, .. } => Some(ty),
        GlobalClass::UniformBuffer { ty, .. } => Some(ty),
        GlobalClass::StorageBuffer { ty, .. } => Some(ty),
        GlobalClass::Texture { .. } => None,
        GlobalClass::Sampler { .. } => None,
    }
}

/// Returns the group of class `c`; zero for attributes.
pub fn class_group_of(c: GlobalClass) -> (r: u32)
    ensures
        r == crate::gen::res_group(c),
{
    match c {
        GlobalClass::Attribute { .. } => 0,
        GlobalClass::UniformBuffer { group, .. } => group,
        GlobalClass::StorageBuffer { group, .. } => group,
        GlobalClass::Texture { group, .. } => group,
        GlobalClass::Sampler { group, .. } => group,
    }
}

/// Returns the binding of class `c`; zero for attributes.
pub fn class_binding_of(c: GlobalClass) -> (r: u32)
    ensures
        r == crate::gen::res_binding(c),
{
    match c {
        GlobalClass::Attribute { .. } => 0,
        GlobalClass::UniformBuffer { binding, .. } => binding,
        GlobalClass::StorageBuffer { binding, .. } => binding,
        GlobalClass::Texture { binding, .. } => binding,
        GlobalClass::Sampler { binding, .. } => binding,
    }
}

/// Returns the visibility mask of class `c`.
pub fn class_visibility_of(c: GlobalClass) -> (r: u32)
    ensures
        r == class_visibility(c),
{
    match c {
        GlobalClass::Attribute { .. } => 0xffff_ffffu32,
        GlobalClass::UniformBuffer { visibility, .. } => visibility,
        GlobalClass::StorageBuffer { visibility, .. } => visibility,
        GlobalClass::Texture { visibility, .. } => visibility,
        GlobalClass::Sampler { visibility, .. } => visibility,
    }
}

/// Returns the value type a shader expression sees when reading a global
/// of class `c`.
pub fn class_value_ty_of(c: GlobalClass) -> (r: Option<Ty>)
    ensures
        r == class_value_ty(c),
{
    match c {
        GlobalClass::Attribute { ty, .. } => Some(ty),
        GlobalClass::UniformBuffer { ty, .. } => Some(ty),
        GlobalClass::StorageBuffer { ty, .. } => Some(ty),
        GlobalClass::Texture { .. } => None,
        GlobalClass::Sampler { .. } => None,
    }
}

/// A global declaration.
pub struct Global {
    pub name: String,
    pub class: GlobalClass,
    pub span: Span,
}

/// Ghost view of a global declaration.
pub struct GlobalView {
    pub name: Seq<char>,
    pub class: GlobalClass,
    pub span: Span,
}

pub open spec fn view_global(g: Global) -> GlobalView {
    GlobalView { name: g.name@, class: g.class, span: g.span }
}

pub open spec fn view_globals(gs: Seq<Global>) -> Seq<GlobalView>
    decreases gs,
{
    if gs.len() == 0 {
        Seq::empty()
    } else {
        seq![view_global(gs[0])] + view_globals(gs.skip(1))
    }
}

// ===== Expressions =====

#[derive(Clone, Copy, PartialEq, Eq, Structural, Debug)]
pub enum BinOp {
    Add,
    Mul,
    Less,
}

/// A fully resolved expression. Locals and globals are referenced by index;
/// the frontends leave no symbolic name behind.
pub enum Expr {
    Literal { value: u32 },
    LocalRef { index: usize },
    GlobalRef { index: usize },
    BuiltinRef { builtin: BuiltinVar },
    Binary { op: BinOp, lhs: Box<Expr>, rhs: Box<Expr> },
    Vec4Ctor { x: Box<Expr>, y: Box<Expr>, z: Box<Expr>, w: Box<Expr> },
}

// ===== Statements =====

/// A statement. `Local` binds local slot `index` of the enclosing function.
pub enum Stmt {
    Local { index: usize, ty: Ty, init: Expr, span: Span },
    AssignLocal { index: usize, value: Expr, span: Span },
    AssignBuiltin { builtin: BuiltinVar, value: Expr, span: Span },
    If { cond: Expr, body: Vec<Stmt>, span: Span },
    Barrier { span: Span },
}

/// Ghost view of a statement; expressions hold no containers and stand as
/// they are.
pub enum StmtView {
    Local { index: usize, ty: Ty, init: Expr, span: Span },
    AssignLocal { index: usize, value: Expr, span: Span },
    AssignBuiltin { builtin: BuiltinVar, value: Expr, span: Span },
    If { cond: Expr, body: Seq<StmtView>, span: Span },
    Barrier { span: Span },
}

pub open spec fn view_stmt(s: Stmt) -> StmtView
    decreases s,
{
    match s {
        Stmt::Local { index, ty, init, span } => StmtView::Local { index, ty, init, span },
        Stmt::AssignLocal { index, value, span } => StmtView::AssignLocal { index, value, span },
        Stmt::AssignBuiltin { builtin, value, span } => StmtView::AssignBuiltin {
            builtin,
            value,
            span,
        },
        Stmt::If { cond, body, span } => StmtView::If {
            cond,
            body: view_stmts(body@),
            span,
        },
        Stmt::Barrier { span } => StmtView::Barrier { span },
    }
}

pub open spec fn view_stmts(ss: Seq<Stmt>) -> Seq<StmtView>
    decreases ss,
{
    if ss.len() == 0 {
        Seq::empty()
    } else {
        seq![view_stmt(ss[0])] + view_stmts(ss.skip(1))
    }
}

// ===== Functions and entry points =====

/// A named local variable slot of a function.
pub struct LocalVar {
    pub name: String,
    pub ty: Ty,
}

pub struct LocalVarView {
    pub name: Seq<char>,
    pub ty: Ty,
}

pub open spec fn view_local(l: LocalVar) -> LocalVarView {
    LocalVarView { name: l.name@, ty: l.ty }
}

pub open spec fn view_locals(ls: Seq<LocalVar>) -> Seq<LocalVarView>
    decreases ls,
{
    if ls.len() == 0 {
        Seq::empty()
    } else {
        seq![view_local(ls[0])] + view_locals(ls.skip(1))
    }
}

/// A function: its local slots in declaration order, and its body.
pub struct Function {
    pub name: String,
    pub locals: Vec<LocalVar>,
    pub body: Vec<Stmt>,
    pub span: Span,
}

pub struct FunctionView {
    pub name: Seq<char>,
    pub locals: Seq<LocalVarView>,
    pub body: Seq<StmtView>,
    pub span: Span,
}

pub open spec fn view_function(f: Function) -> FunctionView {
    FunctionView {
        name: f.name@,
        locals: view_locals(f.locals@),
        body: view_stmts(f.body@),
        span: f.span,
    }
}

pub open spec fn view_functions(fs: Seq<Function>) -> Seq<FunctionView>
    decreases fs,
{
    if fs.len() == 0 {
        Seq::empty()
    } else {
        seq![view_function(fs[0])] + view_functions(fs.skip(1))
    }
}

/// An entry point: a designated function together with its stage.
pub struct EntryPoint {
    pub name: String,
    pub stage: ShaderStage,
    pub function: usize,
}

pub struct EntryPointView {
    pub name: Seq<char>,
    pub stage: ShaderStage,
    pub function: usize,
}

pub open spec fn view_entry(e: EntryPoint) -> EntryPointView {
    EntryPointView { name: e.name@, stage: e.stage, function: e.function }
}

pub open spec fn view_entries(es: Seq<EntryPoint>) -> Seq<EntryPointView>
    decreases es,
{
    if es.len() == 0 {
        Seq::empty()
    } else {
        seq![view_entry(es[0])] + view_entries(es.skip(1))
    }
}

// ===== Modules =====

/// The intermediate representation of one shader translation unit.
pub struct Module {
    pub globals: Vec<Global>,
    pub functions: Vec<Function>,
    pub entry_points: Vec<EntryPoint>,
}

pub struct ModuleView {
    pub globals: Seq<GlobalView>,
    pub functions: Seq<FunctionView>,
    pub entry_points: Seq<EntryPointView>,
}

pub open spec fn view_module(m: Module) -> ModuleView {
    ModuleView {
        globals: view_globals(m.globals@),
        functions: view_functions(m.functions@),
        entry_points: view_entries(m.entry_points@),
    }
}

// ===== View lemmas =====

pub proof fn lemma_view_globals(gs: Seq<Global>)
    ensures
        view_globals(gs).len() == gs.len(),
        forall|i: int| 0 <= i < gs.len() ==> view_globals(gs)[i] == view_global(gs[i]),
    decreases gs,
{
    if gs.len() > 0 {
        lemma_view_globals(gs.skip(1));
    }
}

pub proof fn lemma_view_stmts(ss: Seq<Stmt>)
    ensures
        view_stmts(ss).len() == ss.len(),
        forall|i: int| 0 <= i < ss.len() ==> view_stmts(ss)[i] == view_stmt(ss[i]),
    decreases ss,
{
    if ss.len() > 0 {
        lemma_view_stmts(ss.skip(1));
    }
}

pub proof fn lemma_view_locals(ls: Seq<LocalVar>)
    ensures
        view_locals(ls).len() == ls.len(),
        forall|i: int| 0 <= i < ls.len() ==> view_locals(ls)[i] == view_local(ls[i]),
    decreases ls,
{
    if ls.len() > 0 {
        lemma_view_locals(ls.skip(1));
    }
}

pub proof fn lemma_view_functions(fs: Seq<Function>)
    ensures
        view_functions(fs).len() == fs.len(),
        forall|i: int| 0 <= i < fs.len() ==> view_functions(fs)[i] == view_function(fs[i]),
    decreases fs,
{
    if fs.len() > 0 {
        lemma_view_functions(fs.skip(1));
    }
}

pub proof fn lemma_view_entries(es: Seq<EntryPoint>)
    ensures
        view_entries(es).len() == es.len(),
        forall|i: int| 0 <= i < es.len() ==> view_entries(es)[i] == view_entry(es[i]),
    decreases es,
{
    if es.len() > 0 {
        lemma_view_entries(es.skip(1));
    }
}

pub proof fn lemma_view_stmts_push(ss: Seq<Stmt>, s: Stmt)
    ensures
        view_stmts(ss.push(s)) =~= view_stmts(ss).push(view_stmt(s)),
{
    lemma_view_stmts(ss.push(s));
    lemma_view_stmts(ss);
    assert(ss.push(s)[ss.len() as int] == s);
    assert(forall|i: int| 0 <= i < ss.len() ==> ss.push(s)[i] == ss[i]);
}

pub proof fn lemma_view_locals_push(ls: Seq<LocalVar>, l: LocalVar)
    ensures
        view_locals(ls.push(l)) =~= view_locals(ls).push(view_local(l)),
{
    lemma_view_locals(ls.push(l));
    lemma_view_locals(ls);
    assert(ls.push(l)[ls.len() as int] == l);
    assert(forall|i: int| 0 <= i < ls.len() ==> ls.push(l)[i] == ls[i]);
}

pub proof fn lemma_view_globals_push(gs: Seq<Global>, g: Global)
    ensures
        view_globals(gs.push(g)) =~= view_globals(gs).push(view_global(g)),
{
    lemma_view_globals(gs.push(g));
    lemma_view_globals(gs);
    assert(gs.push(g)[gs.len() as int] == g);
    assert(forall|i: int| 0 <= i < gs.len() ==> gs.push(g)[i] == gs[i]);
}

pub proof fn lemma_view_functions_push(fs: Seq<Function>, f: Function)
    ensures
        view_functions(fs.push(f)) =~= view_functions(fs).push(view_function(f)),
{
    lemma_view_functions(fs.push(f));
    lemma_view_functions(fs);
    assert(fs.push(f)[fs.len() as int] == f);
    assert(forall|i: int| 0 <= i < fs.len() ==> fs.push(f)[i] == fs[i]);
}

pub proof fn lemma_view_entries_push(es: Seq<EntryPoint>, e: EntryPoint)
    ensures
        view_entries(es.push(e)) =~= view_entries(es).push(view_entry(e)),
{
    lemma_view_entries(es.push(e));
    lemma_view_entries(es);
    assert(es.push(e)[es.len() as int] == e);
    assert(forall|i: int| 0 <= i < es.len() ==> es.push(e)[i] == es[i]);
}

// ===== Well-formedness =====

/// Every reference inside `e` resolves to a declared local or global.
pub open spec fn wf_expr(e: Expr, nglobals: int, nlocals: int) -> bool
    decreases e,
{
    match e {
        Expr::Literal { .. } => true,
        Expr::LocalRef { index } => index < nlocals,
        Expr::GlobalRef { index } => index < nglobals,
        Expr::BuiltinRef { .. } => true,
        Expr::Binary { lhs, rhs, .. } => wf_expr(*lhs, nglobals, nlocals) && wf_expr(
            *rhs,
            nglobals,
            nlocals,
        ),
        Expr::Vec4Ctor { x, y, z, w } => wf_expr(*x, nglobals, nlocals) && wf_expr(
            *y,
            nglobals,
            nlocals,
        ) && wf_expr(*z, nglobals, nlocals) && wf_expr(*w, nglobals, nlocals),
    }
}

pub open spec fn wf_stmt(s: StmtView, nglobals: int, locals: Seq<LocalVarView>) -> bool
    decreases s,
{
    match s {
        StmtView::Local { index, ty, init, .. } => index < locals.len() && locals[index as int].ty
            == ty && wf_expr(init, nglobals, locals.len() as int),
        StmtView::AssignLocal { index, value, .. } => index < locals.len() && wf_expr(
            value,
            nglobals,
            locals.len() as int,
        ),
        StmtView::AssignBuiltin { value, .. } => wf_expr(value, nglobals, locals.len() as int),
        StmtView::If { cond, body, .. } => wf_expr(cond, nglobals, locals.len() as int) && wf_stmts(
            body,
            nglobals,
            locals,
        ),
        StmtView::Barrier { .. } => true,
    }
}

pub open spec fn wf_stmts(ss: Seq<StmtView>, nglobals: int, locals: Seq<LocalVarView>) -> bool
    decreases ss,
{
    if ss.len() == 0 {
        true
    } else {
        wf_stmt(ss[0], nglobals, locals) && wf_stmts(ss.skip(1), nglobals, locals)
    }
}

/// Threads the index the next `Local` statement must declare through `s`,
/// or `None` when declarations are out of order: local slot `k` must be
/// declared by the `k`-th declaration statement in body walk order.
pub open spec fn decl_stmt(s: StmtView, next: int) -> Option<int>
    decreases s,
{
    match s {
        StmtView::Local { index, .. } => if index == next && index < usize::MAX {
            Some(next + 1)
        } else {
            None
        },
        StmtView::If { body, .. } => decl_stmts(body, next),
        _ => Some(next),
    }
}

pub open spec fn decl_stmts(ss: Seq<StmtView>, next: int) -> Option<int>
    decreases ss,
{
    if ss.len() == 0 {
        Some(next)
    } else {
        match decl_stmt(ss[0], next) {
            Some(n2) => decl_stmts(ss.skip(1), n2),
            None => None,
        }
    }
}

pub open spec fn wf_function(f: FunctionView, nglobals: int) -> bool {
    wf_stmts(f.body, nglobals, f.locals) && decl_stmts(f.body, 0) == Some(f.locals.len() as int)
}

/// The module invariant: every entry point references exactly one existing
/// function and carries that function's name, entry points come in function
/// order so no function serves two of them, and every reference inside a
/// function resolves to a declaration.
pub open spec fn wf_module(m: ModuleView) -> bool {
    &&& forall|i: int|
        0 <= i < m.functions.len() ==> wf_function(#[trigger] m.functions[i], m.globals.len() as int)
    &&& forall|i: int|
        0 <= i < m.entry_points.len() ==> (#[trigger] m.entry_points[i]).function
            < m.functions.len() && m.entry_points[i].name == m.functions[m.entry_points[i].function as int].name
    &&& forall|i: int, j: int|
        0 <= i < j < m.entry_points.len() ==> (#[trigger] m.entry_points[i]).function < (
        #[trigger] m.entry_points[j]).function
}

} // verus!

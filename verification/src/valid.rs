//! The validator: static checks over a module, each gated by its flag, and
//! the derived per-function analysis it returns. Validation is a pure
//! function of module, flags and capabilities, and flags are strictly
//! additive, which `lemma_flags_monotonic` states.
use vstd::prelude::*;
use crate::ir::{
    BinOp, BuiltinVar, Expr, Function, FunctionView, Global, GlobalClass, GlobalView, LocalVar,
    LocalVarView, Module, ModuleView, ScalarKind, Span, Stmt, StmtView, Ty, builtin_is_uniform,
    builtin_ty, builtin_ty_of, builtin_uniform_of, builtin_writable, builtin_writable_of,
    class_is_resource, class_value_ty, class_visibility, is_numeric_scalar, numeric_scalar,
    stage_bit, stage_mask, ty_uses_f64, lemma_view_functions, lemma_view_globals,
    lemma_view_locals, lemma_view_stmts, view_function, view_functions, view_global, view_globals,
    view_local, view_locals, view_module, view_stmt, view_stmts, wf_module,
};
use crate::caps::{
    CAP_FLOAT64, CAP_MULTISAMPLED_ARRAY_TEXTURES, Capabilities, FLAG_CAPABILITIES, FLAG_TYPES,
    FLAG_UNIFORMITY, FLAG_VISIBILITY, ValidationFlags, lemma_subset_enabled,
};
use crate::err::{ValidationCategory, ValidationError};
use crate::wf::check_wf_module;

verus! {

// ===== Expression typing =====

/// The type an expression synthesises on its own, if any; number literals
/// adapt to their context and synthesise none.
pub open spec fn syn_expr(e: Expr, g: Seq<GlobalView>, l: Seq<LocalVarView>) -> Option<Ty>
    decreases e,
{
    match e {
        Expr::Literal { .. } => None,
        Expr::LocalRef { index } => if index < l.len() {
            Some(l[index as int].ty)
        } else {
            None
        },
        Expr::GlobalRef { index } => if index < g.len() {
            class_value_ty(g[index as int].class)
        } else {
            None
        },
        Expr::BuiltinRef { builtin } => Some(builtin_ty(builtin)),
        Expr::Binary { op, lhs, rhs } => if op == BinOp::Less {
            Some(Ty::Scalar(ScalarKind::Bool))
        } else {
            match syn_expr(*lhs, g, l) {
                Some(t) => Some(t),
                None => syn_expr(*rhs, g, l),
            }
        },
        Expr::Vec4Ctor { .. } => Some(Ty::Vec4),
    }
}

/// The operand type of a comparison: what either side synthesises, with
/// unsigned words for a comparison of two bare literals.
pub open spec fn cmp_operand_ty(lhs: Expr, rhs: Expr, g: Seq<GlobalView>, l: Seq<LocalVarView>) -> Ty {
    match syn_expr(lhs, g, l) {
        Some(t) => t,
        None => match syn_expr(rhs, g, l) {
            Some(t) => t,
            None => Ty::Scalar(ScalarKind::U32),
        },
    }
}

/// Whether `e` checks against the expected type `t`.
pub open spec fn chk_expr(e: Expr, t: Ty, g: Seq<GlobalView>, l: Seq<LocalVarView>) -> bool
    decreases e,
{
    match e {
        Expr::Literal { .. } => is_numeric_scalar(t),
        Expr::LocalRef { index } => index < l.len() && l[index as int].ty == t,
        Expr::GlobalRef { index } => index < g.len() && class_value_ty(g[index as int].class)
            == Some(t),
        Expr::BuiltinRef { builtin } => builtin_ty(builtin) == t,
        Expr::Binary { op, lhs, rhs } => if op == BinOp::Less {
            t == Ty::Scalar(ScalarKind::Bool) && {
                let ot = cmp_operand_ty(*lhs, *rhs, g, l);
                is_numeric_scalar(ot) && chk_expr(*lhs, ot, g, l) && chk_expr(*rhs, ot, g, l)
            }
        } else {
            is_numeric_scalar(t) && chk_expr(*lhs, t, g, l) && chk_expr(*rhs, t, g, l)
        },
        Expr::Vec4Ctor { x, y, z, w } => t == Ty::Vec4 && chk_expr(
            *x,
            Ty::Scalar(ScalarKind::F32),
            g,
            l,
        ) && chk_expr(*y, Ty::Scalar(ScalarKind::F32), g, l) && chk_expr(
            *z,
            Ty::Scalar(ScalarKind::F32),
            g,
            l,
        ) && chk_expr(*w, Ty::Scalar(ScalarKind::F32), g, l),
    }
}

/// The span of the first statement that fails to type-check, if any.
pub open spec fn chk_stmt(s: StmtView, g: Seq<GlobalView>, l: Seq<LocalVarView>) -> Option<Span>
    decreases s,
{
    match s {
        StmtView::Local { ty, init, span, .. } => if chk_expr(init, ty, g, l) {
            None
        } else {
            Some(span)
        },
        StmtView::AssignLocal { index, value, span } => if index < l.len() && chk_expr(
            value,
            l[index as int].ty,
            g,
            l,
        ) {
            None
        } else {
            Some(span)
        },
        StmtView::AssignBuiltin { builtin, value, span } => if builtin_writable(builtin)
            && chk_expr(value, builtin_ty(builtin), g, l) {
            None
        } else {
            Some(span)
        },
        StmtView::If { cond, body, span } => if !chk_expr(cond, Ty::Scalar(ScalarKind::Bool), g, l) {
            Some(span)
        } else {
            chk_stmts(body, g, l)
        },
        StmtView::Barrier { .. } => None,
    }
}

pub open spec fn chk_stmts(ss: Seq<StmtView>, g: Seq<GlobalView>, l: Seq<LocalVarView>) -> Option<
    Span,
>
    decreases ss,
{
    if ss.len() == 0 {
        None
    } else {
        match chk_stmt(ss[0], g, l) {
            Some(sp) => Some(sp),
            None => chk_stmts(ss.skip(1), g, l),
        }
    }
}

/// The span of the first type error in the functions from `k` on.
pub open spec fn chk_functions(f: Seq<FunctionView>, k: int, g: Seq<GlobalView>) -> Option<Span>
    decreases f.len() - k,
{
    if k < 0 || k >= f.len() {
        None
    } else {
        match chk_stmts(f[k].body, g, f[k].locals) {
            Some(sp) => Some(sp),
            None => chk_functions(f, k + 1, g),
        }
    }
}

/// The span of the first expression in the module that fails to type-check.
pub open spec fn spec_check_types(m: ModuleView) -> Option<Span> {
    chk_functions(m.functions, 0, m.globals)
}

/// Returns what `e` synthesises.
pub fn tyc_syn(e: &Expr, g: &Vec<Global>, l: &Vec<LocalVar>) -> (r: Option<Ty>)
    ensures
        r == syn_expr(*e, view_globals(g@), view_locals(l@)),
    decreases *e,
{
    proof {
        lemma_view_globals(g@);
        lemma_view_locals(l@);
    }
    match e {
        Expr::Literal { .. } => None,
        Expr::LocalRef { index } => if *index < l.len() {
            Some(l[*index].ty)
        } else {
            None
        },
        Expr::GlobalRef { index } => if *index < g.len() {
            crate::ir::class_value_ty_of(g[*index].class)
        } else {
            None
        },
        Expr::BuiltinRef { builtin } => Some(builtin_ty_of(*builtin)),
        Expr::Binary { op, lhs, rhs } => if matches!(op, BinOp::Less) {
            Some(Ty::Scalar(ScalarKind::Bool))
        } else {
            match tyc_syn(lhs, g, l) {
                Some(t) => Some(t),
                None => tyc_syn(rhs, g, l),
            }
        },
        Expr::Vec4Ctor { .. } => Some(Ty::Vec4),
    }
}

/// Returns whether `e` checks against `t`.
pub fn tyc_expr(e: &Expr, t: Ty, g: &Vec<Global>, l: &Vec<LocalVar>) -> (r: bool)
    ensures
        r == chk_expr(*e, t, view_globals(g@), view_locals(l@)),
    decreases *e,
{
    proof {
        lemma_view_globals(g@);
        lemma_view_locals(l@);
    }
    match e {
        Expr::Literal { .. } => numeric_scalar(t),
        Expr::LocalRef { index } => *index < l.len() && crate::wf::tys_eq(l[*index].ty, t),
        Expr::GlobalRef { index } => {
            if *index >= g.len() {
                return false;
            }
            match crate::ir::class_value_ty_of(g[*index].class) {
                Some(vt) => crate::wf::tys_eq(vt, t),
                None => false,
            }
        },
        Expr::BuiltinRef { builtin } => crate::wf::tys_eq(builtin_ty_of(*builtin), t),
        Expr::Binary { op, lhs, rhs } => if matches!(op, BinOp::Less) {
            if !crate::wf::tys_eq(t, Ty::Scalar(ScalarKind::Bool)) {
                return false;
            }
            let ot = match tyc_syn(lhs, g, l) {
                Some(t1) => t1,
                None => match tyc_syn(rhs, g, l) {
                    Some(t2) => t2,
                    None => Ty::Scalar(ScalarKind::U32),
                },
            };
            numeric_scalar(ot) && tyc_expr(lhs, ot, g, l) && tyc_expr(rhs, ot, g, l)
        } else {
            numeric_scalar(t) && tyc_expr(lhs, t, g, l) && tyc_expr(rhs, t, g, l)
        },
        Expr::Vec4Ctor { x, y, z, w } => crate::wf::tys_eq(t, Ty::Vec4) && tyc_expr(
            x,
            Ty::Scalar(ScalarKind::F32),
            g,
            l,
        ) && tyc_expr(y, Ty::Scalar(ScalarKind::F32), g, l) && tyc_expr(
            z,
            Ty::Scalar(ScalarKind::F32),
            g,
            l,
        ) && tyc_expr(w, Ty::Scalar(ScalarKind::F32), g, l),
    }
}

/// Returns the span of the first type error in `s`.
pub fn tyc_stmt(s: &Stmt, g: &Vec<Global>, l: &Vec<LocalVar>) -> (r: Option<Span>)
    ensures
        r == chk_stmt(view_stmt(*s), view_globals(g@), view_locals(l@)),
    decreases *s, 0int,
{
    proof {
        lemma_view_locals(l@);
    }
    match s {
        Stmt::Local { ty, init, span, .. } => if tyc_expr(init, *ty, g, l) {
            None
        } else {
            Some(*span)
        },
        Stmt::AssignLocal { index, value, span } => {
            if *index < l.len() && tyc_expr(value, l[*index].ty, g, l) {
                None
            } else {
                Some(*span)
            }
        },
        Stmt::AssignBuiltin { builtin, value, span } => {
            if builtin_writable_of(*builtin) && tyc_expr(value, builtin_ty_of(*builtin), g, l) {
                None
            } else {
                Some(*span)
            }
        },
        Stmt::If { cond, body, span } => {
            proof {
                assert(view_stmts(body@).skip(0) =~= view_stmts(body@));
            }
            if !tyc_expr(cond, Ty::Scalar(ScalarKind::Bool), g, l) {
                Some(*span)
            } else {
                tyc_stmts(body, 0, g, l)
            }
        },
        Stmt::Barrier { .. } => None,
    }
}

/// Returns the span of the first type error in the statements from `k` on.
pub fn tyc_stmts(ss: &Vec<Stmt>, k: usize, g: &Vec<Global>, l: &Vec<LocalVar>) -> (r: Option<Span>)
    requires
        k <= ss@.len(),
    ensures
        r == chk_stmts(view_stmts(ss@).skip(k as int), view_globals(g@), view_locals(l@)),
    decreases ss@, ss@.len() - k,
{
    proof {
        lemma_view_stmts(ss@);
    }
    if k >= ss.len() {
        proof {
            assert(view_stmts(ss@).skip(k as int) =~= Seq::<StmtView>::empty());
        }
        return None;
    }
    let ghost v = view_stmts(ss@);
    proof {
        assert(v.skip(k as int)[0] == v[k as int]);
        assert(v.skip(k as int).skip(1) =~= v.skip(k as int + 1));
    }
    match tyc_stmt(&ss[k], g, l) {
        Some(sp) => Some(sp),
        None => tyc_stmts(ss, k + 1, g, l),
    }
}

/// Returns the span of the first type error in the functions from `k` on.
pub fn tyc_functions(fs: &Vec<Function>, k: usize, g: &Vec<Global>) -> (r: Option<Span>)
    requires
        k <= fs@.len(),
    ensures
        r == chk_functions(view_functions(fs@), k as int, view_globals(g@)),
    decreases fs@.len() - k,
{
    proof {
        lemma_view_functions(fs@);
    }
    if k >= fs.len() {
        return None;
    }
    proof {
        assert(view_stmts(fs@[k as int].body@).skip(0) =~= view_stmts(fs@[k as int].body@));
    }
    match tyc_stmts(&fs[k].body, 0, g, &fs[k].locals) {
        Some(sp) => Some(sp),
        None => tyc_functions(fs, k + 1, g),
    }
}

// ===== Capability checks =====

/// The capability bits the declaration class relies on.
pub open spec fn class_caps(c: GlobalClass) -> u32 {
    match c {
        GlobalClass::Attribute { ty, .. } => if ty_uses_f64(ty) {
            CAP_FLOAT64
        } else {
            0
        },
        GlobalClass::UniformBuffer { ty, .. } => if ty_uses_f64(ty) {
            CAP_FLOAT64
        } else {
            0
        },
        GlobalClass::StorageBuffer { ty, .. } => if ty_uses_f64(ty) {
            CAP_FLOAT64
        } else {
            0
        },
        GlobalClass::Texture { multisampled_array, .. } => if multisampled_array {
            CAP_MULTISAMPLED_ARRAY_TEXTURES
        } else {
            0
        },
        GlobalClass::Sampler { .. } => 0,
    }
}

/// Returns the capability bits the class relies on.
pub fn class_caps_of(c: GlobalClass) -> (r: u32)
    ensures
        r == class_caps(c),
{
    match c {
        GlobalClass::Attribute { ty, .. } => if matches!(ty, Ty::Scalar(ScalarKind::F64)) {
            CAP_FLOAT64
        } else {
            0
        },
        GlobalClass::UniformBuffer { ty, .. } => if matches!(ty, Ty::Scalar(ScalarKind::F64)) {
            CAP_FLOAT64
        } else {
            0
        },
        GlobalClass::StorageBuffer { ty, .. } => if matches!(ty, Ty::Scalar(ScalarKind::F64)) {
            CAP_FLOAT64
        } else {
            0
        },
        GlobalClass::Texture { multisampled_array, .. } => if multisampled_array {
            CAP_MULTISAMPLED_ARRAY_TEXTURES
        } else {
            0
        },
        GlobalClass::Sampler { .. } => 0,
    }
}

/// The first global from `k` on whose class needs an absent capability.
pub open spec fn caps_globals(g: Seq<GlobalView>, k: int, caps: Capabilities) -> Option<(Span, u32)>
    decreases g.len() - k,
{
    if k < 0 || k >= g.len() {
        None
    } else if class_caps(g[k].class) & !caps.bits != 0 {
        Some((g[k].span, class_caps(g[k].class) & !caps.bits))
    } else {
        caps_globals(g, k + 1, caps)
    }
}

/// The first local from `k` on that needs double precision without the
/// capability.
pub open spec fn caps_locals(l: Seq<LocalVarView>, k: int, caps: Capabilities) -> Option<u32>
    decreases l.len() - k,
{
    if k < 0 || k >= l.len() {
        None
    } else if ty_uses_f64(l[k].ty) && CAP_FLOAT64 & !caps.bits != 0 {
        Some(CAP_FLOAT64 & !caps.bits)
    } else {
        caps_locals(l, k + 1, caps)
    }
}

/// The first function from `k` on with a local needing an absent
/// capability; the error points at the function.
pub open spec fn caps_functions(f: Seq<FunctionView>, k: int, caps: Capabilities) -> Option<
    (Span, u32),
>
    decreases f.len() - k,
{
    if k < 0 || k >= f.len() {
        None
    } else {
        match caps_locals(f[k].locals, 0, caps) {
            Some(missing) => Some((f[k].span, missing)),
            None => caps_functions(f, k + 1, caps),
        }
    }
}

/// The first declaration in the module that relies on a capability absent
/// from `caps`, with the missing bits.
pub open spec fn spec_check_caps(m: ModuleView, caps: Capabilities) -> Option<(Span, u32)> {
    match caps_globals(m.globals, 0, caps) {
        Some(p) => Some(p),
        None => caps_functions(m.functions, 0, caps),
    }
}

/// Returns the first global from `k` on needing an absent capability.
pub fn capc_globals(g: &Vec<Global>, k: usize, caps: &Capabilities) -> (r: Option<(Span, u32)>)
    requires
        k <= g@.len(),
    ensures
        match r {
            Some(p) => caps_globals(view_globals(g@), k as int, *caps) == Some(p),
            None => caps_globals(view_globals(g@), k as int, *caps) is None,
        },
    decreases g@.len() - k,
{
    proof {
        lemma_view_globals(g@);
    }
    if k >= g.len() {
        return None;
    }
    let need = class_caps_of(g[k].class);
    let missing = need & !caps.bits;
    if missing != 0 {
        Some((g[k].span, missing))
    } else {
        capc_globals(g, k + 1, caps)
    }
}

/// Returns the first local from `k` on needing an absent capability.
pub fn capc_locals(l: &Vec<LocalVar>, k: usize, caps: &Capabilities) -> (r: Option<u32>)
    requires
        k <= l@.len(),
    ensures
        r == caps_locals(view_locals(l@), k as int, *caps),
    decreases l@.len() - k,
{
    proof {
        lemma_view_locals(l@);
    }
    if k >= l.len() {
        return None;
    }
    let f64_used = matches!(l[k].ty, Ty::Scalar(ScalarKind::F64));
    let missing = CAP_FLOAT64 & !caps.bits;
    if f64_used && missing != 0 {
        Some(missing)
    } else {
        capc_locals(l, k + 1, caps)
    }
}

/// Returns the first function from `k` on needing an absent capability.
pub fn capc_functions(fs: &Vec<Function>, k: usize, caps: &Capabilities) -> (r: Option<(Span, u32)>)
    requires
        k <= fs@.len(),
    ensures
        match r {
            Some(p) => caps_functions(view_functions(fs@), k as int, *caps) == Some(p),
            None => caps_functions(view_functions(fs@), k as int, *caps) is None,
        },
    decreases fs@.len() - k,
{
    proof {
        lemma_view_functions(fs@);
    }
    if k >= fs.len() {
        return None;
    }
    match capc_locals(&fs[k].locals, 0, caps) {
        Some(missing) => Some((fs[k].span, missing)),
        None => capc_functions(fs, k + 1, caps),
    }
}


// ===== Global usage =====

/// Marks every global `e` reads in `used`.
pub open spec fn mark_expr(e: Expr, used: Seq<bool>) -> Seq<bool>
    decreases e,
{
    match e {
        Expr::GlobalRef { index } => if index < used.len() {
            used.update(index as int, true)
        } else {
            used
        },
        Expr::Binary { lhs, rhs, .. } => mark_expr(*rhs, mark_expr(*lhs, used)),
        Expr::Vec4Ctor { x, y, z, w } => mark_expr(
            *w,
            mark_expr(*z, mark_expr(*y, mark_expr(*x, used))),
        ),
        _ => used,
    }
}

pub open spec fn mark_stmt(s: StmtView, used: Seq<bool>) -> Seq<bool>
    decreases s,
{
    match s {
        StmtView::Local { init, .. } => mark_expr(init, used),
        StmtView::AssignLocal { value, .. } => mark_expr(value, used),
        StmtView::AssignBuiltin { value, .. } => mark_expr(value, used),
        StmtView::If { cond, body, .. } => mark_stmts(body, mark_expr(cond, used)),
        StmtView::Barrier { .. } => used,
    }
}

pub open spec fn mark_stmts(ss: Seq<StmtView>, used: Seq<bool>) -> Seq<bool>
    decreases ss,
{
    if ss.len() == 0 {
        used
    } else {
        mark_stmts(ss.skip(1), mark_stmt(ss[0], used))
    }
}

/// Which of the `n` globals the function reads.
pub open spec fn fn_used_globals(f: FunctionView, n: int) -> Seq<bool> {
    mark_stmts(f.body, Seq::new(n as nat, |k: int| false))
}

/// Marks every global `e` reads.
pub fn markc_expr(e: &Expr, used: Vec<bool>) -> (r: Vec<bool>)
    ensures
        r@ == mark_expr(*e, used@),
    decreases *e,
{
    match e {
        Expr::GlobalRef { index } => {
            if *index < used.len() {
                let mut u2 = used;
                u2.set(*index, true);
                u2
            } else {
                used
            }
        },
        Expr::Binary { lhs, rhs, .. } => {
            let u1 = markc_expr(lhs, used);
            markc_expr(rhs, u1)
        },
        Expr::Vec4Ctor { x, y, z, w } => {
            let u1 = markc_expr(x, used);
            let u2 = markc_expr(y, u1);
            let u3 = markc_expr(z, u2);
            markc_expr(w, u3)
        },
        _ => used,
    }
}

pub fn markc_stmt(s: &Stmt, used: Vec<bool>) -> (r: Vec<bool>)
    ensures
        r@ == mark_stmt(view_stmt(*s), used@),
    decreases *s, 0int,
{
    match s {
        Stmt::Local { init, .. } => markc_expr(init, used),
        Stmt::AssignLocal { value, .. } => markc_expr(value, used),
        Stmt::AssignBuiltin { value, .. } => markc_expr(value, used),
        Stmt::If { cond, body, .. } => {
            proof {
                assert(view_stmts(body@).skip(0) =~= view_stmts(body@));
            }
            let u1 = markc_expr(cond, used);
            markc_stmts(body, 0, u1)
        },
        Stmt::Barrier { .. } => used,
    }
}

pub fn markc_stmts(ss: &Vec<Stmt>, k: usize, used: Vec<bool>) -> (r: Vec<bool>)
    requires
        k <= ss@.len(),
    ensures
        r@ == mark_stmts(view_stmts(ss@).skip(k as int), used@),
    decreases ss@, ss@.len() - k,
{
    proof {
        lemma_view_stmts(ss@);
    }
    if k >= ss.len() {
        proof {
            assert(view_stmts(ss@).skip(k as int) =~= Seq::<StmtView>::empty());
        }
        return used;
    }
    let ghost v = view_stmts(ss@);
    proof {
        assert(v.skip(k as int)[0] == v[k as int]);
        assert(v.skip(k as int).skip(1) =~= v.skip(k as int + 1));
    }
    let u1 = markc_stmt(&ss[k], used);
    markc_stmts(ss, k + 1, u1)
}

/// Returns which of the `n` globals the function reads.
pub fn fn_used_globals_of(f: &Function, n: usize) -> (r: Vec<bool>)
    ensures
        r@ == fn_used_globals(view_function(*f), n as int),
{
    let mut init: Vec<bool> = Vec::new();
    let mut k: usize = 0;
    while k < n
        invariant
            k <= n,
            init@.len() == k,
            forall|q: int| 0 <= q < k ==> !(#[trigger] init@[q]),
        decreases n - k,
    {
        init.push(false);
        k = k + 1;
    }
    proof {
        assert(init@ =~= Seq::new(n as nat, |q: int| false));
        assert(view_stmts(f.body@).skip(0) =~= view_stmts(f.body@));
    }
    markc_stmts(&f.body, 0, init)
}

// ===== Visibility =====

/// The first used resource from `k` on that is not visible to the stage
/// bit `sbit`.
pub open spec fn vis_globals(g: Seq<GlobalView>, used: Seq<bool>, sbit: u32, k: int) -> Option<Span>
    decreases g.len() - k,
{
    if k < 0 || k >= g.len() {
        None
    } else if k < used.len() && used[k] && class_is_resource(g[k].class) && class_visibility(
        g[k].class,
    ) & sbit == 0 {
        Some(g[k].span)
    } else {
        vis_globals(g, used, sbit, k + 1)
    }
}

/// The first entry point from `k` on whose function reads a resource the
/// entry's stage may not see.
pub open spec fn vis_entries(m: ModuleView, k: int) -> Option<Span>
    decreases m.entry_points.len() - k,
{
    if k < 0 || k >= m.entry_points.len() {
        None
    } else {
        let ep = m.entry_points[k];
        if ep.function < m.functions.len() {
            match vis_globals(
                m.globals,
                fn_used_globals(m.functions[ep.function as int], m.globals.len() as int),
                stage_bit(ep.stage),
                0,
            ) {
                Some(sp) => Some(sp),
                None => vis_entries(m, k + 1),
            }
        } else {
            vis_entries(m, k + 1)
        }
    }
}

/// The first resource access that leaves the resource's visibility mask.
pub open spec fn spec_check_vis(m: ModuleView) -> Option<Span> {
    vis_entries(m, 0)
}

/// Returns the first used resource from `k` on invisible to `sbit`.
pub fn visc_globals(g: &Vec<Global>, used: &Vec<bool>, sbit: u32, k: usize) -> (r: Option<Span>)
    requires
        k <= g@.len(),
    ensures
        r == vis_globals(view_globals(g@), used@, sbit, k as int),
    decreases g@.len() - k,
{
    proof {
        lemma_view_globals(g@);
    }
    if k >= g.len() {
        return None;
    }
    if k < used.len() && used[k] && !matches!(g[k].class, GlobalClass::Attribute { .. }) {
        let vis = crate::ir::class_visibility_of(g[k].class);
        if vis & sbit == 0 {
            return Some(g[k].span);
        }
    }
    visc_globals(g, used, sbit, k + 1)
}

/// Returns the first stage-visibility violation among entry points from
/// `k` on.
pub fn visc_entries(m: &Module, k: usize) -> (r: Option<Span>)
    requires
        k <= m.entry_points@.len(),
    ensures
        r == vis_entries(view_module(*m), k as int),
    decreases m.entry_points@.len() - k,
{
    proof {
        lemma_view_globals(m.globals@);
        lemma_view_functions(m.functions@);
        crate::ir::lemma_view_entries(m.entry_points@);
    }
    if k >= m.entry_points.len() {
        return None;
    }
    let fidx = m.entry_points[k].function;
    if fidx < m.functions.len() {
        let used = fn_used_globals_of(&m.functions[fidx], m.globals.len());
        match visc_globals(&m.globals, &used, stage_mask(m.entry_points[k].stage), 0) {
            Some(sp) => Some(sp),
            None => visc_entries(m, k + 1),
        }
    } else {
        visc_entries(m, k + 1)
    }
}

// ===== Control-flow uniformity =====

/// Whether `e` reads the same value for every invocation of a
/// synchronization group, given which locals do.
pub open spec fn uni_expr(e: Expr, u: Seq<bool>, g: Seq<GlobalView>) -> bool
    decreases e,
{
    match e {
        Expr::Literal { .. } => true,
        Expr::LocalRef { index } => index < u.len() && u[index as int],
        Expr::GlobalRef { index } => index < g.len() && class_is_resource(g[index as int].class),
        Expr::BuiltinRef { builtin } => builtin_is_uniform(builtin),
        Expr::Binary { lhs, rhs, .. } => uni_expr(*lhs, u, g) && uni_expr(*rhs, u, g),
        Expr::Vec4Ctor { x, y, z, w } => uni_expr(*x, u, g) && uni_expr(*y, u, g) && uni_expr(
            *z,
            u,
            g,
        ) && uni_expr(*w, u, g),
    }
}

/// Walks a statement: updates which locals hold uniform values and reports
/// the first barrier reached under divergent control flow. `ctx` is true
/// under a condition whose predicate may differ between invocations.
pub open spec fn walk_stmt(s: StmtView, u: Seq<bool>, ctx: bool, g: Seq<GlobalView>) -> (
    Seq<bool>,
    Option<Span>,
)
    decreases s,
{
    match s {
        StmtView::Local { index, init, .. } => (
            if index < u.len() {
                u.update(index as int, uni_expr(init, u, g) && !ctx)
            } else {
                u
            },
            None,
        ),
        StmtView::AssignLocal { index, value, .. } => (
            if index < u.len() {
                u.update(index as int, uni_expr(value, u, g) && !ctx)
            } else {
                u
            },
            None,
        ),
        StmtView::AssignBuiltin { .. } => (u, None),
        StmtView::If { cond, body, .. } => walk_stmts(body, u, ctx || !uni_expr(cond, u, g), g),
        StmtView::Barrier { span } => (
            u,
            if ctx {
                Some(span)
            } else {
                None
            },
        ),
    }
}

pub open spec fn walk_stmts(ss: Seq<StmtView>, u: Seq<bool>, ctx: bool, g: Seq<GlobalView>) -> (
    Seq<bool>,
    Option<Span>,
)
    decreases ss,
{
    if ss.len() == 0 {
        (u, None)
    } else {
        let step = walk_stmt(ss[0], u, ctx, g);
        if step.1 is Some {
            step
        } else {
            walk_stmts(ss.skip(1), step.0, ctx, g)
        }
    }
}

/// The uniformity walk of a whole function: locals start non-uniform until
/// declared, control flow starts uniform.
pub open spec fn fn_uniformity(f: FunctionView, g: Seq<GlobalView>) -> (Seq<bool>, Option<Span>) {
    walk_stmts(f.body, Seq::new(f.locals.len(), |k: int| false), false, g)
}

/// The first function from `k` on with a barrier under divergent control
/// flow.
pub open spec fn uni_functions(fs: Seq<FunctionView>, k: int, g: Seq<GlobalView>) -> Option<Span>
    decreases fs.len() - k,
{
    if k < 0 || k >= fs.len() {
        None
    } else {
        match fn_uniformity(fs[k], g).1 {
            Some(sp) => Some(sp),
            None => uni_functions(fs, k + 1, g),
        }
    }
}

/// The first barrier in the module under divergent control flow.
pub open spec fn spec_check_uni(m: ModuleView) -> Option<Span> {
    uni_functions(m.functions, 0, m.globals)
}

/// Returns whether `e` reads uniformly.
pub fn unic_expr(e: &Expr, u: &Vec<bool>, g: &Vec<Global>) -> (r: bool)
    ensures
        r == uni_expr(*e, u@, view_globals(g@)),
    decreases *e,
{
    proof {
        lemma_view_globals(g@);
    }
    match e {
        Expr::Literal { .. } => true,
        Expr::LocalRef { index } => *index < u.len() && u[*index],
        Expr::GlobalRef { index } => *index < g.len() && !matches!(
            g[*index].class,
            GlobalClass::Attribute { .. },
        ),
        Expr::BuiltinRef { builtin } => builtin_uniform_of(*builtin),
        Expr::Binary { lhs, rhs, .. } => unic_expr(lhs, u, g) && unic_expr(rhs, u, g),
        Expr::Vec4Ctor { x, y, z, w } => unic_expr(x, u, g) && unic_expr(y, u, g) && unic_expr(
            z,
            u,
            g,
        ) && unic_expr(w, u, g),
    }
}

/// Walks one statement of the uniformity analysis.
pub fn walkc_stmt(s: &Stmt, u: Vec<bool>, ctx: bool, g: &Vec<Global>) -> (r: (
    Vec<bool>,
    Option<Span>,
))
    ensures
        (r.0@, r.1) == walk_stmt(view_stmt(*s), u@, ctx, view_globals(g@)),
    decreases *s, 0int,
{
    match s {
        Stmt::Local { index, init, .. } => {
            let uni = unic_expr(init, &u, g) && !ctx;
            if *index < u.len() {
                let mut u2 = u;
                u2.set(*index, uni);
                (u2, None)
            } else {
                (u, None)
            }
        },
        Stmt::AssignLocal { index, value, .. } => {
            let uni = unic_expr(value, &u, g) && !ctx;
            if *index < u.len() {
                let mut u2 = u;
                u2.set(*index, uni);
                (u2, None)
            } else {
                (u, None)
            }
        },
        Stmt::AssignBuiltin { .. } => (u, None),
        Stmt::If { cond, body, .. } => {
            proof {
                assert(view_stmts(body@).skip(0) =~= view_stmts(body@));
            }
            let c_uni = unic_expr(cond, &u, g);
            walkc_stmts(body, 0, u, ctx || !c_uni, g)
        },
        Stmt::Barrier { span } => {
            if ctx {
                (u, Some(*span))
            } else {
                (u, None)
            }
        },
    }
}

/// Walks the statements from `k` on.
pub fn walkc_stmts(ss: &Vec<Stmt>, k: usize, u: Vec<bool>, ctx: bool, g: &Vec<Global>) -> (r: (
    Vec<bool>,
    Option<Span>,
))
    requires
        k <= ss@.len(),
    ensures
        (r.0@, r.1) == walk_stmts(view_stmts(ss@).skip(k as int), u@, ctx, view_globals(g@)),
    decreases ss@, ss@.len() - k,
{
    proof {
        lemma_view_stmts(ss@);
    }
    if k >= ss.len() {
        proof {
            assert(view_stmts(ss@).skip(k as int) =~= Seq::<StmtView>::empty());
        }
        return (u, None);
    }
    let ghost v = view_stmts(ss@);
    proof {
        assert(v.skip(k as int)[0] == v[k as int]);
        assert(v.skip(k as int).skip(1) =~= v.skip(k as int + 1));
    }
    let (u1, err) = walkc_stmt(&ss[k], u, ctx, g);
    match err {
        Some(sp) => (u1, Some(sp)),
        None => walkc_stmts(ss, k + 1, u1, ctx, g),
    }
}

/// Runs the uniformity walk of a whole function.
pub fn fn_uniformity_of(f: &Function, g: &Vec<Global>) -> (r: (Vec<bool>, Option<Span>))
    ensures
        (r.0@, r.1) == fn_uniformity(view_function(*f), view_globals(g@)),
{
    let n = f.locals.len();
    let mut init: Vec<bool> = Vec::new();
    let mut k: usize = 0;
    while k < n
        invariant
            k <= n,
            init@.len() == k,
            forall|q: int| 0 <= q < k ==> !(#[trigger] init@[q]),
        decreases n - k,
    {
        init.push(false);
        k = k + 1;
    }
    proof {
        crate::ir::lemma_view_locals(f.locals@);
        assert(init@ =~= Seq::new(view_function(*f).locals.len(), |q: int| false));
        assert(view_stmts(f.body@).skip(0) =~= view_stmts(f.body@));
    }
    walkc_stmts(&f.body, 0, init, false, g)
}

/// Returns the first barrier under divergent control flow among the
/// functions from `k` on.
pub fn unic_functions(fs: &Vec<Function>, k: usize, g: &Vec<Global>) -> (r: Option<Span>)
    requires
        k <= fs@.len(),
    ensures
        r == uni_functions(view_functions(fs@), k as int, view_globals(g@)),
    decreases fs@.len() - k,
{
    proof {
        lemma_view_functions(fs@);
    }
    if k >= fs.len() {
        return None;
    }
    let (_u, err) = fn_uniformity_of(&fs[k], g);
    match err {
        Some(sp) => Some(sp),
        None => unic_functions(fs, k + 1, g),
    }
}

// ===== The analysis the validator returns =====

/// Derived, read-only facts about one function: which globals it reads,
/// and which of its locals hold invocation-uniform values at the end of
/// the uniformity walk.
pub struct FunctionInfo {
    pub globals_used: Vec<bool>,
    pub locals_uniform: Vec<bool>,
}

pub struct FunctionInfoView {
    pub globals_used: Seq<bool>,
    pub locals_uniform: Seq<bool>,
}

pub open spec fn view_fn_info(fi: FunctionInfo) -> FunctionInfoView {
    FunctionInfoView { globals_used: fi.globals_used@, locals_uniform: fi.locals_uniform@ }
}

/// Derived, read-only analysis of a validated module, one record per
/// function, in function order.
pub struct ModuleInfo {
    pub functions: Vec<FunctionInfo>,
}

pub struct ModuleInfoView {
    pub functions: Seq<FunctionInfoView>,
}

pub open spec fn view_module_info(mi: ModuleInfo) -> ModuleInfoView {
    ModuleInfoView { functions: view_fn_infos(mi.functions@) }
}

pub open spec fn view_fn_infos(fis: Seq<FunctionInfo>) -> Seq<FunctionInfoView>
    decreases fis,
{
    if fis.len() == 0 {
        Seq::empty()
    } else {
        seq![view_fn_info(fis[0])] + view_fn_infos(fis.skip(1))
    }
}

pub proof fn lemma_view_fn_infos(fis: Seq<FunctionInfo>)
    ensures
        view_fn_infos(fis).len() == fis.len(),
        forall|i: int| 0 <= i < fis.len() ==> view_fn_infos(fis)[i] == view_fn_info(fis[i]),
    decreases fis,
{
    if fis.len() > 0 {
        lemma_view_fn_infos(fis.skip(1));
    }
}

/// The analysis record of one function.
pub open spec fn spec_fn_info(f: FunctionView, g: Seq<GlobalView>, n: int) -> FunctionInfoView {
    FunctionInfoView {
        globals_used: fn_used_globals(f, n),
        locals_uniform: fn_uniformity(f, g).0,
    }
}

/// The analysis records of the whole module, in function order.
pub open spec fn spec_module_info(m: ModuleView) -> ModuleInfoView {
    ModuleInfoView {
        functions: Seq::new(
            m.functions.len(),
            |k: int| spec_fn_info(m.functions[k], m.globals, m.globals.len() as int),
        ),
    }
}

/// Computes the analysis records of the whole module.
pub fn module_info_of(m: &Module) -> (r: ModuleInfo)
    ensures
        view_module_info(r) == spec_module_info(view_module(*m)),
{
    let ghost mv = view_module(*m);
    proof {
        lemma_view_functions(m.functions@);
        lemma_view_globals(m.globals@);
    }
    let mut fis: Vec<FunctionInfo> = Vec::new();
    let mut k: usize = 0;
    while k < m.functions.len()
        invariant
            k <= m.functions@.len(),
            mv == view_module(*m),
            mv.functions.len() == m.functions@.len(),
            mv.globals.len() == m.globals@.len(),
            forall|q: int|
                0 <= q < m.functions@.len() ==> mv.functions[q] == view_function(m.functions@[q]),
            fis@.len() == k,
            forall|q: int|
                0 <= q < k ==> view_fn_info(#[trigger] fis@[q]) == spec_fn_info(
                    mv.functions[q],
                    mv.globals,
                    mv.globals.len() as int,
                ),
        decreases m.functions@.len() - k,
    {
        let used = fn_used_globals_of(&m.functions[k], m.globals.len());
        let (uni, _err) = fn_uniformity_of(&m.functions[k], &m.globals);
        let fi = FunctionInfo { globals_used: used, locals_uniform: uni };
        proof {
            lemma_view_fn_infos(fis@.push(fi));
            lemma_view_fn_infos(fis@);
        }
        fis.push(fi);
        k = k + 1;
    }
    let r = ModuleInfo { functions: fis };
    proof {
        lemma_view_fn_infos(r.functions@);
        assert(view_module_info(r).functions =~= spec_module_info(mv).functions);
        assert(view_module_info(r) == spec_module_info(mv));
    }
    r
}

// ===== Validation =====

/// The outcome of validating `m` under `flags` and `caps`: the analysis,
/// or the first failed check in the fixed order well-formedness, types,
/// capabilities, visibility, uniformity. Each check beyond the module
/// invariant runs only when its flag is set.
pub open spec fn spec_validate(
    m: ModuleView,
    flags: ValidationFlags,
    caps: Capabilities,
) -> Result<ModuleInfoView, ValidationError> {
    if !wf_module(m) {
        Err(
            ValidationError {
                span: crate::ir::no_span(),
                category: ValidationCategory::Other,
                missing_caps: 0,
            },
        )
    } else if flags.spec_enabled(FLAG_TYPES) && spec_check_types(m) is Some {
        Err(
            ValidationError {
                span: spec_check_types(m)->Some_0,
                category: ValidationCategory::TypeMismatch,
                missing_caps: 0,
            },
        )
    } else if flags.spec_enabled(FLAG_CAPABILITIES) && spec_check_caps(m, caps) is Some {
        Err(
            ValidationError {
                span: spec_check_caps(m, caps)->Some_0.0,
                category: ValidationCategory::CapabilityMissing,
                missing_caps: spec_check_caps(m, caps)->Some_0.1,
            },
        )
    } else if flags.spec_enabled(FLAG_VISIBILITY) && spec_check_vis(m) is Some {
        Err(
            ValidationError {
                span: spec_check_vis(m)->Some_0,
                category: ValidationCategory::VisibilityViolation,
                missing_caps: 0,
            },
        )
    } else if flags.spec_enabled(FLAG_UNIFORMITY) && spec_check_uni(m) is Some {
        Err(
            ValidationError {
                span: spec_check_uni(m)->Some_0,
                category: ValidationCategory::NonUniformControlFlow,
                missing_caps: 0,
            },
        )
    } else {
        Ok(spec_module_info(m))
    }
}

/// Whether an executable validation outcome carries the ghost one.
pub open spec fn info_matches(
    r: Result<ModuleInfo, ValidationError>,
    s: Result<ModuleInfoView, ValidationError>,
) -> bool {
    match (r, s) {
        (Ok(mi), Ok(sv)) => view_module_info(mi) == sv,
        (Err(a), Err(b)) => a == b,
        _ => false,
    }
}

/// Statically checks `m` against the capability profile and the enabled
/// check categories, returning its analysis or the first located failure.
pub fn validate(m: &Module, flags: &ValidationFlags, caps: &Capabilities) -> (r: Result<
    ModuleInfo,
    ValidationError,
>)
    ensures
        info_matches(r, spec_validate(view_module(*m), *flags, *caps)),
{
    if !check_wf_module(m) {
        return Err(
            ValidationError {
                span: Span { line: 0, col: 0, offset: 0 },
                category: ValidationCategory::Other,
                missing_caps: 0,
            },
        );
    }
    if flags.enabled(FLAG_TYPES) {
        if let Some(sp) = tyc_functions(&m.functions, 0, &m.globals) {
            return Err(
                ValidationError {
                    span: sp,
                    category: ValidationCategory::TypeMismatch,
                    missing_caps: 0,
                },
            );
        }
    }
    if flags.enabled(FLAG_CAPABILITIES) {
        let first = match capc_globals(&m.globals, 0, caps) {
            Some(p) => Some(p),
            None => capc_functions(&m.functions, 0, caps),
        };
        if let Some((sp, missing)) = first {
            return Err(
                ValidationError {
                    span: sp,
                    category: ValidationCategory::CapabilityMissing,
                    missing_caps: missing,
                },
            );
        }
    }
    if flags.enabled(FLAG_VISIBILITY) {
        if let Some(sp) = visc_entries(m, 0) {
            return Err(
                ValidationError {
                    span: sp,
                    category: ValidationCategory::VisibilityViolation,
                    missing_caps: 0,
                },
            );
        }
    }
    if flags.enabled(FLAG_UNIFORMITY) {
        if let Some(sp) = unic_functions(&m.functions, 0, &m.globals) {
            return Err(
                ValidationError {
                    span: sp,
                    category: ValidationCategory::NonUniformControlFlow,
                    missing_caps: 0,
                },
            );
        }
    }
    Ok(module_info_of(m))
}

/// Enabling more checks never accepts more modules: if validation succeeds
/// under a flag set, it succeeds with the same analysis under any subset
/// of it.
pub proof fn lemma_flags_monotonic(
    m: ModuleView,
    f1: ValidationFlags,
    f2: ValidationFlags,
    caps: Capabilities,
)
    requires
        f1.spec_subset_of(f2),
        spec_validate(m, f2, caps) is Ok,
    ensures
        spec_validate(m, f1, caps) is Ok,
        spec_validate(m, f1, caps) == spec_validate(m, f2, caps),
{
    if f1.spec_enabled(FLAG_TYPES) {
        lemma_subset_enabled(f1, f2, FLAG_TYPES);
    }
    if f1.spec_enabled(FLAG_CAPABILITIES) {
        lemma_subset_enabled(f1, f2, FLAG_CAPABILITIES);
    }
    if f1.spec_enabled(FLAG_VISIBILITY) {
        lemma_subset_enabled(f1, f2, FLAG_VISIBILITY);
    }
    if f1.spec_enabled(FLAG_UNIFORMITY) {
        lemma_subset_enabled(f1, f2, FLAG_UNIFORMITY);
    }
}

} // verus!

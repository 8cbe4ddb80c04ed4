//! The executable well-formedness checker: it decides `wf_module` for any
//! module value, so the validator never indexes out of range whatever it is
//! handed.
use vstd::prelude::*;
use crate::ir::{
    EntryPoint, Expr, Function, Global, LocalVar, Module, Stmt, StmtView, decl_stmt, decl_stmts,
    lemma_view_entries, lemma_view_functions, lemma_view_globals, lemma_view_locals,
    lemma_view_stmts, view_entries, view_functions, view_globals, view_locals, view_module,
    view_stmt, view_stmts, wf_expr, wf_function, wf_module, wf_stmt, wf_stmts,
};

verus! {

/// Returns whether every reference in `e` is in range.
pub fn wfc_expr(e: &Expr, nglobals: usize, nlocals: usize) -> (r: bool)
    ensures
        r == wf_expr(*e, nglobals as int, nlocals as int),
    decreases *e,
{
    match e {
        Expr::Literal { .. } => true,
        Expr::LocalRef { index } => *index < nlocals,
        Expr::GlobalRef { index } => *index < nglobals,
        Expr::BuiltinRef { .. } => true,
        Expr::Binary { lhs, rhs, .. } => wfc_expr(lhs, nglobals, nlocals) && wfc_expr(
            rhs,
            nglobals,
            nlocals,
        ),
        Expr::Vec4Ctor { x, y, z, w } => wfc_expr(x, nglobals, nlocals) && wfc_expr(
            y,
            nglobals,
            nlocals,
        ) && wfc_expr(z, nglobals, nlocals) && wfc_expr(w, nglobals, nlocals),
    }
}

/// Returns whether the statement is well-formed against the locals.
pub fn wfc_stmt(s: &Stmt, nglobals: usize, locals: &Vec<LocalVar>) -> (r: bool)
    ensures
        r == wf_stmt(view_stmt(*s), nglobals as int, view_locals(locals@)),
    decreases *s, 0int,
{
    proof {
        lemma_view_locals(locals@);
    }
    match s {
        Stmt::Local { index, ty, init, .. } => *index < locals.len() && tys_eq(
            locals[*index].ty,
            *ty,
        ) && wfc_expr(init, nglobals, locals.len()),
        Stmt::AssignLocal { index, value, .. } => *index < locals.len() && wfc_expr(
            value,
            nglobals,
            locals.len(),
        ),
        Stmt::AssignBuiltin { value, .. } => wfc_expr(value, nglobals, locals.len()),
        Stmt::If { cond, body, .. } => {
            proof {
                assert(view_stmts(body@).skip(0) =~= view_stmts(body@));
            }
            wfc_expr(cond, nglobals, locals.len()) && wfc_stmts(body, 0, nglobals, locals)
        },
        Stmt::Barrier { .. } => true,
    }
}

/// Returns whether `a` and `b` are the same type.
pub fn tys_eq(a: crate::ir::Ty, b: crate::ir::Ty) -> (r: bool)
    ensures
        r == (a == b),
{
    a == b
}

/// Returns whether the statements from `k` on are well-formed.
pub fn wfc_stmts(ss: &Vec<Stmt>, k: usize, nglobals: usize, locals: &Vec<LocalVar>) -> (r: bool)
    requires
        k <= ss@.len(),
    ensures
        r == wf_stmts(view_stmts(ss@).skip(k as int), nglobals as int, view_locals(locals@)),
    decreases ss@, ss@.len() - k,
{
    proof {
        lemma_view_stmts(ss@);
    }
    if k >= ss.len() {
        proof {
            assert(view_stmts(ss@).skip(k as int) =~= Seq::<StmtView>::empty());
        }
        return true;
    }
    let ghost v = view_stmts(ss@);
    proof {
        assert(v.skip(k as int)[0] == v[k as int]);
        assert(v.skip(k as int).skip(1) =~= v.skip(k as int + 1));
    }
    let head_ok = wfc_stmt(&ss[k], nglobals, locals);
    if !head_ok {
        return false;
    }
    wfc_stmts(ss, k + 1, nglobals, locals)
}

/// Returns what `decl_stmt` threads through `s` from `next`.
pub fn dclc_stmt(s: &Stmt, next: usize) -> (r: Option<usize>)
    ensures
        match r {
            Some(n2) => decl_stmt(view_stmt(*s), next as int) == Some(n2 as int),
            None => decl_stmt(view_stmt(*s), next as int) is None,
        },
    decreases *s, 0int,
{
    match s {
        Stmt::Local { index, .. } => {
            if *index == next && *index < usize::MAX {
                Some(next + 1)
            } else {
                None
            }
        },
        Stmt::If { body, .. } => {
            proof {
                assert(view_stmts(body@).skip(0) =~= view_stmts(body@));
            }
            dclc_stmts(body, 0, next)
        },
        _ => Some(next),
    }
}

/// Returns what `decl_stmts` threads through the statements from `k` on.
pub fn dclc_stmts(ss: &Vec<Stmt>, k: usize, next: usize) -> (r: Option<usize>)
    requires
        k <= ss@.len(),
    ensures
        match r {
            Some(n2) => decl_stmts(view_stmts(ss@).skip(k as int), next as int) == Some(n2 as int),
            None => decl_stmts(view_stmts(ss@).skip(k as int), next as int) is None,
        },
    decreases ss@, ss@.len() - k,
{
    proof {
        lemma_view_stmts(ss@);
    }
    if k >= ss.len() {
        proof {
            assert(view_stmts(ss@).skip(k as int) =~= Seq::<StmtView>::empty());
        }
        return Some(next);
    }
    let ghost v = view_stmts(ss@);
    proof {
        assert(v.skip(k as int)[0] == v[k as int]);
        assert(v.skip(k as int).skip(1) =~= v.skip(k as int + 1));
    }
    match dclc_stmt(&ss[k], next) {
        Some(n2) => dclc_stmts(ss, k + 1, n2),
        None => None,
    }
}

/// Returns whether the function is well-formed.
pub fn wfc_function(f: &Function, nglobals: usize) -> (r: bool)
    ensures
        r == wf_function(crate::ir::view_function(*f), nglobals as int),
{
    proof {
        lemma_view_stmts(f.body@);
        lemma_view_locals(f.locals@);
        assert(view_stmts(f.body@).skip(0) =~= view_stmts(f.body@));
    }
    if !wfc_stmts(&f.body, 0, nglobals, &f.locals) {
        return false;
    }
    match dclc_stmts(&f.body, 0, 0) {
        Some(n) => n == f.locals.len(),
        None => false,
    }
}

/// Returns whether every function is well-formed against `nglobals`.
fn check_wf_functions(fs: &Vec<Function>, nglobals: usize) -> (r: bool)
    ensures
        r == (forall|k: int|
            0 <= k < view_functions(fs@).len() ==> wf_function(
                #[trigger] view_functions(fs@)[k],
                nglobals as int,
            )),
{
    let ghost fv = view_functions(fs@);
    proof {
        lemma_view_functions(fs@);
    }
    let mut i: usize = 0;
    while i < fs.len()
        invariant
            i <= fs@.len(),
            fv == view_functions(fs@),
            fv.len() == fs@.len(),
            forall|k: int| 0 <= k < fs@.len() ==> fv[k] == crate::ir::view_function(fs@[k]),
            forall|k: int| 0 <= k < i ==> wf_function(#[trigger] fv[k], nglobals as int),
        decreases fs@.len() - i,
    {
        if !wfc_function(&fs[i], nglobals) {
            proof {
                assert(!wf_function(fv[i as int], nglobals as int));
            }
            return false;
        }
        i = i + 1;
    }
    true
}

/// Whether every entry point names an existing function it shares a name
/// with.
pub open spec fn entries_name_ok(e: Seq<crate::ir::EntryPointView>, f: Seq<crate::ir::FunctionView>) -> bool {
    forall|k: int|
        0 <= k < e.len() ==> (#[trigger] e[k]).function < f.len() && e[k].name == f[e[k].function as int].name
}

/// Returns whether every entry point names an existing function.
fn check_wf_entries(es: &Vec<EntryPoint>, fs: &Vec<Function>) -> (r: bool)
    ensures
        r == entries_name_ok(view_entries(es@), view_functions(fs@)),
{
    let ghost ev = view_entries(es@);
    let ghost fv = view_functions(fs@);
    proof {
        lemma_view_functions(fs@);
        lemma_view_entries(es@);
    }
    let mut j: usize = 0;
    while j < es.len()
        invariant
            j <= es@.len(),
            ev == view_entries(es@),
            fv == view_functions(fs@),
            ev.len() == es@.len(),
            fv.len() == fs@.len(),
            forall|k: int| 0 <= k < es@.len() ==> ev[k] == crate::ir::view_entry(es@[k]),
            forall|k: int| 0 <= k < fs@.len() ==> fv[k] == crate::ir::view_function(fs@[k]),
            forall|k: int|
                0 <= k < j ==> (#[trigger] ev[k]).function < fv.len() && ev[k].name == fv[ev[k].function as int].name,
        decreases es@.len() - j,
    {
        let fidx = es[j].function;
        if fidx >= fs.len() {
            proof {
                assert(!((#[trigger] ev[j as int]).function < fv.len()));
            }
            return false;
        }
        if !(es[j].name == fs[fidx].name) {
            proof {
                assert(ev[j as int].name != fv[ev[j as int].function as int].name);
            }
            return false;
        }
        j = j + 1;
    }
    true
}

/// Whether entry points come in strictly increasing function order.
pub open spec fn entries_sorted(e: Seq<crate::ir::EntryPointView>) -> bool {
    forall|a: int, b: int|
        0 <= a < b < e.len() ==> (#[trigger] e[a]).function < (#[trigger] e[b]).function
}

/// Adjacent order from `k` on.
pub open spec fn sorted_from(e: Seq<crate::ir::EntryPointView>, k: int) -> bool
    decreases e.len() - k,
{
    if k < 0 || k + 1 >= e.len() {
        true
    } else {
        e[k].function < e[k + 1].function && sorted_from(e, k + 1)
    }
}

/// Adjacent order gives the order of any pair beyond `k`.
proof fn lemma_sorted_at(e: Seq<crate::ir::EntryPointView>, k: int, q: int)
    requires
        0 <= k <= q,
        q + 1 < e.len(),
        sorted_from(e, k),
    ensures
        e[q].function < e[q + 1].function,
    decreases q - k,
{
    if k < q {
        lemma_sorted_at(e, k + 1, q);
    }
}

proof fn lemma_sorted_mono(e: Seq<crate::ir::EntryPointView>, i: int, j: int)
    requires
        sorted_from(e, 0),
        0 <= i < j < e.len(),
    ensures
        e[i].function < e[j].function,
    decreases j - i,
{
    lemma_sorted_at(e, 0, j - 1);
    if i + 1 < j {
        lemma_sorted_mono(e, i, j - 1);
    }
}

/// A failure of adjacent order names a violating pair.
proof fn lemma_not_sorted(e: Seq<crate::ir::EntryPointView>, k: int)
    requires
        0 <= k,
        !sorted_from(e, k),
    ensures
        exists|q: int| k <= q && q + 1 < e.len() && (#[trigger] e[q]).function >= e[q + 1].function,
    decreases e.len() - k,
{
    if k + 1 < e.len() && e[k].function < e[k + 1].function {
        lemma_not_sorted(e, k + 1);
    }
}

/// Returns whether adjacent entry points from `k` on are ordered.
fn check_sorted_from(es: &Vec<EntryPoint>, k: usize) -> (r: bool)
    ensures
        r == sorted_from(view_entries(es@), k as int),
    decreases es@.len() - k,
{
    proof {
        lemma_view_entries(es@);
    }
    if k >= es.len() || k + 1 >= es.len() {
        return true;
    }
    if es[k].function >= es[k + 1].function {
        return false;
    }
    check_sorted_from(es, k + 1)
}

/// Returns whether entry points come in strictly increasing function order.
fn check_entries_sorted(es: &Vec<EntryPoint>) -> (r: bool)
    ensures
        r == entries_sorted(view_entries(es@)),
{
    let ghost ev = view_entries(es@);
    let ok = check_sorted_from(es, 0);
    proof {
        if sorted_from(ev, 0) {
            assert forall|a: int, b: int|
                0 <= a < b < ev.len() implies (#[trigger] ev[a]).function < (
            #[trigger] ev[b]).function by {
                lemma_sorted_mono(ev, a, b);
            }
        } else {
            lemma_not_sorted(ev, 0);
            let q = choose|q: int|
                0 <= q && q + 1 < ev.len() && (#[trigger] ev[q]).function >= ev[q + 1].function;
            assert(!entries_sorted(ev));
        }
    }
    ok
}

/// Returns whether the whole module satisfies its invariant.
pub fn check_wf_module(m: &Module) -> (r: bool)
    ensures
        r == wf_module(view_module(*m)),
{
    proof {
        lemma_view_globals(m.globals@);
    }
    let a = check_wf_functions(&m.functions, m.globals.len());
    let b = check_wf_entries(&m.entry_points, &m.functions);
    let c = check_entries_sorted(&m.entry_points);
    proof {
        let mv = view_module(*m);
        assert(mv.functions == view_functions(m.functions@));
        assert(mv.entry_points == view_entries(m.entry_points@));
        assert(a == (forall|k: int|
            0 <= k < mv.functions.len() ==> wf_function(
                #[trigger] mv.functions[k],
                mv.globals.len() as int,
            )));
        assert(b == entries_name_ok(mv.entry_points, mv.functions));
        assert(c == entries_sorted(mv.entry_points));
    }
    a && b && c
}

} // verus!

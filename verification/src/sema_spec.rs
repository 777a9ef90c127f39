//! The rules of semantic analysis, stated over models of the checker's state.
//!
//! `infer` gives the type of an expression together with the state after it
//! (new errors, moved bindings); `check_stmt` gives the state after a
//! statement; `check_file` gives the state after a whole file.
use vstd::prelude::*;
use crate::token::Span;
use crate::ast::{
    Arg, EnumVariant, Expr, ExprKind, FieldDef, FieldInit, FnDef, Item, ItemKind, MatchArm,
    OwnershipMode, Param, ResultVariant, SourceFile, Stmt, StmtKind, Ty, TyKind, BinOp,
};
use crate::scope::{BindV, RTy, ScopeV, SigV, disp, lookup_in, with_moved};
use crate::sema_error::SemaErrV;
use crate::ownership::{move_check, mutate_check, pipe_check};

verus! {

// ── Types ─────────────────────────────────────────────────────

/// The resolved type that a written type denotes.
pub open spec fn resolve(ty: Ty) -> RTy
    decreases ty,
{
    match ty.kind {
        TyKind::I8 => RTy::I8,
        TyKind::I16 => RTy::I16,
        TyKind::I32 => RTy::I32,
        TyKind::I64 => RTy::I64,
        TyKind::U8 => RTy::U8,
        TyKind::U16 => RTy::U16,
        TyKind::U32 => RTy::U32,
        TyKind::U64 => RTy::U64,
        TyKind::F32 => RTy::F32,
        TyKind::F64 => RTy::F64,
        TyKind::Bool => RTy::Bool,
        TyKind::Usize => RTy::Usize,
        TyKind::Str => RTy::Str,
        TyKind::Void => RTy::Void,
        TyKind::Allocator => RTy::Allocator,
        TyKind::Named(n) => RTy::Named(n@),
        TyKind::Slice(t) => RTy::Slice(Box::new(resolve(*t))),
        TyKind::Ptr(t) => RTy::Ptr(Box::new(resolve(*t))),
        TyKind::PtrMut(t) => RTy::PtrMut(Box::new(resolve(*t))),
        TyKind::Result(ok, err) => RTy::Result(Box::new(resolve(*ok)), Box::new(resolve(*err))),
        TyKind::Option(t) => RTy::Option(Box::new(resolve(*t))),
        TyKind::Array { size, elem } => RTy::Array { size, elem: Box::new(resolve(*elem)) },
        TyKind::FnPtr { params, ret } => RTy::FnPtr {
            params: resolve_list(params@),
            ret: Box::new(resolve(*ret)),
        },
    }
}

pub open spec fn resolve_list(ts: Seq<Ty>) -> Seq<RTy>
    decreases ts,
{
    if ts.len() == 0 {
        Seq::empty()
    } else {
        resolve_list(ts.drop_last()).push(resolve(ts.last()))
    }
}

/// Permissive compatibility of a found type with an expected one: `Unknown`
/// matches anything, and wrapper types are compared part by part.
pub open spec fn compat(found: RTy, expected: RTy) -> bool
    decreases found,
{
    if found is Unknown || expected is Unknown {
        true
    } else {
        match found {
            RTy::Result(fo, fe) => match expected {
                RTy::Result(eo, ee) => compat(*fo, *eo) && compat(*fe, *ee),
                _ => false,
            },
            RTy::Option(f) => match expected {
                RTy::Option(e) => compat(*f, *e),
                _ => false,
            },
            RTy::Slice(f) => match expected {
                RTy::Slice(e) => compat(*f, *e),
                _ => false,
            },
            RTy::Ptr(f) => match expected {
                RTy::Ptr(e) => compat(*f, *e),
                _ => false,
            },
            RTy::PtrMut(f) => match expected {
                RTy::PtrMut(e) => compat(*f, *e),
                _ => false,
            },
            RTy::Array { size: fs, elem: fe } => match expected {
                RTy::Array { size: es, elem: ee } => fs == es && compat(*fe, *ee),
                _ => false,
            },
            RTy::FnPtr { params: fp, ret: fr } => match expected {
                RTy::FnPtr { params: ep, ret: er } => fp.len() == ep.len() && compat_all(fp, ep)
                    && compat(*fr, *er),
                _ => false,
            },
            _ => found == expected,
        }
    }
}

/// Pairwise compatibility of two lists of the same length.
pub open spec fn compat_all(fs: Seq<RTy>, es: Seq<RTy>) -> bool
    decreases fs,
{
    if fs.len() == 0 || es.len() == 0 {
        true
    } else {
        compat_all(fs.drop_last(), es.drop_last()) && compat(fs.last(), es.last())
    }
}

/// `a * b` in `usize` arithmetic that wraps around (as the release build of
/// the compiler computes a matrix's element count).
pub open spec fn wrap_mul(a: usize, b: usize) -> usize {
    ((a as nat * b as nat) % (usize::MAX as nat + 1)) as usize
}

/// The value type inside `Result` / `Option`; other types are unchanged.
pub open spec fn unwrap_ty(t: RTy) -> RTy {
    match t {
        RTy::Result(ok, _) => *ok,
        RTy::Option(ok) => *ok,
        _ => t,
    }
}

/// How an ownership mode is written in messages (its debug form).
pub open spec fn mode_name(m: OwnershipMode) -> Seq<char> {
    match m {
        OwnershipMode::Read => "Read"@,
        OwnershipMode::Mut => "Mut"@,
        OwnershipMode::Move => "Move"@,
        OwnershipMode::Inferred => "Inferred"@,
    }
}

/// The first field of `layout` called `k`.
pub open spec fn find_field(layout: Seq<(Seq<char>, RTy)>, k: Seq<char>) -> Option<RTy>
    decreases layout.len(),
{
    if layout.len() == 0 {
        None
    } else if layout[0].0 == k {
        Some(layout[0].1)
    } else {
        find_field(layout.drop_first(), k)
    }
}

/// The name a call refers to: a variable name, or the field name of a method call.
pub open spec fn callee_name(c: Expr) -> Seq<char> {
    match c.kind {
        ExprKind::Ident(n) => n@,
        ExprKind::Field { field, .. } => field@,
        _ => Seq::empty(),
    }
}

// ── Checker state ─────────────────────────────────────────────

/// Model of the checker's state: the scope and the errors so far.
pub struct CkV {
    pub sc: ScopeV,
    pub errs: Seq<SemaErrV>,
}

pub open spec fn err(st: CkV, e: SemaErrV) -> CkV {
    CkV { sc: st.sc, errs: st.errs.push(e) }
}

pub open spec fn err_if(st: CkV, e: Option<SemaErrV>) -> CkV {
    match e {
        Some(x) => err(st, x),
        None => st,
    }
}

pub open spec fn opened(st: CkV) -> CkV {
    CkV { sc: ScopeV { frames: st.sc.frames.push(Map::empty()), ..st.sc }, errs: st.errs }
}

pub open spec fn closed_frame(st: CkV) -> CkV {
    CkV {
        sc: ScopeV {
            frames: if st.sc.frames.len() > 0 {
                st.sc.frames.drop_last()
            } else {
                st.sc.frames
            },
            ..st.sc
        },
        errs: st.errs,
    }
}

pub open spec fn defined(st: CkV, k: Seq<char>, b: BindV) -> CkV {
    CkV {
        sc: ScopeV {
            frames: st.sc.frames.update(st.sc.frames.len() - 1, st.sc.frames.last().insert(k, b)),
            ..st.sc
        },
        errs: st.errs,
    }
}

pub open spec fn moved(st: CkV, k: Seq<char>) -> CkV {
    CkV { sc: ScopeV { frames: with_moved(st.sc.frames, k), ..st.sc }, errs: st.errs }
}

// ── Expressions ───────────────────────────────────────────────

/// The type of `e` and the state after checking it.
pub open spec fn infer(st: CkV, e: Expr) -> (RTy, CkV)
    decreases e, 0nat,
{
    match e.kind {
        ExprKind::Int(_) => (RTy::I64, st),
        ExprKind::Float(_) => (RTy::F64, st),
        ExprKind::Bool(_) => (RTy::Bool, st),
        ExprKind::Str(_) => (RTy::Str, st),
        ExprKind::Ident(name) => {
            // Enum type names are namespaces for `Enum.Variant`.
            if st.sc.enums.contains(name@) {
                (RTy::Named(name@), st)
            } else {
                match lookup_in(st.sc.frames, name@) {
                    Some(b) => (
                        b.ty,
                        if b.moved {
                            err(st, SemaErrV::UseAfterMove { name: name@, span: e.span })
                        } else {
                            st
                        },
                    ),
                    None => (RTy::Unknown, err(st, SemaErrV::Undefined { name: name@, span: e.span })),
                }
            }
        },
        ExprKind::Call { callee, args } => {
            let f = callee_name(*callee);
            if st.sc.fns.contains_key(f) {
                let sig = st.sc.fns[f];
                let st1 = if args.len() != sig.params.len() {
                    err(
                        st,
                        SemaErrV::ArgCountMismatch {
                            name: f,
                            expected: sig.params.len() as usize,
                            found: args.len(),
                            span: e.span,
                        },
                    )
                } else {
                    st
                };
                let n = if args.len() <= sig.params.len() {
                    args.len() as int
                } else {
                    sig.params.len() as int
                };
                (sig.ret, call_args(st1, args@, sig.params, e.span, n))
            } else {
                (RTy::Unknown, infer_args(st, args@))
            }
        },
        ExprKind::Pipe { left, right } => {
            let st1 = err_if(st, pipe_check(*left, *right, st.sc, e.span));
            let st2 = infer(st1, *left).1;
            infer_piped(st2, *right, e.span)
        },
        ExprKind::Field { base, field } => {
            let qualified = match base.kind {
                ExprKind::Ident(t) => Some(t@ + "."@ + field@),
                _ => None,
            };
            if qualified is Some && st.sc.fns.contains_key(qualified->0) {
                (st.sc.fns[qualified->0].ret, st)
            } else {
                let (bt, st1) = infer(st, *base);
                match bt {
                    RTy::Named(n) => if st1.sc.types.contains_key(n) {
                        match find_field(st1.sc.types[n], field@) {
                            Some(t) => (t, st1),
                            None => (
                                RTy::Unknown,
                                err(st1, SemaErrV::Undefined { name: n + "."@ + field@, span: e.span }),
                            ),
                        }
                    } else {
                        (RTy::Unknown, st1)
                    },
                    _ => (RTy::Unknown, st1),
                }
            }
        },
        ExprKind::Index { base, index } => {
            let (bt, st1) = infer(st, *base);
            let st2 = infer(st1, *index).1;
            (
                match bt {
                    RTy::Slice(inner) => *inner,
                    _ => RTy::Unknown,
                },
                st2,
            )
        },
        ExprKind::OrReturn(inner) => {
            let (t, st1) = infer(st, *inner);
            let st2 = if !(t is Result) && !(t is Unknown) {
                err(st1, SemaErrV::OrReturnNonResult { span: e.span })
            } else {
                st1
            };
            (
                match t {
                    RTy::Result(ok, _) => *ok,
                    _ => RTy::Unknown,
                },
                st2,
            )
        },
        ExprKind::OrPanic(inner, _) => {
            let (t, st1) = infer(st, *inner);
            (unwrap_ty(t), st1)
        },
        ExprKind::OrElse(inner, default) => {
            let (t, st1) = infer(st, *inner);
            (unwrap_ty(t), infer(st1, *default).1)
        },
        ExprKind::OrZero(inner) => {
            let (t, st1) = infer(st, *inner);
            (unwrap_ty(t), st1)
        },
        ExprKind::OrNil(inner) => {
            let (t, st1) = infer(st, *inner);
            (unwrap_ty(t), st1)
        },
        ExprKind::ArrayLit(elems) => {
            if elems.len() == 0 {
                (RTy::Array { size: 0, elem: Box::new(RTy::Unknown) }, st)
            } else {
                let (t0, st1) = infer(st, elems@[0]);
                (
                    RTy::Array { size: elems.len(), elem: Box::new(t0) },
                    infer_exprs(st1, elems@.skip(1)),
                )
            }
        },
        ExprKind::MatrixLit { elems, rows, cols } => (
            RTy::Array { size: wrap_mul(rows, cols), elem: Box::new(RTy::I64) },
            infer_exprs(st, elems@),
        ),
        ExprKind::AllocCall { allocator, elem_ty, count } => {
            let st1 = infer(st, *allocator).1;
            let st2 = infer(st1, *count).1;
            (RTy::Ptr(Box::new(resolve(elem_ty))), st2)
        },
        ExprKind::Asm { args, .. } => (RTy::Unknown, infer_exprs(st, args@)),
        ExprKind::BinOp { op, left, right } => {
            let (lt, st1) = infer(st, *left);
            let st2 = infer(st1, *right).1;
            if op == BinOp::Concat {
                (
                    RTy::Str,
                    if !(lt is Str) && !(lt is Unknown) {
                        err(st2, SemaErrV::TypeMismatch { expected: "str"@, found: disp(lt), span: left.span })
                    } else {
                        st2
                    },
                )
            } else {
                (lt, st2)
            }
        },
        ExprKind::UnOp { expr: inner, .. } => infer(st, *inner),
        ExprKind::StructLit { name, fields } => {
            if st.sc.types.contains_key(name@) {
                (
                    RTy::Named(name@),
                    struct_fields(st, name@, st.sc.types[name@], fields@, e.span),
                )
            } else {
                (RTy::Named(name@), infer_field_exprs(st, fields@))
            }
        },
        ExprKind::ResultCtor { variant, inner } => {
            let (t, st1) = infer(st, *inner);
            (
                match variant {
                    ResultVariant::Success => RTy::Result(Box::new(t), Box::new(RTy::Unknown)),
                    ResultVariant::Failure => RTy::Result(Box::new(RTy::Unknown), Box::new(t)),
                },
                st1,
            )
        },
        ExprKind::Cast { expr: inner, ty } => (resolve(ty), infer(st, *inner).1),
        ExprKind::Ref(inner) => {
            let (t, st1) = infer(st, *inner);
            (RTy::Ptr(Box::new(t)), st1)
        },
        ExprKind::Deref(inner) => {
            let (t, st1) = infer(st, *inner);
            (
                match t {
                    RTy::Ptr(i) => *i,
                    RTy::PtrMut(i) => *i,
                    _ => RTy::Unknown,
                },
                st1,
            )
        },
        ExprKind::Block(stmts) => (RTy::Void, closed_frame(check_stmts(opened(st), stmts@))),
        ExprKind::If { cond, then, else_ } => {
            let (ct, st1) = infer(st, *cond);
            let st2 = if !(ct is Bool) && !(ct is Unknown) {
                err(st1, SemaErrV::TypeMismatch { expected: "bool"@, found: disp(ct), span: cond.span })
            } else {
                st1
            };
            let (tt, st3) = infer(st2, *then);
            let st4 = match else_ {
                Some(x) => infer(st3, *x).1,
                None => st3,
            };
            (tt, st4)
        },
        ExprKind::Match { subject, arms } => {
            let st1 = infer(st, *subject).1;
            infer_arms(st1, arms@)
        },
    }
}

/// The right side of a pipe, with the left side as its implicit first argument.
pub open spec fn infer_piped(st: CkV, right: Expr, span: Span) -> (RTy, CkV)
    decreases right, 1nat,
{
    match right.kind {
        ExprKind::Call { callee, args } => {
            let f = callee_name(*callee);
            if st.sc.fns.contains_key(f) {
                let sig = st.sc.fns[f];
                let expected: usize = if sig.params.len() > 0 {
                    (sig.params.len() - 1) as usize
                } else {
                    0
                };
                // The piped value fills the first parameter: a function
                // without parameters cannot receive it.
                let st1 = if sig.params.len() == 0 || args.len() != expected {
                    err(
                        st,
                        SemaErrV::ArgCountMismatch { name: f, expected, found: args.len(), span },
                    )
                } else {
                    st
                };
                (sig.ret, infer_args(st1, args@))
            } else {
                (RTy::Unknown, infer_args(st, args@))
            }
        },
        _ => infer(st, right),
    }
}

/// Checking a call's arguments against the first `n` parameters of its signature.
pub open spec fn call_args(
    st: CkV,
    args: Seq<Arg>,
    params: Seq<(Seq<char>, OwnershipMode, RTy)>,
    span: Span,
    n: int,
) -> CkV
    decreases n,
{
    if n <= 0 {
        st
    } else {
        let s0 = call_args(st, args, params, span, n - 1);
        let arg = args[n - 1];
        let param = params[n - 1];
        let s1 = if arg.mode != OwnershipMode::Inferred && arg.mode != param.1 {
            err(
                s0,
                SemaErrV::OwnershipModeMismatch {
                    param: param.0,
                    expected: mode_name(param.1),
                    found: mode_name(arg.mode),
                    span,
                },
            )
        } else {
            s0
        };
        // A `move` argument consumes the binding it names.
        if arg.mode == OwnershipMode::Move {
            match arg.expr.kind {
                ExprKind::Ident(x) => moved(err_if(s1, move_check(s1.sc, x@, arg.expr.span)), x@),
                _ => s1,
            }
        } else {
            s1
        }
    }
}

pub open spec fn infer_args(st: CkV, args: Seq<Arg>) -> CkV
    decreases args, 0nat,
{
    if args.len() == 0 {
        st
    } else {
        infer(infer_args(st, args.drop_last()), args.last().expr).1
    }
}

pub open spec fn infer_exprs(st: CkV, es: Seq<Expr>) -> CkV
    decreases es, 0nat,
{
    if es.len() == 0 {
        st
    } else {
        infer(infer_exprs(st, es.drop_last()), es.last()).1
    }
}

pub open spec fn infer_field_exprs(st: CkV, fs: Seq<FieldInit>) -> CkV
    decreases fs, 0nat,
{
    if fs.len() == 0 {
        st
    } else {
        infer(infer_field_exprs(st, fs.drop_last()), fs.last().expr).1
    }
}

/// Checking the field initialisers of a struct literal against its layout.
pub open spec fn struct_fields(
    st: CkV,
    name: Seq<char>,
    layout: Seq<(Seq<char>, RTy)>,
    fs: Seq<FieldInit>,
    span: Span,
) -> CkV
    decreases fs, 0nat,
{
    if fs.len() == 0 {
        st
    } else {
        let s0 = struct_fields(st, name, layout, fs.drop_last(), span);
        let f = fs.last();
        let (vt, s1) = infer(s0, f.expr);
        match find_field(layout, f.name@) {
            Some(et) => if !compat(vt, et) {
                err(s1, SemaErrV::TypeMismatch { expected: disp(et), found: disp(vt), span })
            } else {
                s1
            },
            None => err(s1, SemaErrV::Undefined { name: name + "."@ + f.name@, span }),
        }
    }
}

/// The arms of a match, in order; the type is that of the last arm's body.
pub open spec fn infer_arms(st: CkV, arms: Seq<MatchArm>) -> (RTy, CkV)
    decreases arms, 0nat,
{
    if arms.len() == 0 {
        (RTy::Unknown, st)
    } else {
        infer(infer_arms(st, arms.drop_last()).1, arms.last().body)
    }
}

// ── Statements ────────────────────────────────────────────────

pub open spec fn check_stmt(st: CkV, s: Stmt) -> CkV
    decreases s, 0nat,
{
    match s.kind {
        StmtKind::Let { name, ty, init } => {
            let (it, st1) = infer(st, init);
            let dt = match ty {
                Some(t) => resolve(t),
                None => it,
            };
            let st2 = if !compat(it, dt) {
                err(st1, SemaErrV::TypeMismatch { expected: disp(dt), found: disp(it), span: s.span })
            } else {
                st1
            };
            defined(
                st2,
                name@,
                BindV { ty: dt, mode: OwnershipMode::Read, mutable: false, moved: false, span: s.span },
            )
        },
        StmtKind::Var { name, ty, init } => {
            let (it, st1) = infer(st, init);
            let dt = match ty {
                Some(t) => resolve(t),
                None => it,
            };
            let st2 = if !compat(it, dt) {
                err(st1, SemaErrV::TypeMismatch { expected: disp(dt), found: disp(it), span: s.span })
            } else {
                st1
            };
            defined(
                st2,
                name@,
                BindV { ty: dt, mode: OwnershipMode::Mut, mutable: true, moved: false, span: s.span },
            )
        },
        StmtKind::Return(x) => match x {
            Some(v) => infer(st, v).1,
            None => st,
        },
        StmtKind::Defer(x) => infer(st, x).1,
        StmtKind::Assign { target, value } => {
            let st1 = match target.kind {
                ExprKind::Ident(n) => err_if(st, mutate_check(st.sc, n@, target.span)),
                _ => st,
            };
            infer(st1, value).1
        },
        StmtKind::For { binding, iter, body } => {
            let (t, st1) = infer(st, iter);
            let et = match t {
                RTy::Slice(inner) => *inner,
                _ => RTy::Unknown,
            };
            let st2 = defined(
                opened(st1),
                binding@,
                BindV { ty: et, mode: OwnershipMode::Read, mutable: false, moved: false, span: s.span },
            );
            closed_frame(check_stmts(st2, body@))
        },
        StmtKind::While { cond, body } => {
            let st1 = infer(st, cond).1;
            closed_frame(check_stmts(opened(st1), body@))
        },
        StmtKind::Loop(body) => closed_frame(check_stmts(opened(st), body@)),
        StmtKind::Expr(x) => infer(st, x).1,
        StmtKind::Break => st,
        StmtKind::Continue => st,
    }
}

pub open spec fn check_stmts(st: CkV, ss: Seq<Stmt>) -> CkV
    decreases ss, 0nat,
{
    if ss.len() == 0 {
        st
    } else {
        check_stmt(check_stmts(st, ss.drop_last()), ss.last())
    }
}

// ── Items and files ───────────────────────────────────────────

pub open spec fn param_sig(ps: Seq<Param>) -> Seq<(Seq<char>, OwnershipMode, RTy)> {
    Seq::new(ps.len(), |i: int| (ps[i].name@, ps[i].mode, resolve(ps[i].ty)))
}

pub open spec fn field_sig(fs: Seq<FieldDef>) -> Seq<(Seq<char>, RTy)> {
    Seq::new(fs.len(), |i: int| (fs[i].name@, resolve(fs[i].ty)))
}

/// Registering the variants of enum `name` as constructors.
pub open spec fn register_variants(sc: ScopeV, name: Seq<char>, vs: Seq<EnumVariant>) -> ScopeV
    decreases vs.len(),
{
    if vs.len() == 0 {
        sc
    } else {
        let sc0 = register_variants(sc, name, vs.drop_last());
        let v = vs.last();
        let params = match v.payload {
            Some(t) => seq![("value"@, OwnershipMode::Move, resolve(t))],
            None => Seq::empty(),
        };
        ScopeV {
            fns: sc0.fns.insert(name + "."@ + v.name@, SigV { params, ret: RTy::Named(name) }),
            ..sc0
        }
    }
}

/// The scope after registering an item's signature, layout or variants.
pub open spec fn register(sc: ScopeV, item: Item) -> ScopeV {
    match item.kind {
        ItemKind::Fn(f) => ScopeV {
            fns: sc.fns.insert(f.name@, SigV { params: param_sig(f.params@), ret: resolve(f.ret) }),
            ..sc
        },
        ItemKind::Type(t) => ScopeV { types: sc.types.insert(t.name@, field_sig(t.fields@)), ..sc },
        ItemKind::Enum(en) => register_variants(
            ScopeV { enums: sc.enums.insert(en.name@), ..sc },
            en.name@,
            en.variants@,
        ),
        _ => sc,
    }
}

pub open spec fn register_all(sc: ScopeV, items: Seq<Item>) -> ScopeV
    decreases items.len(),
{
    if items.len() == 0 {
        sc
    } else {
        register(register_all(sc, items.drop_last()), items.last())
    }
}

/// Binding a function's parameters in the current frame.
pub open spec fn bind_params(st: CkV, ps: Seq<Param>) -> CkV
    decreases ps.len(),
{
    if ps.len() == 0 {
        st
    } else {
        let p = ps.last();
        defined(
            bind_params(st, ps.drop_last()),
            p.name@,
            BindV {
                ty: resolve(p.ty),
                mode: p.mode,
                mutable: p.mode == OwnershipMode::Mut,
                moved: false,
                span: Span { start: 0, end: 0 },
            },
        )
    }
}

/// Checking a function body; a final `return e` is also checked against the
/// declared return type.
pub open spec fn check_fn(st: CkV, f: FnDef) -> CkV {
    let st1 = bind_params(opened(st), f.params@);
    let rt = resolve(f.ret);
    let st2 = check_stmts(st1, f.body@);
    let st3 = if f.body.len() > 0 {
        match f.body@.last().kind {
            StmtKind::Return(Some(x)) => {
                let (xt, s) = infer(st2, x);
                if !compat(xt, rt) {
                    err(s, SemaErrV::TypeMismatch { expected: disp(rt), found: disp(xt), span: x.span })
                } else {
                    s
                }
            },
            _ => st2,
        }
    } else {
        st2
    };
    closed_frame(st3)
}

pub open spec fn check_item(st: CkV, item: Item) -> CkV {
    match item.kind {
        ItemKind::Fn(f) => check_fn(st, f),
        _ => st,
    }
}

pub open spec fn check_items(st: CkV, items: Seq<Item>) -> CkV
    decreases items.len(),
{
    if items.len() == 0 {
        st
    } else {
        check_item(check_items(st, items.drop_last()), items.last())
    }
}

/// Checking a whole file: register every definition, check every function
/// body, then the algorithm zone.
pub open spec fn check_file(st: CkV, file: SourceFile) -> CkV {
    let st1 = CkV { sc: register_all(st.sc, file.def_zone@), errs: st.errs };
    let st2 = check_items(st1, file.def_zone@);
    check_stmts(st2, file.alg_zone@)
}

} // verus!

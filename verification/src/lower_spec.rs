//! What lowering a syntax tree into IR produces, as functions on a model of
//! the lowering state: the counters that name SSA values and blocks, the
//! instructions of the open block, the finished blocks, the open block's
//! label and the targets of `break` / `continue` in the enclosing loops.
use vstd::prelude::*;
use crate::token::Span;
use crate::ast::{
    Arg, BinOp, FnDef, Item, ItemKind, Param, SourceFile, Expr, ExprKind, FieldInit, MatchArm, OwnershipMode, Pattern, ResultVariant,
    Stmt, StmtKind, Ty, TyKind, UnOp,
};
use crate::ir::{BlockV, FuncV, InstrV, IrMode, IrTyV, OpV, ParamV, TermV};
use crate::text::dec_nat;

verus! {

/// The lowering state.
pub struct LowV {
    pub next_id: usize,
    pub next_block: usize,
    pub instrs: Seq<InstrV>,
    pub blocks: Seq<BlockV>,
    pub label: Seq<char>,
    /// (continue target, break target) of each enclosing loop, innermost last.
    pub loops: Seq<(Seq<char>, Seq<char>)>,
}

/// A counter's next value; it wraps around at the end of `usize`.
pub open spec fn bump(n: usize) -> usize {
    if n < usize::MAX {
        (n + 1) as usize
    } else {
        0
    }
}

/// The name of the SSA value numbered `k`: `%k`.
pub open spec fn ssa_name(k: usize) -> Seq<char> {
    "%"@ + dec_nat(k as nat)
}

/// The label of the block numbered `k`: `bbk`.
pub open spec fn block_label(k: usize) -> Seq<char> {
    "bb"@ + dec_nat(k as nat)
}

pub open spec fn fresh_name(st: LowV) -> (Seq<char>, LowV) {
    (ssa_name(st.next_id), LowV { next_id: bump(st.next_id), ..st })
}

pub open spec fn fresh_label(st: LowV) -> (Seq<char>, LowV) {
    (block_label(st.next_block), LowV { next_block: bump(st.next_block), ..st })
}

/// Appends an instruction to the open block.
pub open spec fn emit(st: LowV, dest: Option<Seq<char>>, op: OpV, span: Span) -> LowV {
    LowV { instrs: st.instrs.push(InstrV { dest, op, span }), ..st }
}

/// Closes the open block with `term`.
pub open spec fn finish(st: LowV, term: TermV) -> LowV {
    LowV {
        blocks: st.blocks.push(BlockV { label: st.label, instrs: st.instrs, term }),
        instrs: Seq::empty(),
        ..st
    }
}

/// Opens a block labelled `label`.
pub open spec fn start(st: LowV, label: Seq<char>) -> LowV {
    LowV { label, ..st }
}

/// A fresh SSA value defined by `op`.
pub open spec fn define(st: LowV, op: OpV, span: Span) -> (Seq<char>, LowV) {
    let (d, s1) = fresh_name(st);
    (d, emit(s1, Some(d), op, span))
}

/// The state at the start of a function body.
pub open spec fn reset(st: LowV) -> LowV {
    LowV {
        next_id: 0,
        next_block: 0,
        instrs: Seq::empty(),
        blocks: Seq::empty(),
        label: "entry"@,
        loops: st.loops,
    }
}

// ── Types and modes ───────────────────────────────────────────

pub open spec fn lty(t: Ty) -> IrTyV
    decreases t,
{
    match t.kind {
        TyKind::I8 => IrTyV::I8,
        TyKind::I16 => IrTyV::I16,
        TyKind::I32 => IrTyV::I32,
        TyKind::I64 => IrTyV::I64,
        TyKind::U8 => IrTyV::U8,
        TyKind::U16 => IrTyV::U16,
        TyKind::U32 => IrTyV::U32,
        TyKind::U64 => IrTyV::U64,
        TyKind::F32 => IrTyV::F32,
        TyKind::F64 => IrTyV::F64,
        TyKind::Bool => IrTyV::Bool,
        TyKind::Usize => IrTyV::Usize,
        TyKind::Str => IrTyV::Str,
        TyKind::Void => IrTyV::Void,
        TyKind::Allocator => IrTyV::Allocator,
        TyKind::Named(n) => IrTyV::Named(n@),
        TyKind::Slice(t) => IrTyV::Slice(Box::new(lty(*t))),
        TyKind::Ptr(t) => IrTyV::Ptr(Box::new(lty(*t))),
        TyKind::PtrMut(t) => IrTyV::PtrMut(Box::new(lty(*t))),
        TyKind::Result(ok, e) => IrTyV::Result(Box::new(lty(*ok)), Box::new(lty(*e))),
        TyKind::Option(t) => IrTyV::Option(Box::new(lty(*t))),
        TyKind::Array { size, elem } => IrTyV::Array { size, elem: Box::new(lty(*elem)) },
        TyKind::FnPtr { params, ret } => IrTyV::FnPtr { params: ltys(params@), ret: Box::new(lty(*ret)) },
    }
}

pub open spec fn ltys(ts: Seq<Ty>) -> Seq<IrTyV>
    decreases ts,
{
    if ts.len() == 0 {
        Seq::empty()
    } else {
        ltys(ts.drop_last()).push(lty(ts.last()))
    }
}

pub open spec fn lmode(m: OwnershipMode) -> IrMode {
    match m {
        OwnershipMode::Read => IrMode::Read,
        OwnershipMode::Mut => IrMode::Mut,
        OwnershipMode::Move => IrMode::Move,
        OwnershipMode::Inferred => IrMode::Read,
    }
}

// ── Operations ────────────────────────────────────────────────

pub open spec fn binop_op(op: BinOp, l: Seq<char>, r: Seq<char>) -> OpV {
    match op {
        BinOp::Add => OpV::Add(l, r),
        BinOp::Sub => OpV::Sub(l, r),
        BinOp::Mul => OpV::Mul(l, r),
        BinOp::Div => OpV::Div(l, r),
        BinOp::Rem => OpV::Rem(l, r),
        BinOp::Eq => OpV::CmpEq(l, r),
        BinOp::NotEq => OpV::CmpNeq(l, r),
        BinOp::Lt => OpV::CmpLt(l, r),
        BinOp::LtEq => OpV::CmpLe(l, r),
        BinOp::Gt => OpV::CmpGt(l, r),
        BinOp::GtEq => OpV::CmpGe(l, r),
        BinOp::And => OpV::And(l, r),
        BinOp::Or => OpV::Or(l, r),
        BinOp::Concat => OpV::Call { func: "__str_concat"@, args: seq![l, r] },
        BinOp::BitAnd => OpV::BitAnd(l, r),
        BinOp::BitOr => OpV::BitOr(l, r),
        BinOp::BitXor => OpV::BitXor(l, r),
        BinOp::Shl => OpV::Shl(l, r),
        BinOp::Shr => OpV::Shr(l, r),
    }
}

pub open spec fn unop_op(op: UnOp, v: Seq<char>) -> OpV {
    match op {
        UnOp::Not => OpV::Not(v),
        UnOp::Neg => OpV::Neg(v),
        UnOp::BitNot => OpV::BitNot(v),
        UnOp::Deref => OpV::Deref(v),
    }
}

/// A pattern that matches every value.
pub open spec fn always_matches(p: Pattern) -> bool {
    p is Wildcard || p is Else
}

// ── Expressions ───────────────────────────────────────────────

/// The SSA name holding the value of `e`, and the state after lowering it.
pub open spec fn low_e(st: LowV, e: Expr) -> (Seq<char>, LowV)
    decreases e, 0nat,
{
    let span = e.span;
    match e.kind {
        ExprKind::Int(v) => define(st, OpV::ConstInt(v), span),
        ExprKind::Float(v) => define(st, OpV::ConstFloat(v@), span),
        ExprKind::Bool(v) => define(st, OpV::ConstBool(v), span),
        ExprKind::Str(v) => define(st, OpV::ConstStr(v@), span),
        ExprKind::Ident(n) => define(st, OpV::Load(n@), span),
        ExprKind::BinOp { op, left, right } => {
            let (l, s1) = low_e(st, *left);
            let (r, s2) = low_e(s1, *right);
            define(s2, binop_op(op, l, r), span)
        },
        ExprKind::UnOp { op, expr } => {
            let (v, s1) = low_e(st, *expr);
            define(s1, unop_op(op, v), span)
        },
        ExprKind::Call { callee, args } => match callee.kind {
            ExprKind::Ident(n) => {
                let (vs, s1) = low_args(st, args@);
                define(s1, OpV::Call { func: n@, args: vs }, span)
            },
            // `obj.method(args)` is `method(obj, args)`.
            ExprKind::Field { base, field } => {
                let (b, s1) = low_e(st, *base);
                let (vs, s2) = low_args(s1, args@);
                define(s2, OpV::Call { func: field@, args: seq![b] + vs }, span)
            },
            _ => {
                let (vs, s1) = low_args(st, args@);
                define(s1, OpV::Call { func: "__unknown"@, args: vs }, span)
            },
        },
        // `left |> right(args)` is `right(left, args)`.
        ExprKind::Pipe { left, right } => {
            let (lv, s1) = low_e(st, *left);
            match right.kind {
                ExprKind::Call { callee, args } => {
                    let func = match callee.kind {
                        ExprKind::Ident(n) => n@,
                        _ => "__unknown"@,
                    };
                    let (vs, s2) = low_args(s1, args@);
                    define(s2, OpV::Call { func, args: seq![lv] + vs }, span)
                },
                ExprKind::Ident(n) => define(s1, OpV::Call { func: n@, args: seq![lv] }, span),
                _ => low_e(s1, *right),
            }
        },
        ExprKind::Field { base, field } => {
            let (b, s1) = low_e(st, *base);
            define(s1, OpV::Field { base: b, field: field@, struct_ty: None }, span)
        },
        ExprKind::Index { base, index } => {
            let (b, s1) = low_e(st, *base);
            let (i, s2) = low_e(s1, *index);
            define(s2, OpV::Index { base: b, index: i }, span)
        },
        ExprKind::Ref(inner) => {
            let (v, s1) = low_e(st, *inner);
            define(s1, OpV::Ref(v), span)
        },
        ExprKind::Deref(inner) => {
            let (v, s1) = low_e(st, *inner);
            define(s1, OpV::Deref(v), span)
        },
        // Unwrap, or leave the function with the error.
        ExprKind::OrReturn(inner) => {
            let (v, s1) = low_e(st, *inner);
            let (eb, s2) = fresh_label(s1);
            let (ok, s3) = fresh_name(s2);
            let s4 = emit(s3, Some(ok), OpV::UnwrapOk { val: v, err_block: eb }, span);
            let (cont, s5) = fresh_label(s4);
            let s6 = finish(s5, TermV::Jump(cont));
            let s7 = finish(start(s6, eb), TermV::Return(Some("__err"@)));
            (ok, start(s7, cont))
        },
        ExprKind::OrPanic(inner, _) => {
            let (v, s1) = low_e(st, *inner);
            let (eb, s2) = fresh_label(s1);
            let (ok, s3) = fresh_name(s2);
            let s4 = emit(s3, Some(ok), OpV::UnwrapOk { val: v, err_block: eb }, span);
            let (cont, s5) = fresh_label(s4);
            let s6 = finish(s5, TermV::Jump(cont));
            let s7 = finish(start(s6, eb), TermV::Unreachable);
            (ok, start(s7, cont))
        },
        ExprKind::OrElse(inner, default) => {
            let (v, s1) = low_e(st, *inner);
            let (db, s2) = fresh_label(s1);
            let (ok, s3) = fresh_name(s2);
            let s4 = emit(s3, Some(ok), OpV::UnwrapOk { val: v, err_block: db }, span);
            let (cont, s5) = fresh_label(s4);
            let s6 = start(finish(s5, TermV::Jump(cont)), db);
            let (dv, s7) = low_e(s6, *default);
            let s8 = finish(emit(s7, Some(ok), OpV::Load(dv), span), TermV::Jump(cont));
            (ok, start(s8, cont))
        },
        ExprKind::OrZero(inner) => low_or_zero(st, *inner, span),
        ExprKind::OrNil(inner) => low_or_zero(st, *inner, span),
        ExprKind::ResultCtor { variant, inner } => {
            let (v, s1) = low_e(st, *inner);
            define(
                s1,
                match variant {
                    ResultVariant::Success => OpV::WrapOk(v),
                    ResultVariant::Failure => OpV::WrapErr(v),
                },
                span,
            )
        },
        ExprKind::Cast { expr, ty } => {
            let (v, s1) = low_e(st, *expr);
            define(s1, OpV::Cast { val: v, ty: lty(ty) }, span)
        },
        ExprKind::StructLit { name, fields } => {
            let (fs, s1) = low_fields(st, fields@);
            define(s1, OpV::StructLit { ty: name@, fields: fs }, span)
        },
        ExprKind::ArrayLit(elems) => {
            let (vs, s1) = low_es(st, elems@);
            define(s1, OpV::ArrayLit(vs), span)
        },
        ExprKind::MatrixLit { elems, rows, cols } => {
            let (vs, s1) = low_es(st, elems@);
            define(s1, OpV::MatrixLit { elems: vs, rows, cols }, span)
        },
        ExprKind::AllocCall { allocator, elem_ty, count } => {
            let (a, s1) = low_e(st, *allocator);
            let (c, s2) = low_e(s1, *count);
            define(s2, OpV::AllocCall { allocator: a, elem_ty: lty(elem_ty), count: c }, span)
        },
        ExprKind::Asm { template, args } => {
            let (vs, s1) = low_es(st, args@);
            define(s1, OpV::Asm { template: template@, args: vs }, span)
        },
        ExprKind::Block(stmts) => define(low_ss(st, stmts@), OpV::Nop, span),
        ExprKind::If { cond, then, else_ } => {
            let (c, s1) = low_e(st, *cond);
            let (tl, s2) = fresh_label(s1);
            let (el, s3) = fresh_label(s2);
            let (ml, s4) = fresh_label(s3);
            let s5 = start(finish(s4, TermV::Branch { cond: c, then_block: tl, else_block: el }), tl);
            let (tv, s6) = low_e(s5, *then);
            let s7 = start(finish(s6, TermV::Jump(ml)), el);
            let s8 = match else_ {
                Some(x) => low_e(s7, *x).1,
                None => s7,
            };
            let s9 = start(finish(s8, TermV::Jump(ml)), ml);
            // The value is that of the `then` branch.
            define(s9, OpV::Load(tv), span)
        },
        ExprKind::Match { subject, arms } => {
            let (subj, s1) = low_e(st, *subject);
            let (ml, s2) = fresh_label(s1);
            let (res, s3) = fresh_name(s2);
            let s4 = low_arms(s3, arms@, arms.len() as nat, subj, ml, res, span);
            (res, start(s4, ml))
        },
    }
}

/// `inner.or_zero` / `inner.or_nil`: unwrap, or take 0.
pub open spec fn low_or_zero(st: LowV, inner: Expr, span: Span) -> (Seq<char>, LowV)
    decreases inner, 1nat,
{
    let (v, s1) = low_e(st, inner);
    let (zb, s2) = fresh_label(s1);
    let (ok, s3) = fresh_name(s2);
    let s4 = emit(s3, Some(ok), OpV::UnwrapOk { val: v, err_block: zb }, span);
    let (cont, s5) = fresh_label(s4);
    let s6 = start(finish(s5, TermV::Jump(cont)), zb);
    let s7 = finish(emit(s6, Some(ok), OpV::ConstInt(0), span), TermV::Jump(cont));
    (ok, start(s7, cont))
}

/// The arms `arms` of a match with `n` arms in all: each tests its pattern,
/// runs its body in a block of its own and stores the value in `res`.
pub open spec fn low_arms(
    st: LowV,
    arms: Seq<MatchArm>,
    n: nat,
    subj: Seq<char>,
    merge: Seq<char>,
    res: Seq<char>,
    span: Span,
) -> LowV
    decreases arms, 0nat,
{
    if arms.len() == 0 {
        st
    } else {
        let s0 = low_arms(st, arms.drop_last(), n, subj, merge, res, span);
        let arm = arms.last();
        let last = arms.len() >= n;
        let (al, s1) = fresh_label(s0);
        let (next, s2) = if last {
            (merge, s1)
        } else {
            fresh_label(s1)
        };
        let (cond, s3) = fresh_name(s2);
        let s4 = if always_matches(arm.pattern) {
            emit(s3, Some(cond), OpV::ConstBool(true), span)
        } else {
            emit(s3, Some(cond), OpV::Load(subj), span)
        };
        let s5 = start(finish(s4, TermV::Branch { cond, then_block: al, else_block: next }), al);
        let (v, s6) = low_e(s5, arm.body);
        let s7 = finish(emit(s6, Some(res), OpV::Load(v), span), TermV::Jump(merge));
        if last {
            s7
        } else {
            start(s7, next)
        }
    }
}

pub open spec fn low_args(st: LowV, args: Seq<Arg>) -> (Seq<Seq<char>>, LowV)
    decreases args, 0nat,
{
    if args.len() == 0 {
        (Seq::empty(), st)
    } else {
        let (vs, s1) = low_args(st, args.drop_last());
        let (v, s2) = low_e(s1, args.last().expr);
        (vs.push(v), s2)
    }
}

pub open spec fn low_es(st: LowV, es: Seq<Expr>) -> (Seq<Seq<char>>, LowV)
    decreases es, 0nat,
{
    if es.len() == 0 {
        (Seq::empty(), st)
    } else {
        let (vs, s1) = low_es(st, es.drop_last());
        let (v, s2) = low_e(s1, es.last());
        (vs.push(v), s2)
    }
}

pub open spec fn low_fields(st: LowV, fs: Seq<FieldInit>) -> (Seq<(Seq<char>, Seq<char>)>, LowV)
    decreases fs, 0nat,
{
    if fs.len() == 0 {
        (Seq::empty(), st)
    } else {
        let (vs, s1) = low_fields(st, fs.drop_last());
        let (v, s2) = low_e(s1, fs.last().expr);
        (vs.push((fs.last().name@, v)), s2)
    }
}

// ── Statements ────────────────────────────────────────────────

/// Lowers a loop body with `cont` / `brk` as the targets of `continue` / `break`.
pub open spec fn low_body(st: LowV, body: Seq<Stmt>, cont: Seq<char>, brk: Seq<char>) -> LowV
    decreases body, 1nat,
{
    let s = low_ss(LowV { loops: st.loops.push((cont, brk)), ..st }, body);
    LowV { loops: st.loops, ..s }
}

pub open spec fn low_s(st: LowV, s: Stmt) -> LowV
    decreases s, 0nat,
{
    match s.kind {
        StmtKind::Let { name, init, .. } => {
            let (v, s1) = low_e(st, init);
            emit(s1, Some(name@), OpV::Load(v), s.span)
        },
        StmtKind::Var { name, init, .. } => {
            let (v, s1) = low_e(st, init);
            emit(s1, Some(name@), OpV::Load(v), s.span)
        },
        StmtKind::Assign { target, value } => {
            let (src, s1) = low_e(st, value);
            match target.kind {
                ExprKind::Ident(d) => emit(s1, None, OpV::Store { dest: d@, src }, s.span),
                _ => s1,
            }
        },
        StmtKind::Return(e) => {
            let (v, s1) = match e {
                Some(x) => {
                    let (n, s1) = low_e(st, x);
                    (Some(n), s1)
                },
                None => (None, st),
            };
            // Later statements go to a block that nothing jumps to.
            let (dead, s2) = fresh_label(finish(s1, TermV::Return(v)));
            start(s2, dead)
        },
        StmtKind::Defer(e) => low_e(st, e).1,
        StmtKind::Expr(e) => low_e(st, e).1,
        StmtKind::For { binding, iter, body } => {
            let (it, s1) = low_e(st, iter);
            let (ll, s2) = fresh_label(s1);
            let (bl, s3) = fresh_label(s2);
            let (al, s4) = fresh_label(s3);
            let s5 = start(finish(s4, TermV::Jump(ll)), ll);
            let (c, s6) = fresh_name(s5);
            let s7 = emit(s6, Some(c), OpV::Load(it), s.span);
            let s8 = start(finish(s7, TermV::Branch { cond: c, then_block: bl, else_block: al }), bl);
            let s9 = emit(s8, Some(binding@), OpV::Load(c), s.span);
            let s10 = low_body(s9, body@, ll, al);
            start(finish(s10, TermV::Jump(ll)), al)
        },
        StmtKind::While { cond, body } => {
            let (cl, s1) = fresh_label(st);
            let (bl, s2) = fresh_label(s1);
            let (al, s3) = fresh_label(s2);
            let s4 = start(finish(s3, TermV::Jump(cl)), cl);
            let (c, s5) = low_e(s4, cond);
            let s6 = start(finish(s5, TermV::Branch { cond: c, then_block: bl, else_block: al }), bl);
            let s7 = low_body(s6, body@, cl, al);
            start(finish(s7, TermV::Jump(cl)), al)
        },
        StmtKind::Loop(body) => {
            let (ll, s1) = fresh_label(st);
            let (al, s2) = fresh_label(s1);
            let s3 = start(finish(s2, TermV::Jump(ll)), ll);
            let s4 = low_body(s3, body@, ll, al);
            start(finish(s4, TermV::Jump(ll)), al)
        },
        // Outside a loop `break` and `continue` lower to nothing.
        StmtKind::Break => if st.loops.len() > 0 {
            let (dead, s1) = fresh_label(finish(st, TermV::Jump(st.loops.last().1)));
            start(s1, dead)
        } else {
            st
        },
        StmtKind::Continue => if st.loops.len() > 0 {
            let (dead, s1) = fresh_label(finish(st, TermV::Jump(st.loops.last().0)));
            start(s1, dead)
        } else {
            st
        },
    }
}

pub open spec fn low_ss(st: LowV, ss: Seq<Stmt>) -> LowV
    decreases ss, 0nat,
{
    if ss.len() == 0 {
        st
    } else {
        low_s(low_ss(st, ss.drop_last()), ss.last())
    }
}

// ── Functions and files ───────────────────────────────────────

pub open spec fn lparams(ps: Seq<Param>) -> Seq<ParamV> {
    ps.map_values(|p: Param| ParamV { name: p.name@, ty: lty(p.ty), mode: lmode(p.mode) })
}

/// A function body lowered from a fresh start and closed with a bare return;
/// its blocks are handed to the function.
pub open spec fn low_body_fn(st: LowV, name: Seq<char>, params: Seq<ParamV>, ret: IrTyV, body: Seq<Stmt>) -> (FuncV, LowV) {
    let s1 = finish(low_ss(reset(st), body), TermV::Return(None));
    (FuncV { name, params, ret, blocks: s1.blocks }, LowV { blocks: Seq::empty(), ..s1 })
}

pub open spec fn low_fn(st: LowV, f: FnDef) -> (FuncV, LowV) {
    low_body_fn(st, f.name@, lparams(f.params@), lty(f.ret), f.body@)
}

/// The functions of the definition zone, in order.
pub open spec fn low_items(st: LowV, items: Seq<Item>) -> (Seq<FuncV>, LowV)
    decreases items.len(),
{
    if items.len() == 0 {
        (Seq::empty(), st)
    } else {
        let (fs, s1) = low_items(st, items.drop_last());
        match items.last().kind {
            ItemKind::Fn(f) => {
                let (g, s2) = low_fn(s1, f);
                (fs.push(g), s2)
            },
            _ => (fs, s1),
        }
    }
}

/// The functions of a file: those of the definition zone, then `__main`
/// holding the algorithm zone when it is not empty.
pub open spec fn low_file(st: LowV, file: SourceFile) -> (Seq<FuncV>, LowV) {
    let (fs, s1) = low_items(st, file.def_zone@);
    if file.alg_zone.len() > 0 {
        let (m, s2) = low_body_fn(s1, "__main"@, Seq::empty(), IrTyV::Void, file.alg_zone@);
        (fs.push(m), s2)
    } else {
        (fs, s1)
    }
}

/// The struct layouts of the definition zone: name and field names.
pub open spec fn struct_layouts(items: Seq<Item>) -> Seq<(Seq<char>, Seq<Seq<char>>)>
    decreases items.len(),
{
    if items.len() == 0 {
        Seq::empty()
    } else {
        let ls = struct_layouts(items.drop_last());
        match items.last().kind {
            ItemKind::Type(t) => ls.push((t.name@, t.fields@.map_values(|f: crate::ast::FieldDef| f.name@))),
            _ => ls,
        }
    }
}

/// The enum layouts of the definition zone: name and variant names.
pub open spec fn enum_layouts(items: Seq<Item>) -> Seq<(Seq<char>, Seq<Seq<char>>)>
    decreases items.len(),
{
    if items.len() == 0 {
        Seq::empty()
    } else {
        let ls = enum_layouts(items.drop_last());
        match items.last().kind {
            ItemKind::Enum(e) => ls.push((e.name@, e.variants@.map_values(|v: crate::ast::EnumVariant| v.name@))),
            _ => ls,
        }
    }
}

} // verus!

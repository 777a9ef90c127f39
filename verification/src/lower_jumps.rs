//! Where the jumps of lowered code go: the labels that terminators name, the
//! labels that blocks carry, and how each lowering step keeps every jump
//! aimed at a block that exists once the function is complete.
use vstd::prelude::*;
use crate::ast::{Arg, Expr, ExprKind, FieldInit, Item, ItemKind, MatchArm, SourceFile, Stmt, StmtKind};
use crate::ir::{BlockV, InstrV, IrTyV, OpV, ParamV, TermV};
use crate::token::Span;
use crate::lower_spec::{
    LowV, always_matches, define, emit, finish, fresh_label, fresh_name, low_args, low_arms, low_body, low_body_fn, low_e, low_es,
    low_fields, low_file, low_fn, low_items, low_or_zero, low_s, low_ss, reset, start,
};

verus! {

/// `t` transfers control to the block labelled `l`.
pub open spec fn jumps_to(t: TermV, l: Seq<char>) -> bool {
    match t {
        TermV::Jump(x) => x == l,
        TermV::Branch { then_block, else_block, .. } => then_block == l || else_block == l,
        _ => false,
    }
}

/// An instruction with operation `op` leaves for the block labelled `l` when
/// the value it unwraps is an error.
pub open spec fn op_leaves_for(op: OpV, l: Seq<char>) -> bool {
    match op {
        OpV::UnwrapOk { err_block, .. } => err_block == l,
        _ => false,
    }
}

/// Some instruction of `is` may leave for `l`.
pub open spec fn open_target(is: Seq<InstrV>, l: Seq<char>) -> bool {
    exists|k: int| #![trigger is[k]] 0 <= k < is.len() && op_leaves_for(is[k].op, l)
}

/// `b` ends with a jump to `l`, or holds an instruction that may leave for `l`.
pub open spec fn block_jumps_to(b: BlockV, l: Seq<char>) -> bool {
    jumps_to(b.term, l) || open_target(b.instrs, l)
}

/// The labels that an instruction with operation `op` may leave for.
pub open spec fn op_targets(op: OpV) -> Set<Seq<char>> {
    Set::new(|l: Seq<char>| op_leaves_for(op, l))
}

/// The labels that `t` transfers control to.
pub open spec fn term_targets(t: TermV) -> Set<Seq<char>> {
    Set::new(|l: Seq<char>| jumps_to(t, l))
}

/// Some block of `bs` is labelled `l`.
pub open spec fn has_label(bs: Seq<BlockV>, l: Seq<char>) -> bool {
    exists|i: int| #![trigger bs[i]] 0 <= i < bs.len() && bs[i].label == l
}

/// Some block of `bs` may leave for `l`.
pub open spec fn has_target(bs: Seq<BlockV>, l: Seq<char>) -> bool {
    exists|i: int| #![trigger bs[i]] 0 <= i < bs.len() && block_jumps_to(bs[i], l)
}

/// Every jump in `bs`, by a terminator or by an instruction that unwraps a
/// result, goes to a block of `bs`.
pub open spec fn jumps_named(bs: Seq<BlockV>) -> bool {
    forall|i: int, l: Seq<char>|
        0 <= i < bs.len() && #[trigger] block_jumps_to(bs[i], l) ==> exists|j: int| 0 <= j < bs.len() && #[trigger] bs[j].label == l
}

/// `l` is the `continue` or `break` target of one of the loops `ls`.
pub open spec fn in_loops(ls: Seq<(Seq<char>, Seq<char>)>, l: Seq<char>) -> bool {
    exists|i: int| #![trigger ls[i]] 0 <= i < ls.len() && (ls[i].0 == l || ls[i].1 == l)
}

/// The part of the lowering state that blocks and jumps depend on.
pub struct Shape {
    pub blocks: Seq<BlockV>,
    pub instrs: Seq<InstrV>,
    pub label: Seq<char>,
    pub loops: Seq<(Seq<char>, Seq<char>)>,
}

pub open spec fn shape(s: LowV) -> Shape {
    Shape { blocks: s.blocks, instrs: s.instrs, label: s.label, loops: s.loops }
}

/// A finished block, or the open one, may leave for `l`.
pub open spec fn any_target(s: Shape, l: Seq<char>) -> bool {
    has_target(s.blocks, l) || open_target(s.instrs, l)
}

/// `l` labels a finished block or the open one.
pub open spec fn is_lab(s: Shape, l: Seq<char>) -> bool {
    has_label(s.blocks, l) || s.label == l
}

/// Going from `a` to `b` only appends blocks, keeps the loops, keeps every
/// label of `a`, and each new jump goes to a label of `b`, to a loop target
/// of `a`, or to one of `pending`.
#[verifier::opaque]
pub open spec fn grows(a: Shape, b: Shape, pending: Set<Seq<char>>) -> bool {
    &&& a.blocks.len() <= b.blocks.len()
    &&& forall|i: int| 0 <= i < a.blocks.len() ==> #[trigger] b.blocks[i] == a.blocks[i]
    &&& b.loops == a.loops
    &&& is_lab(b, a.label)
    &&& forall|l: Seq<char>| #[trigger] any_target(b, l) ==> any_target(a, l) || is_lab(b, l)
        || in_loops(a.loops, l) || pending.contains(l)
}

pub proof fn lemma_refl(a: Shape, x: Set<Seq<char>>)
    ensures
        grows(a, a, x),
{
    reveal(grows);
}

pub proof fn lemma_loops_kept(a: Shape, b: Shape, x: Set<Seq<char>>)
    requires
        grows(a, b, x),
    ensures
        b.loops == a.loops,
{
    reveal(grows);
}

pub proof fn lemma_trans(a: Shape, b: Shape, c: Shape, x: Set<Seq<char>>, y: Set<Seq<char>>)
    requires
        grows(a, b, x),
        grows(b, c, y),
    ensures
        grows(a, c, x + y),
        forall|l: Seq<char>| #[trigger] is_lab(b, l) ==> is_lab(c, l),
{
    reveal(grows);
    assert forall|l: Seq<char>| #[trigger] is_lab(b, l) implies is_lab(c, l) by {
        if has_label(b.blocks, l) {
            let i = choose|i: int| #![trigger b.blocks[i]] 0 <= i < b.blocks.len() && b.blocks[i].label == l;
            assert(c.blocks[i] == b.blocks[i]);
        }
    }
    assert forall|l: Seq<char>| #[trigger] is_lab(a, l) implies is_lab(c, l) by {
        if has_label(a.blocks, l) {
            let i = choose|i: int| #![trigger a.blocks[i]] 0 <= i < a.blocks.len() && a.blocks[i].label == l;
            assert(b.blocks[i] == a.blocks[i]);
            assert(c.blocks[i] == b.blocks[i]);
        }
    }
    assert(is_lab(b, a.label));
    assert forall|l: Seq<char>| #[trigger] any_target(c, l) implies any_target(a, l) || is_lab(c, l)
        || in_loops(a.loops, l) || (x + y).contains(l) by {
        if any_target(b, l) {
            if !any_target(a, l) && !in_loops(a.loops, l) && !x.contains(l) {
                assert(is_lab(b, l));
            }
        }
    }
}

/// Pending targets that have become labels, or loop targets, are settled;
/// those of `y` stay pending.
pub proof fn lemma_settle(a: Shape, c: Shape, x: Set<Seq<char>>, y: Set<Seq<char>>)
    requires
        grows(a, c, x),
        forall|l: Seq<char>| #[trigger] x.contains(l) ==> is_lab(c, l) || in_loops(a.loops, l) || y.contains(l),
    ensures
        grows(a, c, y),
{
    reveal(grows);
}

pub proof fn lemma_finish(a: LowV, t: TermV)
    ensures
        grows(shape(a), shape(finish(a, t)), term_targets(t)),
        has_label(finish(a, t).blocks, a.label),
{
    reveal(grows);
    let b = finish(a, t);
    let n = a.blocks.len() as int;
    assert(b.blocks[n].label == a.label);
    assert forall|l: Seq<char>| #[trigger] any_target(shape(b), l) implies any_target(shape(a), l) || is_lab(shape(b), l)
        || in_loops(a.loops, l) || term_targets(t).contains(l) by {
        if has_target(b.blocks, l) {
            let i = choose|i: int| #![trigger b.blocks[i]] 0 <= i < b.blocks.len() && block_jumps_to(b.blocks[i], l);
            if i < n {
                assert(a.blocks[i] == b.blocks[i]);
            }
        }
    }
}

pub proof fn lemma_start(a: LowV, l: Seq<char>)
    requires
        has_label(a.blocks, a.label),
    ensures
        grows(shape(a), shape(start(a, l)), Set::empty()),
        is_lab(shape(start(a, l)), l),
{
    reveal(grows);
}

/// Closing the open block with `t`, then opening one labelled `l`.
pub proof fn lemma_close_open(a: LowV, t: TermV, l: Seq<char>)
    ensures
        grows(shape(a), shape(start(finish(a, t), l)), term_targets(t)),
        is_lab(shape(start(finish(a, t), l)), l),
{
    lemma_finish(a, t);
    lemma_start(finish(a, t), l);
    lemma_trans(shape(a), shape(finish(a, t)), shape(start(finish(a, t), l)), term_targets(t), Set::empty());
    assert(term_targets(t) + Set::empty() =~= term_targets(t));
}

/// Appending an instruction to the open block.
pub proof fn lemma_emit(a: LowV, d: Option<Seq<char>>, op: OpV, span: Span)
    ensures
        grows(shape(a), shape(emit(a, d, op, span)), op_targets(op)),
{
    reveal(grows);
    let b = emit(a, d, op, span);
    assert forall|l: Seq<char>| #[trigger] any_target(shape(b), l) implies any_target(shape(a), l) || is_lab(shape(b), l)
        || in_loops(a.loops, l) || op_targets(op).contains(l) by {
        if open_target(b.instrs, l) {
            let k = choose|k: int| #![trigger b.instrs[k]] 0 <= k < b.instrs.len() && op_leaves_for(b.instrs[k].op, l);
            if k < a.instrs.len() {
                assert(a.instrs[k] == b.instrs[k]);
            }
        }
    }
}

/// An instruction that cannot leave the block.
pub proof fn lemma_emit_plain(a: LowV, d: Option<Seq<char>>, op: OpV, span: Span)
    requires
        !(op is UnwrapOk),
    ensures
        grows(shape(a), shape(emit(a, d, op, span)), Set::empty()),
{
    lemma_emit(a, d, op, span);
    lemma_settle(shape(a), shape(emit(a, d, op, span)), op_targets(op), Set::empty());
}

/// A fresh value defined by an operation that cannot leave the block.
pub proof fn lemma_define(s: LowV)
    ensures
        forall|op: OpV, span: Span| !(op is UnwrapOk) ==> grows(shape(s), shape(#[trigger] define(s, op, span).1), Set::empty()),
{
    assert forall|op: OpV, span: Span| !(op is UnwrapOk) implies grows(shape(s), shape(#[trigger] define(s, op, span).1), Set::empty()) by {
        let (d, s1) = fresh_name(s);
        lemma_emit_plain(s1, Some(d), op, span);
    }
}

/// Two steps that leave nothing pending.
pub proof fn lemma_seq(a: Shape, b: Shape, c: Shape)
    requires
        grows(a, b, Set::empty()),
        grows(b, c, Set::empty()),
    ensures
        grows(a, c, Set::empty()),
        forall|l: Seq<char>| #[trigger] is_lab(b, l) ==> is_lab(c, l),
{
    lemma_trans(a, b, c, Set::empty(), Set::empty());
    lemma_settle(a, c, Set::<Seq<char>>::empty() + Set::empty(), Set::empty());
}

/// A loop body runs with one more loop; afterwards the loops are restored.
pub proof fn lemma_loop_frame(st: LowV, s: LowV, cont: Seq<char>, brk: Seq<char>)
    requires
        grows(shape(LowV { loops: st.loops.push((cont, brk)), ..st }), shape(s), Set::empty()),
    ensures
        grows(shape(st), shape(LowV { loops: st.loops, ..s }), set![cont, brk]),
{
    reveal(grows);
    let inner = LowV { loops: st.loops.push((cont, brk)), ..st };
    let r = LowV { loops: st.loops, ..s };
    assert forall|l: Seq<char>| #[trigger] any_target(shape(r), l) implies any_target(shape(st), l) || is_lab(shape(r), l)
        || in_loops(st.loops, l) || set![cont, brk].contains(l) by {
        assert(any_target(shape(s), l));
        if any_target(shape(inner), l) {
            assert(any_target(shape(st), l));
        }
        if in_loops(inner.loops, l) {
            let i = choose|i: int| #![trigger inner.loops[i]] 0 <= i < inner.loops.len() && (inner.loops[i].0 == l || inner.loops[i].1 == l);
            if i < st.loops.len() {
                assert(inner.loops[i] == st.loops[i]);
            }
        }
    }
}

// ── Code without an empty `match` ─────────────────────────────

/// No `match` with no arms is lowered as part of `e`.
pub open spec fn arms_present(e: Expr) -> bool
    decreases e, 0nat,
{
    match e.kind {
        ExprKind::BinOp { left, right, .. } => arms_present(*left) && arms_present(*right),
        ExprKind::UnOp { expr, .. } => arms_present(*expr),
        ExprKind::Call { callee, args } => match callee.kind {
            ExprKind::Field { base, .. } => arms_present(*base) && arms_present_args(args@),
            _ => arms_present_args(args@),
        },
        ExprKind::Pipe { left, right } => arms_present(*left) && match right.kind {
            ExprKind::Call { args, .. } => arms_present_args(args@),
            ExprKind::Ident(_) => true,
            _ => arms_present(*right),
        },
        ExprKind::Field { base, .. } => arms_present(*base),
        ExprKind::Index { base, index } => arms_present(*base) && arms_present(*index),
        ExprKind::Ref(inner) => arms_present(*inner),
        ExprKind::Deref(inner) => arms_present(*inner),
        ExprKind::OrReturn(inner) => arms_present(*inner),
        ExprKind::OrPanic(inner, _) => arms_present(*inner),
        ExprKind::OrElse(inner, default) => arms_present(*inner) && arms_present(*default),
        ExprKind::OrZero(inner) => arms_present(*inner),
        ExprKind::OrNil(inner) => arms_present(*inner),
        ExprKind::ResultCtor { inner, .. } => arms_present(*inner),
        ExprKind::Cast { expr, .. } => arms_present(*expr),
        ExprKind::StructLit { fields, .. } => arms_present_fields(fields@),
        ExprKind::ArrayLit(elems) => arms_present_es(elems@),
        ExprKind::MatrixLit { elems, .. } => arms_present_es(elems@),
        ExprKind::AllocCall { allocator, count, .. } => arms_present(*allocator) && arms_present(*count),
        ExprKind::Asm { args, .. } => arms_present_es(args@),
        ExprKind::Block(stmts) => arms_present_ss(stmts@),
        ExprKind::If { cond, then, else_ } => arms_present(*cond) && arms_present(*then) && match else_ {
            Some(x) => arms_present(*x),
            None => true,
        },
        ExprKind::Match { subject, arms } => arms@.len() > 0 && arms_present(*subject) && arms_present_arms(arms@),
        _ => true,
    }
}

pub open spec fn arms_present_arms(arms: Seq<MatchArm>) -> bool
    decreases arms, 0nat,
{
    arms.len() == 0 || (arms_present_arms(arms.drop_last()) && arms_present(arms.last().body))
}

pub open spec fn arms_present_args(args: Seq<Arg>) -> bool
    decreases args, 0nat,
{
    args.len() == 0 || (arms_present_args(args.drop_last()) && arms_present(args.last().expr))
}

pub open spec fn arms_present_es(es: Seq<Expr>) -> bool
    decreases es, 0nat,
{
    es.len() == 0 || (arms_present_es(es.drop_last()) && arms_present(es.last()))
}

pub open spec fn arms_present_fields(fs: Seq<FieldInit>) -> bool
    decreases fs, 0nat,
{
    fs.len() == 0 || (arms_present_fields(fs.drop_last()) && arms_present(fs.last().expr))
}

/// No `match` with no arms is lowered as part of `s`.
pub open spec fn arms_present_s(s: Stmt) -> bool
    decreases s, 0nat,
{
    match s.kind {
        StmtKind::Let { init, .. } => arms_present(init),
        StmtKind::Var { init, .. } => arms_present(init),
        StmtKind::Assign { value, .. } => arms_present(value),
        StmtKind::Return(e) => match e {
            Some(x) => arms_present(x),
            None => true,
        },
        StmtKind::Defer(e) => arms_present(e),
        StmtKind::Expr(e) => arms_present(e),
        StmtKind::For { iter, body, .. } => arms_present(iter) && arms_present_ss(body@),
        StmtKind::While { cond, body } => arms_present(cond) && arms_present_ss(body@),
        StmtKind::Loop(body) => arms_present_ss(body@),
        _ => true,
    }
}

/// No `match` with no arms is lowered in the function bodies of `items`.
pub open spec fn arms_present_items(items: Seq<Item>) -> bool {
    forall|k: int| 0 <= k < items.len() ==> match #[trigger] items[k].kind {
        ItemKind::Fn(f) => arms_present_ss(f.body@),
        _ => true,
    }
}

/// No `match` with no arms is lowered anywhere in `file`.
pub open spec fn arms_present_file(file: SourceFile) -> bool {
    arms_present_items(file.def_zone@) && arms_present_ss(file.alg_zone@)
}

pub open spec fn arms_present_ss(ss: Seq<Stmt>) -> bool
    decreases ss, 0nat,
{
    ss.len() == 0 || (arms_present_ss(ss.drop_last()) && arms_present_s(ss.last()))
}

// ── Each lowering step keeps the jumps aimed at blocks ─────────

#[verifier::rlimit(60)]
#[verifier::spinoff_prover]
pub proof fn lemma_low_e(st: LowV, e: Expr)
    requires
        arms_present(e),
    ensures
        grows(shape(st), shape(low_e(st, e).1), Set::empty()),
    decreases e, 0nat,
{
    let span = e.span;
    let none = Set::<Seq<char>>::empty();
    let fin = low_e(st, e).1;
    match e.kind {
        ExprKind::BinOp { op, left, right } => {
            let s1 = low_e(st, *left).1;
            let s2 = low_e(s1, *right).1;
            lemma_low_e(st, *left);
            lemma_low_e(s1, *right);
            lemma_seq(shape(st), shape(s1), shape(s2));
            lemma_define(s2);
            lemma_seq(shape(st), shape(s2), shape(fin));
        },
        ExprKind::UnOp { op, expr } => {
            let s1 = low_e(st, *expr).1;
            lemma_low_e(st, *expr);
            lemma_define(s1);
            lemma_seq(shape(st), shape(s1), shape(fin));
        },
        ExprKind::Call { callee, args } => match callee.kind {
            ExprKind::Field { base, field } => {
                let s1 = low_e(st, *base).1;
                let s2 = low_args(s1, args@).1;
                lemma_low_e(st, *base);
                lemma_low_args(s1, args@);
                lemma_seq(shape(st), shape(s1), shape(s2));
                lemma_define(s2);
                lemma_seq(shape(st), shape(s2), shape(fin));
            },
            _ => {
                let s1 = low_args(st, args@).1;
                lemma_low_args(st, args@);
                lemma_define(s1);
                lemma_seq(shape(st), shape(s1), shape(fin));
            },
        },
        ExprKind::Pipe { left, right } => {
            let s1 = low_e(st, *left).1;
            lemma_low_e(st, *left);
            match right.kind {
                ExprKind::Call { callee, args } => {
                    let s2 = low_args(s1, args@).1;
                    lemma_low_args(s1, args@);
                    lemma_seq(shape(st), shape(s1), shape(s2));
                    lemma_define(s2);
                    lemma_seq(shape(st), shape(s2), shape(fin));
                },
                ExprKind::Ident(n) => {
                    lemma_define(s1);
                    lemma_seq(shape(st), shape(s1), shape(fin));
                },
                _ => {
                    lemma_low_e(s1, *right);
                    lemma_seq(shape(st), shape(s1), shape(fin));
                },
            }
        },
        ExprKind::Field { base, field } => {
            let s1 = low_e(st, *base).1;
            lemma_low_e(st, *base);
            lemma_define(s1);
            lemma_seq(shape(st), shape(s1), shape(fin));
        },
        ExprKind::Index { base, index } => {
            let s1 = low_e(st, *base).1;
            let s2 = low_e(s1, *index).1;
            lemma_low_e(st, *base);
            lemma_low_e(s1, *index);
            lemma_seq(shape(st), shape(s1), shape(s2));
            lemma_define(s2);
            lemma_seq(shape(st), shape(s2), shape(fin));
        },
        ExprKind::Ref(inner) => {
            let s1 = low_e(st, *inner).1;
            lemma_low_e(st, *inner);
            lemma_define(s1);
            lemma_seq(shape(st), shape(s1), shape(fin));
        },
        ExprKind::Deref(inner) => {
            let s1 = low_e(st, *inner).1;
            lemma_low_e(st, *inner);
            lemma_define(s1);
            lemma_seq(shape(st), shape(s1), shape(fin));
        },
        ExprKind::OrReturn(inner) => {
            lemma_unwrap_or_leave(st, *inner, span, TermV::Return(Some("__err"@)));
        },
        ExprKind::OrPanic(inner, _) => {
            lemma_unwrap_or_leave(st, *inner, span, TermV::Unreachable);
        },
        ExprKind::OrElse(inner, default) => {
            let (v, s1) = low_e(st, *inner);
            let (db, s2) = fresh_label(s1);
            let (ok, s3) = fresh_name(s2);
            let u = OpV::UnwrapOk { val: v, err_block: db };
            let s4 = emit(s3, Some(ok), u, span);
            let (cont, s5) = fresh_label(s4);
            let j = TermV::Jump(cont);
            let s6 = start(finish(s5, j), db);
            let (dv, s7) = low_e(s6, *default);
            let s7e = emit(s7, Some(ok), OpV::Load(dv), span);
            let s8 = finish(s7e, j);
            let r = start(s8, cont);
            lemma_low_e(st, *inner);
            lemma_emit(s3, Some(ok), u, span);
            lemma_close_open(s5, j, db);
            lemma_low_e(s6, *default);
            lemma_emit_plain(s7, Some(ok), OpV::Load(dv), span);
            lemma_finish(s7e, j);
            lemma_start(s8, cont);
            let x1 = none + op_targets(u);
            let x2 = x1 + term_targets(j);
            lemma_trans(shape(st), shape(s3), shape(s4), none, op_targets(u));
            lemma_trans(shape(st), shape(s5), shape(s6), x1, term_targets(j));
            lemma_trans(shape(st), shape(s6), shape(s7), x2, none);
            lemma_trans(shape(st), shape(s7), shape(s7e), x2 + none, none);
            lemma_trans(shape(st), shape(s7e), shape(s8), x2 + none + none, term_targets(j));
            lemma_trans(shape(st), shape(s8), shape(r), x2 + none + none + term_targets(j), none);
            lemma_settle(shape(st), shape(r), x2 + none + none + term_targets(j) + none, none);
        },
        ExprKind::OrZero(inner) => {
            lemma_low_or_zero(st, *inner, span);
        },
        ExprKind::OrNil(inner) => {
            lemma_low_or_zero(st, *inner, span);
        },
        ExprKind::ResultCtor { variant, inner } => {
            let s1 = low_e(st, *inner).1;
            lemma_low_e(st, *inner);
            lemma_define(s1);
            lemma_seq(shape(st), shape(s1), shape(fin));
        },
        ExprKind::Cast { expr, ty } => {
            let s1 = low_e(st, *expr).1;
            lemma_low_e(st, *expr);
            lemma_define(s1);
            lemma_seq(shape(st), shape(s1), shape(fin));
        },
        ExprKind::StructLit { name, fields } => {
            let s1 = low_fields(st, fields@).1;
            lemma_low_fields(st, fields@);
            lemma_define(s1);
            lemma_seq(shape(st), shape(s1), shape(fin));
        },
        ExprKind::ArrayLit(elems) => {
            let s1 = low_es(st, elems@).1;
            lemma_low_es(st, elems@);
            lemma_define(s1);
            lemma_seq(shape(st), shape(s1), shape(fin));
        },
        ExprKind::MatrixLit { elems, rows, cols } => {
            let s1 = low_es(st, elems@).1;
            lemma_low_es(st, elems@);
            lemma_define(s1);
            lemma_seq(shape(st), shape(s1), shape(fin));
        },
        ExprKind::AllocCall { allocator, elem_ty, count } => {
            let s1 = low_e(st, *allocator).1;
            let s2 = low_e(s1, *count).1;
            lemma_low_e(st, *allocator);
            lemma_low_e(s1, *count);
            lemma_seq(shape(st), shape(s1), shape(s2));
            lemma_define(s2);
            lemma_seq(shape(st), shape(s2), shape(fin));
        },
        ExprKind::Asm { template, args } => {
            let s1 = low_es(st, args@).1;
            lemma_low_es(st, args@);
            lemma_define(s1);
            lemma_seq(shape(st), shape(s1), shape(fin));
        },
        ExprKind::Block(stmts) => {
            let s1 = low_ss(st, stmts@);
            lemma_low_ss(st, stmts@);
            lemma_define(s1);
            lemma_seq(shape(st), shape(s1), shape(fin));
        },
        ExprKind::If { cond, then, else_ } => {
            let (c, s1) = low_e(st, *cond);
            let (tl, s2) = fresh_label(s1);
            let (el, s3) = fresh_label(s2);
            let (ml, s4) = fresh_label(s3);
            let br = TermV::Branch { cond: c, then_block: tl, else_block: el };
            let j = TermV::Jump(ml);
            let s5 = start(finish(s4, br), tl);
            let (tv, s6) = low_e(s5, *then);
            let s7 = start(finish(s6, j), el);
            let s8 = match else_ {
                Some(x) => low_e(s7, *x).1,
                None => s7,
            };
            let s9 = start(finish(s8, j), ml);
            lemma_low_e(st, *cond);
            lemma_close_open(s4, br, tl);
            lemma_low_e(s5, *then);
            lemma_close_open(s6, j, el);
            match else_ {
                Some(x) => lemma_low_e(s7, *x),
                None => lemma_refl(shape(s7), none),
            }
            lemma_close_open(s8, j, ml);
            let x1 = none + term_targets(br);
            let x2 = x1 + none;
            let x3 = x2 + term_targets(j);
            let x4 = x3 + none;
            lemma_trans(shape(st), shape(s4), shape(s5), none, term_targets(br));
            lemma_trans(shape(st), shape(s5), shape(s6), x1, none);
            lemma_trans(shape(st), shape(s6), shape(s7), x2, term_targets(j));
            lemma_trans(shape(st), shape(s7), shape(s8), x3, none);
            lemma_trans(shape(st), shape(s8), shape(s9), x4, term_targets(j));
            lemma_settle(shape(st), shape(s9), x4 + term_targets(j), none);
            lemma_define(s9);
            lemma_seq(shape(st), shape(s9), shape(fin));
        },
        ExprKind::Match { subject, arms } => {
            let (subj, s1) = low_e(st, *subject);
            let (ml, s2) = fresh_label(s1);
            let (res, s3) = fresh_name(s2);
            let s4 = low_arms(s3, arms@, arms.len() as nat, subj, ml, res, span);
            let r = start(s4, ml);
            lemma_low_e(st, *subject);
            lemma_low_arms(s3, arms@, arms.len() as nat, subj, ml, res, span);
            lemma_start(s4, ml);
            lemma_trans(shape(st), shape(s3), shape(s4), none, set![ml]);
            lemma_trans(shape(st), shape(s4), shape(r), none + set![ml], none);
            lemma_settle(shape(st), shape(r), none + set![ml] + none, none);
        },
        _ => {
            lemma_define(st);
        },
    }
}

/// `inner.or_return` and `inner.or_panic`: unwrap, or leave through a block
/// that ends with `t`.
pub proof fn lemma_unwrap_or_leave(st: LowV, inner: Expr, span: Span, t: TermV)
    requires
        arms_present(inner),
        forall|l: Seq<char>| !jumps_to(t, l),
    ensures
        ({
            let (v, s1) = low_e(st, inner);
            let (eb, s2) = fresh_label(s1);
            let (ok, s3) = fresh_name(s2);
            let s4 = emit(s3, Some(ok), OpV::UnwrapOk { val: v, err_block: eb }, span);
            let (cont, s5) = fresh_label(s4);
            let s6 = finish(s5, TermV::Jump(cont));
            let s7 = finish(start(s6, eb), t);
            grows(shape(st), shape(start(s7, cont)), Set::empty())
        }),
    decreases inner, 1nat,
{
    let none = Set::<Seq<char>>::empty();
    let (v, s1) = low_e(st, inner);
    let (eb, s2) = fresh_label(s1);
    let (ok, s3) = fresh_name(s2);
    let u = OpV::UnwrapOk { val: v, err_block: eb };
    let s4 = emit(s3, Some(ok), u, span);
    let (cont, s5) = fresh_label(s4);
    let j = TermV::Jump(cont);
    let s6 = start(finish(s5, j), eb);
    let r = start(finish(s6, t), cont);
    lemma_low_e(st, inner);
    lemma_emit(s3, Some(ok), u, span);
    lemma_close_open(s5, j, eb);
    lemma_close_open(s6, t, cont);
    let x1 = none + op_targets(u);
    let x2 = x1 + term_targets(j);
    lemma_trans(shape(st), shape(s3), shape(s4), none, op_targets(u));
    lemma_trans(shape(st), shape(s5), shape(s6), x1, term_targets(j));
    lemma_trans(shape(st), shape(s6), shape(r), x2, term_targets(t));
    lemma_settle(shape(st), shape(r), x2 + term_targets(t), none);
}

pub proof fn lemma_low_or_zero(st: LowV, inner: Expr, span: Span)
    requires
        arms_present(inner),
    ensures
        grows(shape(st), shape(low_or_zero(st, inner, span).1), Set::empty()),
    decreases inner, 1nat,
{
    let none = Set::<Seq<char>>::empty();
    let (v, s1) = low_e(st, inner);
    let (zb, s2) = fresh_label(s1);
    let (ok, s3) = fresh_name(s2);
    let u = OpV::UnwrapOk { val: v, err_block: zb };
    let s4 = emit(s3, Some(ok), u, span);
    let (cont, s5) = fresh_label(s4);
    let j = TermV::Jump(cont);
    let s6 = start(finish(s5, j), zb);
    let s6e = emit(s6, Some(ok), OpV::ConstInt(0), span);
    let s7 = finish(s6e, j);
    let r = start(s7, cont);
    lemma_low_e(st, inner);
    lemma_emit(s3, Some(ok), u, span);
    lemma_close_open(s5, j, zb);
    lemma_emit_plain(s6, Some(ok), OpV::ConstInt(0), span);
    lemma_finish(s6e, j);
    lemma_start(s7, cont);
    let x1 = none + op_targets(u);
    let x2 = x1 + term_targets(j);
    let x3 = x2 + none;
    let x4 = x3 + term_targets(j);
    lemma_trans(shape(st), shape(s3), shape(s4), none, op_targets(u));
    lemma_trans(shape(st), shape(s5), shape(s6), x1, term_targets(j));
    lemma_trans(shape(st), shape(s6), shape(s6e), x2, none);
    lemma_trans(shape(st), shape(s6e), shape(s7), x3, term_targets(j));
    lemma_trans(shape(st), shape(s7), shape(r), x4, none);
    lemma_settle(shape(st), shape(r), x4 + none, none);
}

pub proof fn lemma_low_arms(
    st: LowV,
    arms: Seq<MatchArm>,
    n: nat,
    subj: Seq<char>,
    merge: Seq<char>,
    res: Seq<char>,
    span: Span,
)
    requires
        arms_present_arms(arms),
    ensures
        grows(shape(st), shape(low_arms(st, arms, n, subj, merge, res, span)), set![merge]),
        arms.len() > 0 && arms.len() >= n ==> has_label(
            low_arms(st, arms, n, subj, merge, res, span).blocks,
            low_arms(st, arms, n, subj, merge, res, span).label,
        ),
    decreases arms, 0nat,
{
    let none = Set::<Seq<char>>::empty();
    if arms.len() == 0 {
        lemma_refl(shape(st), set![merge]);
    } else {
        let s0 = low_arms(st, arms.drop_last(), n, subj, merge, res, span);
        let arm = arms.last();
        let last = arms.len() >= n;
        let (al, s1) = fresh_label(s0);
        let (next, s2) = if last {
            (merge, s1)
        } else {
            fresh_label(s1)
        };
        let (cond, s3) = fresh_name(s2);
        let test = if always_matches(arm.pattern) {
            OpV::ConstBool(true)
        } else {
            OpV::Load(subj)
        };
        let s4 = emit(s3, Some(cond), test, span);
        let br = TermV::Branch { cond, then_block: al, else_block: next };
        let j = TermV::Jump(merge);
        let s5 = start(finish(s4, br), al);
        let (v, s6) = low_e(s5, arm.body);
        let s6e = emit(s6, Some(res), OpV::Load(v), span);
        let s7 = finish(s6e, j);
        lemma_low_arms(st, arms.drop_last(), n, subj, merge, res, span);
        lemma_emit_plain(s3, Some(cond), test, span);
        lemma_close_open(s4, br, al);
        lemma_low_e(s5, arm.body);
        lemma_emit_plain(s6, Some(res), OpV::Load(v), span);
        lemma_finish(s6e, j);
        let x0 = set![merge] + none;
        let x1 = x0 + term_targets(br);
        let x2 = x1 + none;
        let x3 = x2 + none;
        let x4 = x3 + term_targets(j);
        lemma_trans(shape(st), shape(s3), shape(s4), set![merge], none);
        lemma_trans(shape(st), shape(s4), shape(s5), x0, term_targets(br));
        lemma_trans(shape(st), shape(s5), shape(s6), x1, none);
        lemma_trans(shape(st), shape(s6), shape(s6e), x2, none);
        lemma_trans(shape(st), shape(s6e), shape(s7), x3, term_targets(j));
        if last {
            lemma_settle(shape(st), shape(s7), x4, set![merge]);
        } else {
            let r = start(s7, next);
            lemma_start(s7, next);
            lemma_trans(shape(st), shape(s7), shape(r), x4, none);
            lemma_settle(shape(st), shape(r), x4 + none, set![merge]);
        }
    }
}

pub proof fn lemma_low_args(st: LowV, args: Seq<Arg>)
    requires
        arms_present_args(args),
    ensures
        grows(shape(st), shape(low_args(st, args).1), Set::empty()),
    decreases args, 0nat,
{
    if args.len() == 0 {
        lemma_refl(shape(st), Set::empty());
    } else {
        let s1 = low_args(st, args.drop_last()).1;
        lemma_low_args(st, args.drop_last());
        lemma_low_e(s1, args.last().expr);
        lemma_seq(shape(st), shape(s1), shape(low_e(s1, args.last().expr).1));
    }
}

pub proof fn lemma_low_es(st: LowV, es: Seq<Expr>)
    requires
        arms_present_es(es),
    ensures
        grows(shape(st), shape(low_es(st, es).1), Set::empty()),
    decreases es, 0nat,
{
    if es.len() == 0 {
        lemma_refl(shape(st), Set::empty());
    } else {
        let s1 = low_es(st, es.drop_last()).1;
        lemma_low_es(st, es.drop_last());
        lemma_low_e(s1, es.last());
        lemma_seq(shape(st), shape(s1), shape(low_e(s1, es.last()).1));
    }
}

pub proof fn lemma_low_fields(st: LowV, fs: Seq<FieldInit>)
    requires
        arms_present_fields(fs),
    ensures
        grows(shape(st), shape(low_fields(st, fs).1), Set::empty()),
    decreases fs, 0nat,
{
    if fs.len() == 0 {
        lemma_refl(shape(st), Set::empty());
    } else {
        let s1 = low_fields(st, fs.drop_last()).1;
        lemma_low_fields(st, fs.drop_last());
        lemma_low_e(s1, fs.last().expr);
        lemma_seq(shape(st), shape(s1), shape(low_e(s1, fs.last().expr).1));
    }
}

pub proof fn lemma_low_body(st: LowV, body: Seq<Stmt>, cont: Seq<char>, brk: Seq<char>)
    requires
        arms_present_ss(body),
    ensures
        grows(shape(st), shape(low_body(st, body, cont, brk)), set![cont, brk]),
    decreases body, 1nat,
{
    let inner = LowV { loops: st.loops.push((cont, brk)), ..st };
    lemma_low_ss(inner, body);
    lemma_loop_frame(st, low_ss(inner, body), cont, brk);
}

pub proof fn lemma_low_s(st: LowV, s: Stmt)
    requires
        arms_present_s(s),
    ensures
        grows(shape(st), shape(low_s(st, s)), Set::empty()),
    decreases s, 0nat,
{
    let none = Set::<Seq<char>>::empty();
    match s.kind {
        StmtKind::Let { name, init, .. } => {
            let (v, s1) = low_e(st, init);
            lemma_low_e(st, init);
            lemma_emit_plain(s1, Some(name@), OpV::Load(v), s.span);
            lemma_seq(shape(st), shape(s1), shape(low_s(st, s)));
        },
        StmtKind::Var { name, init, .. } => {
            let (v, s1) = low_e(st, init);
            lemma_low_e(st, init);
            lemma_emit_plain(s1, Some(name@), OpV::Load(v), s.span);
            lemma_seq(shape(st), shape(s1), shape(low_s(st, s)));
        },
        StmtKind::Assign { target, value } => {
            let (src, s1) = low_e(st, value);
            lemma_low_e(st, value);
            match target.kind {
                ExprKind::Ident(d) => {
                    lemma_emit_plain(s1, None, OpV::Store { dest: d@, src }, s.span);
                    lemma_seq(shape(st), shape(s1), shape(low_s(st, s)));
                },
                _ => {},
            }
        },
        StmtKind::Return(e) => {
            let (v, s1) = match e {
                Some(x) => {
                    let (n, s1) = low_e(st, x);
                    (Some(n), s1)
                },
                None => (None, st),
            };
            match e {
                Some(x) => lemma_low_e(st, x),
                None => lemma_refl(shape(st), none),
            }
            let t = TermV::Return(v);
            let (dead, s2) = fresh_label(finish(s1, t));
            lemma_close_open(s1, t, dead);
            lemma_trans(shape(st), shape(s1), shape(start(s2, dead)), none, term_targets(t));
            lemma_settle(shape(st), shape(start(s2, dead)), none + term_targets(t), none);
        },
        StmtKind::Defer(e) => {
            lemma_low_e(st, e);
        },
        StmtKind::Expr(e) => {
            lemma_low_e(st, e);
        },
        StmtKind::For { binding, iter, body } => {
            let (it, s1) = low_e(st, iter);
            let (ll, s2) = fresh_label(s1);
            let (bl, s3) = fresh_label(s2);
            let (al, s4) = fresh_label(s3);
            let j = TermV::Jump(ll);
            let s5 = start(finish(s4, j), ll);
            let (c, s6) = fresh_name(s5);
            let s7 = emit(s6, Some(c), OpV::Load(it), s.span);
            let br = TermV::Branch { cond: c, then_block: bl, else_block: al };
            let s8 = start(finish(s7, br), bl);
            let s9 = emit(s8, Some(binding@), OpV::Load(c), s.span);
            let s10 = low_body(s9, body@, ll, al);
            let r = start(finish(s10, j), al);
            lemma_low_e(st, iter);
            lemma_close_open(s4, j, ll);
            lemma_emit_plain(s6, Some(c), OpV::Load(it), s.span);
            lemma_close_open(s7, br, bl);
            lemma_emit_plain(s8, Some(binding@), OpV::Load(c), s.span);
            lemma_low_body(s9, body@, ll, al);
            lemma_close_open(s10, j, al);
            let x1 = none + term_targets(j);
            let x2 = x1 + none;
            let x3 = x2 + term_targets(br);
            let x4 = x3 + none;
            let x5 = x4 + set![ll, al];
            lemma_trans(shape(st), shape(s4), shape(s5), none, term_targets(j));
            lemma_trans(shape(st), shape(s6), shape(s7), x1, none);
            lemma_trans(shape(st), shape(s7), shape(s8), x2, term_targets(br));
            lemma_trans(shape(st), shape(s8), shape(s9), x3, none);
            lemma_trans(shape(st), shape(s9), shape(s10), x4, set![ll, al]);
            lemma_trans(shape(st), shape(s10), shape(r), x5, term_targets(j));
            lemma_settle(shape(st), shape(r), x5 + term_targets(j), none);
        },
        StmtKind::While { cond, body } => {
            let (cl, s1) = fresh_label(st);
            let (bl, s2) = fresh_label(s1);
            let (al, s3) = fresh_label(s2);
            let j = TermV::Jump(cl);
            let s4 = start(finish(s3, j), cl);
            let (c, s5) = low_e(s4, cond);
            let br = TermV::Branch { cond: c, then_block: bl, else_block: al };
            let s6 = start(finish(s5, br), bl);
            let s7 = low_body(s6, body@, cl, al);
            let r = start(finish(s7, j), al);
            lemma_close_open(s3, j, cl);
            lemma_low_e(s4, cond);
            lemma_close_open(s5, br, bl);
            lemma_low_body(s6, body@, cl, al);
            lemma_close_open(s7, j, al);
            let x1 = term_targets(j);
            let x2 = x1 + none;
            let x3 = x2 + term_targets(br);
            let x4 = x3 + set![cl, al];
            lemma_trans(shape(st), shape(s4), shape(s5), x1, none);
            lemma_trans(shape(st), shape(s5), shape(s6), x2, term_targets(br));
            lemma_trans(shape(st), shape(s6), shape(s7), x3, set![cl, al]);
            lemma_trans(shape(st), shape(s7), shape(r), x4, term_targets(j));
            lemma_settle(shape(st), shape(r), x4 + term_targets(j), none);
        },
        StmtKind::Loop(body) => {
            let (ll, s1) = fresh_label(st);
            let (al, s2) = fresh_label(s1);
            let j = TermV::Jump(ll);
            let s3 = start(finish(s2, j), ll);
            let s4 = low_body(s3, body@, ll, al);
            let r = start(finish(s4, j), al);
            lemma_close_open(s2, j, ll);
            lemma_low_body(s3, body@, ll, al);
            lemma_close_open(s4, j, al);
            let x1 = term_targets(j);
            let x2 = x1 + set![ll, al];
            lemma_trans(shape(st), shape(s3), shape(s4), x1, set![ll, al]);
            lemma_trans(shape(st), shape(s4), shape(r), x2, term_targets(j));
            lemma_settle(shape(st), shape(r), x2 + term_targets(j), none);
        },
        StmtKind::Break => {
            if st.loops.len() > 0 {
                let t = TermV::Jump(st.loops.last().1);
                let (dead, s1) = fresh_label(finish(st, t));
                lemma_close_open(st, t, dead);
                assert(in_loops(st.loops, st.loops.last().1)) by {
                    assert(st.loops[st.loops.len() - 1] == st.loops.last());
                }
                lemma_settle(shape(st), shape(start(s1, dead)), term_targets(t), none);
            } else {
                lemma_refl(shape(st), none);
            }
        },
        StmtKind::Continue => {
            if st.loops.len() > 0 {
                let t = TermV::Jump(st.loops.last().0);
                let (dead, s1) = fresh_label(finish(st, t));
                lemma_close_open(st, t, dead);
                assert(in_loops(st.loops, st.loops.last().0)) by {
                    assert(st.loops[st.loops.len() - 1] == st.loops.last());
                }
                lemma_settle(shape(st), shape(start(s1, dead)), term_targets(t), none);
            } else {
                lemma_refl(shape(st), none);
            }
        },
    }
}

pub proof fn lemma_low_ss(st: LowV, ss: Seq<Stmt>)
    requires
        arms_present_ss(ss),
    ensures
        grows(shape(st), shape(low_ss(st, ss)), Set::empty()),
    decreases ss, 0nat,
{
    if ss.len() == 0 {
        lemma_refl(shape(st), Set::empty());
    } else {
        let s1 = low_ss(st, ss.drop_last());
        lemma_low_ss(st, ss.drop_last());
        lemma_low_s(s1, ss.last());
        lemma_seq(shape(st), shape(s1), shape(low_s(s1, ss.last())));
    }
}

// ── Functions and files ───────────────────────────────────────

/// A function body lowered from a state outside any loop has all its jumps
/// aimed at its own blocks, and leaves the state outside any loop.
pub proof fn lemma_body_fn_jumps(st: LowV, name: Seq<char>, params: Seq<ParamV>, ret: IrTyV, body: Seq<Stmt>)
    requires
        st.loops.len() == 0,
        arms_present_ss(body),
    ensures
        jumps_named(low_body_fn(st, name, params, ret, body).0.blocks),
        low_body_fn(st, name, params, ret, body).1.loops.len() == 0,
{
    let s0 = reset(st);
    let s = low_ss(s0, body);
    let t = TermV::Return(None);
    let s1 = finish(s, t);
    let bs = s1.blocks;
    lemma_low_ss(s0, body);
    lemma_finish(s, t);
    lemma_trans(shape(s0), shape(s), shape(s1), Set::empty(), term_targets(t));
    lemma_loops_kept(shape(s0), shape(s1), Set::<Seq<char>>::empty() + term_targets(t));
    reveal(grows);
    assert forall|i: int, l: Seq<char>| 0 <= i < bs.len() && #[trigger] block_jumps_to(bs[i], l) implies exists|j: int|
        0 <= j < bs.len() && #[trigger] bs[j].label == l by {
        assert(has_target(bs, l));
        assert(any_target(shape(s1), l));
        assert(!any_target(shape(s0), l));
        assert(!in_loops(s0.loops, l));
        assert(has_label(bs, l));
    }
}

pub proof fn lemma_items_jumps(st: LowV, items: Seq<Item>)
    requires
        st.loops.len() == 0,
        arms_present_items(items),
    ensures
        forall|k: int| 0 <= k < low_items(st, items).0.len() ==> jumps_named(#[trigger] low_items(st, items).0[k].blocks),
        low_items(st, items).1.loops.len() == 0,
    decreases items.len(),
{
    if items.len() > 0 {
        let rest = items.drop_last();
        assert forall|k: int| 0 <= k < rest.len() implies match #[trigger] rest[k].kind {
            ItemKind::Fn(f) => arms_present_ss(f.body@),
            _ => true,
        } by {
            assert(rest[k] == items[k]);
        }
        lemma_items_jumps(st, rest);
        let (fs, s1) = low_items(st, rest);
        assert(items.last() == items[items.len() - 1]);
        match items.last().kind {
            ItemKind::Fn(f) => {
                lemma_body_fn_jumps(s1, f.name@, crate::lower_spec::lparams(f.params@), crate::lower_spec::lty(f.ret), f.body@);
                let g = low_fn(s1, f).0;
                assert forall|k: int| 0 <= k < fs.push(g).len() implies jumps_named(#[trigger] fs.push(g)[k].blocks) by {
                    if k < fs.len() {
                        assert(fs.push(g)[k] == fs[k]);
                    }
                }
            },
            _ => {},
        }
    }
}

/// Every function that lowering `file` gives has all its jumps aimed at its
/// own blocks.
pub proof fn lemma_file_jumps(st: LowV, file: SourceFile)
    requires
        st.loops.len() == 0,
        arms_present_file(file),
    ensures
        forall|k: int| 0 <= k < low_file(st, file).0.len() ==> jumps_named(#[trigger] low_file(st, file).0[k].blocks),
        low_file(st, file).1.loops.len() == 0,
{
    lemma_items_jumps(st, file.def_zone@);
    let (fs, s1) = low_items(st, file.def_zone@);
    if file.alg_zone.len() > 0 {
        lemma_body_fn_jumps(s1, "__main"@, Seq::empty(), IrTyV::Void, file.alg_zone@);
        let m = low_body_fn(s1, "__main"@, Seq::empty(), IrTyV::Void, file.alg_zone@).0;
        assert forall|k: int| 0 <= k < fs.push(m).len() implies jumps_named(#[trigger] fs.push(m)[k].blocks) by {
            if k < fs.len() {
                assert(fs.push(m)[k] == fs[k]);
            }
        }
    }
}

} // verus!

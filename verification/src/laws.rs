//! Properties of the compiler that span several of its operations.
use vstd::prelude::*;
use crate::token::{Span, TokV, TokenKind};
use crate::lex_spec::{lex_at, lex_from, lemma_lex_at_progress};
use crate::ast::{Expr, ExprKind};
use crate::scope::{BindV, RTy, ScopeV, push_v, pop_v, defines_v, decider, lemma_decider, lemma_lookup_update, lookup_in, with_moved};
use crate::sema_error::SemaErrV;
use crate::ownership::{move_check, mutate_check};
use crate::sema_spec::{CkV, check_stmt, compat, compat_all, defined, infer};
use crate::ir::IrTyV;
use crate::lower_spec::{LowV, low_args, low_body_fn, low_e, binop_op, define, lty, ltys};
use crate::ir::{ir_disp, ir_disp_list};
use crate::scope::{disp, disp_list};
use crate::ast::{Ty, TyKind};
use crate::sema_spec::{resolve, resolve_list};
use crate::ir::OpV;
use crate::ir::{ParamV, TermV};
use crate::ast::{OwnershipMode, SourceFile, Stmt, StmtKind};
use crate::lower_spec::low_file;
use crate::lower_jumps::{arms_present_file, jumps_named, lemma_file_jumps};
use crate::codegen_spec::{RaV, align16, alloc_s, wadd, ImmStep, imm_steps, run_step, run_steps};
use crate::token::Token;
use crate::ast_model::{ExprM, ItemM, StmtM};
use crate::parse_spec::{
    ParseErrV, pk, sp, fwd, p_if, p_match, p_stmt, p_zones, p_file, p_import, p_ext_item, p_item,
    unfold_p_if, unfold_p_match, unfold_p_stmt, unfold_p_zones,
};

verus! {

// ── Parsing ───────────────────────────────────────────────────

/// Control flow nests at most one level: an `if`, a `match` or a `for` met
/// inside a control-flow body is refused, at its own position.
pub proof fn law_nested_control_flow_is_refused(ts: Seq<Token>, i: int, d: int)
    requires
        d >= 1,
    ensures
        pk(ts, i) is If ==> p_if(ts, i, d) == Err::<(ExprM, int), ParseErrV>(
            ParseErrV::IllegalNesting { span: sp(ts, i) },
        ),
        pk(ts, i) is Match ==> p_match(ts, i, d) == Err::<(ExprM, int), ParseErrV>(
            ParseErrV::IllegalNesting { span: sp(ts, i) },
        ),
        pk(ts, i) is For ==> p_stmt(ts, i, d) == Err::<(StmtM, int), ParseErrV>(
            ParseErrV::IllegalNesting { span: sp(ts, i) },
        ),
{
    unfold_p_if(ts, i, d);
    unfold_p_match(ts, i, d);
    unfold_p_stmt(ts, i, d);
}

/// Definitions stand above statements: once a statement has been read, an
/// `import`, `@extension`, `fn`, `type` or `enum` is refused at its position.
pub proof fn law_definition_after_statement_is_refused(
    ts: Seq<Token>,
    i: int,
    d: int,
    defs: Seq<ItemM>,
    algs: Seq<StmtM>,
)
    requires
        pk(ts, i) is Import || pk(ts, i) is At || pk(ts, i) is Fn || pk(ts, i) is Type || pk(ts, i) is Enum,
    ensures
        p_zones(ts, i, d, defs, algs, true) == Err::<((Seq<ItemM>, Seq<StmtM>), int), ParseErrV>(
            ParseErrV::DefInAlgZone { span: sp(ts, i) },
        ),
{
    unfold_p_zones(ts, i, d, defs, algs, true);
}

proof fn lemma_zones_read_to_end(ts: Seq<Token>, i: int, d: int, defs: Seq<ItemM>, algs: Seq<StmtM>, in_alg: bool)
    ensures
        p_zones(ts, i, d, defs, algs, in_alg) matches Ok((_, j)) ==> pk(ts, j) is Eof,
    decreases ts.len() - i,
{
    unfold_p_zones(ts, i, d, defs, algs, in_alg);
    let k = pk(ts, i);
    if k is Eof {
    } else if k is Import || k is At || k is Fn || k is Type || k is Enum {
        if !in_alg {
            let item = if k is Import {
                p_import(ts, i)
            } else if k is At {
                p_ext_item(ts, i)
            } else {
                p_item(ts, i)
            };
            if let Ok((it, j)) = item {
                if fwd(ts, i, j) {
                    lemma_zones_read_to_end(ts, j, d, defs.push(it), algs, in_alg);
                }
            }
        }
    } else {
        if let Ok((st, j)) = p_stmt(ts, i, d) {
            if fwd(ts, i, j) {
                lemma_zones_read_to_end(ts, j, d, defs, algs.push(st), true);
            }
        }
    }
}

/// A file that parses has been read up to its end.
pub proof fn law_parsed_file_reaches_the_end(ts: Seq<Token>, i: int, d: int)
    ensures
        p_file(ts, i, d) matches Ok((_, j)) ==> pk(ts, j) is Eof,
{
    let i1 = if pk(ts, i) is Base || pk(ts, i) is Safe {
        i + 1
    } else {
        i
    };
    lemma_zones_read_to_end(ts, i1, d, Seq::empty(), Seq::empty(), false);
}

// ── Lexing ────────────────────────────────────────────────────

/// A successful tokenisation ends with `Eof`, and `Eof` occurs nowhere else.
pub proof fn law_tokens_end_with_eof(s: Seq<char>, i: int)
    ensures
        match lex_from(s, i) {
            Ok(ts) => ts.len() > 0 && ts.last().0 == TokV::Plain(TokenKind::Eof) && forall|j: int|
                0 <= j < ts.len() - 1 ==> (#[trigger] ts[j]).0 != TokV::Plain(TokenKind::Eof),
            Err(_) => true,
        },
    decreases s.len() - i,
{
    if 0 <= i <= s.len() {
        match lex_at(s, i) {
            Ok((k, a, b)) => {
                if k != TokV::Plain(TokenKind::Eof) {
                    lemma_lex_at_progress(s, i);
                    law_tokens_end_with_eof(s, b);
                    match lex_from(s, b) {
                        Ok(rest) => {
                            let ts = lex_from(s, i)->Ok_0;
                            assert(ts.last() == rest.last());
                            assert forall|j: int| 0 <= j < ts.len() - 1 implies (#[trigger] ts[j]).0
                                != TokV::Plain(TokenKind::Eof) by {
                                if j > 0 {
                                    assert(ts[j] == rest[j - 1]);
                                }
                            }
                        },
                        Err(_) => {},
                    }
                }
            },
            Err(_) => {},
        }
    }
}

// ── Scopes ────────────────────────────────────────────────────

/// A name defined in the innermost frame names the new binding; every other
/// name keeps its meaning.
pub proof fn law_define_then_lookup(frames: Seq<Map<Seq<char>, BindV>>, k: Seq<char>, b: BindV, x: Seq<char>)
    requires
        frames.len() > 0,
    ensures
        lookup_in(frames.update(frames.len() - 1, frames.last().insert(k, b)), x) == if x == k {
            Some(b)
        } else {
            lookup_in(frames, x)
        },
{
    let nf = frames.update(frames.len() - 1, frames.last().insert(k, b));
    assert(nf.drop_last() =~= frames.drop_last());
    assert(nf.last() == frames.last().insert(k, b));
}

/// Closing a frame just opened gives back the frames as they were.
pub proof fn law_push_then_pop(frames: Seq<Map<Seq<char>, BindV>>)
    ensures
        frames.push(Map::empty()).drop_last() == frames,
{
    assert(frames.push(Map::empty()).drop_last() =~= frames);
}

/// A binding made in a frame is gone once that frame is closed: the name
/// means again what it meant before.
pub proof fn law_inner_binding_is_scoped(frames: Seq<Map<Seq<char>, BindV>>, k: Seq<char>, b: BindV, x: Seq<char>)
    ensures
        ({
            let inner = frames.push(Map::empty());
            let defined = inner.update(inner.len() - 1, inner.last().insert(k, b));
            lookup_in(defined.drop_last(), x) == lookup_in(frames, x)
        }),
{
    let inner = frames.push(Map::empty());
    let defined = inner.update(inner.len() - 1, inner.last().insert(k, b));
    assert(defined.drop_last() =~= frames);
}

proof fn lemma_defines_keep_outer_frames(sc: ScopeV, ds: Seq<(Seq<char>, BindV)>)
    ensures
        defines_v(push_v(sc), ds).frames.len() == sc.frames.len() + 1,
        defines_v(push_v(sc), ds).frames.drop_last() == sc.frames,
        defines_v(push_v(sc), ds).fns == sc.fns,
        defines_v(push_v(sc), ds).types == sc.types,
        defines_v(push_v(sc), ds).enums == sc.enums,
    decreases ds.len(),
{
    if ds.len() == 0 {
        assert(push_v(sc).frames.drop_last() =~= sc.frames);
    } else {
        lemma_defines_keep_outer_frames(sc, ds.drop_last());
        let prev = defines_v(push_v(sc), ds.drop_last());
        let next = defines_v(push_v(sc), ds);
        assert(next.frames.drop_last() =~= prev.frames.drop_last());
    }
}

/// Closing a frame undoes opening it and every definition made in it since:
/// the scope is as it was, so every name means what it meant before.
pub proof fn law_pop_undoes_push_and_defines(sc: ScopeV, ds: Seq<(Seq<char>, BindV)>, x: Seq<char>)
    ensures
        pop_v(defines_v(push_v(sc), ds)) == sc,
        lookup_in(pop_v(defines_v(push_v(sc), ds)).frames, x) == lookup_in(sc.frames, x),
{
    lemma_defines_keep_outer_frames(sc, ds);
}

/// Once a binding is marked as moved, moving it again is reported as a use
/// after move.
pub proof fn law_moved_binding_is_reported(sc: ScopeV, k: Seq<char>, span: Span)
    requires
        lookup_in(sc.frames, k) is Some,
    ensures
        move_check(ScopeV { frames: with_moved(sc.frames, k), ..sc }, k, span) == Some(
            SemaErrV::UseAfterMove { name: k, span },
        ),
{
    lemma_decider(sc.frames, k);
    let f = decider(sc.frames, k)->0;
    let nb = BindV { moved: true, ..sc.frames[f][k] };
    lemma_lookup_update(sc.frames, f, k, nb);
}

/// A name bound by `定` (immutable) refuses assignment; one bound by `设`
/// (mutable) accepts it.
pub proof fn law_immutable_binding_refuses_assignment(st: CkV, k: Seq<char>, b: BindV, span: Span)
    requires
        st.sc.frames.len() > 0,
    ensures
        mutate_check(defined(st, k, BindV { mutable: false, ..b }).sc, k, span) == Some(
            SemaErrV::MutateImmutable { name: k, span },
        ),
        mutate_check(defined(st, k, BindV { mutable: true, ..b }).sc, k, span) is None,
{
    law_define_then_lookup(st.sc.frames, k, BindV { mutable: false, ..b }, k);
    law_define_then_lookup(st.sc.frames, k, BindV { mutable: true, ..b }, k);
}

// ── Types ─────────────────────────────────────────────────────

/// Every type is compatible with itself.
pub proof fn law_compat_reflexive(t: RTy)
    ensures
        compat(t, t),
    decreases t,
{
    match t {
        RTy::Result(ok, e) => {
            law_compat_reflexive(*ok);
            law_compat_reflexive(*e);
        },
        RTy::Option(x) => law_compat_reflexive(*x),
        RTy::Slice(x) => law_compat_reflexive(*x),
        RTy::Ptr(x) => law_compat_reflexive(*x),
        RTy::PtrMut(x) => law_compat_reflexive(*x),
        RTy::Array { elem, .. } => law_compat_reflexive(*elem),
        RTy::FnPtr { params, ret } => {
            lemma_compat_all_reflexive(params);
            law_compat_reflexive(*ret);
        },
        _ => {},
    }
}

proof fn lemma_compat_all_reflexive(ts: Seq<RTy>)
    ensures
        compat_all(ts, ts),
    decreases ts,
{
    if ts.len() > 0 {
        lemma_compat_all_reflexive(ts.drop_last());
        law_compat_reflexive(ts.last());
    }
}

/// Compatibility does not depend on which side is found and which expected.
pub proof fn law_compat_symmetric(a: RTy, b: RTy)
    ensures
        compat(a, b) == compat(b, a),
    decreases a,
{
    if !(a is Unknown) && !(b is Unknown) {
        match a {
            RTy::Result(ao, ae) => {
                if let RTy::Result(bo, be) = b {
                    law_compat_symmetric(*ao, *bo);
                    law_compat_symmetric(*ae, *be);
                }
            },
            RTy::Option(x) => {
                if let RTy::Option(y) = b {
                    law_compat_symmetric(*x, *y);
                }
            },
            RTy::Slice(x) => {
                if let RTy::Slice(y) = b {
                    law_compat_symmetric(*x, *y);
                }
            },
            RTy::Ptr(x) => {
                if let RTy::Ptr(y) = b {
                    law_compat_symmetric(*x, *y);
                }
            },
            RTy::PtrMut(x) => {
                if let RTy::PtrMut(y) = b {
                    law_compat_symmetric(*x, *y);
                }
            },
            RTy::Array { elem: x, .. } => {
                if let RTy::Array { elem: y, .. } = b {
                    law_compat_symmetric(*x, *y);
                }
            },
            RTy::FnPtr { params: ap, ret: ar } => {
                if let RTy::FnPtr { params: bp, ret: br } = b {
                    lemma_compat_all_symmetric(ap, bp);
                    law_compat_symmetric(*ar, *br);
                }
            },
            _ => {},
        }
    }
}

proof fn lemma_compat_all_symmetric(fs: Seq<RTy>, es: Seq<RTy>)
    ensures
        compat_all(fs, es) == compat_all(es, fs),
    decreases fs,
{
    if fs.len() > 0 && es.len() > 0 {
        lemma_compat_all_symmetric(fs.drop_last(), es.drop_last());
        law_compat_symmetric(fs.last(), es.last());
    }
}

/// A type that could not be resolved is compatible with every type, both ways.
pub proof fn law_unknown_is_compatible(t: RTy)
    ensures
        compat(RTy::Unknown, t),
        compat(t, RTy::Unknown),
{
}

// ── Lowering ──────────────────────────────────────────────────

/// Lowering the arguments `x, rest…` lowers `x` first, then `rest`.
pub proof fn lemma_low_args_cons(st: LowV, x: crate::ast::Arg, rest: Seq<crate::ast::Arg>)
    ensures
        low_args(st, seq![x] + rest) == ({
            let (v, s1) = low_e(st, x.expr);
            let (vs, s2) = low_args(s1, rest);
            (seq![v] + vs, s2)
        }),
    decreases rest.len(),
{
    let all = seq![x] + rest;
    let (v, s1) = low_e(st, x.expr);
    if rest.len() == 0 {
        assert(all.drop_last() =~= Seq::<crate::ast::Arg>::empty());
        assert(all.last() == x);
        assert(low_args(s1, rest) == (Seq::<Seq<char>>::empty(), s1));
        assert(low_args(st, all.drop_last()) == (Seq::<Seq<char>>::empty(), st));
        assert(low_args(st, all) == (Seq::<Seq<char>>::empty().push(v), s1));
        assert(seq![v] + Seq::<Seq<char>>::empty() =~= Seq::<Seq<char>>::empty().push(v));
    } else {
        assert(all.drop_last() =~= seq![x] + rest.drop_last());
        assert(all.last() == rest.last());
        lemma_low_args_cons(st, x, rest.drop_last());
        let (vs, s2) = low_args(s1, rest.drop_last());
        let (w, s3) = low_e(s2, rest.last().expr);
        assert(low_args(s1, rest) == (vs.push(w), s3));
        assert(low_args(st, all.drop_last()) == (seq![v] + vs, s2));
        assert(low_args(st, all) == ((seq![v] + vs).push(w), s3));
        assert(seq![v] + vs.push(w) =~= (seq![v] + vs).push(w));
    }
}

/// `a |> f(b…)` means `f(a, b…)`: a pipe into a call lowers exactly as the
/// call with the left side as its first argument.
pub proof fn law_pipe_is_call(st: LowV, pipe: Expr, call: Expr, first: crate::ast::Arg)
    requires
        pipe.kind is Pipe,
        pipe.kind->Pipe_right.kind is Call,
        pipe.kind->Pipe_right.kind->Call_callee.kind is Ident,
        call.kind is Call,
        call.kind->Call_callee.kind == pipe.kind->Pipe_right.kind->Call_callee.kind,
        first.expr == *pipe.kind->Pipe_left,
        call.kind->Call_args@ == seq![first] + pipe.kind->Pipe_right.kind->Call_args@,
        call.span == pipe.span,
    ensures
        low_e(st, pipe) == low_e(st, call),
{
    lemma_low_args_cons(st, first, pipe.kind->Pipe_right.kind->Call_args@);
}

/// The operands that the instruction of a binary operator reads, in order.
pub open spec fn bin_operands_v(o: OpV) -> Seq<Seq<char>> {
    match o {
        OpV::Add(a, b) | OpV::Sub(a, b) | OpV::Mul(a, b) | OpV::Div(a, b) | OpV::Rem(a, b) | OpV::CmpEq(a, b)
        | OpV::CmpNeq(a, b) | OpV::CmpLt(a, b) | OpV::CmpLe(a, b) | OpV::CmpGt(a, b) | OpV::CmpGe(a, b)
        | OpV::And(a, b) | OpV::Or(a, b) | OpV::BitAnd(a, b) | OpV::BitOr(a, b) | OpV::BitXor(a, b)
        | OpV::Shl(a, b) | OpV::Shr(a, b) => seq![a, b],
        OpV::Call { args, .. } => args,
        _ => Seq::empty(),
    }
}

/// A binary operation lowers its left operand, then its right one, then
/// one instruction into a fresh name that reads the two in that order.
pub proof fn law_binop_lowering_keeps_order(st: LowV, e: Expr)
    requires
        e.kind is BinOp,
    ensures
        ({
            let (l, s1) = low_e(st, *e.kind->BinOp_left);
            let (r, s2) = low_e(s1, *e.kind->BinOp_right);
            let o = binop_op(e.kind->BinOp_op, l, r);
            &&& low_e(st, e) == define(s2, o, e.span)
            &&& bin_operands_v(o) == seq![l, r]
        }),
{
}

/// Lowering a type to the IR and resolving it for the type checker agree:
/// both are written the same way.
pub proof fn law_lowered_type_is_resolved_type(t: Ty)
    ensures
        ir_disp(lty(t)) == disp(resolve(t)),
    decreases t,
{
    match t.kind {
        TyKind::Slice(x) | TyKind::Ptr(x) | TyKind::PtrMut(x) | TyKind::Option(x) => {
            law_lowered_type_is_resolved_type(*x);
        },
        TyKind::Result(ok, e) => {
            law_lowered_type_is_resolved_type(*ok);
            law_lowered_type_is_resolved_type(*e);
        },
        TyKind::Array { elem, .. } => law_lowered_type_is_resolved_type(*elem),
        TyKind::FnPtr { params, ret } => {
            lemma_lowered_types_are_resolved_types(params@);
            law_lowered_type_is_resolved_type(*ret);
        },
        _ => {},
    }
}

proof fn lemma_lowered_types_are_resolved_types(ts: Seq<Ty>)
    ensures
        ir_disp_list(ltys(ts)) == disp_list(resolve_list(ts)),
    decreases ts,
{
    if ts.len() > 0 {
        lemma_lowered_types_are_resolved_types(ts.drop_last());
        law_lowered_type_is_resolved_type(ts[ts.len() - 1]);
        lemma_ltys_len(ts);
        lemma_resolve_list_len(ts);
        if ts.len() == 1 {
            assert(ltys(ts)[0] == lty(ts[0]));
            assert(resolve_list(ts)[0] == resolve(ts[0]));
        } else {
            assert(ltys(ts).drop_last() =~= ltys(ts.drop_last()));
            assert(resolve_list(ts).drop_last() =~= resolve_list(ts.drop_last()));
        }
    }
}

proof fn lemma_ltys_len(ts: Seq<Ty>)
    ensures
        ltys(ts).len() == ts.len(),
    decreases ts.len(),
{
    if ts.len() > 0 {
        lemma_ltys_len(ts.drop_last());
    }
}

proof fn lemma_resolve_list_len(ts: Seq<Ty>)
    ensures
        resolve_list(ts).len() == ts.len(),
    decreases ts.len(),
{
    if ts.len() > 0 {
        lemma_resolve_list_len(ts.drop_last());
    }
}

/// Every lowered function ends with a block that returns.
pub proof fn law_function_ends_with_return(st: LowV, name: Seq<char>, params: Seq<ParamV>, ret: IrTyV, body: Seq<Stmt>)
    ensures
        ({
            let f = low_body_fn(st, name, params, ret, body).0;
            f.blocks.len() > 0 && f.blocks.last().term == TermV::Return(None)
        }),
{
}

// ── Code generation ───────────────────────────────────────────

proof fn lemma_fits_i32(v: i64)
    ensures
        (-0x8000_0000 <= v && v <= 0x7FFF_FFFF) <==> ((v as u64) >> 31u64 == 0u64 || (v as u64) >> 31u64
            == 0x1_FFFF_FFFFu64),
        (-0x8_0000_0000_0000 <= v && v <= 0x7_FFFF_FFFF_FFFF) <==> ((v as u64) >> 51u64 == 0u64 || (v as u64)
            >> 51u64 == 0x1FFFu64),
{
    assert((-0x8000_0000 <= v && v <= 0x7FFF_FFFF) <==> ((v as u64) >> 31u64 == 0u64 || (v as u64) >> 31u64
        == 0x1_FFFF_FFFFu64)) by (bit_vector);
    assert((-0x8_0000_0000_0000 <= v && v <= 0x7_FFFF_FFFF_FFFF) <==> ((v as u64) >> 51u64 == 0u64 || (v as u64)
        >> 51u64 == 0x1FFFu64)) by (bit_vector);
}

/// The register after `lu12i.w` and `ori` of the low 32 bits of `w`.
proof fn lemma_low32(w: u64)
    ensures
        run_step(run_step(0, ImmStep::Lu12i((w >> 12u64) & 0xFFFFFu64)), ImmStep::Ori(w & 0xFFFu64)) == (if w
            & 0x8000_0000u64 != 0 {
            (w & 0xFFFF_FFFFu64) | 0xFFFF_FFFF_0000_0000u64
        } else {
            w & 0xFFFF_FFFFu64
        }),
{
    let k = (w >> 12u64) & 0xFFFFFu64;
    let x = (k & 0xFFFFFu64) << 12u64;
    assert(x == (w & 0xFFFF_F000u64)) by (bit_vector)
        requires
            k == (w >> 12u64) & 0xFFFFFu64,
            x == (k & 0xFFFFFu64) << 12u64,
    ;
    assert((x & 0x8000_0000u64 != 0) == (w & 0x8000_0000u64 != 0)) by (bit_vector)
        requires
            x == (w & 0xFFFF_F000u64),
    ;
    assert((x | 0xFFFF_FFFF_0000_0000u64) | ((w & 0xFFFu64) & 0xFFFu64) == (w & 0xFFFF_FFFFu64)
        | 0xFFFF_FFFF_0000_0000u64) by (bit_vector)
        requires
            x == (w & 0xFFFF_F000u64),
    ;
    assert(x | ((w & 0xFFFu64) & 0xFFFu64) == w & 0xFFFF_FFFFu64) by (bit_vector)
        requires
            x == (w & 0xFFFF_F000u64),
    ;
}

/// The steps that load `v` leave the register equal to `v`, whatever it
/// held before: a constant load is exact for every 64-bit value.
pub proof fn law_load_imm_is_exact(v: i64, r: u64)
    ensures
        run_steps(r, imm_steps(v)) == v as u64,
{
    let w = v as u64;
    let ss = imm_steps(v);
    reveal_with_fuel(run_steps, 5);
    if -2048 <= v && v <= 2047 {
        assert(ss.drop_last() =~= Seq::<ImmStep>::empty());
    } else if 0 <= v && v <= 0xFFFFF {
        assert(w == v);
        let k = w >> 12u64;
        let x = (k & 0xFFFFFu64) << 12u64;
        assert(x & 0x8000_0000u64 == 0 && x | ((w & 0xFFFu64) & 0xFFFu64) == w && (w & 0xFFFu64 == 0 ==> x == w))
            by (bit_vector)
            requires
                w <= 0xFFFFFu64,
                k == w >> 12u64,
                x == (k & 0xFFFFFu64) << 12u64,
        ;
        if w & 0xFFFu64 != 0 {
            assert(ss.drop_last() =~= seq![ImmStep::Lu12i(k)]);
            assert(ss.drop_last().drop_last() =~= Seq::<ImmStep>::empty());
        } else {
            assert(ss =~= seq![ImmStep::Lu12i(k)]);
            assert(ss.drop_last() =~= Seq::<ImmStep>::empty());
        }
    } else {
        lemma_fits_i32(v);
        lemma_low32(w);
        let lo = seq![ImmStep::Lu12i((w >> 12u64) & 0xFFFFFu64), ImmStep::Ori(w & 0xFFFu64)];
        assert(lo.drop_last().drop_last() =~= Seq::<ImmStep>::empty());
        assert(lo.drop_last() =~= seq![ImmStep::Lu12i((w >> 12u64) & 0xFFFFFu64)]);
        let x2 = run_steps(r, lo);
        assert(x2 == run_step(run_step(0, ImmStep::Lu12i((w >> 12u64) & 0xFFFFFu64)), ImmStep::Ori(w & 0xFFFu64)));
        let fits32 = -0x8000_0000 <= v && v <= 0x7FFF_FFFF;
        let fits52 = -0x8_0000_0000_0000 <= v && v <= 0x7_FFFF_FFFF_FFFF;
        if fits32 {
            assert(ss =~= lo);
            assert(x2 == w) by (bit_vector)
                requires
                    x2 == (if w & 0x8000_0000u64 != 0 {
                        (w & 0xFFFF_FFFFu64) | 0xFFFF_FFFF_0000_0000u64
                    } else {
                        w & 0xFFFF_FFFFu64
                    }),
                    w >> 31u64 == 0u64 || w >> 31u64 == 0x1_FFFF_FFFFu64,
            ;
        } else {
            assert(x2 & 0xFFFF_FFFFu64 == w & 0xFFFF_FFFFu64) by (bit_vector)
                requires
                    x2 == (if w & 0x8000_0000u64 != 0 {
                        (w & 0xFFFF_FFFFu64) | 0xFFFF_FFFF_0000_0000u64
                    } else {
                        w & 0xFFFF_FFFFu64
                    }),
            ;
            let k3 = (w >> 32u64) & 0xFFFFFu64;
            let x3 = run_step(x2, ImmStep::Lu32i(k3));
            let mid = lo.push(ImmStep::Lu32i(k3));
            assert(mid.drop_last() =~= lo);
            assert(x3 == (x2 & 0xFFFF_FFFFu64) | ((k3 & 0xFFFFFu64) << 32u64) | (if k3 & 0x8_0000u64 != 0 {
                0xFFF0_0000_0000_0000u64
            } else {
                0u64
            }));
            if fits52 {
                assert(ss =~= mid);
                assert(x3 == w) by (bit_vector)
                    requires
                        x2 & 0xFFFF_FFFFu64 == w & 0xFFFF_FFFFu64,
                        k3 == (w >> 32u64) & 0xFFFFFu64,
                        x3 == (x2 & 0xFFFF_FFFFu64) | ((k3 & 0xFFFFFu64) << 32u64) | (if k3 & 0x8_0000u64 != 0 {
                            0xFFF0_0000_0000_0000u64
                        } else {
                            0u64
                        }),
                        w >> 51u64 == 0u64 || w >> 51u64 == 0x1FFFu64,
                ;
            } else {
                let k4 = w >> 52u64;
                assert(ss =~= mid.push(ImmStep::Lu52i(k4)));
                assert(ss.drop_last() =~= mid);
                let x4 = run_step(x3, ImmStep::Lu52i(k4));
                assert(x4 == w) by (bit_vector)
                    requires
                        x2 & 0xFFFF_FFFFu64 == w & 0xFFFF_FFFFu64,
                        k3 == (w >> 32u64) & 0xFFFFFu64,
                        k4 == w >> 52u64,
                        x3 == (x2 & 0xFFFF_FFFFu64) | ((k3 & 0xFFFFFu64) << 32u64) | (if k3 & 0x8_0000u64 != 0 {
                            0xFFF0_0000_0000_0000u64
                        } else {
                            0u64
                        }),
                        x4 == (x3 & 0x000F_FFFF_FFFF_FFFFu64) | ((k4 & 0xFFFu64) << 52u64),
                ;
            }
        }
    }
}

/// Frame sizes are 16-byte aligned: `align16(n)` is the least multiple of 16
/// that is at least `n` (when that fits in `usize`).
pub proof fn law_align16(n: usize)
    requires
        n <= usize::MAX - 15,
    ensures
        align16(n) % 16 == 0,
        n <= align16(n),
        align16(n) < n + 16,
{
    let m = wadd(n, 15);
    assert(m == n + 15);
    assert((m & !15usize) % 16 == 0 && (m & !15usize) <= m && m - (m & !15usize) < 16) by (bit_vector);
}

/// A destination keeps its place: asking again for the register of a value
/// that already has one gives the same register and changes nothing.
pub proof fn law_register_is_stable(ra: RaV, name: Seq<char>)
    ensures
        ({
            let (r1, t1, ra1) = alloc_s(ra, name);
            alloc_s(ra1, name).0 == r1 && alloc_s(ra1, name).2 == ra1
        }),
{
}

/// Lowering a file outside any loop gives functions whose every jump (a
/// `Jump`, either side of a `Branch`, or the error exit of an instruction
/// that unwraps a result) names a block of that same function, and leaves the
/// lowerer outside any loop again; this holds when no `match` without arms is
/// lowered.
pub proof fn law_lowered_jumps_name_blocks(st: LowV, file: SourceFile)
    requires
        st.loops.len() == 0,
        arms_present_file(file),
    ensures
        forall|k: int| 0 <= k < low_file(st, file).0.len() ==> jumps_named(#[trigger] low_file(st, file).0[k].blocks),
        low_file(st, file).1.loops.len() == 0,
{
    lemma_file_jumps(st, file);
}

// ── Declared types ────────────────────────────────────────────

/// A type with no parts: a scalar, a named type or the allocator.
pub open spec fn is_plain_ty(t: RTy) -> bool {
    match t {
        RTy::I8 | RTy::I16 | RTy::I32 | RTy::I64 | RTy::U8 | RTy::U16 | RTy::U32 | RTy::U64 | RTy::F32 | RTy::F64
        | RTy::Bool | RTy::Usize | RTy::Str | RTy::Void | RTy::Allocator | RTy::Named(_) => true,
        _ => false,
    }
}

/// Two types with no parts fit each other exactly when they are the same.
pub proof fn lemma_plain_types_fit_when_equal(found: RTy, expected: RTy)
    requires
        is_plain_ty(found),
        is_plain_ty(expected),
    ensures
        compat(found, expected) <==> found == expected,
{
}

/// A `定` / `设` binding with a declared type: after checking its
/// initializer, the checker reports one type mismatch — the declared type as
/// expected, the initializer's type as found — exactly when the initializer's
/// type does not fit the declared one, and nothing else. For types with no
/// parts, such as `bool` and `i64`, that is exactly when they differ.
pub proof fn law_declared_type_is_checked(st: CkV, s: Stmt)
    ensures
        match s.kind {
            StmtKind::Let { ty: Some(t), init, .. } | StmtKind::Var { ty: Some(t), init, .. } => {
                let (it, st1) = infer(st, init);
                let dt = resolve(t);
                let out = check_stmt(st, s).errs;
                let mismatch = SemaErrV::TypeMismatch { expected: disp(dt), found: disp(it), span: s.span };
                &&& out.take(st1.errs.len() as int) == st1.errs
                &&& st1.errs.len() <= out.len() <= st1.errs.len() + 1
                &&& (out.len() == st1.errs.len() + 1 <==> !compat(it, dt))
                &&& (out.len() == st1.errs.len() + 1 ==> out.last() == mismatch)
                &&& (is_plain_ty(it) && is_plain_ty(dt) ==> (out.len() == st1.errs.len() + 1 <==> it != dt))
            },
            _ => true,
        },
{
    match s.kind {
        StmtKind::Let { ty: Some(t), init, .. } | StmtKind::Var { ty: Some(t), init, .. } => {
            let (it, st1) = infer(st, init);
            let dt = resolve(t);
            let out = check_stmt(st, s).errs;
            assert(st1.errs.push(SemaErrV::TypeMismatch { expected: disp(dt), found: disp(it), span: s.span }).take(
                st1.errs.len() as int,
            ) =~= st1.errs);
            assert(st1.errs.take(st1.errs.len() as int) =~= st1.errs);
            if is_plain_ty(it) && is_plain_ty(dt) {
                lemma_plain_types_fit_when_equal(it, dt);
            }
        },
        _ => {},
    }
}

/// A `定` / `let` binding names an immutable value read in place and a
/// `设` / `var` binding a mutable one, in the innermost frame, with the declared type or,
/// without one, the initializer's type; a binding without a declared type
/// reports nothing beyond its initializer.
pub proof fn law_binding_is_defined(st: CkV, s: Stmt)
    ensures
        match s.kind {
            StmtKind::Let { name, ty, init } | StmtKind::Var { name, ty, init } => {
                let (it, st1) = infer(st, init);
                let dt = match ty {
                    Some(t) => resolve(t),
                    None => it,
                };
                let out = check_stmt(st, s);
                &&& st1.sc.frames.len() > 0 ==> out.sc.frames.len() == st1.sc.frames.len() && out.sc.frames.last()[name@] == (BindV {
                    ty: dt,
                    mode: if s.kind is Var {
                        OwnershipMode::Mut
                    } else {
                        OwnershipMode::Read
                    },
                    mutable: s.kind is Var,
                    moved: false,
                    span: s.span,
                })
                &&& st1.sc.frames.len() > 0 ==> out.sc.frames.drop_last() == st1.sc.frames.drop_last()
                &&& ty is None ==> out.errs == st1.errs
            },
            _ => true,
        },
{
    match s.kind {
        StmtKind::Let { name, ty, init } | StmtKind::Var { name, ty, init } => {
            let (it, st1) = infer(st, init);
            let dt = match ty {
                Some(t) => resolve(t),
                None => it,
            };
            law_compat_reflexive(it);
            let out = check_stmt(st, s);
            if st1.sc.frames.len() > 0 {
                assert(out.sc.frames.drop_last() =~= st1.sc.frames.drop_last());
            }
        },
        _ => {},
    }
}

/// Assigning to a name reports, before anything in the assigned value, that
/// the name is immutable exactly when it is bound without `设` / `var`;
/// a name that is mutable, or not bound, is assigned without a report.
pub proof fn law_assignment_needs_a_mutable_binding(st: CkV, s: Stmt)
    ensures
        match s.kind {
            StmtKind::Assign { target, value } => match target.kind {
                ExprKind::Ident(n) => {
                    let refused = match lookup_in(st.sc.frames, n@) {
                        Some(b) => !b.mutable,
                        None => false,
                    };
                    let before = if refused {
                        st.errs.push(SemaErrV::MutateImmutable { name: n@, span: target.span })
                    } else {
                        st.errs
                    };
                    check_stmt(st, s) == infer(CkV { sc: st.sc, errs: before }, value).1
                },
                _ => true,
            },
            _ => true,
        },
{
}

} // verus!

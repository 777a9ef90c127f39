//! What parsing a token sequence produces: functions from the tokens, a
//! position and the control-flow nesting depth to a model of the syntax tree
//! and the position after it, or the error.
//!
//! The functions that read a repeated construct guard each step with the
//! fact that the position moved forward; parsing always moves forward, so
//! the guards never fail.
use vstd::prelude::*;
use crate::token::{Span, Token, TokV, TokenKind};
use crate::ast::{
    Arg, AttrArg, BinOp, EnumDef, Expr, ExtPhase, FieldInit, FnDef, Item, MatchArm, TypeDef, OwnershipMode, Param, Pattern,
    ResultVariant, Ring, SourceFile, Stmt, Ty, UnOp,
};
use crate::parser::ParseError;
use crate::ast_model::{
    args_m, arms_m, exprs_m, inits_m, pattern_m, stmts_m, fn_def_m, field_defs_m, variants_m, ArgM, ArmM, ExprKindM, ExprM, FieldDefM, FieldInitM, FnDefM, ItemKindM, ItemM, ParamM,
    PatternM, SourceFileM, StmtKindM, StmtM, TyKindM, TyM, VariantM,
};

verus! {

/// A parse error with its texts as character sequences.
pub enum ParseErrV {
    UnexpectedToken { expected: Seq<char>, found: TokV, span: Span },
    UnexpectedEof { context: Seq<char> },
    IllegalNesting { span: Span },
    DefInAlgZone { span: Span },
    PipeInDefZone { span: Span },
}

/// A parse result: the value and the position after it.
pub type PR<T> = Result<(T, int), ParseErrV>;

/// The kind of the token at `i` (`Eof` past the end).
pub open spec fn pk(ts: Seq<Token>, i: int) -> TokenKind {
    if 0 <= i < ts.len() {
        ts[i].kind
    } else {
        TokenKind::Eof
    }
}

/// The span of the token at `i` (empty past the end).
pub open spec fn sp(ts: Seq<Token>, i: int) -> Span {
    if 0 <= i < ts.len() {
        ts[i].span
    } else {
        Span { start: 0, end: 0 }
    }
}

pub open spec fn unexpected(ts: Seq<Token>, i: int, expected: Seq<char>) -> ParseErrV {
    ParseErrV::UnexpectedToken { expected, found: pk(ts, i)@, span: sp(ts, i) }
}

/// `j` is a position after `i` in `ts`.
pub open spec fn fwd(ts: Seq<Token>, i: int, j: int) -> bool {
    i < j <= ts.len()
}

/// The value of a guard that fails (it never does).
pub open spec fn stalled<T>() -> PR<T> {
    Err(ParseErrV::UnexpectedEof { context: Seq::empty() })
}

pub open spec fn span_of(start: usize, end: usize) -> Span {
    Span { start, end }
}

pub open spec fn mk(kind: ExprKindM, span: Span) -> ExprM {
    ExprM { kind, span }
}

// ── Results of the parsing functions, as models ─────────────

pub open spec fn res_unit(r: Result<(), ParseError>, pos: usize) -> Result<int, ParseErrV> {
    match r {
        Ok(_) => Ok(pos as int),
        Err(e) => Err(e@),
    }
}

pub open spec fn res_str(r: Result<String, ParseError>, pos: usize) -> PR<Seq<char>> {
    match r {
        Ok(s) => Ok((s@, pos as int)),
        Err(e) => Err(e@),
    }
}

pub open spec fn res_ty(r: Result<Ty, ParseError>, pos: usize) -> PR<TyM> {
    match r {
        Ok(t) => Ok((t.model(), pos as int)),
        Err(e) => Err(e@),
    }
}

pub open spec fn res_expr(r: Result<Expr, ParseError>, pos: usize) -> PR<ExprM> {
    match r {
        Ok(x) => Ok((x.model(), pos as int)),
        Err(e) => Err(e@),
    }
}

pub open spec fn res_exprs(r: Result<Vec<Expr>, ParseError>, pos: usize) -> PR<Seq<ExprM>> {
    match r {
        Ok(v) => Ok((exprs_m(v@), pos as int)),
        Err(e) => Err(e@),
    }
}

pub open spec fn res_args(r: Result<Vec<Arg>, ParseError>, pos: usize) -> PR<Seq<ArgM>> {
    match r {
        Ok(v) => Ok((args_m(v@), pos as int)),
        Err(e) => Err(e@),
    }
}

pub open spec fn res_inits(r: Result<Vec<FieldInit>, ParseError>, pos: usize) -> PR<Seq<FieldInitM>> {
    match r {
        Ok(v) => Ok((inits_m(v@), pos as int)),
        Err(e) => Err(e@),
    }
}

pub open spec fn res_arms(r: Result<Vec<MatchArm>, ParseError>, pos: usize) -> PR<Seq<ArmM>> {
    match r {
        Ok(v) => Ok((arms_m(v@), pos as int)),
        Err(e) => Err(e@),
    }
}

pub open spec fn res_pat(r: Result<Pattern, ParseError>, pos: usize) -> PR<PatternM> {
    match r {
        Ok(p) => Ok((pattern_m(p), pos as int)),
        Err(e) => Err(e@),
    }
}

pub open spec fn res_stmt(r: Result<Stmt, ParseError>, pos: usize) -> PR<StmtM> {
    match r {
        Ok(x) => Ok((x.model(), pos as int)),
        Err(e) => Err(e@),
    }
}

pub open spec fn res_stmts(r: Result<Vec<Stmt>, ParseError>, pos: usize) -> PR<Seq<StmtM>> {
    match r {
        Ok(v) => Ok((stmts_m(v@), pos as int)),
        Err(e) => Err(e@),
    }
}

pub proof fn lemma_exprs_m_len(s: Seq<Expr>)
    ensures
        exprs_m(s).len() == s.len(),
    decreases s.len(),
{
    if s.len() > 0 {
        lemma_exprs_m_len(s.drop_last());
    }
}

pub proof fn lemma_exprs_m_add(a: Seq<Expr>, b: Seq<Expr>)
    ensures
        exprs_m(a + b) == exprs_m(a) + exprs_m(b),
    decreases b.len(),
{
    if b.len() == 0 {
        assert(a + b =~= a);
        assert(exprs_m(a) + exprs_m(b) =~= exprs_m(a));
    } else {
        lemma_exprs_m_add(a, b.drop_last());
        assert((a + b).drop_last() =~= a + b.drop_last());
        assert((a + b).last() == b.last());
        assert(exprs_m(a) + exprs_m(b) =~= (exprs_m(a) + exprs_m(b.drop_last())).push(b.last().model()));
    }
}

// ── Single tokens ─────────────────────────────────────────────

pub open spec fn p_expect(ts: Seq<Token>, i: int, k: TokenKind) -> Result<int, ParseErrV> {
    if pk(ts, i) == k {
        Ok(i + 1)
    } else {
        Err(unexpected(ts, i, "expected token"@))
    }
}

pub open spec fn p_ident(ts: Seq<Token>, i: int) -> PR<Seq<char>> {
    match pk(ts, i) {
        TokenKind::Ident(s) => Ok((s@, i + 1)),
        _ => Err(unexpected(ts, i, "identifier"@)),
    }
}

pub open spec fn p_str(ts: Seq<Token>, i: int) -> PR<Seq<char>> {
    match pk(ts, i) {
        TokenKind::Str(s) => Ok((s@, i + 1)),
        _ => Err(unexpected(ts, i, "string literal"@)),
    }
}

/// An optional ownership mode keyword.
pub open spec fn p_mode(ts: Seq<Token>, i: int) -> (OwnershipMode, int) {
    match pk(ts, i) {
        TokenKind::Read => (OwnershipMode::Read, i + 1),
        TokenKind::Mut => (OwnershipMode::Mut, i + 1),
        TokenKind::Move => (OwnershipMode::Move, i + 1),
        _ => (OwnershipMode::Inferred, i),
    }
}

// ── Types ─────────────────────────────────────────────────────

pub open spec fn p_ty(ts: Seq<Token>, i: int) -> PR<TyM>
    decreases ts.len() - i, 0nat,
{
    let span = sp(ts, i);
    if i < 0 || i > ts.len() {
        stalled()
    } else if pk(ts, i) is LBracket {
        // `[N]T` — fixed array  OR  `[]T` — slice
        match pk(ts, i + 1) {
            TokenKind::Int(n) => match p_expect(ts, i + 2, TokenKind::RBracket) {
                Err(e) => Err(e),
                Ok(i3) => match p_ty(ts, i3) {
                    Err(e) => Err(e),
                    Ok((elem, i4)) => Ok(
                        (
                            TyM {
                                kind: TyKindM::Array { size: n as usize, elem: Box::new(elem) },
                                span: span_of(span.start, elem.span.end),
                            },
                            i4,
                        ),
                    ),
                },
            },
            _ => match p_expect(ts, i + 1, TokenKind::RBracket) {
                Err(e) => Err(e),
                Ok(i2) => match p_ty(ts, i2) {
                    Err(e) => Err(e),
                    Ok((inner, i3)) => Ok(
                        (TyM { kind: TyKindM::Slice(Box::new(inner)), span: span_of(span.start, inner.span.end) }, i3),
                    ),
                },
            },
        }
    } else if pk(ts, i) is Fn {
        // `fn(T, U) -> R`
        match p_expect(ts, i + 1, TokenKind::LParen) {
            Err(e) => Err(e),
            Ok(i2) => match p_ty_list(ts, i2, Seq::empty()) {
                Err(e) => Err(e),
                Ok((params, i3)) => match p_expect(ts, i3, TokenKind::RParen) {
                    Err(e) => Err(e),
                    Ok(i4) => match p_expect(ts, i4, TokenKind::Arrow) {
                        Err(e) => Err(e),
                        Ok(i5) => if !fwd(ts, i, i5) {
                            stalled()
                        } else {
                            match p_ty(ts, i5) {
                                Err(e) => Err(e),
                                Ok((ret, i6)) => Ok(
                                    (
                                        TyM {
                                            kind: TyKindM::FnPtr { params, ret: Box::new(ret) },
                                            span: span_of(span.start, ret.span.end),
                                        },
                                        i6,
                                    ),
                                ),
                            }
                        },
                    },
                },
            },
        }
    } else if pk(ts, i) is Star {
        // `*mut T` / `*T`
        if pk(ts, i + 1) is Mut {
            match p_ty(ts, i + 2) {
                Err(e) => Err(e),
                Ok((inner, j)) => Ok(
                    (TyM { kind: TyKindM::PtrMut(Box::new(inner)), span: span_of(span.start, inner.span.end) }, j),
                ),
            }
        } else {
            match p_ty(ts, i + 1) {
                Err(e) => Err(e),
                Ok((inner, j)) => Ok(
                    (TyM { kind: TyKindM::Ptr(Box::new(inner)), span: span_of(span.start, inner.span.end) }, j),
                ),
            }
        }
    } else if i >= ts.len() {
        // Past the end of the tokens the last one is reported as found.
        Err(
            ParseErrV::UnexpectedToken {
                expected: "type"@,
                found: if ts.len() > 0 {
                    ts.last().kind@
                } else {
                    TokenKind::Eof@
                },
                span,
            },
        )
    } else {
        let i1 = i + 1;
        let simple = |k: TyKindM| Ok((TyM { kind: k, span: span_of(span.start, sp(ts, i1).start) }, i1));
        match pk(ts, i) {
            TokenKind::I8 => simple(TyKindM::I8),
            TokenKind::I16 => simple(TyKindM::I16),
            TokenKind::I32 => simple(TyKindM::I32),
            TokenKind::I64 => simple(TyKindM::I64),
            TokenKind::U8 => simple(TyKindM::U8),
            TokenKind::U16 => simple(TyKindM::U16),
            TokenKind::U32 => simple(TyKindM::U32),
            TokenKind::U64 => simple(TyKindM::U64),
            TokenKind::F32 => simple(TyKindM::F32),
            TokenKind::F64 => simple(TyKindM::F64),
            TokenKind::BoolTy => simple(TyKindM::Bool),
            TokenKind::Usize => simple(TyKindM::Usize),
            TokenKind::StrTy => simple(TyKindM::Str),
            TokenKind::Void => simple(TyKindM::Void),
            TokenKind::Ident(name) => if name@ == "Result"@ && pk(ts, i1) is LParen {
                // `Result(T, E)`
                match p_ty(ts, i1 + 1) {
                    Err(e) => Err(e),
                    Ok((ok, j1)) => match p_expect(ts, j1, TokenKind::Comma) {
                        Err(e) => Err(e),
                        Ok(j2) => if !fwd(ts, i, j2) {
                            stalled()
                        } else {
                            match p_ty(ts, j2) {
                                Err(e) => Err(e),
                                Ok((err, j3)) => match p_expect(ts, j3, TokenKind::RParen) {
                                    Err(e) => Err(e),
                                    Ok(j4) => Ok(
                                        (
                                            TyM {
                                                kind: TyKindM::Result(Box::new(ok), Box::new(err)),
                                                span: span_of(span.start, sp(ts, j4).start),
                                            },
                                            j4,
                                        ),
                                    ),
                                },
                            }
                        },
                    },
                }
            } else if name@ == "Option"@ && pk(ts, i1) is LParen {
                // `Option(T)`
                match p_ty(ts, i1 + 1) {
                    Err(e) => Err(e),
                    Ok((inner, j1)) => match p_expect(ts, j1, TokenKind::RParen) {
                        Err(e) => Err(e),
                        Ok(j2) => Ok(
                            (
                                TyM {
                                    kind: TyKindM::Option(Box::new(inner)),
                                    span: span_of(span.start, sp(ts, j2).start),
                                },
                                j2,
                            ),
                        ),
                    },
                }
            } else if name@ == "Allocator"@ {
                simple(TyKindM::Allocator)
            } else {
                simple(TyKindM::Named(name@))
            },
            _ => Err(ParseErrV::UnexpectedToken { expected: "type"@, found: pk(ts, i)@, span }),
        }
    }
}

/// The types of a function pointer's parameter list, up to `)`.
pub open spec fn p_ty_list(ts: Seq<Token>, i: int, acc: Seq<TyM>) -> PR<Seq<TyM>>
    decreases ts.len() - i, 1nat,
{
    if i < 0 || i > ts.len() {
        stalled()
    } else if pk(ts, i) is RParen {
        Ok((acc, i))
    } else {
        match p_ty(ts, i) {
            Err(e) => Err(e),
            Ok((t, j)) => if !fwd(ts, i, j) {
                stalled()
            } else if pk(ts, j) is Comma {
                p_ty_list(ts, j + 1, acc.push(t))
            } else {
                Ok((acc.push(t), j))
            },
        }
    }
}


// ── Expressions ───────────────────────────────────────────────
//
// Each function below reads from position `i` at control-flow depth `d`.
// The second component of each measure orders the functions that may call
// one another at the same position.

pub open spec fn bin(op: BinOp, l: ExprM, r: ExprM) -> ExprM {
    mk(ExprKindM::BinOp { op, left: Box::new(l), right: Box::new(r) }, span_of(l.span.start, r.span.end))
}

pub open spec fn comparison_op(k: TokenKind) -> Option<BinOp> {
    match k {
        TokenKind::Eq => Some(BinOp::Eq),
        TokenKind::NotEq => Some(BinOp::NotEq),
        TokenKind::Lt => Some(BinOp::Lt),
        TokenKind::LtEq => Some(BinOp::LtEq),
        TokenKind::Gt => Some(BinOp::Gt),
        TokenKind::GtEq => Some(BinOp::GtEq),
        _ => None,
    }
}

pub open spec fn add_op(k: TokenKind) -> Option<BinOp> {
    match k {
        TokenKind::Plus => Some(BinOp::Add),
        TokenKind::Minus => Some(BinOp::Sub),
        TokenKind::PlusPlus => Some(BinOp::Concat),
        _ => None,
    }
}

pub open spec fn mul_op(k: TokenKind) -> Option<BinOp> {
    match k {
        TokenKind::Star => Some(BinOp::Mul),
        TokenKind::Slash => Some(BinOp::Div),
        TokenKind::Percent => Some(BinOp::Rem),
        _ => None,
    }
}

/// An expression: a pipeline.
pub closed spec fn p_expr(ts: Seq<Token>, i: int, d: int) -> PR<ExprM>
    decreases ts.len() - i, 13nat,
{
    p_pipe(ts, i, d)
}

/// `a |> b |> c`, grouped to the left.
pub closed spec fn p_pipe(ts: Seq<Token>, i: int, d: int) -> PR<ExprM>
    decreases ts.len() - i, 12nat,
{
    match p_or(ts, i, d) {
        Err(e) => Err(e),
        Ok((l, j)) => if !fwd(ts, i, j) {
            stalled()
        } else {
            p_pipe_rest(ts, j, d, l)
        },
    }
}

pub closed spec fn p_pipe_rest(ts: Seq<Token>, i: int, d: int, left: ExprM) -> PR<ExprM>
    decreases ts.len() - i, 20nat,
{
    if pk(ts, i) is Pipe {
        match p_or(ts, i + 1, d) {
            Err(e) => Err(e),
            Ok((r, j)) => if !fwd(ts, i, j) {
                stalled()
            } else {
                p_pipe_rest(
                    ts,
                    j,
                    d,
                    mk(ExprKindM::Pipe { left: Box::new(left), right: Box::new(r) }, span_of(left.span.start, r.span.end)),
                )
            },
        }
    } else {
        Ok((left, i))
    }
}

pub closed spec fn p_or(ts: Seq<Token>, i: int, d: int) -> PR<ExprM>
    decreases ts.len() - i, 11nat,
{
    match p_and(ts, i, d) {
        Err(e) => Err(e),
        Ok((l, j)) => if !fwd(ts, i, j) {
            stalled()
        } else {
            p_or_rest(ts, j, d, l)
        },
    }
}

pub closed spec fn p_or_rest(ts: Seq<Token>, i: int, d: int, left: ExprM) -> PR<ExprM>
    decreases ts.len() - i, 20nat,
{
    if pk(ts, i) is Or {
        match p_and(ts, i + 1, d) {
            Err(e) => Err(e),
            Ok((r, j)) => if !fwd(ts, i, j) {
                stalled()
            } else {
                p_or_rest(ts, j, d, bin(BinOp::Or, left, r))
            },
        }
    } else {
        Ok((left, i))
    }
}

pub closed spec fn p_and(ts: Seq<Token>, i: int, d: int) -> PR<ExprM>
    decreases ts.len() - i, 10nat,
{
    match p_comparison(ts, i, d) {
        Err(e) => Err(e),
        Ok((l, j)) => if !fwd(ts, i, j) {
            stalled()
        } else {
            p_and_rest(ts, j, d, l)
        },
    }
}

pub closed spec fn p_and_rest(ts: Seq<Token>, i: int, d: int, left: ExprM) -> PR<ExprM>
    decreases ts.len() - i, 20nat,
{
    if pk(ts, i) is And {
        match p_comparison(ts, i + 1, d) {
            Err(e) => Err(e),
            Ok((r, j)) => if !fwd(ts, i, j) {
                stalled()
            } else {
                p_and_rest(ts, j, d, bin(BinOp::And, left, r))
            },
        }
    } else {
        Ok((left, i))
    }
}

pub closed spec fn p_comparison(ts: Seq<Token>, i: int, d: int) -> PR<ExprM>
    decreases ts.len() - i, 9nat,
{
    match p_add(ts, i, d) {
        Err(e) => Err(e),
        Ok((l, j)) => if !fwd(ts, i, j) {
            stalled()
        } else {
            p_comparison_rest(ts, j, d, l)
        },
    }
}

pub closed spec fn p_comparison_rest(ts: Seq<Token>, i: int, d: int, left: ExprM) -> PR<ExprM>
    decreases ts.len() - i, 20nat,
{
    match comparison_op(pk(ts, i)) {
        Some(op) => match p_add(ts, i + 1, d) {
            Err(e) => Err(e),
            Ok((r, j)) => if !fwd(ts, i, j) {
                stalled()
            } else {
                p_comparison_rest(ts, j, d, bin(op, left, r))
            },
        },
        None => Ok((left, i)),
    }
}

pub closed spec fn p_add(ts: Seq<Token>, i: int, d: int) -> PR<ExprM>
    decreases ts.len() - i, 8nat,
{
    match p_mul(ts, i, d) {
        Err(e) => Err(e),
        Ok((l, j)) => if !fwd(ts, i, j) {
            stalled()
        } else {
            p_add_rest(ts, j, d, l)
        },
    }
}

pub closed spec fn p_add_rest(ts: Seq<Token>, i: int, d: int, left: ExprM) -> PR<ExprM>
    decreases ts.len() - i, 20nat,
{
    match add_op(pk(ts, i)) {
        Some(op) => match p_mul(ts, i + 1, d) {
            Err(e) => Err(e),
            Ok((r, j)) => if !fwd(ts, i, j) {
                stalled()
            } else {
                p_add_rest(ts, j, d, bin(op, left, r))
            },
        },
        None => Ok((left, i)),
    }
}

pub closed spec fn p_mul(ts: Seq<Token>, i: int, d: int) -> PR<ExprM>
    decreases ts.len() - i, 7nat,
{
    match p_unary(ts, i, d) {
        Err(e) => Err(e),
        Ok((l, j)) => if !fwd(ts, i, j) {
            stalled()
        } else {
            p_mul_rest(ts, j, d, l)
        },
    }
}

pub closed spec fn p_mul_rest(ts: Seq<Token>, i: int, d: int, left: ExprM) -> PR<ExprM>
    decreases ts.len() - i, 20nat,
{
    match mul_op(pk(ts, i)) {
        Some(op) => match p_unary(ts, i + 1, d) {
            Err(e) => Err(e),
            Ok((r, j)) => if !fwd(ts, i, j) {
                stalled()
            } else {
                p_mul_rest(ts, j, d, bin(op, left, r))
            },
        },
        None => Ok((left, i)),
    }
}

/// The expression that a prefix operator at `i` builds around `e`.
pub open spec fn prefixed(ts: Seq<Token>, i: int, e: ExprM) -> ExprM {
    let s = span_of(sp(ts, i).start, e.span.end);
    match pk(ts, i) {
        TokenKind::Not => mk(ExprKindM::UnOp { op: UnOp::Not, expr: Box::new(e) }, s),
        TokenKind::Minus => mk(ExprKindM::UnOp { op: UnOp::Neg, expr: Box::new(e) }, s),
        TokenKind::Star => mk(ExprKindM::Deref(Box::new(e)), s),
        _ => mk(ExprKindM::Ref(Box::new(e)), s),
    }
}

pub closed spec fn p_unary(ts: Seq<Token>, i: int, d: int) -> PR<ExprM>
    decreases ts.len() - i, 5nat,
{
    if pk(ts, i) is Not || pk(ts, i) is Minus || pk(ts, i) is Star || pk(ts, i) is Amp {
        match p_unary(ts, i + 1, d) {
            Err(e) => Err(e),
            Ok((x, j)) => Ok((prefixed(ts, i, x), j)),
        }
    } else {
        p_postfix(ts, i, d)
    }
}

pub closed spec fn p_postfix(ts: Seq<Token>, i: int, d: int) -> PR<ExprM>
    decreases ts.len() - i, 4nat,
{
    match p_primary(ts, i, d) {
        Err(e) => Err(e),
        Ok((x, j)) => if !fwd(ts, i, j) {
            stalled()
        } else {
            p_postfix_rest(ts, j, d, x)
        },
    }
}

/// The position after an optional token of kind `k` at `i`.
pub open spec fn skip(ts: Seq<Token>, i: int, k: TokenKind) -> int {
    if pk(ts, i) == k {
        i + 1
    } else {
        i
    }
}

/// What follows `e.` at `i` (the token after the dot), up to the next suffix.
pub closed spec fn p_dot_suffix(ts: Seq<Token>, i: int, d: int, e: ExprM) -> PR<ExprM>
    decreases ts.len() - i, 15nat,
{
    let st = e.span.start;
    match pk(ts, i) {
        TokenKind::Ident(s) if s@ == "alloc"@ => match p_expect(ts, i + 1, TokenKind::LParen) {
            Err(err) => Err(err),
            Ok(i2) => match p_ty(ts, i2) {
                Err(err) => Err(err),
                Ok((elem_ty, j1)) => match p_expect(ts, j1, TokenKind::Comma) {
                    Err(err) => Err(err),
                    Ok(j2) => if !fwd(ts, i, j2) {
                        stalled()
                    } else {
                        match p_expr(ts, j2, d) {
                            Err(err) => Err(err),
                            Ok((count, j3)) => match p_expect(ts, j3, TokenKind::RParen) {
                                Err(err) => Err(err),
                                Ok(j4) => Ok(
                                    (
                                        mk(
                                            ExprKindM::AllocCall {
                                                allocator: Box::new(e),
                                                elem_ty,
                                                count: Box::new(count),
                                            },
                                            span_of(st, sp(ts, j4).start),
                                        ),
                                        j4,
                                    ),
                                ),
                            },
                        }
                    },
                },
            },
        },
        TokenKind::OrReturn => {
            let j = skip(ts, i + 1, TokenKind::Question);
            Ok((mk(ExprKindM::OrReturn(Box::new(e)), span_of(st, sp(ts, j).start)), j))
        },
        TokenKind::OrPanic => match p_expect(ts, i + 1, TokenKind::LParen) {
            Err(err) => Err(err),
            Ok(i2) => match p_str(ts, i2) {
                Err(err) => Err(err),
                Ok((msg, j1)) => match p_expect(ts, j1, TokenKind::RParen) {
                    Err(err) => Err(err),
                    Ok(j2) => Ok((mk(ExprKindM::OrPanic(Box::new(e), msg), span_of(st, sp(ts, j2).start)), j2)),
                },
            },
        },
        TokenKind::OrElse => match p_expect(ts, i + 1, TokenKind::LParen) {
            Err(err) => Err(err),
            Ok(i2) => match p_expr(ts, i2, d) {
                Err(err) => Err(err),
                Ok((dflt, j1)) => match p_expect(ts, j1, TokenKind::RParen) {
                    Err(err) => Err(err),
                    Ok(j2) => Ok(
                        (mk(ExprKindM::OrElse(Box::new(e), Box::new(dflt)), span_of(st, sp(ts, j2).start)), j2),
                    ),
                },
            },
        },
        TokenKind::OrZero => Ok((mk(ExprKindM::OrZero(Box::new(e)), span_of(st, sp(ts, i + 1).start)), i + 1)),
        TokenKind::OrNil => Ok((mk(ExprKindM::OrNil(Box::new(e)), span_of(st, sp(ts, i + 1).start)), i + 1)),
        _ => match p_ident(ts, i) {
            Err(err) => Err(err),
            Ok((field, j)) => Ok(
                (mk(ExprKindM::Field { base: Box::new(e), field }, span_of(st, sp(ts, j).start)), j),
            ),
        },
    }
}

/// The suffixes after `e`: `.name`, `[index]`, `(args)` and the `.or_*` forms.
pub closed spec fn p_postfix_rest(ts: Seq<Token>, i: int, d: int, e: ExprM) -> PR<ExprM>
    decreases ts.len() - i, 20nat,
{
    let st = e.span.start;
    if pk(ts, i) is Dot {
        match p_dot_suffix(ts, i + 1, d, e) {
            Err(err) => Err(err),
            Ok((x, j)) => if !fwd(ts, i, j) {
                stalled()
            } else {
                p_postfix_rest(ts, j, d, x)
            },
        }
    } else if pk(ts, i) is LBracket {
        match p_expr(ts, i + 1, d) {
            Err(err) => Err(err),
            Ok((index, j1)) => match p_expect(ts, j1, TokenKind::RBracket) {
                Err(err) => Err(err),
                Ok(j2) => if !fwd(ts, i, j2) {
                    stalled()
                } else {
                    p_postfix_rest(
                        ts,
                        j2,
                        d,
                        mk(ExprKindM::Index { base: Box::new(e), index: Box::new(index) }, span_of(st, sp(ts, j2).start)),
                    )
                },
            },
        }
    } else if pk(ts, i) is LParen {
        match p_call_args(ts, i, d) {
            Err(err) => Err(err),
            Ok((args, j)) => if !fwd(ts, i, j) {
                stalled()
            } else {
                p_postfix_rest(
                    ts,
                    j,
                    d,
                    mk(ExprKindM::Call { callee: Box::new(e), args }, span_of(st, sp(ts, j).start)),
                )
            },
        }
    } else {
        Ok((e, i))
    }
}

/// `{` at `i` opens a struct literal: `{}` or `{ name = ...`.
pub open spec fn struct_lit_opening(ts: Seq<Token>, i: int) -> bool {
    pk(ts, i + 1) is RBrace || (pk(ts, i + 1) is Ident && pk(ts, i + 2) is Assign)
}

pub closed spec fn p_primary(ts: Seq<Token>, i: int, d: int) -> PR<ExprM>
    decreases ts.len() - i, 2nat,
{
    let span = sp(ts, i);
    match pk(ts, i) {
        TokenKind::Int(v) => Ok((mk(ExprKindM::Int(v), span), i + 1)),
        TokenKind::Float(t) => Ok((mk(ExprKindM::Float(t@), span), i + 1)),
        TokenKind::Bool(b) => Ok((mk(ExprKindM::Bool(b), span), i + 1)),
        TokenKind::Str(t) => Ok((mk(ExprKindM::Str(t@), span), i + 1)),
        TokenKind::Ident(name) => p_named(ts, i + 1, d, name@, span),
        TokenKind::AsmBang => match p_expect(ts, i + 1, TokenKind::LParen) {
            Err(e) => Err(e),
            Ok(i2) => match p_str(ts, i2) {
                Err(e) => Err(e),
                Ok((template, i3)) => match p_asm_args(ts, i3, d, Seq::empty()) {
                    Err(e) => Err(e),
                    Ok((args, j)) => match p_expect(ts, j, TokenKind::RParen) {
                        Err(e) => Err(e),
                        Ok(j2) => Ok(
                            (mk(ExprKindM::Asm { template, args }, span_of(span.start, sp(ts, j2).start)), j2),
                        ),
                    },
                },
            },
        },
        TokenKind::LBracket => p_array(ts, i, d),
        TokenKind::If => p_if(ts, i, d),
        TokenKind::Match => p_match(ts, i, d),
        TokenKind::LParen => match p_expr(ts, i + 1, d) {
            Err(e) => Err(e),
            Ok((inner, j)) => match p_expect(ts, j, TokenKind::RParen) {
                Err(e) => Err(e),
                Ok(j2) => Ok((inner, j2)),
            },
        },
        _ => Err(ParseErrV::UnexpectedToken { expected: "expression"@, found: pk(ts, i)@, span }),
    }
}

/// What follows a name at `i`: `Ok(..)`/`Err(..)`, a struct literal, or
/// nothing (a plain name); `span` is the name's.
pub closed spec fn p_named(ts: Seq<Token>, i: int, d: int, name: Seq<char>, span: Span) -> PR<ExprM>
    decreases ts.len() - i, 1nat,
{
    if name == "Ok"@ || name == "Err"@ {
        let variant = if name == "Ok"@ {
            ResultVariant::Success
        } else {
            ResultVariant::Failure
        };
        match p_expect(ts, i, TokenKind::LParen) {
            Err(e) => Err(e),
            Ok(i2) => match p_expr(ts, i2, d) {
                Err(e) => Err(e),
                Ok((inner, j)) => match p_expect(ts, j, TokenKind::RParen) {
                    Err(e) => Err(e),
                    Ok(j2) => Ok(
                        (
                            mk(
                                ExprKindM::ResultCtor { variant, inner: Box::new(inner) },
                                span_of(span.start, sp(ts, j2).start),
                            ),
                            j2,
                        ),
                    ),
                },
            },
        }
    } else if pk(ts, i) is LBrace && struct_lit_opening(ts, i) {
        match p_inits(ts, i + 1, d, Seq::empty()) {
            Err(e) => Err(e),
            Ok((fields, j)) => match p_expect(ts, j, TokenKind::RBrace) {
                Err(e) => Err(e),
                Ok(j2) => Ok(
                    (mk(ExprKindM::StructLit { name, fields }, span_of(span.start, sp(ts, j2).start)), j2),
                ),
            },
        }
    } else {
        Ok((mk(ExprKindM::Ident(name), span), i))
    }
}

/// The `name = expr` fields of a struct literal, up to `}`.
pub closed spec fn p_inits(ts: Seq<Token>, i: int, d: int, acc: Seq<FieldInitM>) -> PR<Seq<FieldInitM>>
    decreases ts.len() - i, 20nat,
{
    if pk(ts, i) is RBrace {
        Ok((acc, i))
    } else {
        match p_ident(ts, i) {
            Err(e) => Err(e),
            Ok((name, i1)) => match p_expect(ts, i1, TokenKind::Assign) {
                Err(e) => Err(e),
                Ok(i2) => match p_expr(ts, i2, d) {
                    Err(e) => Err(e),
                    Ok((x, j)) => if !fwd(ts, i, j) {
                        stalled()
                    } else {
                        p_inits(ts, skip(ts, j, TokenKind::Comma), d, acc.push(FieldInitM { name, expr: x }))
                    },
                },
            },
        }
    }
}

/// The `, expr` operands of an inline assembly expression.
pub closed spec fn p_asm_args(ts: Seq<Token>, i: int, d: int, acc: Seq<ExprM>) -> PR<Seq<ExprM>>
    decreases ts.len() - i, 20nat,
{
    if pk(ts, i) is Comma {
        match p_expr(ts, i + 1, d) {
            Err(e) => Err(e),
            Ok((x, j)) => if !fwd(ts, i, j) {
                stalled()
            } else {
                p_asm_args(ts, j, d, acc.push(x))
            },
        }
    } else {
        Ok((acc, i))
    }
}

/// `[a, b, c]` or, with `;` between rows, `[a, b; c, d]`.
pub closed spec fn p_array(ts: Seq<Token>, i: int, d: int) -> PR<ExprM>
    decreases ts.len() - i, 1nat,
{
    match p_expect(ts, i, TokenKind::LBracket) {
        Err(e) => Err(e),
        Ok(i1) => p_array_rest(ts, i1, d, sp(ts, i).start, Seq::empty(), Seq::empty(), 0, 0),
    }
}

/// The rest of a bracketed literal: `done` holds the elements of the
/// finished rows, `row` those of the current one, `rows` the number of
/// finished rows and `cols` the length of the first of them.
pub closed spec fn p_array_rest(
    ts: Seq<Token>,
    i: int,
    d: int,
    start: usize,
    done: Seq<ExprM>,
    row: Seq<ExprM>,
    rows: int,
    cols: int,
) -> PR<ExprM>
    decreases ts.len() - i, 20nat,
{
    if !(pk(ts, i) is RBracket) && !(pk(ts, i) is Eof) {
        if pk(ts, i) is Semi {
            p_array_rest(
                ts,
                i + 1,
                d,
                start,
                done + row,
                Seq::empty(),
                rows + 1,
                if rows == 0 {
                    row.len() as int
                } else {
                    cols
                },
            )
        } else {
            match p_expr(ts, i, d) {
                Err(e) => Err(e),
                Ok((x, j)) => if !fwd(ts, i, j) {
                    stalled()
                } else {
                    let k = if !(pk(ts, j) is Semi) && !(pk(ts, j) is RBracket) {
                        skip(ts, j, TokenKind::Comma)
                    } else {
                        j
                    };
                    p_array_rest(ts, k, d, start, done, row.push(x), rows, cols)
                },
            }
        }
    } else {
        match p_expect(ts, i, TokenKind::RBracket) {
            Err(e) => Err(e),
            Ok(j) => {
                let span = span_of(start, sp(ts, j).start);
                if rows > 0 {
                    Ok(
                        (
                            mk(
                                ExprKindM::MatrixLit {
                                    elems: done + row,
                                    rows: (rows + 1) as usize,
                                    cols: cols as usize,
                                },
                                span,
                            ),
                            j,
                        ),
                    )
                } else {
                    Ok((mk(ExprKindM::ArrayLit(row), span), j))
                }
            },
        }
    }
}

/// `{ statements }`.
pub closed spec fn p_branch(ts: Seq<Token>, i: int, d: int) -> PR<Seq<StmtM>>
    decreases ts.len() - i, 1nat,
{
    match p_expect(ts, i, TokenKind::LBrace) {
        Err(e) => Err(e),
        Ok(i1) => match p_block(ts, i1, d) {
            Err(e) => Err(e),
            Ok((ss, j)) => match p_expect(ts, j, TokenKind::RBrace) {
                Err(e) => Err(e),
                Ok(j1) => Ok((ss, j1)),
            },
        },
    }
}

/// `if cond { .. }` with an optional `else { .. }`; nesting is refused.
pub closed spec fn p_if(ts: Seq<Token>, i: int, d: int) -> PR<ExprM>
    decreases ts.len() - i, 1nat,
{
    let span = sp(ts, i);
    match p_expect(ts, i, TokenKind::If) {
        Err(e) => Err(e),
        Ok(i1) => if d >= 1 {
            Err(ParseErrV::IllegalNesting { span })
        } else {
            match p_expr(ts, i1, d) {
                Err(e) => Err(e),
                Ok((cond, j)) => if !fwd(ts, i, j) {
                    stalled()
                } else {
                    match p_if_branches(ts, j, d + 1) {
                        Err(e) => Err(e),
                        Ok((branches, k)) => Ok((if_expr(cond, branches, span, sp(ts, k).start), k)),
                    }
                },
            }
        },
    }
}

/// The `if` expression with condition `cond` and the statements of its
/// branches; it spans from `span` to `end`.
pub open spec fn if_expr(cond: ExprM, branches: (Seq<StmtM>, Option<Seq<StmtM>>), span: Span, end: usize) -> ExprM {
    mk(
        ExprKindM::If {
            cond: Box::new(cond),
            then: Box::new(mk(ExprKindM::Block(branches.0), span)),
            else_: match branches.1 {
                Some(es) => Some(Box::new(mk(ExprKindM::Block(es), span))),
                None => None,
            },
        },
        span_of(span.start, end),
    )
}

/// The statements of the branches of an `if`, read at depth `d`.
pub closed spec fn p_if_branches(ts: Seq<Token>, i: int, d: int) -> PR<(Seq<StmtM>, Option<Seq<StmtM>>)>
    decreases ts.len() - i, 2nat,
{
    match p_branch(ts, i, d) {
        Err(e) => Err(e),
        Ok((then_s, j)) => if pk(ts, j) is Else {
            if !fwd(ts, i, j) {
                stalled()
            } else {
                match p_branch(ts, j + 1, d) {
                    Err(e) => Err(e),
                    Ok((else_s, k)) => Ok(((then_s, Some(else_s)), k)),
                }
            }
        } else {
            Ok(((then_s, None), j))
        },
    }
}

/// The result of reading the branches of an `if`, as models.
pub open spec fn res_branches(r: Result<(Vec<Stmt>, Option<Vec<Stmt>>), ParseError>, pos: usize) -> PR<
    (Seq<StmtM>, Option<Seq<StmtM>>),
> {
    match r {
        Ok((t, e)) => Ok(
            (
                (
                    stmts_m(t@),
                    match e {
                        Some(x) => Some(stmts_m(x@)),
                        None => None,
                    },
                ),
                pos as int,
            ),
        ),
        Err(e) => Err(e@),
    }
}

/// `match subject { pattern => expr, .. }`; nesting is refused.
pub closed spec fn p_match(ts: Seq<Token>, i: int, d: int) -> PR<ExprM>
    decreases ts.len() - i, 1nat,
{
    let span = sp(ts, i);
    match p_expect(ts, i, TokenKind::Match) {
        Err(e) => Err(e),
        Ok(i1) => if d >= 1 {
            Err(ParseErrV::IllegalNesting { span })
        } else {
            match p_expr(ts, i1, d) {
                Err(e) => Err(e),
                Ok((subject, j)) => match p_expect(ts, j, TokenKind::LBrace) {
                    Err(e) => Err(e),
                    Ok(j1) => if !fwd(ts, i, j1) {
                        stalled()
                    } else {
                        match p_arms(ts, j1, d + 1, Seq::empty()) {
                            Err(e) => Err(e),
                            Ok((arms, k)) => match p_expect(ts, k, TokenKind::RBrace) {
                                Err(e) => Err(e),
                                Ok(k1) => Ok(
                                    (
                                        mk(
                                            ExprKindM::Match { subject: Box::new(subject), arms },
                                            span_of(span.start, sp(ts, k1).start),
                                        ),
                                        k1,
                                    ),
                                ),
                            },
                        }
                    },
                },
            }
        },
    }
}

/// The arms of a `match`, up to `}`.
pub closed spec fn p_arms(ts: Seq<Token>, i: int, d: int, acc: Seq<ArmM>) -> PR<Seq<ArmM>>
    decreases ts.len() - i, 20nat,
{
    if pk(ts, i) is RBrace {
        Ok((acc, i))
    } else {
        match p_pattern(ts, i) {
            Err(e) => Err(e),
            Ok((pattern, i1)) => match p_expect(ts, i1, TokenKind::FatArrow) {
                Err(e) => Err(e),
                Ok(i2) => match p_expr(ts, i2, d) {
                    Err(e) => Err(e),
                    Ok((body, j)) => if !fwd(ts, i, j) {
                        stalled()
                    } else {
                        p_arms(ts, skip(ts, j, TokenKind::Comma), d, acc.push(ArmM { pattern, body }))
                    },
                },
            },
        }
    }
}

pub open spec fn p_pattern(ts: Seq<Token>, i: int) -> PR<PatternM> {
    match pk(ts, i) {
        TokenKind::Ident(s) => if s@ == "_"@ {
            Ok((PatternM::Wildcard, i + 1))
        } else if pk(ts, i + 1) is Dot {
            match p_ident(ts, i + 2) {
                Err(e) => Err(e),
                Ok((variant, j)) => Ok((PatternM::Variant { ty: s@, variant }, j)),
            }
        } else {
            Ok((PatternM::Lit(ExprKindM::Ident(s@)), i + 1))
        },
        TokenKind::Else => Ok((PatternM::Else, i + 1)),
        TokenKind::Int(v) => Ok((PatternM::Lit(ExprKindM::Int(v)), i + 1)),
        TokenKind::Str(s) => Ok((PatternM::Lit(ExprKindM::Str(s@)), i + 1)),
        _ => Err(ParseErrV::UnexpectedToken { expected: "pattern"@, found: pk(ts, i)@, span: sp(ts, i) }),
    }
}

/// `(args)` of a call.
pub closed spec fn p_call_args(ts: Seq<Token>, i: int, d: int) -> PR<Seq<ArgM>>
    decreases ts.len() - i, 1nat,
{
    match p_expect(ts, i, TokenKind::LParen) {
        Err(e) => Err(e),
        Ok(i1) => match p_args(ts, i1, d, Seq::empty()) {
            Err(e) => Err(e),
            Ok((args, j)) => match p_expect(ts, j, TokenKind::RParen) {
                Err(e) => Err(e),
                Ok(j1) => Ok((args, j1)),
            },
        },
    }
}

/// An optional `label:` at `i`.
pub open spec fn p_label(ts: Seq<Token>, i: int) -> (Option<Seq<char>>, int) {
    match pk(ts, i) {
        TokenKind::Ident(name) => if pk(ts, i + 1) is Colon {
            (Some(name@), i + 2)
        } else {
            (None, i)
        },
        _ => (None, i),
    }
}

/// The arguments of a call, up to `)` or to one not followed by `,`.
pub closed spec fn p_args(ts: Seq<Token>, i: int, d: int, acc: Seq<ArgM>) -> PR<Seq<ArgM>>
    decreases ts.len() - i, 20nat,
{
    if pk(ts, i) is RParen {
        Ok((acc, i))
    } else {
        let (mode, i1) = p_mode(ts, i);
        let (label, i2) = p_label(ts, i1);
        match p_expr(ts, i2, d) {
            Err(e) => Err(e),
            Ok((x, j)) => if !fwd(ts, i, j) {
                stalled()
            } else {
                let acc2 = acc.push(ArgM { label, mode, expr: x });
                if pk(ts, j) is Comma {
                    p_args(ts, j + 1, d, acc2)
                } else {
                    Ok((acc2, j))
                }
            },
        }
    }
}

// ── Statements ────────────────────────────────────────────────

/// An optional `: type` at `i`.
pub open spec fn p_opt_ty(ts: Seq<Token>, i: int) -> PR<Option<TyM>> {
    if pk(ts, i) is Colon {
        match p_ty(ts, i + 1) {
            Err(e) => Err(e),
            Ok((t, j)) => Ok((Some(t), j)),
        }
    } else {
        Ok((None, i))
    }
}

pub closed spec fn p_stmt(ts: Seq<Token>, i: int, d: int) -> PR<StmtM>
    decreases ts.len() - i, 14nat,
{
    let span = sp(ts, i);
    let k = pk(ts, i);
    if k is Ding || k is Let || k is She || k is Var {
        match p_ident(ts, i + 1) {
            Err(e) => Err(e),
            Ok((name, i2)) => match p_opt_ty(ts, i2) {
                Err(e) => Err(e),
                Ok((ty, i3)) => match p_expect(ts, i3, TokenKind::Assign) {
                    Err(e) => Err(e),
                    Ok(i4) => if !fwd(ts, i, i4) {
                        stalled()
                    } else {
                        match p_expr(ts, i4, d) {
                            Err(e) => Err(e),
                            Ok((init, j)) => Ok(
                                (
                                    StmtM {
                                        kind: if k is Ding || k is Let {
                                            StmtKindM::Let { name, ty, init }
                                        } else {
                                            StmtKindM::Var { name, ty, init }
                                        },
                                        span,
                                    },
                                    j,
                                ),
                            ),
                        }
                    },
                },
            },
        }
    } else if k is Return {
        if pk(ts, i + 1) is Eof || pk(ts, i + 1) is RBrace {
            Ok((StmtM { kind: StmtKindM::Return(None), span }, i + 1))
        } else {
            match p_expr(ts, i + 1, d) {
                Err(e) => Err(e),
                Ok((x, j)) => Ok((StmtM { kind: StmtKindM::Return(Some(x)), span }, j)),
            }
        }
    } else if k is Defer {
        match p_expr(ts, i + 1, d) {
            Err(e) => Err(e),
            Ok((x, j)) => Ok((StmtM { kind: StmtKindM::Defer(x), span }, j)),
        }
    } else if k is For {
        if d >= 1 {
            Err(ParseErrV::IllegalNesting { span })
        } else {
            match p_ident(ts, i + 1) {
                Err(e) => Err(e),
                Ok((binding, i2)) => match p_expect(ts, i2, TokenKind::In) {
                    Err(e) => Err(e),
                    Ok(i3) => match p_expr(ts, i3, d) {
                        Err(e) => Err(e),
                        Ok((iter, j)) => if !fwd(ts, i, j) {
                            stalled()
                        } else {
                            match p_branch(ts, j, d + 1) {
                                Err(e) => Err(e),
                                Ok((body, j3)) => Ok((StmtM { kind: StmtKindM::For { binding, iter, body }, span }, j3)),
                            }
                        },
                    },
                },
            }
        }
    } else {
        match p_expr(ts, i, d) {
            Err(e) => Err(e),
            Ok((x, j)) => if !fwd(ts, i, j) {
                stalled()
            } else if pk(ts, j) is Assign {
                match p_expr(ts, j + 1, d) {
                    Err(e) => Err(e),
                    Ok((v, j2)) => Ok((StmtM { kind: StmtKindM::Assign { target: x, value: v }, span }, j2)),
                }
            } else {
                Ok((StmtM { kind: StmtKindM::Expr(x), span }, j))
            },
        }
    }
}

/// The statements of a block, up to `}` or the end.
pub closed spec fn p_block(ts: Seq<Token>, i: int, d: int) -> PR<Seq<StmtM>>
    decreases ts.len() - i, 21nat,
{
    p_block_rest(ts, i, d, Seq::empty())
}

pub closed spec fn p_block_rest(ts: Seq<Token>, i: int, d: int, acc: Seq<StmtM>) -> PR<Seq<StmtM>>
    decreases ts.len() - i, 20nat,
{
    if !(pk(ts, i) is RBrace) && !(pk(ts, i) is Eof) {
        match p_stmt(ts, i, d) {
            Err(e) => Err(e),
            Ok((st, j)) => if !fwd(ts, i, j) {
                stalled()
            } else {
                p_block_rest(ts, j, d, acc.push(st))
            },
        }
    } else {
        Ok((acc, i))
    }
}


// ── Items and files ───────────────────────────────────────────

pub open spec fn p_param(ts: Seq<Token>, i: int) -> PR<ParamM> {
    let (mode, i1) = p_mode(ts, i);
    match p_ident(ts, i1) {
        Err(e) => Err(e),
        Ok((name, i2)) => match p_expect(ts, i2, TokenKind::Colon) {
            Err(e) => Err(e),
            Ok(i3) => {
                // The mode may also follow the colon: `x: read i32`.
                let (mode2, i4) = if mode is Inferred {
                    p_mode(ts, i3)
                } else {
                    (mode, i3)
                };
                match p_ty(ts, i4) {
                    Err(e) => Err(e),
                    Ok((ty, j)) => Ok((ParamM { name, mode: mode2, ty }, j)),
                }
            },
        },
    }
}

/// The parameters of a function, up to `)` or to one not followed by `,`.
pub open spec fn p_params(ts: Seq<Token>, i: int, acc: Seq<ParamM>) -> PR<Seq<ParamM>>
    decreases ts.len() - i,
{
    if pk(ts, i) is RParen {
        Ok((acc, i))
    } else {
        match p_param(ts, i) {
            Err(e) => Err(e),
            Ok((prm, j)) => if !fwd(ts, i, j) {
                stalled()
            } else if pk(ts, j) is Comma {
                p_params(ts, j + 1, acc.push(prm))
            } else {
                Ok((acc.push(prm), j))
            },
        }
    }
}

/// `fn name(params) -> type { body }`; the body is read at depth 0.
pub closed spec fn p_fn(ts: Seq<Token>, i: int) -> PR<FnDefM> {
    match p_expect(ts, i, TokenKind::Fn) {
        Err(e) => Err(e),
        Ok(i1) => match p_ident(ts, i1) {
            Err(e) => Err(e),
            Ok((name, i2)) => match p_expect(ts, i2, TokenKind::LParen) {
                Err(e) => Err(e),
                Ok(i3) => match p_params(ts, i3, Seq::empty()) {
                    Err(e) => Err(e),
                    Ok((params, j)) => match p_expect(ts, j, TokenKind::RParen) {
                        Err(e) => Err(e),
                        Ok(j1) => match p_expect(ts, j1, TokenKind::Arrow) {
                            Err(e) => Err(e),
                            Ok(j2) => match p_ty(ts, j2) {
                                Err(e) => Err(e),
                                Ok((ret, j3)) => match p_branch(ts, j3, 0) {
                                    Err(e) => Err(e),
                                    Ok((body, j4)) => Ok(
                                        (FnDefM { name, params, ret, body, attrs: Seq::empty() }, j4),
                                    ),
                                },
                            },
                        },
                    },
                },
            },
        },
    }
}

/// The `name: type` fields of a type definition, up to `}`.
pub open spec fn p_field_defs(ts: Seq<Token>, i: int, acc: Seq<FieldDefM>) -> PR<Seq<FieldDefM>>
    decreases ts.len() - i,
{
    if pk(ts, i) is RBrace {
        Ok((acc, i))
    } else {
        match p_ident(ts, i) {
            Err(e) => Err(e),
            Ok((name, i1)) => match p_expect(ts, i1, TokenKind::Colon) {
                Err(e) => Err(e),
                Ok(i2) => match p_ty(ts, i2) {
                    Err(e) => Err(e),
                    Ok((ty, j)) => if !fwd(ts, i, j) {
                        stalled()
                    } else {
                        p_field_defs(ts, j, acc.push(FieldDefM { name, ty }))
                    },
                },
            },
        }
    }
}

/// `type Name { fields }`: the name and the fields.
pub closed spec fn p_type_def(ts: Seq<Token>, i: int) -> PR<(Seq<char>, Seq<FieldDefM>)> {
    match p_expect(ts, i, TokenKind::Type) {
        Err(e) => Err(e),
        Ok(i1) => match p_ident(ts, i1) {
            Err(e) => Err(e),
            Ok((name, i2)) => match p_expect(ts, i2, TokenKind::LBrace) {
                Err(e) => Err(e),
                Ok(i3) => match p_field_defs(ts, i3, Seq::empty()) {
                    Err(e) => Err(e),
                    Ok((fields, j)) => match p_expect(ts, j, TokenKind::RBrace) {
                        Err(e) => Err(e),
                        Ok(j1) => Ok(((name, fields), j1)),
                    },
                },
            },
        },
    }
}

/// The variants of an enum definition, up to `}`.
pub open spec fn p_variants(ts: Seq<Token>, i: int, acc: Seq<VariantM>) -> PR<Seq<VariantM>>
    decreases ts.len() - i,
{
    if pk(ts, i) is RBrace {
        Ok((acc, i))
    } else {
        match p_ident(ts, i) {
            Err(e) => Err(e),
            Ok((name, i1)) => match p_opt_ty(ts, i1) {
                Err(e) => Err(e),
                Ok((payload, j)) => {
                    let k = skip(ts, j, TokenKind::Comma);
                    if !fwd(ts, i, k) {
                        stalled()
                    } else {
                        p_variants(ts, k, acc.push(VariantM { name, payload }))
                    }
                },
            },
        }
    }
}

/// `enum Name { variants }`: the name and the variants.
pub closed spec fn p_enum_def(ts: Seq<Token>, i: int) -> PR<(Seq<char>, Seq<VariantM>)> {
    match p_expect(ts, i, TokenKind::Enum) {
        Err(e) => Err(e),
        Ok(i1) => match p_ident(ts, i1) {
            Err(e) => Err(e),
            Ok((name, i2)) => match p_expect(ts, i2, TokenKind::LBrace) {
                Err(e) => Err(e),
                Ok(i3) => match p_variants(ts, i3, Seq::empty()) {
                    Err(e) => Err(e),
                    Ok((variants, j)) => match p_expect(ts, j, TokenKind::RBrace) {
                        Err(e) => Err(e),
                        Ok(j1) => Ok(((name, variants), j1)),
                    },
                },
            },
        },
    }
}

/// The `key = "value"` arguments of an attribute, up to `)`.
pub open spec fn p_attr_list(ts: Seq<Token>, i: int, acc: Seq<(Seq<char>, Seq<char>)>) -> PR<
    Seq<(Seq<char>, Seq<char>)>,
>
    decreases ts.len() - i,
{
    if pk(ts, i) is RParen {
        Ok((acc, i))
    } else {
        match p_ident(ts, i) {
            Err(e) => Err(e),
            Ok((key, i1)) => match p_expect(ts, i1, TokenKind::Assign) {
                Err(e) => Err(e),
                Ok(i2) => match p_str(ts, i2) {
                    Err(e) => Err(e),
                    Ok((value, i3)) => {
                        let k = skip(ts, i3, TokenKind::Comma);
                        if !fwd(ts, i, k) {
                            stalled()
                        } else {
                            p_attr_list(ts, k, acc.push((key, value)))
                        }
                    },
                },
            },
        }
    }
}

/// `(key = "value", ...)`.
pub closed spec fn p_attr_args(ts: Seq<Token>, i: int) -> PR<Seq<(Seq<char>, Seq<char>)>> {
    match p_expect(ts, i, TokenKind::LParen) {
        Err(e) => Err(e),
        Ok(i1) => match p_attr_list(ts, i1, Seq::empty()) {
            Err(e) => Err(e),
            Ok((args, j)) => match p_expect(ts, j, TokenKind::RParen) {
                Err(e) => Err(e),
                Ok(j1) => Ok((args, j1)),
            },
        },
    }
}

/// A `fn`, `type` or `enum` definition.
pub closed spec fn p_item(ts: Seq<Token>, i: int) -> PR<ItemM> {
    let span = sp(ts, i);
    match pk(ts, i) {
        TokenKind::Fn => match p_fn(ts, i) {
            Err(e) => Err(e),
            Ok((f, j)) => Ok((ItemM { kind: ItemKindM::Fn(f), span }, j)),
        },
        TokenKind::Type => match p_type_def(ts, i) {
            Err(e) => Err(e),
            Ok(((name, fields), j)) => Ok((ItemM { kind: ItemKindM::Type { name, fields }, span }, j)),
        },
        TokenKind::Enum => match p_enum_def(ts, i) {
            Err(e) => Err(e),
            Ok(((name, variants), j)) => Ok((ItemM { kind: ItemKindM::Enum { name, variants }, span }, j)),
        },
        _ => Err(ParseErrV::UnexpectedToken { expected: "fn, type, or enum"@, found: pk(ts, i)@, span }),
    }
}

/// `import "path"`.
pub closed spec fn p_import(ts: Seq<Token>, i: int) -> PR<ItemM> {
    let span = sp(ts, i);
    match p_expect(ts, i, TokenKind::Import) {
        Err(e) => Err(e),
        Ok(i1) => match p_str(ts, i1) {
            Err(e) => Err(e),
            Ok((path, j)) => Ok((ItemM { kind: ItemKindM::Import(path), span }, j)),
        },
    }
}

/// The compiler-extension phase a name stands for.
pub open spec fn ext_phase(name: Seq<char>) -> Option<ExtPhase> {
    if name == "parser_rule"@ {
        Some(ExtPhase::ParserRule)
    } else if name == "ast_node"@ {
        Some(ExtPhase::AstNode)
    } else if name == "type_rule"@ {
        Some(ExtPhase::TypeRule)
    } else if name == "lower_pass"@ {
        Some(ExtPhase::LowerPass)
    } else if name == "opt_pass"@ {
        Some(ExtPhase::OptPass)
    } else if name == "backend"@ {
        Some(ExtPhase::Backend)
    } else {
        None
    }
}

/// `@phase` with optional arguments, then the `fn` it applies to.
pub closed spec fn p_ext_item(ts: Seq<Token>, i: int) -> PR<ItemM> {
    let span = sp(ts, i);
    match p_expect(ts, i, TokenKind::At) {
        Err(e) => Err(e),
        Ok(i1) => match p_ident(ts, i1) {
            Err(e) => Err(e),
            Ok((name, i2)) => match ext_phase(name) {
                None => Err(
                    ParseErrV::UnexpectedToken {
                        expected: "known compiler extension phase"@,
                        found: TokV::Ident(name),
                        span,
                    },
                ),
                Some(phase) => {
                    let after_args: Result<int, ParseErrV> = if pk(ts, i2) is LParen {
                        match p_attr_args(ts, i2) {
                            Err(e) => Err(e),
                            Ok((_, j)) => Ok(j),
                        }
                    } else {
                        Ok(i2)
                    };
                    match after_args {
                        Err(e) => Err(e),
                        Ok(i3) => if pk(ts, i3) is Fn {
                            match p_fn(ts, i3) {
                                Err(e) => Err(e),
                                Ok((f, j)) => Ok(
                                    (ItemM { kind: ItemKindM::CompilerExt { phase, fn_name: f.name }, span }, j),
                                ),
                            }
                        } else {
                            Err(
                                ParseErrV::UnexpectedToken {
                                    expected: "fn after compiler extension attribute"@,
                                    found: pk(ts, i3)@,
                                    span: sp(ts, i3),
                                },
                            )
                        },
                    }
                },
            },
        },
    }
}

/// The zones of a file from `i`: definitions first, then statements;
/// `in_alg` tells whether a statement has been read.
pub closed spec fn p_zones(
    ts: Seq<Token>,
    i: int,
    d: int,
    defs: Seq<ItemM>,
    algs: Seq<StmtM>,
    in_alg: bool,
) -> PR<(Seq<ItemM>, Seq<StmtM>)>
    decreases ts.len() - i,
{
    let k = pk(ts, i);
    if k is Eof {
        Ok(((defs, algs), i))
    } else if k is Import || k is At || k is Fn || k is Type || k is Enum {
        if in_alg {
            Err(ParseErrV::DefInAlgZone { span: sp(ts, i) })
        } else {
            let item = if k is Import {
                p_import(ts, i)
            } else if k is At {
                p_ext_item(ts, i)
            } else {
                p_item(ts, i)
            };
            match item {
                Err(e) => Err(e),
                Ok((it, j)) => if !fwd(ts, i, j) {
                    stalled()
                } else {
                    p_zones(ts, j, d, defs.push(it), algs, in_alg)
                },
            }
        }
    } else {
        match p_stmt(ts, i, d) {
            Err(e) => Err(e),
            Ok((st, j)) => if !fwd(ts, i, j) {
                stalled()
            } else {
                p_zones(ts, j, d, defs, algs.push(st), true)
            },
        }
    }
}

/// A source file: an optional ring keyword, then the zones up to the end.
pub open spec fn p_file(ts: Seq<Token>, i: int, d: int) -> PR<SourceFileM> {
    let start = sp(ts, i);
    let (ring, i1) = if pk(ts, i) is Base {
        (Ring::Base, i + 1)
    } else if pk(ts, i) is Safe {
        (Ring::Safe, i + 1)
    } else {
        (Ring::Safe, i)
    };
    match p_zones(ts, i1, d, Seq::empty(), Seq::empty(), false) {
        Err(e) => Err(e),
        Ok(((defs, algs), j)) => Ok(
            (SourceFileM { ring, def_zone: defs, alg_zone: algs, span: span_of(start.start, sp(ts, j).end) }, j),
        ),
    }
}

pub open spec fn res_param(r: Result<Param, ParseError>, pos: usize) -> PR<ParamM> {
    match r {
        Ok(p) => Ok((ParamM { name: p.name@, mode: p.mode, ty: p.ty.model() }, pos as int)),
        Err(e) => Err(e@),
    }
}

pub open spec fn res_fn(r: Result<FnDef, ParseError>, pos: usize) -> PR<FnDefM> {
    match r {
        Ok(f) => Ok((fn_def_m(f), pos as int)),
        Err(e) => Err(e@),
    }
}

pub open spec fn res_type_def(r: Result<TypeDef, ParseError>, pos: usize) -> PR<(Seq<char>, Seq<FieldDefM>)> {
    match r {
        Ok(t) => Ok(((t.name@, field_defs_m(t.fields@)), pos as int)),
        Err(e) => Err(e@),
    }
}

pub open spec fn res_enum_def(r: Result<EnumDef, ParseError>, pos: usize) -> PR<(Seq<char>, Seq<VariantM>)> {
    match r {
        Ok(t) => Ok(((t.name@, variants_m(t.variants@)), pos as int)),
        Err(e) => Err(e@),
    }
}

pub open spec fn attr_args_m(args: Seq<AttrArg>) -> Seq<(Seq<char>, Seq<char>)> {
    args.map_values(|a: AttrArg| (a.key@, a.value@))
}

pub open spec fn res_attr_args(r: Result<Vec<AttrArg>, ParseError>, pos: usize) -> PR<Seq<(Seq<char>, Seq<char>)>> {
    match r {
        Ok(v) => Ok((attr_args_m(v@), pos as int)),
        Err(e) => Err(e@),
    }
}

pub open spec fn res_item(r: Result<Item, ParseError>, pos: usize) -> PR<ItemM> {
    match r {
        Ok(it) => Ok((it.model(), pos as int)),
        Err(e) => Err(e@),
    }
}

pub open spec fn res_file(r: Result<SourceFile, ParseError>, pos: int) -> PR<SourceFileM> {
    match r {
        Ok(f) => Ok((f.model(), pos)),
        Err(e) => Err(e@),
    }
}

// ── One-step unfoldings ───────────────────────────────────────
//
// The grammar functions are closed: a proof outside this module sees one
// of them only through its unfolding below, one step at a time, so that
// it never unfolds the whole grammar at once.

/// `p_expr` unfolded once.
pub proof fn unfold_p_expr(ts: Seq<Token>, i: int, d: int)
    ensures
        p_expr(ts, i, d) == ({
            p_pipe(ts, i, d)
        }),
{
}

/// `p_pipe` unfolded once.
pub proof fn unfold_p_pipe(ts: Seq<Token>, i: int, d: int)
    ensures
        p_pipe(ts, i, d) == ({
            match p_or(ts, i, d) {
                Err(e) => Err(e),
                Ok((l, j)) => if !fwd(ts, i, j) {
                    stalled()
                } else {
                    p_pipe_rest(ts, j, d, l)
                },
            }
        }),
{
}

/// `p_pipe_rest` unfolded once.
pub proof fn unfold_p_pipe_rest(ts: Seq<Token>, i: int, d: int, left: ExprM)
    ensures
        p_pipe_rest(ts, i, d, left) == ({
            if pk(ts, i) is Pipe {
                match p_or(ts, i + 1, d) {
                    Err(e) => Err(e),
                    Ok((r, j)) => if !fwd(ts, i, j) {
                        stalled()
                    } else {
                        p_pipe_rest(
                            ts,
                            j,
                            d,
                            mk(ExprKindM::Pipe { left: Box::new(left), right: Box::new(r) }, span_of(left.span.start, r.span.end)),
                        )
                    },
                }
            } else {
                Ok((left, i))
            }
        }),
{
}

/// `p_or` unfolded once.
pub proof fn unfold_p_or(ts: Seq<Token>, i: int, d: int)
    ensures
        p_or(ts, i, d) == ({
            match p_and(ts, i, d) {
                Err(e) => Err(e),
                Ok((l, j)) => if !fwd(ts, i, j) {
                    stalled()
                } else {
                    p_or_rest(ts, j, d, l)
                },
            }
        }),
{
}

/// `p_or_rest` unfolded once.
pub proof fn unfold_p_or_rest(ts: Seq<Token>, i: int, d: int, left: ExprM)
    ensures
        p_or_rest(ts, i, d, left) == ({
            if pk(ts, i) is Or {
                match p_and(ts, i + 1, d) {
                    Err(e) => Err(e),
                    Ok((r, j)) => if !fwd(ts, i, j) {
                        stalled()
                    } else {
                        p_or_rest(ts, j, d, bin(BinOp::Or, left, r))
                    },
                }
            } else {
                Ok((left, i))
            }
        }),
{
}

/// `p_and` unfolded once.
pub proof fn unfold_p_and(ts: Seq<Token>, i: int, d: int)
    ensures
        p_and(ts, i, d) == ({
            match p_comparison(ts, i, d) {
                Err(e) => Err(e),
                Ok((l, j)) => if !fwd(ts, i, j) {
                    stalled()
                } else {
                    p_and_rest(ts, j, d, l)
                },
            }
        }),
{
}

/// `p_and_rest` unfolded once.
pub proof fn unfold_p_and_rest(ts: Seq<Token>, i: int, d: int, left: ExprM)
    ensures
        p_and_rest(ts, i, d, left) == ({
            if pk(ts, i) is And {
                match p_comparison(ts, i + 1, d) {
                    Err(e) => Err(e),
                    Ok((r, j)) => if !fwd(ts, i, j) {
                        stalled()
                    } else {
                        p_and_rest(ts, j, d, bin(BinOp::And, left, r))
                    },
                }
            } else {
                Ok((left, i))
            }
        }),
{
}

/// `p_comparison` unfolded once.
pub proof fn unfold_p_comparison(ts: Seq<Token>, i: int, d: int)
    ensures
        p_comparison(ts, i, d) == ({
            match p_add(ts, i, d) {
                Err(e) => Err(e),
                Ok((l, j)) => if !fwd(ts, i, j) {
                    stalled()
                } else {
                    p_comparison_rest(ts, j, d, l)
                },
            }
        }),
{
}

/// `p_comparison_rest` unfolded once.
pub proof fn unfold_p_comparison_rest(ts: Seq<Token>, i: int, d: int, left: ExprM)
    ensures
        p_comparison_rest(ts, i, d, left) == ({
            match comparison_op(pk(ts, i)) {
                Some(op) => match p_add(ts, i + 1, d) {
                    Err(e) => Err(e),
                    Ok((r, j)) => if !fwd(ts, i, j) {
                        stalled()
                    } else {
                        p_comparison_rest(ts, j, d, bin(op, left, r))
                    },
                },
                None => Ok((left, i)),
            }
        }),
{
}

/// `p_add` unfolded once.
pub proof fn unfold_p_add(ts: Seq<Token>, i: int, d: int)
    ensures
        p_add(ts, i, d) == ({
            match p_mul(ts, i, d) {
                Err(e) => Err(e),
                Ok((l, j)) => if !fwd(ts, i, j) {
                    stalled()
                } else {
                    p_add_rest(ts, j, d, l)
                },
            }
        }),
{
}

/// `p_add_rest` unfolded once.
pub proof fn unfold_p_add_rest(ts: Seq<Token>, i: int, d: int, left: ExprM)
    ensures
        p_add_rest(ts, i, d, left) == ({
            match add_op(pk(ts, i)) {
                Some(op) => match p_mul(ts, i + 1, d) {
                    Err(e) => Err(e),
                    Ok((r, j)) => if !fwd(ts, i, j) {
                        stalled()
                    } else {
                        p_add_rest(ts, j, d, bin(op, left, r))
                    },
                },
                None => Ok((left, i)),
            }
        }),
{
}

/// `p_mul` unfolded once.
pub proof fn unfold_p_mul(ts: Seq<Token>, i: int, d: int)
    ensures
        p_mul(ts, i, d) == ({
            match p_unary(ts, i, d) {
                Err(e) => Err(e),
                Ok((l, j)) => if !fwd(ts, i, j) {
                    stalled()
                } else {
                    p_mul_rest(ts, j, d, l)
                },
            }
        }),
{
}

/// `p_mul_rest` unfolded once.
pub proof fn unfold_p_mul_rest(ts: Seq<Token>, i: int, d: int, left: ExprM)
    ensures
        p_mul_rest(ts, i, d, left) == ({
            match mul_op(pk(ts, i)) {
                Some(op) => match p_unary(ts, i + 1, d) {
                    Err(e) => Err(e),
                    Ok((r, j)) => if !fwd(ts, i, j) {
                        stalled()
                    } else {
                        p_mul_rest(ts, j, d, bin(op, left, r))
                    },
                },
                None => Ok((left, i)),
            }
        }),
{
}

/// `p_unary` unfolded once.
pub proof fn unfold_p_unary(ts: Seq<Token>, i: int, d: int)
    ensures
        p_unary(ts, i, d) == ({
            if pk(ts, i) is Not || pk(ts, i) is Minus || pk(ts, i) is Star || pk(ts, i) is Amp {
                match p_unary(ts, i + 1, d) {
                    Err(e) => Err(e),
                    Ok((x, j)) => Ok((prefixed(ts, i, x), j)),
                }
            } else {
                p_postfix(ts, i, d)
            }
        }),
{
}

/// `p_postfix` unfolded once.
pub proof fn unfold_p_postfix(ts: Seq<Token>, i: int, d: int)
    ensures
        p_postfix(ts, i, d) == ({
            match p_primary(ts, i, d) {
                Err(e) => Err(e),
                Ok((x, j)) => if !fwd(ts, i, j) {
                    stalled()
                } else {
                    p_postfix_rest(ts, j, d, x)
                },
            }
        }),
{
}

/// `p_dot_suffix` unfolded once.
pub proof fn unfold_p_dot_suffix(ts: Seq<Token>, i: int, d: int, e: ExprM)
    ensures
        p_dot_suffix(ts, i, d, e) == ({
            let st = e.span.start;
            match pk(ts, i) {
                TokenKind::Ident(s) if s@ == "alloc"@ => match p_expect(ts, i + 1, TokenKind::LParen) {
                    Err(err) => Err(err),
                    Ok(i2) => match p_ty(ts, i2) {
                        Err(err) => Err(err),
                        Ok((elem_ty, j1)) => match p_expect(ts, j1, TokenKind::Comma) {
                            Err(err) => Err(err),
                            Ok(j2) => if !fwd(ts, i, j2) {
                                stalled()
                            } else {
                                match p_expr(ts, j2, d) {
                                    Err(err) => Err(err),
                                    Ok((count, j3)) => match p_expect(ts, j3, TokenKind::RParen) {
                                        Err(err) => Err(err),
                                        Ok(j4) => Ok(
                                            (
                                                mk(
                                                    ExprKindM::AllocCall {
                                                        allocator: Box::new(e),
                                                        elem_ty,
                                                        count: Box::new(count),
                                                    },
                                                    span_of(st, sp(ts, j4).start),
                                                ),
                                                j4,
                                            ),
                                        ),
                                    },
                                }
                            },
                        },
                    },
                },
                TokenKind::OrReturn => {
                    let j = skip(ts, i + 1, TokenKind::Question);
                    Ok((mk(ExprKindM::OrReturn(Box::new(e)), span_of(st, sp(ts, j).start)), j))
                },
                TokenKind::OrPanic => match p_expect(ts, i + 1, TokenKind::LParen) {
                    Err(err) => Err(err),
                    Ok(i2) => match p_str(ts, i2) {
                        Err(err) => Err(err),
                        Ok((msg, j1)) => match p_expect(ts, j1, TokenKind::RParen) {
                            Err(err) => Err(err),
                            Ok(j2) => Ok((mk(ExprKindM::OrPanic(Box::new(e), msg), span_of(st, sp(ts, j2).start)), j2)),
                        },
                    },
                },
                TokenKind::OrElse => match p_expect(ts, i + 1, TokenKind::LParen) {
                    Err(err) => Err(err),
                    Ok(i2) => match p_expr(ts, i2, d) {
                        Err(err) => Err(err),
                        Ok((dflt, j1)) => match p_expect(ts, j1, TokenKind::RParen) {
                            Err(err) => Err(err),
                            Ok(j2) => Ok(
                                (mk(ExprKindM::OrElse(Box::new(e), Box::new(dflt)), span_of(st, sp(ts, j2).start)), j2),
                            ),
                        },
                    },
                },
                TokenKind::OrZero => Ok((mk(ExprKindM::OrZero(Box::new(e)), span_of(st, sp(ts, i + 1).start)), i + 1)),
                TokenKind::OrNil => Ok((mk(ExprKindM::OrNil(Box::new(e)), span_of(st, sp(ts, i + 1).start)), i + 1)),
                _ => match p_ident(ts, i) {
                    Err(err) => Err(err),
                    Ok((field, j)) => Ok(
                        (mk(ExprKindM::Field { base: Box::new(e), field }, span_of(st, sp(ts, j).start)), j),
                    ),
                },
            }
        }),
{
}

/// `p_postfix_rest` unfolded once.
pub proof fn unfold_p_postfix_rest(ts: Seq<Token>, i: int, d: int, e: ExprM)
    ensures
        p_postfix_rest(ts, i, d, e) == ({
            let st = e.span.start;
            if pk(ts, i) is Dot {
                match p_dot_suffix(ts, i + 1, d, e) {
                    Err(err) => Err(err),
                    Ok((x, j)) => if !fwd(ts, i, j) {
                        stalled()
                    } else {
                        p_postfix_rest(ts, j, d, x)
                    },
                }
            } else if pk(ts, i) is LBracket {
                match p_expr(ts, i + 1, d) {
                    Err(err) => Err(err),
                    Ok((index, j1)) => match p_expect(ts, j1, TokenKind::RBracket) {
                        Err(err) => Err(err),
                        Ok(j2) => if !fwd(ts, i, j2) {
                            stalled()
                        } else {
                            p_postfix_rest(
                                ts,
                                j2,
                                d,
                                mk(ExprKindM::Index { base: Box::new(e), index: Box::new(index) }, span_of(st, sp(ts, j2).start)),
                            )
                        },
                    },
                }
            } else if pk(ts, i) is LParen {
                match p_call_args(ts, i, d) {
                    Err(err) => Err(err),
                    Ok((args, j)) => if !fwd(ts, i, j) {
                        stalled()
                    } else {
                        p_postfix_rest(
                            ts,
                            j,
                            d,
                            mk(ExprKindM::Call { callee: Box::new(e), args }, span_of(st, sp(ts, j).start)),
                        )
                    },
                }
            } else {
                Ok((e, i))
            }
        }),
{
}

/// `p_primary` unfolded once.
pub proof fn unfold_p_primary(ts: Seq<Token>, i: int, d: int)
    ensures
        p_primary(ts, i, d) == ({
            let span = sp(ts, i);
            match pk(ts, i) {
                TokenKind::Int(v) => Ok((mk(ExprKindM::Int(v), span), i + 1)),
                TokenKind::Float(t) => Ok((mk(ExprKindM::Float(t@), span), i + 1)),
                TokenKind::Bool(b) => Ok((mk(ExprKindM::Bool(b), span), i + 1)),
                TokenKind::Str(t) => Ok((mk(ExprKindM::Str(t@), span), i + 1)),
                TokenKind::Ident(name) => p_named(ts, i + 1, d, name@, span),
                TokenKind::AsmBang => match p_expect(ts, i + 1, TokenKind::LParen) {
                    Err(e) => Err(e),
                    Ok(i2) => match p_str(ts, i2) {
                        Err(e) => Err(e),
                        Ok((template, i3)) => match p_asm_args(ts, i3, d, Seq::empty()) {
                            Err(e) => Err(e),
                            Ok((args, j)) => match p_expect(ts, j, TokenKind::RParen) {
                                Err(e) => Err(e),
                                Ok(j2) => Ok(
                                    (mk(ExprKindM::Asm { template, args }, span_of(span.start, sp(ts, j2).start)), j2),
                                ),
                            },
                        },
                    },
                },
                TokenKind::LBracket => p_array(ts, i, d),
                TokenKind::If => p_if(ts, i, d),
                TokenKind::Match => p_match(ts, i, d),
                TokenKind::LParen => match p_expr(ts, i + 1, d) {
                    Err(e) => Err(e),
                    Ok((inner, j)) => match p_expect(ts, j, TokenKind::RParen) {
                        Err(e) => Err(e),
                        Ok(j2) => Ok((inner, j2)),
                    },
                },
                _ => Err(ParseErrV::UnexpectedToken { expected: "expression"@, found: pk(ts, i)@, span }),
            }
        }),
{
}

/// `p_named` unfolded once.
pub proof fn unfold_p_named(ts: Seq<Token>, i: int, d: int, name: Seq<char>, span: Span)
    ensures
        p_named(ts, i, d, name, span) == ({
            if name == "Ok"@ || name == "Err"@ {
                let variant = if name == "Ok"@ {
                    ResultVariant::Success
                } else {
                    ResultVariant::Failure
                };
                match p_expect(ts, i, TokenKind::LParen) {
                    Err(e) => Err(e),
                    Ok(i2) => match p_expr(ts, i2, d) {
                        Err(e) => Err(e),
                        Ok((inner, j)) => match p_expect(ts, j, TokenKind::RParen) {
                            Err(e) => Err(e),
                            Ok(j2) => Ok(
                                (
                                    mk(
                                        ExprKindM::ResultCtor { variant, inner: Box::new(inner) },
                                        span_of(span.start, sp(ts, j2).start),
                                    ),
                                    j2,
                                ),
                            ),
                        },
                    },
                }
            } else if pk(ts, i) is LBrace && struct_lit_opening(ts, i) {
                match p_inits(ts, i + 1, d, Seq::empty()) {
                    Err(e) => Err(e),
                    Ok((fields, j)) => match p_expect(ts, j, TokenKind::RBrace) {
                        Err(e) => Err(e),
                        Ok(j2) => Ok(
                            (mk(ExprKindM::StructLit { name, fields }, span_of(span.start, sp(ts, j2).start)), j2),
                        ),
                    },
                }
            } else {
                Ok((mk(ExprKindM::Ident(name), span), i))
            }
        }),
{
}

/// `p_inits` unfolded once.
pub proof fn unfold_p_inits(ts: Seq<Token>, i: int, d: int, acc: Seq<FieldInitM>)
    ensures
        p_inits(ts, i, d, acc) == ({
            if pk(ts, i) is RBrace {
                Ok((acc, i))
            } else {
                match p_ident(ts, i) {
                    Err(e) => Err(e),
                    Ok((name, i1)) => match p_expect(ts, i1, TokenKind::Assign) {
                        Err(e) => Err(e),
                        Ok(i2) => match p_expr(ts, i2, d) {
                            Err(e) => Err(e),
                            Ok((x, j)) => if !fwd(ts, i, j) {
                                stalled()
                            } else {
                                p_inits(ts, skip(ts, j, TokenKind::Comma), d, acc.push(FieldInitM { name, expr: x }))
                            },
                        },
                    },
                }
            }
        }),
{
}

/// `p_asm_args` unfolded once.
pub proof fn unfold_p_asm_args(ts: Seq<Token>, i: int, d: int, acc: Seq<ExprM>)
    ensures
        p_asm_args(ts, i, d, acc) == ({
            if pk(ts, i) is Comma {
                match p_expr(ts, i + 1, d) {
                    Err(e) => Err(e),
                    Ok((x, j)) => if !fwd(ts, i, j) {
                        stalled()
                    } else {
                        p_asm_args(ts, j, d, acc.push(x))
                    },
                }
            } else {
                Ok((acc, i))
            }
        }),
{
}

/// `p_array` unfolded once.
pub proof fn unfold_p_array(ts: Seq<Token>, i: int, d: int)
    ensures
        p_array(ts, i, d) == ({
            match p_expect(ts, i, TokenKind::LBracket) {
                Err(e) => Err(e),
                Ok(i1) => p_array_rest(ts, i1, d, sp(ts, i).start, Seq::empty(), Seq::empty(), 0, 0),
            }
        }),
{
}

/// `p_array_rest` unfolded once.
pub proof fn unfold_p_array_rest(ts: Seq<Token>,
    i: int,
    d: int,
    start: usize,
    done: Seq<ExprM>,
    row: Seq<ExprM>,
    rows: int,
    cols: int,)
    ensures
        p_array_rest(ts, i, d, start, done, row, rows, cols) == ({
            if !(pk(ts, i) is RBracket) && !(pk(ts, i) is Eof) {
                if pk(ts, i) is Semi {
                    p_array_rest(
                        ts,
                        i + 1,
                        d,
                        start,
                        done + row,
                        Seq::empty(),
                        rows + 1,
                        if rows == 0 {
                            row.len() as int
                        } else {
                            cols
                        },
                    )
                } else {
                    match p_expr(ts, i, d) {
                        Err(e) => Err(e),
                        Ok((x, j)) => if !fwd(ts, i, j) {
                            stalled()
                        } else {
                            let k = if !(pk(ts, j) is Semi) && !(pk(ts, j) is RBracket) {
                                skip(ts, j, TokenKind::Comma)
                            } else {
                                j
                            };
                            p_array_rest(ts, k, d, start, done, row.push(x), rows, cols)
                        },
                    }
                }
            } else {
                match p_expect(ts, i, TokenKind::RBracket) {
                    Err(e) => Err(e),
                    Ok(j) => {
                        let span = span_of(start, sp(ts, j).start);
                        if rows > 0 {
                            Ok(
                                (
                                    mk(
                                        ExprKindM::MatrixLit {
                                            elems: done + row,
                                            rows: (rows + 1) as usize,
                                            cols: cols as usize,
                                        },
                                        span,
                                    ),
                                    j,
                                ),
                            )
                        } else {
                            Ok((mk(ExprKindM::ArrayLit(row), span), j))
                        }
                    },
                }
            }
        }),
{
}

/// `p_branch` unfolded once.
pub proof fn unfold_p_branch(ts: Seq<Token>, i: int, d: int)
    ensures
        p_branch(ts, i, d) == ({
            match p_expect(ts, i, TokenKind::LBrace) {
                Err(e) => Err(e),
                Ok(i1) => match p_block(ts, i1, d) {
                    Err(e) => Err(e),
                    Ok((ss, j)) => match p_expect(ts, j, TokenKind::RBrace) {
                        Err(e) => Err(e),
                        Ok(j1) => Ok((ss, j1)),
                    },
                },
            }
        }),
{
}

/// `p_if` unfolded once.
pub proof fn unfold_p_if(ts: Seq<Token>, i: int, d: int)
    ensures
        p_if(ts, i, d) == ({
            let span = sp(ts, i);
            match p_expect(ts, i, TokenKind::If) {
                Err(e) => Err(e),
                Ok(i1) => if d >= 1 {
                    Err(ParseErrV::IllegalNesting { span })
                } else {
                    match p_expr(ts, i1, d) {
                        Err(e) => Err(e),
                        Ok((cond, j)) => if !fwd(ts, i, j) {
                            stalled()
                        } else {
                            match p_if_branches(ts, j, d + 1) {
                                Err(e) => Err(e),
                                Ok((branches, k)) => Ok((if_expr(cond, branches, span, sp(ts, k).start), k)),
                            }
                        },
                    }
                },
            }
        }),
{
}

/// `p_if_branches` unfolded once.
pub proof fn unfold_p_if_branches(ts: Seq<Token>, i: int, d: int)
    ensures
        p_if_branches(ts, i, d) == ({
            match p_branch(ts, i, d) {
                Err(e) => Err(e),
                Ok((then_s, j)) => if pk(ts, j) is Else {
                    if !fwd(ts, i, j) {
                        stalled()
                    } else {
                        match p_branch(ts, j + 1, d) {
                            Err(e) => Err(e),
                            Ok((else_s, k)) => Ok(((then_s, Some(else_s)), k)),
                        }
                    }
                } else {
                    Ok(((then_s, None), j))
                },
            }
        }),
{
}

/// `p_match` unfolded once.
pub proof fn unfold_p_match(ts: Seq<Token>, i: int, d: int)
    ensures
        p_match(ts, i, d) == ({
            let span = sp(ts, i);
            match p_expect(ts, i, TokenKind::Match) {
                Err(e) => Err(e),
                Ok(i1) => if d >= 1 {
                    Err(ParseErrV::IllegalNesting { span })
                } else {
                    match p_expr(ts, i1, d) {
                        Err(e) => Err(e),
                        Ok((subject, j)) => match p_expect(ts, j, TokenKind::LBrace) {
                            Err(e) => Err(e),
                            Ok(j1) => if !fwd(ts, i, j1) {
                                stalled()
                            } else {
                                match p_arms(ts, j1, d + 1, Seq::empty()) {
                                    Err(e) => Err(e),
                                    Ok((arms, k)) => match p_expect(ts, k, TokenKind::RBrace) {
                                        Err(e) => Err(e),
                                        Ok(k1) => Ok(
                                            (
                                                mk(
                                                    ExprKindM::Match { subject: Box::new(subject), arms },
                                                    span_of(span.start, sp(ts, k1).start),
                                                ),
                                                k1,
                                            ),
                                        ),
                                    },
                                }
                            },
                        },
                    }
                },
            }
        }),
{
}

/// `p_arms` unfolded once.
pub proof fn unfold_p_arms(ts: Seq<Token>, i: int, d: int, acc: Seq<ArmM>)
    ensures
        p_arms(ts, i, d, acc) == ({
            if pk(ts, i) is RBrace {
                Ok((acc, i))
            } else {
                match p_pattern(ts, i) {
                    Err(e) => Err(e),
                    Ok((pattern, i1)) => match p_expect(ts, i1, TokenKind::FatArrow) {
                        Err(e) => Err(e),
                        Ok(i2) => match p_expr(ts, i2, d) {
                            Err(e) => Err(e),
                            Ok((body, j)) => if !fwd(ts, i, j) {
                                stalled()
                            } else {
                                p_arms(ts, skip(ts, j, TokenKind::Comma), d, acc.push(ArmM { pattern, body }))
                            },
                        },
                    },
                }
            }
        }),
{
}

/// `p_call_args` unfolded once.
pub proof fn unfold_p_call_args(ts: Seq<Token>, i: int, d: int)
    ensures
        p_call_args(ts, i, d) == ({
            match p_expect(ts, i, TokenKind::LParen) {
                Err(e) => Err(e),
                Ok(i1) => match p_args(ts, i1, d, Seq::empty()) {
                    Err(e) => Err(e),
                    Ok((args, j)) => match p_expect(ts, j, TokenKind::RParen) {
                        Err(e) => Err(e),
                        Ok(j1) => Ok((args, j1)),
                    },
                },
            }
        }),
{
}

/// `p_args` unfolded once.
pub proof fn unfold_p_args(ts: Seq<Token>, i: int, d: int, acc: Seq<ArgM>)
    ensures
        p_args(ts, i, d, acc) == ({
            if pk(ts, i) is RParen {
                Ok((acc, i))
            } else {
                let (mode, i1) = p_mode(ts, i);
                let (label, i2) = p_label(ts, i1);
                match p_expr(ts, i2, d) {
                    Err(e) => Err(e),
                    Ok((x, j)) => if !fwd(ts, i, j) {
                        stalled()
                    } else {
                        let acc2 = acc.push(ArgM { label, mode, expr: x });
                        if pk(ts, j) is Comma {
                            p_args(ts, j + 1, d, acc2)
                        } else {
                            Ok((acc2, j))
                        }
                    },
                }
            }
        }),
{
}

/// `p_stmt` unfolded once.
pub proof fn unfold_p_stmt(ts: Seq<Token>, i: int, d: int)
    ensures
        p_stmt(ts, i, d) == ({
            let span = sp(ts, i);
            let k = pk(ts, i);
            if k is Ding || k is Let || k is She || k is Var {
                match p_ident(ts, i + 1) {
                    Err(e) => Err(e),
                    Ok((name, i2)) => match p_opt_ty(ts, i2) {
                        Err(e) => Err(e),
                        Ok((ty, i3)) => match p_expect(ts, i3, TokenKind::Assign) {
                            Err(e) => Err(e),
                            Ok(i4) => if !fwd(ts, i, i4) {
                                stalled()
                            } else {
                                match p_expr(ts, i4, d) {
                                    Err(e) => Err(e),
                                    Ok((init, j)) => Ok(
                                        (
                                            StmtM {
                                                kind: if k is Ding || k is Let {
                                                    StmtKindM::Let { name, ty, init }
                                                } else {
                                                    StmtKindM::Var { name, ty, init }
                                                },
                                                span,
                                            },
                                            j,
                                        ),
                                    ),
                                }
                            },
                        },
                    },
                }
            } else if k is Return {
                if pk(ts, i + 1) is Eof || pk(ts, i + 1) is RBrace {
                    Ok((StmtM { kind: StmtKindM::Return(None), span }, i + 1))
                } else {
                    match p_expr(ts, i + 1, d) {
                        Err(e) => Err(e),
                        Ok((x, j)) => Ok((StmtM { kind: StmtKindM::Return(Some(x)), span }, j)),
                    }
                }
            } else if k is Defer {
                match p_expr(ts, i + 1, d) {
                    Err(e) => Err(e),
                    Ok((x, j)) => Ok((StmtM { kind: StmtKindM::Defer(x), span }, j)),
                }
            } else if k is For {
                if d >= 1 {
                    Err(ParseErrV::IllegalNesting { span })
                } else {
                    match p_ident(ts, i + 1) {
                        Err(e) => Err(e),
                        Ok((binding, i2)) => match p_expect(ts, i2, TokenKind::In) {
                            Err(e) => Err(e),
                            Ok(i3) => match p_expr(ts, i3, d) {
                                Err(e) => Err(e),
                                Ok((iter, j)) => if !fwd(ts, i, j) {
                                    stalled()
                                } else {
                                    match p_branch(ts, j, d + 1) {
                                        Err(e) => Err(e),
                                        Ok((body, j3)) => Ok((StmtM { kind: StmtKindM::For { binding, iter, body }, span }, j3)),
                                    }
                                },
                            },
                        },
                    }
                }
            } else {
                match p_expr(ts, i, d) {
                    Err(e) => Err(e),
                    Ok((x, j)) => if !fwd(ts, i, j) {
                        stalled()
                    } else if pk(ts, j) is Assign {
                        match p_expr(ts, j + 1, d) {
                            Err(e) => Err(e),
                            Ok((v, j2)) => Ok((StmtM { kind: StmtKindM::Assign { target: x, value: v }, span }, j2)),
                        }
                    } else {
                        Ok((StmtM { kind: StmtKindM::Expr(x), span }, j))
                    },
                }
            }
        }),
{
}

/// `p_block` unfolded once.
pub proof fn unfold_p_block(ts: Seq<Token>, i: int, d: int)
    ensures
        p_block(ts, i, d) == ({
            p_block_rest(ts, i, d, Seq::empty())
        }),
{
}

/// `p_block_rest` unfolded once.
pub proof fn unfold_p_block_rest(ts: Seq<Token>, i: int, d: int, acc: Seq<StmtM>)
    ensures
        p_block_rest(ts, i, d, acc) == ({
            if !(pk(ts, i) is RBrace) && !(pk(ts, i) is Eof) {
                match p_stmt(ts, i, d) {
                    Err(e) => Err(e),
                    Ok((st, j)) => if !fwd(ts, i, j) {
                        stalled()
                    } else {
                        p_block_rest(ts, j, d, acc.push(st))
                    },
                }
            } else {
                Ok((acc, i))
            }
        }),
{
}

/// `p_zones` unfolded once.
pub proof fn unfold_p_zones(ts: Seq<Token>, i: int, d: int, defs: Seq<ItemM>, algs: Seq<StmtM>, in_alg: bool)
    ensures
        p_zones(ts, i, d, defs, algs, in_alg) == ({
            let k = pk(ts, i);
            if k is Eof {
                Ok(((defs, algs), i))
            } else if k is Import || k is At || k is Fn || k is Type || k is Enum {
                if in_alg {
                    Err(ParseErrV::DefInAlgZone { span: sp(ts, i) })
                } else {
                    let item = if k is Import {
                        p_import(ts, i)
                    } else if k is At {
                        p_ext_item(ts, i)
                    } else {
                        p_item(ts, i)
                    };
                    match item {
                        Err(e) => Err(e),
                        Ok((it, j)) => if !fwd(ts, i, j) {
                            stalled()
                        } else {
                            p_zones(ts, j, d, defs.push(it), algs, in_alg)
                        },
                    }
                }
            } else {
                match p_stmt(ts, i, d) {
                    Err(e) => Err(e),
                    Ok((st, j)) => if !fwd(ts, i, j) {
                        stalled()
                    } else {
                        p_zones(ts, j, d, defs, algs.push(st), true)
                    },
                }
            }
        }),
{
}

/// `p_item` unfolded once.
pub proof fn unfold_p_item(ts: Seq<Token>, i: int)
    ensures
        p_item(ts, i) == ({
            let span = sp(ts, i);
            match pk(ts, i) {
                TokenKind::Fn => match p_fn(ts, i) {
                    Err(e) => Err(e),
                    Ok((f, j)) => Ok((ItemM { kind: ItemKindM::Fn(f), span }, j)),
                },
                TokenKind::Type => match p_type_def(ts, i) {
                    Err(e) => Err(e),
                    Ok(((name, fields), j)) => Ok((ItemM { kind: ItemKindM::Type { name, fields }, span }, j)),
                },
                TokenKind::Enum => match p_enum_def(ts, i) {
                    Err(e) => Err(e),
                    Ok(((name, variants), j)) => Ok((ItemM { kind: ItemKindM::Enum { name, variants }, span }, j)),
                },
                _ => Err(ParseErrV::UnexpectedToken { expected: "fn, type, or enum"@, found: pk(ts, i)@, span }),
            }
        }),
{
}

/// `p_import` unfolded once.
pub proof fn unfold_p_import(ts: Seq<Token>, i: int)
    ensures
        p_import(ts, i) == ({
            let span = sp(ts, i);
            match p_expect(ts, i, TokenKind::Import) {
                Err(e) => Err(e),
                Ok(i1) => match p_str(ts, i1) {
                    Err(e) => Err(e),
                    Ok((path, j)) => Ok((ItemM { kind: ItemKindM::Import(path), span }, j)),
                },
            }
        }),
{
}

/// `p_ext_item` unfolded once.
pub proof fn unfold_p_ext_item(ts: Seq<Token>, i: int)
    ensures
        p_ext_item(ts, i) == ({
            let span = sp(ts, i);
            match p_expect(ts, i, TokenKind::At) {
                Err(e) => Err(e),
                Ok(i1) => match p_ident(ts, i1) {
                    Err(e) => Err(e),
                    Ok((name, i2)) => match ext_phase(name) {
                        None => Err(
                            ParseErrV::UnexpectedToken {
                                expected: "known compiler extension phase"@,
                                found: TokV::Ident(name),
                                span,
                            },
                        ),
                        Some(phase) => {
                            let after_args: Result<int, ParseErrV> = if pk(ts, i2) is LParen {
                                match p_attr_args(ts, i2) {
                                    Err(e) => Err(e),
                                    Ok((_, j)) => Ok(j),
                                }
                            } else {
                                Ok(i2)
                            };
                            match after_args {
                                Err(e) => Err(e),
                                Ok(i3) => if pk(ts, i3) is Fn {
                                    match p_fn(ts, i3) {
                                        Err(e) => Err(e),
                                        Ok((f, j)) => Ok(
                                            (ItemM { kind: ItemKindM::CompilerExt { phase, fn_name: f.name }, span }, j),
                                        ),
                                    }
                                } else {
                                    Err(
                                        ParseErrV::UnexpectedToken {
                                            expected: "fn after compiler extension attribute"@,
                                            found: pk(ts, i3)@,
                                            span: sp(ts, i3),
                                        },
                                    )
                                },
                            }
                        },
                    },
                },
            }
        }),
{
}

/// `p_fn` unfolded once.
pub proof fn unfold_p_fn(ts: Seq<Token>, i: int)
    ensures
        p_fn(ts, i) == ({
            match p_expect(ts, i, TokenKind::Fn) {
                Err(e) => Err(e),
                Ok(i1) => match p_ident(ts, i1) {
                    Err(e) => Err(e),
                    Ok((name, i2)) => match p_expect(ts, i2, TokenKind::LParen) {
                        Err(e) => Err(e),
                        Ok(i3) => match p_params(ts, i3, Seq::empty()) {
                            Err(e) => Err(e),
                            Ok((params, j)) => match p_expect(ts, j, TokenKind::RParen) {
                                Err(e) => Err(e),
                                Ok(j1) => match p_expect(ts, j1, TokenKind::Arrow) {
                                    Err(e) => Err(e),
                                    Ok(j2) => match p_ty(ts, j2) {
                                        Err(e) => Err(e),
                                        Ok((ret, j3)) => match p_branch(ts, j3, 0) {
                                            Err(e) => Err(e),
                                            Ok((body, j4)) => Ok(
                                                (FnDefM { name, params, ret, body, attrs: Seq::empty() }, j4),
                                            ),
                                        },
                                    },
                                },
                            },
                        },
                    },
                },
            }
        }),
{
}

/// `p_type_def` unfolded once.
pub proof fn unfold_p_type_def(ts: Seq<Token>, i: int)
    ensures
        p_type_def(ts, i) == ({
            match p_expect(ts, i, TokenKind::Type) {
                Err(e) => Err(e),
                Ok(i1) => match p_ident(ts, i1) {
                    Err(e) => Err(e),
                    Ok((name, i2)) => match p_expect(ts, i2, TokenKind::LBrace) {
                        Err(e) => Err(e),
                        Ok(i3) => match p_field_defs(ts, i3, Seq::empty()) {
                            Err(e) => Err(e),
                            Ok((fields, j)) => match p_expect(ts, j, TokenKind::RBrace) {
                                Err(e) => Err(e),
                                Ok(j1) => Ok(((name, fields), j1)),
                            },
                        },
                    },
                },
            }
        }),
{
}

/// `p_enum_def` unfolded once.
pub proof fn unfold_p_enum_def(ts: Seq<Token>, i: int)
    ensures
        p_enum_def(ts, i) == ({
            match p_expect(ts, i, TokenKind::Enum) {
                Err(e) => Err(e),
                Ok(i1) => match p_ident(ts, i1) {
                    Err(e) => Err(e),
                    Ok((name, i2)) => match p_expect(ts, i2, TokenKind::LBrace) {
                        Err(e) => Err(e),
                        Ok(i3) => match p_variants(ts, i3, Seq::empty()) {
                            Err(e) => Err(e),
                            Ok((variants, j)) => match p_expect(ts, j, TokenKind::RBrace) {
                                Err(e) => Err(e),
                                Ok(j1) => Ok(((name, variants), j1)),
                            },
                        },
                    },
                },
            }
        }),
{
}

/// `p_attr_args` unfolded once.
pub proof fn unfold_p_attr_args(ts: Seq<Token>, i: int)
    ensures
        p_attr_args(ts, i) == ({
            match p_expect(ts, i, TokenKind::LParen) {
                Err(e) => Err(e),
                Ok(i1) => match p_attr_list(ts, i1, Seq::empty()) {
                    Err(e) => Err(e),
                    Ok((args, j)) => match p_expect(ts, j, TokenKind::RParen) {
                        Err(e) => Err(e),
                        Ok(j1) => Ok((args, j1)),
                    },
                },
            }
        }),
{
}

} // verus!

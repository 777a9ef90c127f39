//! Mathematical models of syntax trees: names as character sequences and
//! lists as sequences.
use vstd::prelude::*;
use crate::token::Span;
use crate::ast::{
    Arg, BinOp, EnumVariant, Expr, ExprKind, ExtPhase, FieldDef, FieldInit, Item, ItemKind,
    MatchArm, OwnershipMode, Param, Pattern, ResultVariant, Ring, SourceFile, Stmt, StmtKind, Ty,
    TyKind, UnOp,
};

verus! {

pub struct TyM {
    pub kind: TyKindM,
    pub span: Span,
}

pub enum TyKindM {
    I8,
    I16,
    I32,
    I64,
    U8,
    U16,
    U32,
    U64,
    F32,
    F64,
    Bool,
    Usize,
    Str,
    Void,
    Named(Seq<char>),
    Slice(Box<TyM>),
    Ptr(Box<TyM>),
    PtrMut(Box<TyM>),
    Result(Box<TyM>, Box<TyM>),
    Option(Box<TyM>),
    Allocator,
    Array { size: usize, elem: Box<TyM> },
    FnPtr { params: Seq<TyM>, ret: Box<TyM> },
}

pub struct ExprM {
    pub kind: ExprKindM,
    pub span: Span,
}

pub enum ExprKindM {
    Int(i64),
    Float(Seq<char>),
    Bool(bool),
    Str(Seq<char>),
    Ident(Seq<char>),
    Call { callee: Box<ExprM>, args: Seq<ArgM> },
    Pipe { left: Box<ExprM>, right: Box<ExprM> },
    Field { base: Box<ExprM>, field: Seq<char> },
    Index { base: Box<ExprM>, index: Box<ExprM> },
    OrReturn(Box<ExprM>),
    OrPanic(Box<ExprM>, Seq<char>),
    OrElse(Box<ExprM>, Box<ExprM>),
    OrZero(Box<ExprM>),
    OrNil(Box<ExprM>),
    BinOp { op: BinOp, left: Box<ExprM>, right: Box<ExprM> },
    UnOp { op: UnOp, expr: Box<ExprM> },
    StructLit { name: Seq<char>, fields: Seq<FieldInitM> },
    ResultCtor { variant: ResultVariant, inner: Box<ExprM> },
    ArrayLit(Seq<ExprM>),
    MatrixLit { elems: Seq<ExprM>, rows: usize, cols: usize },
    AllocCall { allocator: Box<ExprM>, elem_ty: TyM, count: Box<ExprM> },
    Asm { template: Seq<char>, args: Seq<ExprM> },
    Cast { expr: Box<ExprM>, ty: TyM },
    Ref(Box<ExprM>),
    Deref(Box<ExprM>),
    Block(Seq<StmtM>),
    If { cond: Box<ExprM>, then: Box<ExprM>, else_: Option<Box<ExprM>> },
    Match { subject: Box<ExprM>, arms: Seq<ArmM> },
}

pub struct ArgM {
    pub label: Option<Seq<char>>,
    pub mode: OwnershipMode,
    pub expr: ExprM,
}

pub struct FieldInitM {
    pub name: Seq<char>,
    pub expr: ExprM,
}

pub struct ArmM {
    pub pattern: PatternM,
    pub body: ExprM,
}

pub enum PatternM {
    Wildcard,
    Lit(ExprKindM),
    Variant { ty: Seq<char>, variant: Seq<char> },
    Else,
}

pub struct StmtM {
    pub kind: StmtKindM,
    pub span: Span,
}

pub enum StmtKindM {
    Let { name: Seq<char>, ty: Option<TyM>, init: ExprM },
    Var { name: Seq<char>, ty: Option<TyM>, init: ExprM },
    Return(Option<ExprM>),
    Defer(ExprM),
    Expr(ExprM),
    Assign { target: ExprM, value: ExprM },
    For { binding: Seq<char>, iter: ExprM, body: Seq<StmtM> },
    While { cond: ExprM, body: Seq<StmtM> },
    Loop(Seq<StmtM>),
    Break,
    Continue,
}

pub struct ParamM {
    pub name: Seq<char>,
    pub mode: OwnershipMode,
    pub ty: TyM,
}

pub struct FnDefM {
    pub name: Seq<char>,
    pub params: Seq<ParamM>,
    pub ret: TyM,
    pub body: Seq<StmtM>,
    /// Attribute names and their `(key, value)` arguments.
    pub attrs: Seq<(Seq<char>, Seq<(Seq<char>, Seq<char>)>)>,
}

pub struct FieldDefM {
    pub name: Seq<char>,
    pub ty: TyM,
}

pub struct VariantM {
    pub name: Seq<char>,
    pub payload: Option<TyM>,
}

pub enum ItemKindM {
    Fn(FnDefM),
    Type { name: Seq<char>, fields: Seq<FieldDefM> },
    Enum { name: Seq<char>, variants: Seq<VariantM> },
    Import(Seq<char>),
    CompilerExt { phase: ExtPhase, fn_name: Seq<char> },
}

pub struct ItemM {
    pub kind: ItemKindM,
    pub span: Span,
}

pub struct SourceFileM {
    pub ring: Ring,
    pub def_zone: Seq<ItemM>,
    pub alg_zone: Seq<StmtM>,
    pub span: Span,
}

// ── Types ─────────────────────────────────────────────────────

impl Ty {
    pub open spec fn model(&self) -> TyM
        decreases self, 0nat,
    {
        TyM {
            kind: match &self.kind {
                TyKind::I8 => TyKindM::I8,
                TyKind::I16 => TyKindM::I16,
                TyKind::I32 => TyKindM::I32,
                TyKind::I64 => TyKindM::I64,
                TyKind::U8 => TyKindM::U8,
                TyKind::U16 => TyKindM::U16,
                TyKind::U32 => TyKindM::U32,
                TyKind::U64 => TyKindM::U64,
                TyKind::F32 => TyKindM::F32,
                TyKind::F64 => TyKindM::F64,
                TyKind::Bool => TyKindM::Bool,
                TyKind::Usize => TyKindM::Usize,
                TyKind::Str => TyKindM::Str,
                TyKind::Void => TyKindM::Void,
                TyKind::Named(n) => TyKindM::Named(n@),
                TyKind::Slice(t) => TyKindM::Slice(Box::new(t.model())),
                TyKind::Ptr(t) => TyKindM::Ptr(Box::new(t.model())),
                TyKind::PtrMut(t) => TyKindM::PtrMut(Box::new(t.model())),
                TyKind::Result(a, b) => TyKindM::Result(Box::new(a.model()), Box::new(b.model())),
                TyKind::Option(t) => TyKindM::Option(Box::new(t.model())),
                TyKind::Allocator => TyKindM::Allocator,
                TyKind::Array { size, elem } => TyKindM::Array { size: *size, elem: Box::new(elem.model()) },
                TyKind::FnPtr { params, ret } => TyKindM::FnPtr {
                    params: tys_m(params@),
                    ret: Box::new(ret.model()),
                },
            },
            span: self.span,
        }
    }
}

impl Ty {
    /// A copy of this type expression.
    pub fn copy(&self) -> (r: Self)
        ensures
            r.model() == self.model(),
        decreases self,
    {
        let kind = match &self.kind {
            TyKind::I8 => TyKind::I8,
            TyKind::I16 => TyKind::I16,
            TyKind::I32 => TyKind::I32,
            TyKind::I64 => TyKind::I64,
            TyKind::U8 => TyKind::U8,
            TyKind::U16 => TyKind::U16,
            TyKind::U32 => TyKind::U32,
            TyKind::U64 => TyKind::U64,
            TyKind::F32 => TyKind::F32,
            TyKind::F64 => TyKind::F64,
            TyKind::Bool => TyKind::Bool,
            TyKind::Usize => TyKind::Usize,
            TyKind::Str => TyKind::Str,
            TyKind::Void => TyKind::Void,
            TyKind::Named(n) => TyKind::Named(n.clone()),
            TyKind::Slice(t) => TyKind::Slice(Box::new(t.copy())),
            TyKind::Ptr(t) => TyKind::Ptr(Box::new(t.copy())),
            TyKind::PtrMut(t) => TyKind::PtrMut(Box::new(t.copy())),
            TyKind::Result(a, b) => TyKind::Result(Box::new(a.copy()), Box::new(b.copy())),
            TyKind::Option(t) => TyKind::Option(Box::new(t.copy())),
            TyKind::Allocator => TyKind::Allocator,
            TyKind::Array { size, elem } => TyKind::Array { size: *size, elem: Box::new(elem.copy()) },
            TyKind::FnPtr { params, ret } => {
                let mut ps: Vec<Ty> = Vec::new();
                let mut i: usize = 0;
                while i < params.len()
                    invariant
                        i <= params.len(),
                        self.kind is FnPtr,
                        self.kind->FnPtr_params == *params,
                        tys_m(ps@) == tys_m(params@.take(i as int)),
                    decreases params.len() - i,
                {
                    let ghost ps0 = ps@;
                    proof {
                        let ghost ps: Vec<Ty> = self.kind->FnPtr_params;
                        assert(decreases_to!(*self => self.kind));
                        assert(decreases_to!(self.kind => self.kind->FnPtr_params));
                        assert(decreases_to!(ps => ps@));
                        assert(decreases_to!(ps@ => ps@[i as int]));
                        assert(decreases_to!(*self => ps@[i as int]));
                    }
                    ps.push(params[i].copy());
                    assert(ps@.drop_last() =~= ps0);
                    assert(params@.take(i + 1).drop_last() =~= params@.take(i as int));
                    i += 1;
                }
                assert(params@.take(params.len() as int) =~= params@);
                TyKind::FnPtr { params: ps, ret: Box::new(ret.copy()) }
            },
        };
        Ty { kind, span: self.span }
    }
}

impl Clone for Ty {
    fn clone(&self) -> (r: Self)
        ensures
            r.model() == self.model(),
    {
        self.copy()
    }
}

pub open spec fn tys_m(ts: Seq<Ty>) -> Seq<TyM>
    decreases ts, 0nat,
{
    if ts.len() == 0 {
        Seq::empty()
    } else {
        tys_m(ts.drop_last()).push(ts.last().model())
    }
}

pub open spec fn opt_ty_m(t: Option<Ty>) -> Option<TyM> {
    match t {
        Some(x) => Some(x.model()),
        None => None,
    }
}

// ── Expressions ───────────────────────────────────────────────

impl Expr {
    pub open spec fn model(&self) -> ExprM
        decreases self, 0nat,
    {
        ExprM { kind: kind_m(self.kind), span: self.span }
    }
}

pub open spec fn kind_m(k: ExprKind) -> ExprKindM
    decreases k, 0nat,
{
    match k {
        ExprKind::Int(v) => ExprKindM::Int(v),
        ExprKind::Float(t) => ExprKindM::Float(t@),
        ExprKind::Bool(b) => ExprKindM::Bool(b),
        ExprKind::Str(s) => ExprKindM::Str(s@),
        ExprKind::Ident(n) => ExprKindM::Ident(n@),
        ExprKind::Call { callee, args } => ExprKindM::Call { callee: Box::new(callee.model()), args: args_m(args@) },
        ExprKind::Pipe { left, right } => ExprKindM::Pipe { left: Box::new(left.model()), right: Box::new(right.model()) },
        ExprKind::Field { base, field } => ExprKindM::Field { base: Box::new(base.model()), field: field@ },
        ExprKind::Index { base, index } => ExprKindM::Index { base: Box::new(base.model()), index: Box::new(index.model()) },
        ExprKind::OrReturn(e) => ExprKindM::OrReturn(Box::new(e.model())),
        ExprKind::OrPanic(e, m) => ExprKindM::OrPanic(Box::new(e.model()), m@),
        ExprKind::OrElse(e, d) => ExprKindM::OrElse(Box::new(e.model()), Box::new(d.model())),
        ExprKind::OrZero(e) => ExprKindM::OrZero(Box::new(e.model())),
        ExprKind::OrNil(e) => ExprKindM::OrNil(Box::new(e.model())),
        ExprKind::BinOp { op, left, right } => ExprKindM::BinOp {
            op,
            left: Box::new(left.model()),
            right: Box::new(right.model()),
        },
        ExprKind::UnOp { op, expr } => ExprKindM::UnOp { op, expr: Box::new(expr.model()) },
        ExprKind::StructLit { name, fields } => ExprKindM::StructLit { name: name@, fields: inits_m(fields@) },
        ExprKind::ResultCtor { variant, inner } => ExprKindM::ResultCtor { variant, inner: Box::new(inner.model()) },
        ExprKind::ArrayLit(es) => ExprKindM::ArrayLit(exprs_m(es@)),
        ExprKind::MatrixLit { elems, rows, cols } => ExprKindM::MatrixLit { elems: exprs_m(elems@), rows, cols },
        ExprKind::AllocCall { allocator, elem_ty, count } => ExprKindM::AllocCall {
            allocator: Box::new(allocator.model()),
            elem_ty: elem_ty.model(),
            count: Box::new(count.model()),
        },
        ExprKind::Asm { template, args } => ExprKindM::Asm { template: template@, args: exprs_m(args@) },
        ExprKind::Cast { expr, ty } => ExprKindM::Cast { expr: Box::new(expr.model()), ty: ty.model() },
        ExprKind::Ref(e) => ExprKindM::Ref(Box::new(e.model())),
        ExprKind::Deref(e) => ExprKindM::Deref(Box::new(e.model())),
        ExprKind::Block(ss) => ExprKindM::Block(stmts_m(ss@)),
        ExprKind::If { cond, then, else_ } => ExprKindM::If {
            cond: Box::new(cond.model()),
            then: Box::new(then.model()),
            else_: match else_ {
                Some(e) => Some(Box::new(e.model())),
                None => None,
            },
        },
        ExprKind::Match { subject, arms } => ExprKindM::Match { subject: Box::new(subject.model()), arms: arms_m(arms@) },
    }
}

pub open spec fn exprs_m(es: Seq<Expr>) -> Seq<ExprM>
    decreases es, 0nat,
{
    if es.len() == 0 {
        Seq::empty()
    } else {
        exprs_m(es.drop_last()).push(es.last().model())
    }
}

pub open spec fn args_m(args: Seq<Arg>) -> Seq<ArgM>
    decreases args, 0nat,
{
    if args.len() == 0 {
        Seq::empty()
    } else {
        let a = args.last();
        args_m(args.drop_last()).push(
            ArgM {
                label: match a.label {
                    Some(l) => Some(l@),
                    None => None,
                },
                mode: a.mode,
                expr: a.expr.model(),
            },
        )
    }
}

pub open spec fn inits_m(fs: Seq<FieldInit>) -> Seq<FieldInitM>
    decreases fs, 0nat,
{
    if fs.len() == 0 {
        Seq::empty()
    } else {
        inits_m(fs.drop_last()).push(FieldInitM { name: fs.last().name@, expr: fs.last().expr.model() })
    }
}

pub open spec fn pattern_m(p: Pattern) -> PatternM
    decreases p, 0nat,
{
    match p {
        Pattern::Wildcard => PatternM::Wildcard,
        Pattern::Lit(k) => PatternM::Lit(kind_m(k)),
        Pattern::Variant { ty, variant } => PatternM::Variant { ty: ty@, variant: variant@ },
        Pattern::Else => PatternM::Else,
    }
}

pub open spec fn arms_m(arms: Seq<MatchArm>) -> Seq<ArmM>
    decreases arms, 0nat,
{
    if arms.len() == 0 {
        Seq::empty()
    } else {
        arms_m(arms.drop_last()).push(ArmM { pattern: pattern_m(arms.last().pattern), body: arms.last().body.model() })
    }
}

// ── Statements ────────────────────────────────────────────────

impl Stmt {
    pub open spec fn model(&self) -> StmtM
        decreases self, 0nat,
    {
        StmtM {
            kind: match &self.kind {
                StmtKind::Let { name, ty, init } => StmtKindM::Let {
                    name: name@,
                    ty: opt_ty_m(*ty),
                    init: init.model(),
                },
                StmtKind::Var { name, ty, init } => StmtKindM::Var {
                    name: name@,
                    ty: opt_ty_m(*ty),
                    init: init.model(),
                },
                StmtKind::Return(e) => StmtKindM::Return(
                    match e {
                        Some(x) => Some(x.model()),
                        None => None,
                    },
                ),
                StmtKind::Defer(e) => StmtKindM::Defer(e.model()),
                StmtKind::Expr(e) => StmtKindM::Expr(e.model()),
                StmtKind::Assign { target, value } => StmtKindM::Assign { target: target.model(), value: value.model() },
                StmtKind::For { binding, iter, body } => StmtKindM::For {
                    binding: binding@,
                    iter: iter.model(),
                    body: stmts_m(body@),
                },
                StmtKind::While { cond, body } => StmtKindM::While { cond: cond.model(), body: stmts_m(body@) },
                StmtKind::Loop(body) => StmtKindM::Loop(stmts_m(body@)),
                StmtKind::Break => StmtKindM::Break,
                StmtKind::Continue => StmtKindM::Continue,
            },
            span: self.span,
        }
    }
}

pub open spec fn stmts_m(ss: Seq<Stmt>) -> Seq<StmtM>
    decreases ss, 0nat,
{
    if ss.len() == 0 {
        Seq::empty()
    } else {
        stmts_m(ss.drop_last()).push(ss.last().model())
    }
}

impl Expr {
    /// A copy of this expression.
    pub fn copy(&self) -> (r: Self)
        ensures
            r.model() == self.model(),
        decreases self,
    {
        Expr { kind: copy_expr_kind(&self.kind), span: self.span }
    }
}

impl Clone for Expr {
    fn clone(&self) -> (r: Self)
        ensures
            r.model() == self.model(),
    {
        self.copy()
    }
}

impl Clone for ExprKind {
    fn clone(&self) -> (r: Self)
        ensures
            kind_m(r) == kind_m(*self),
    {
        copy_expr_kind(self)
    }
}

impl Stmt {
    /// A copy of this statement.
    pub fn copy(&self) -> (r: Self)
        ensures
            r.model() == self.model(),
        decreases self,
    {
        let kind = match &self.kind {
            StmtKind::Let { name, ty, init } => StmtKind::Let { name: name.clone(), ty: copy_opt_ty(ty), init: init.copy() },
            StmtKind::Var { name, ty, init } => StmtKind::Var { name: name.clone(), ty: copy_opt_ty(ty), init: init.copy() },
            StmtKind::Return(e) => StmtKind::Return(
                match e {
                    Some(x) => Some(x.copy()),
                    None => None,
                },
            ),
            StmtKind::Defer(e) => StmtKind::Defer(e.copy()),
            StmtKind::Expr(e) => StmtKind::Expr(e.copy()),
            StmtKind::Assign { target, value } => StmtKind::Assign { target: target.copy(), value: value.copy() },
            StmtKind::For { binding, iter, body } => StmtKind::For {
                binding: binding.clone(),
                iter: iter.copy(),
                body: copy_stmts(body),
            },
            StmtKind::While { cond, body } => StmtKind::While { cond: cond.copy(), body: copy_stmts(body) },
            StmtKind::Loop(body) => StmtKind::Loop(copy_stmts(body)),
            StmtKind::Break => StmtKind::Break,
            StmtKind::Continue => StmtKind::Continue,
        };
        Stmt { kind, span: self.span }
    }
}

impl Clone for Stmt {
    fn clone(&self) -> (r: Self)
        ensures
            r.model() == self.model(),
    {
        self.copy()
    }
}

fn copy_opt_ty(t: &Option<Ty>) -> (r: Option<Ty>)
    ensures
        opt_ty_m(r) == opt_ty_m(*t),
{
    match t {
        Some(x) => Some(x.copy()),
        None => None,
    }
}

/// A copy of the kind of an expression.
fn copy_expr_kind(k: &ExprKind) -> (r: ExprKind)
    ensures
        kind_m(r) == kind_m(*k),
    decreases k,
{
    match k {
        ExprKind::Int(v) => ExprKind::Int(*v),
        ExprKind::Float(t) => ExprKind::Float(t.clone()),
        ExprKind::Bool(b) => ExprKind::Bool(*b),
        ExprKind::Str(t) => ExprKind::Str(t.clone()),
        ExprKind::Ident(n) => ExprKind::Ident(n.clone()),
        ExprKind::Call { callee, args } => ExprKind::Call { callee: Box::new(callee.copy()), args: copy_args(args) },
        ExprKind::Pipe { left, right } => ExprKind::Pipe { left: Box::new(left.copy()), right: Box::new(right.copy()) },
        ExprKind::Field { base, field } => ExprKind::Field { base: Box::new(base.copy()), field: field.clone() },
        ExprKind::Index { base, index } => ExprKind::Index { base: Box::new(base.copy()), index: Box::new(index.copy()) },
        ExprKind::OrReturn(e) => ExprKind::OrReturn(Box::new(e.copy())),
        ExprKind::OrPanic(e, m) => ExprKind::OrPanic(Box::new(e.copy()), m.clone()),
        ExprKind::OrElse(e, d) => ExprKind::OrElse(Box::new(e.copy()), Box::new(d.copy())),
        ExprKind::OrZero(e) => ExprKind::OrZero(Box::new(e.copy())),
        ExprKind::OrNil(e) => ExprKind::OrNil(Box::new(e.copy())),
        ExprKind::BinOp { op, left, right } => ExprKind::BinOp {
            op: *op,
            left: Box::new(left.copy()),
            right: Box::new(right.copy()),
        },
        ExprKind::UnOp { op, expr } => ExprKind::UnOp { op: *op, expr: Box::new(expr.copy()) },
        ExprKind::StructLit { name, fields } => ExprKind::StructLit { name: name.clone(), fields: copy_inits(fields) },
        ExprKind::ResultCtor { variant, inner } => ExprKind::ResultCtor { variant: *variant, inner: Box::new(inner.copy()) },
        ExprKind::ArrayLit(es) => ExprKind::ArrayLit(copy_exprs(es)),
        ExprKind::MatrixLit { elems, rows, cols } => ExprKind::MatrixLit { elems: copy_exprs(elems), rows: *rows, cols: *cols },
        ExprKind::AllocCall { allocator, elem_ty, count } => ExprKind::AllocCall {
            allocator: Box::new(allocator.copy()),
            elem_ty: elem_ty.copy(),
            count: Box::new(count.copy()),
        },
        ExprKind::Asm { template, args } => ExprKind::Asm { template: template.clone(), args: copy_exprs(args) },
        ExprKind::Cast { expr, ty } => ExprKind::Cast { expr: Box::new(expr.copy()), ty: ty.copy() },
        ExprKind::Ref(e) => ExprKind::Ref(Box::new(e.copy())),
        ExprKind::Deref(e) => ExprKind::Deref(Box::new(e.copy())),
        ExprKind::Block(ss) => ExprKind::Block(copy_stmts(ss)),
        ExprKind::If { cond, then, else_ } => ExprKind::If {
            cond: Box::new(cond.copy()),
            then: Box::new(then.copy()),
            else_: match else_ {
                Some(e) => Some(Box::new(e.copy())),
                None => None,
            },
        },
        ExprKind::Match { subject, arms } => ExprKind::Match { subject: Box::new(subject.copy()), arms: copy_arms(arms) },
    }
}

fn copy_pattern(p: &Pattern) -> (r: Pattern)
    ensures
        pattern_m(r) == pattern_m(*p),
    decreases p,
{
    match p {
        Pattern::Wildcard => Pattern::Wildcard,
        Pattern::Lit(k) => Pattern::Lit(copy_expr_kind(k)),
        Pattern::Variant { ty, variant } => Pattern::Variant { ty: ty.clone(), variant: variant.clone() },
        Pattern::Else => Pattern::Else,
    }
}

/// Copies of a list of expressions.
fn copy_exprs(xs: &Vec<Expr>) -> (r: Vec<Expr>)
    ensures
        exprs_m(r@) == exprs_m(xs@),
    decreases xs,
{
    let mut out: Vec<Expr> = Vec::new();
    let mut i: usize = 0;
    while i < xs.len()
        invariant
            i <= xs.len(),
            exprs_m(out@) == exprs_m(xs@.take(i as int)),
        decreases xs.len() - i,
    {
        let ghost out0 = out@;
        proof {
            let ghost v: Vec<Expr> = *xs;
            assert(decreases_to!(v => v@));
            assert(decreases_to!(v@ => v@[i as int]));
        }
        let x = xs[i].copy();
        out.push(x);
        assert(out@.drop_last() =~= out0);
        assert(xs@.take(i + 1).drop_last() =~= xs@.take(i as int));
        i += 1;
    }
    assert(xs@.take(xs.len() as int) =~= xs@);
    out
}

/// Copies of a list of statements.
fn copy_stmts(xs: &Vec<Stmt>) -> (r: Vec<Stmt>)
    ensures
        stmts_m(r@) == stmts_m(xs@),
    decreases xs,
{
    let mut out: Vec<Stmt> = Vec::new();
    let mut i: usize = 0;
    while i < xs.len()
        invariant
            i <= xs.len(),
            stmts_m(out@) == stmts_m(xs@.take(i as int)),
        decreases xs.len() - i,
    {
        let ghost out0 = out@;
        proof {
            let ghost v: Vec<Stmt> = *xs;
            assert(decreases_to!(v => v@));
            assert(decreases_to!(v@ => v@[i as int]));
        }
        let x = xs[i].copy();
        out.push(x);
        assert(out@.drop_last() =~= out0);
        assert(xs@.take(i + 1).drop_last() =~= xs@.take(i as int));
        i += 1;
    }
    assert(xs@.take(xs.len() as int) =~= xs@);
    out
}

/// Copies of the arguments of a call.
fn copy_args(xs: &Vec<Arg>) -> (r: Vec<Arg>)
    ensures
        args_m(r@) == args_m(xs@),
    decreases xs,
{
    let mut out: Vec<Arg> = Vec::new();
    let mut i: usize = 0;
    while i < xs.len()
        invariant
            i <= xs.len(),
            args_m(out@) == args_m(xs@.take(i as int)),
        decreases xs.len() - i,
    {
        let ghost out0 = out@;
        proof {
            let ghost v: Vec<Arg> = *xs;
            assert(decreases_to!(v => v@));
            assert(decreases_to!(v@ => v@[i as int]));
            assert(decreases_to!(v@[i as int] => v@[i as int].expr));
        }
        let x = Arg {
            label: match &xs[i].label {
                Some(l) => Some(l.clone()),
                None => None,
            },
            mode: xs[i].mode,
            expr: xs[i].expr.copy(),
        };
        out.push(x);
        assert(out@.drop_last() =~= out0);
        assert(xs@.take(i + 1).drop_last() =~= xs@.take(i as int));
        i += 1;
    }
    assert(xs@.take(xs.len() as int) =~= xs@);
    out
}

/// Copies of the fields of a struct literal.
fn copy_inits(xs: &Vec<FieldInit>) -> (r: Vec<FieldInit>)
    ensures
        inits_m(r@) == inits_m(xs@),
    decreases xs,
{
    let mut out: Vec<FieldInit> = Vec::new();
    let mut i: usize = 0;
    while i < xs.len()
        invariant
            i <= xs.len(),
            inits_m(out@) == inits_m(xs@.take(i as int)),
        decreases xs.len() - i,
    {
        let ghost out0 = out@;
        proof {
            let ghost v: Vec<FieldInit> = *xs;
            assert(decreases_to!(v => v@));
            assert(decreases_to!(v@ => v@[i as int]));
            assert(decreases_to!(v@[i as int] => v@[i as int].expr));
        }
        let x = FieldInit { name: xs[i].name.clone(), expr: xs[i].expr.copy() };
        out.push(x);
        assert(out@.drop_last() =~= out0);
        assert(xs@.take(i + 1).drop_last() =~= xs@.take(i as int));
        i += 1;
    }
    assert(xs@.take(xs.len() as int) =~= xs@);
    out
}

/// Copies of the arms of a match.
fn copy_arms(xs: &Vec<MatchArm>) -> (r: Vec<MatchArm>)
    ensures
        arms_m(r@) == arms_m(xs@),
    decreases xs,
{
    let mut out: Vec<MatchArm> = Vec::new();
    let mut i: usize = 0;
    while i < xs.len()
        invariant
            i <= xs.len(),
            arms_m(out@) == arms_m(xs@.take(i as int)),
        decreases xs.len() - i,
    {
        let ghost out0 = out@;
        proof {
            let ghost v: Vec<MatchArm> = *xs;
            assert(decreases_to!(v => v@));
            assert(decreases_to!(v@ => v@[i as int]));
            assert(decreases_to!(v@[i as int] => v@[i as int].pattern));
            assert(decreases_to!(v@[i as int] => v@[i as int].body));
        }
        let x = MatchArm { pattern: copy_pattern(&xs[i].pattern), body: xs[i].body.copy() };
        out.push(x);
        assert(out@.drop_last() =~= out0);
        assert(xs@.take(i + 1).drop_last() =~= xs@.take(i as int));
        i += 1;
    }
    assert(xs@.take(xs.len() as int) =~= xs@);
    out
}

// ── Items and files ───────────────────────────────────────────

pub open spec fn params_m(ps: Seq<Param>) -> Seq<ParamM> {
    ps.map_values(|p: Param| ParamM { name: p.name@, mode: p.mode, ty: p.ty.model() })
}

pub open spec fn field_defs_m(fs: Seq<FieldDef>) -> Seq<FieldDefM> {
    fs.map_values(|f: FieldDef| FieldDefM { name: f.name@, ty: f.ty.model() })
}

pub open spec fn variants_m(vs: Seq<EnumVariant>) -> Seq<VariantM> {
    vs.map_values(|v: EnumVariant| VariantM { name: v.name@, payload: opt_ty_m(v.payload) })
}

pub open spec fn fn_def_m(f: crate::ast::FnDef) -> FnDefM {
    FnDefM {
        name: f.name@,
        params: params_m(f.params@),
        ret: f.ret.model(),
        body: stmts_m(f.body@),
        attrs: f.attrs@.map_values(
            |a: crate::ast::Attr| (a.name@, a.args@.map_values(|x: crate::ast::AttrArg| (x.key@, x.value@))),
        ),
    }
}

impl Item {
    pub open spec fn model(&self) -> ItemM {
        ItemM {
            kind: match &self.kind {
                ItemKind::Fn(f) => ItemKindM::Fn(fn_def_m(*f)),
                ItemKind::Type(t) => ItemKindM::Type { name: t.name@, fields: field_defs_m(t.fields@) },
                ItemKind::Enum(e) => ItemKindM::Enum { name: e.name@, variants: variants_m(e.variants@) },
                ItemKind::Import(p) => ItemKindM::Import(p@),
                ItemKind::CompilerExt(c) => ItemKindM::CompilerExt { phase: c.phase, fn_name: c.fn_name@ },
            },
            span: self.span,
        }
    }
}

pub open spec fn items_m(is: Seq<Item>) -> Seq<ItemM> {
    is.map_values(|i: Item| i.model())
}

impl SourceFile {
    pub open spec fn model(&self) -> SourceFileM {
        SourceFileM { ring: self.ring, def_zone: items_m(self.def_zone@), alg_zone: stmts_m(self.alg_zone@), span: self.span }
    }
}

} // verus!

//! Syntax tree of a Rym source file.
use vstd::prelude::*;
use crate::token::Span;

verus! {

/// A complete parsed `.rym` source file.
///
/// Every Rym file is physically split into two zones:
///   - definition zone (top): all `fn`, `type`, `enum`, `import` items
///   - algorithm zone (bottom): pipeline expressions and variable bindings
#[derive(Debug, Clone)]
pub struct SourceFile {
    pub ring: Ring,
    pub def_zone: Vec<Item>,
    pub alg_zone: Vec<Stmt>,
    pub span: Span,
}

/// Which execution ring this file belongs to.
#[derive(Debug, Clone, Copy, PartialEq, Eq, Structural)]
pub enum Ring {
    /// Default — automatic safety, RAII, standard allocators.
    Safe,
    /// Privileged — raw hardware access, inline LoongArch asm, no runtime checks.
    Base,
}

impl Default for Ring {
    fn default() -> (r: Self)
        ensures
            r == Ring::Safe,
    {
        Ring::Safe
    }
}

// ── Expressions ───────────────────────────────────────────────

/// An expression node.
#[derive(Debug)]
pub struct Expr {
    pub kind: ExprKind,
    pub span: Span,
}

#[derive(Debug)]
pub enum ExprKind {
    Int(i64),
    /// A floating-point literal, as its decimal text (see `TokenKind::Float`).
    Float(String),
    Bool(bool),
    Str(String),
    /// Variable reference: `x`, `解析请求`
    Ident(String),
    /// `f(arg1, arg2)` — arguments carry explicit ownership mode
    Call { callee: Box<Expr>, args: Vec<Arg> },
    /// `recv |> parse(alloc)` — desugars to `parse(recv, alloc)`
    Pipe { left: Box<Expr>, right: Box<Expr> },
    /// Field access: `conn.fd`, `请求.路径`
    Field { base: Box<Expr>, field: String },
    /// Index: `buf[i]`
    Index { base: Box<Expr>, index: Box<Expr> },
    /// `expr.or_return?`
    OrReturn(Box<Expr>),
    /// `expr.or_panic("msg")`
    OrPanic(Box<Expr>, String),
    /// `expr.or_else(default)`
    OrElse(Box<Expr>, Box<Expr>),
    /// `expr.or_zero`
    OrZero(Box<Expr>),
    /// `expr.or_nil`
    OrNil(Box<Expr>),
    BinOp { op: BinOp, left: Box<Expr>, right: Box<Expr> },
    UnOp { op: UnOp, expr: Box<Expr> },
    /// `Request{ path=path, method=method }` / `请求{ 路径=路径 }`
    StructLit { name: String, fields: Vec<FieldInit> },
    /// `Ok(expr)` / `Err(expr)`
    ResultCtor { variant: ResultVariant, inner: Box<Expr> },
    /// Array literal: `[1, 2, 3]`
    ArrayLit(Vec<Expr>),
    /// Matrix literal: `[1,2;3,4]` — flat row-major elements with the row count
    /// and the length of the first row.
    MatrixLit { elems: Vec<Expr>, rows: usize, cols: usize },
    /// Allocation call: `alloc.alloc(T, n)`.
    AllocCall { allocator: Box<Expr>, elem_ty: Ty, count: Box<Expr> },
    /// Inline assembly: `asm!("template", arg0, arg1, ...)` — base ring only.
    Asm { template: String, args: Vec<Expr> },
    /// Type cast: `x as u64`
    Cast { expr: Box<Expr>, ty: Ty },
    /// Address-of: `&x`
    Ref(Box<Expr>),
    /// Dereference: `*x`
    Deref(Box<Expr>),
    /// Block expression used only inside `if`/`match` arms.
    Block(Vec<Stmt>),
    /// `if cond { then } else { else_ }`
    If { cond: Box<Expr>, then: Box<Expr>, else_: Option<Box<Expr>> },
    /// `match expr { pattern => expr, ... }`
    Match { subject: Box<Expr>, arms: Vec<MatchArm> },
}

/// An argument in a function call, with its ownership mode.
#[derive(Debug, Clone)]
pub struct Arg {
    /// Optional keyword label: `前缀: "Mr."`
    pub label: Option<String>,
    pub mode: OwnershipMode,
    pub expr: Expr,
}

/// Ownership mode for a parameter or argument.
#[derive(Debug, Clone, Copy, PartialEq, Eq, Structural)]
pub enum OwnershipMode {
    /// `read` — shared borrow, unlimited aliasing
    Read,
    /// `mut` — exclusive borrow, no aliasing
    Mut,
    /// `move` — ownership transfer, source is consumed
    Move,
    /// Inferred (before sema pass)
    Inferred,
}

#[derive(Debug, Clone)]
pub struct FieldInit {
    pub name: String,
    pub expr: Expr,
}

#[derive(Debug, Clone)]
pub struct MatchArm {
    pub pattern: Pattern,
    pub body: Expr,
}

#[derive(Debug, Clone)]
pub enum Pattern {
    /// Wildcard `_`
    Wildcard,
    /// Literal value
    Lit(ExprKind),
    /// Enum variant: `IO结果.成功`
    Variant { ty: String, variant: String },
    /// Catch-all `else`
    Else,
}

#[derive(Debug, Clone, Copy, PartialEq, Eq, Structural)]
pub enum ResultVariant {
    /// `Ok(..)`
    Success,
    /// `Err(..)`
    Failure,
}

#[derive(Debug, Clone, Copy, PartialEq, Eq, Structural)]
pub enum BinOp {
    Add,
    Sub,
    Mul,
    Div,
    Rem,
    Eq,
    NotEq,
    Lt,
    LtEq,
    Gt,
    GtEq,
    And,
    Or,
    /// `++` string concatenation
    Concat,
    BitAnd,
    BitOr,
    BitXor,
    Shl,
    Shr,
}

#[derive(Debug, Clone, Copy, PartialEq, Eq, Structural)]
pub enum UnOp {
    Neg,
    Not,
    /// `~`
    BitNot,
    Deref,
}

// ── Items ─────────────────────────────────────────────────────

/// A top-level definition — valid only in the definition zone.
#[derive(Debug, Clone)]
pub struct Item {
    pub kind: ItemKind,
    pub span: Span,
}

#[derive(Debug, Clone)]
pub enum ItemKind {
    /// `fn name(params) -> ret { body }`
    Fn(FnDef),
    /// `type Name { fields }`
    Type(TypeDef),
    /// `enum Name { Variant1, Variant2: T, ... }`
    Enum(EnumDef),
    /// `import "path/to/file.rym"`
    Import(String),
    /// Compiler extension point: `@parser_rule(...)`, `@type_rule(...)`, etc.
    CompilerExt(CompilerExt),
}

#[derive(Debug, Clone)]
pub struct FnDef {
    pub name: String,
    pub params: Vec<Param>,
    pub ret: Ty,
    pub body: Vec<Stmt>,
    /// Compiler extension attributes on this function.
    pub attrs: Vec<Attr>,
}

#[derive(Debug, Clone)]
pub struct Param {
    pub name: String,
    pub mode: OwnershipMode,
    pub ty: Ty,
}

#[derive(Debug, Clone)]
pub struct TypeDef {
    pub name: String,
    pub fields: Vec<FieldDef>,
}

#[derive(Debug, Clone)]
pub struct FieldDef {
    pub name: String,
    pub ty: Ty,
}

#[derive(Debug, Clone)]
pub struct EnumDef {
    pub name: String,
    pub variants: Vec<EnumVariant>,
}

#[derive(Debug, Clone)]
pub struct EnumVariant {
    pub name: String,
    /// Some if the variant carries a payload: `IOError: str`
    pub payload: Option<Ty>,
}

/// `@lower_pass(node = "Syscall")` style attribute on a function.
#[derive(Debug, Clone)]
pub struct Attr {
    pub name: String,
    pub args: Vec<AttrArg>,
}

#[derive(Debug, Clone)]
pub struct AttrArg {
    pub key: String,
    pub value: String,
}

/// A compiler extension declaration in the `base` ring (phases 1–6).
#[derive(Debug, Clone)]
pub struct CompilerExt {
    pub phase: ExtPhase,
    pub fn_name: String,
}

#[derive(Debug, Clone, Copy, PartialEq, Eq, Structural)]
pub enum ExtPhase {
    /// Phase 1 — `@parser_rule`
    ParserRule,
    /// Phase 2 — `@ast_node`
    AstNode,
    /// Phase 3 — `@type_rule`
    TypeRule,
    /// Phase 4 — `@lower_pass`
    LowerPass,
    /// Phase 5 — `@opt_pass`
    OptPass,
    /// Phase 6 — `@backend`
    Backend,
}

// ── Statements ────────────────────────────────────────────────

#[derive(Debug)]
pub struct Stmt {
    pub kind: StmtKind,
    pub span: Span,
}

#[derive(Debug, Clone)]
pub enum StmtKind {
    /// `定 name = expr` — immutable binding
    Let { name: String, ty: Option<Ty>, init: Expr },
    /// `设 name = expr` — mutable binding
    Var { name: String, ty: Option<Ty>, init: Expr },
    /// `return expr`
    Return(Option<Expr>),
    /// `defer expr`
    Defer(Expr),
    /// A bare expression statement, e.g. a pipeline.
    Expr(Expr),
    /// `name = expr` — assignment to a mutable binding
    Assign { target: Expr, value: Expr },
    /// `for item in collection { body }`
    For { binding: String, iter: Expr, body: Vec<Stmt> },
    /// `while cond { body }`
    While { cond: Expr, body: Vec<Stmt> },
    /// `loop { body }`
    Loop(Vec<Stmt>),
    /// `break`
    Break,
    /// `continue`
    Continue,
}

// ── Types ─────────────────────────────────────────────────────

/// A type expression.
#[derive(Debug)]
pub struct Ty {
    pub kind: TyKind,
    pub span: Span,
}

#[derive(Debug, Clone)]
pub enum TyKind {
    I8,
    I16,
    I32,
    I64,
    U8,
    U16,
    U32,
    U64,
    F32,
    F64,
    Bool,
    Usize,
    Str,
    Void,
    /// Named type: `Request`, `请求`, etc.
    Named(String),
    /// Slice: `[]u8`
    Slice(Box<Ty>),
    /// Raw pointer: `*u8`
    Ptr(Box<Ty>),
    /// Mutable raw pointer: `*mut u8`
    PtrMut(Box<Ty>),
    /// `Result(T, E)`
    Result(Box<Ty>, Box<Ty>),
    /// `Option(T)`
    Option(Box<Ty>),
    /// `Allocator` interface
    Allocator,
    /// Fixed-size stack array: `[4]i32`
    Array { size: usize, elem: Box<Ty> },
    /// Function pointer: `fn(T, U) -> R`
    FnPtr { params: Vec<Ty>, ret: Box<Ty> },
}

} // verus!

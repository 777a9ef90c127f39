use vstd::prelude::*;

verus! {

/// Byte-offset range within the source file.
#[derive(Debug, Clone, Copy, PartialEq, Eq, Structural)]
pub struct Span {
    pub start: usize,
    pub end: usize,
}

impl Span {
    pub fn new(start: usize, end: usize) -> (r: Self)
        ensures
            r.start == start,
            r.end == end,
    {
        Span { start, end }
    }

    /// Number of bytes covered; a span never ends before it starts.
    pub fn len(&self) -> (n: usize)
        requires
            self.start <= self.end,
        ensures
            n == self.end - self.start,
    {
        self.end - self.start
    }
}

/// A token together with its source location.
#[derive(Debug, Clone, PartialEq)]
pub struct Token {
    pub kind: TokenKind,
    pub span: Span,
}

impl Token {
    pub fn new(kind: TokenKind, start: usize, end: usize) -> (t: Self)
        ensures
            t.kind == kind,
            t.span.start == start,
            t.span.end == end,
    {
        Token { kind, span: Span::new(start, end) }
    }
}

/// Every token kind in the Rym language.
///
/// A floating-point literal is carried as its decimal text with the digit
/// separators `_` removed (for example `3.14`); the numeric value is the
/// one that text denotes.
#[derive(Debug, Clone, PartialEq)]
pub enum TokenKind {
    // Literals
    Int(i64),
    Float(String),
    Str(String),
    Bool(bool),
    // Identifier
    Ident(String),
    // English keywords
    Fn,
    Type,
    Enum,
    Struct,
    Match,
    If,
    Else,
    For,
    In,
    Return,
    Defer,
    While,
    Loop,
    Break,
    Continue,
    As,
    Import,
    /// Declares a file as part of the privileged `base` ring.
    Base,
    /// Declares a file as part of the safe `safe` ring.
    Safe,
    // Parameter-mode keywords
    Read,
    Mut,
    Move,
    // Error-handling operator keywords
    OrElse,
    OrReturn,
    OrPanic,
    OrZero,
    OrNil,
    /// `let`
    Let,
    /// `var`
    Var,
    /// 定 — immutable variable binding
    Ding,
    /// 设 — mutable variable binding
    She,
    // Built-in types
    I8,
    I16,
    I32,
    I64,
    U8,
    U16,
    U32,
    U64,
    F32,
    F64,
    BoolTy,
    Usize,
    StrTy,
    Void,
    /// `asm!`
    AsmBang,
    // Punctuation & operators
    /// `|>`
    Pipe,
    /// `->`
    Arrow,
    /// `=>`
    FatArrow,
    Question,
    Colon,
    /// `::`
    ColonColon,
    Comma,
    Dot,
    /// `..`
    DotDot,
    Semi,
    At,
    Star,
    Amp,
    /// `++`
    PlusPlus,
    Plus,
    Minus,
    Slash,
    Percent,
    Caret,
    Tilde,
    Shl,
    Shr,
    BitOr,
    Eq,
    NotEq,
    Lt,
    LtEq,
    Gt,
    GtEq,
    Assign,
    And,
    Or,
    Not,
    LParen,
    RParen,
    LBrace,
    RBrace,
    LBracket,
    RBracket,
    Eof,
    Newline,
}

/// Mathematical model of a token kind: text payloads are character sequences.
pub enum TokV {
    Int(i64),
    Float(Seq<char>),
    Str(Seq<char>),
    Ident(Seq<char>),
    /// Every kind that carries no text.
    Plain(TokenKind),
}

impl View for TokenKind {
    type V = TokV;

    open spec fn view(&self) -> TokV {
        match self {
            TokenKind::Int(v) => TokV::Int(*v),
            TokenKind::Float(t) => TokV::Float(t@),
            TokenKind::Str(t) => TokV::Str(t@),
            TokenKind::Ident(t) => TokV::Ident(t@),
            _ => TokV::Plain(*self),
        }
    }
}

impl View for Token {
    type V = (TokV, usize, usize);

    open spec fn view(&self) -> (TokV, usize, usize) {
        (self.kind@, self.span.start, self.span.end)
    }
}

/// A kind that carries no text payload.
pub open spec fn is_plain(k: TokenKind) -> bool {
    !(k is Int || k is Float || k is Str || k is Ident)
}

} // verus!

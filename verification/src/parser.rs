//! Recursive-descent parser: token stream → syntax tree.
use vstd::prelude::*;
use crate::token::{Span, Token, TokenKind, is_plain};
use crate::ast::{
    Arg, Attr, AttrArg, BinOp, CompilerExt, EnumDef, EnumVariant, Expr, ExprKind, ExtPhase,
    FieldDef, FieldInit, FnDef, Item, ItemKind, MatchArm, OwnershipMode, Param, Pattern,
    ResultVariant, Ring, SourceFile, Stmt, StmtKind, Ty, TyKind, TypeDef, UnOp,
};
use crate::text::is_lit;
use crate::parse_spec::{
    ParseErrV, PR, pk, sp, skip, unexpected, struct_lit_opening, p_expect, p_ident, p_str, p_mode,
    p_ty, p_ty_list, p_expr, p_pipe, p_pipe_rest, p_or, p_or_rest, p_and, p_and_rest, p_comparison,
    p_comparison_rest, p_add, p_add_rest, p_mul, p_mul_rest, p_unary, p_postfix, p_postfix_rest,
    p_dot_suffix, p_primary, p_named, p_branch, p_if_branches, res_branches, mk, p_param, p_params, p_fn, p_field_defs,
    p_type_def, p_variants, p_enum_def, p_attr_list, p_attr_args, p_item, p_import, p_ext_item,
    p_zones, p_file, res_param, res_fn, res_type_def, res_enum_def, attr_args_m, res_attr_args,
    res_item, res_file, unfold_p_zones, unfold_p_item, unfold_p_import, unfold_p_ext_item, unfold_p_fn,
    unfold_p_type_def, unfold_p_enum_def, unfold_p_attr_args, p_inits, p_asm_args, p_array, p_array_rest, p_if, p_match, p_arms,
    p_pattern, p_call_args, p_args, p_label, p_opt_ty, p_stmt, p_block, p_block_rest, res_unit,
    res_str, res_ty, res_expr, res_exprs, res_args, res_inits, res_arms, res_pat, res_stmt,
    res_stmts, lemma_exprs_m_len, lemma_exprs_m_add,
    unfold_p_add, unfold_p_add_rest, unfold_p_and, unfold_p_and_rest, unfold_p_args, unfold_p_arms, unfold_p_array, unfold_p_array_rest, unfold_p_asm_args, unfold_p_block, unfold_p_block_rest, unfold_p_branch, unfold_p_call_args, unfold_p_comparison, unfold_p_comparison_rest, unfold_p_dot_suffix, unfold_p_expr, unfold_p_if, unfold_p_if_branches, unfold_p_inits, unfold_p_match, unfold_p_mul, unfold_p_mul_rest, unfold_p_named, unfold_p_or, unfold_p_or_rest, unfold_p_pipe, unfold_p_pipe_rest, unfold_p_postfix, unfold_p_postfix_rest, unfold_p_primary, unfold_p_stmt, unfold_p_unary,
};
use crate::ast_model::{
    ExprKindM, SourceFileM, FnDefM, ParamM, FieldDefM, VariantM, params_m, field_defs_m, variants_m, fn_def_m,
    items_m, tys_m, exprs_m, args_m, inits_m, arms_m, pattern_m, stmts_m, TyM, ExprM, ArgM, StmtM,
};

verus! {

/// Parse errors.
#[derive(Debug, Clone, PartialEq)]
pub enum ParseError {
    /// `expected {expected}, found {found:?}`
    UnexpectedToken { expected: &'static str, found: TokenKind, span: Span },
    /// `unexpected end of file while parsing {context}`
    UnexpectedEof { context: &'static str },
    /// `nesting depth exceeds 1 — extract into a named function`
    IllegalNesting { span: Span },
    /// `definition found in algorithm zone`
    DefInAlgZone { span: Span },
    /// `pipeline expression found in definition zone`
    PipeInDefZone { span: Span },
}

impl View for ParseError {
    type V = ParseErrV;

    open spec fn view(&self) -> ParseErrV {
        match self {
            ParseError::UnexpectedToken { expected, found, span } => ParseErrV::UnexpectedToken {
                expected: expected@,
                found: found@,
                span: *span,
            },
            ParseError::UnexpectedEof { context } => ParseErrV::UnexpectedEof { context: context@ },
            ParseError::IllegalNesting { span } => ParseErrV::IllegalNesting { span: *span },
            ParseError::DefInAlgZone { span } => ParseErrV::DefInAlgZone { span: *span },
            ParseError::PipeInDefZone { span } => ParseErrV::PipeInDefZone { span: *span },
        }
    }
}

impl ParseError {
    pub fn span(&self) -> (r: Option<Span>)
        ensures
            r == match self {
                ParseError::UnexpectedToken { span, .. } => Some(*span),
                ParseError::IllegalNesting { span } => Some(*span),
                ParseError::DefInAlgZone { span } => Some(*span),
                ParseError::PipeInDefZone { span } => Some(*span),
                ParseError::UnexpectedEof { .. } => None::<Span>,
            },
    {
        match self {
            ParseError::UnexpectedToken { span, .. } => Some(*span),
            ParseError::IllegalNesting { span } => Some(*span),
            ParseError::DefInAlgZone { span } => Some(*span),
            ParseError::PipeInDefZone { span } => Some(*span),
            ParseError::UnexpectedEof { .. } => None,
        }
    }
}

/// A copy of `k`.
pub fn copy_kind(k: &TokenKind) -> (r: TokenKind)
    ensures
        r == *k,
{
    match k {
        TokenKind::Int(v) => TokenKind::Int(*v),
        TokenKind::Float(t) => TokenKind::Float(t.clone()),
        TokenKind::Str(t) => TokenKind::Str(t.clone()),
        TokenKind::Ident(t) => TokenKind::Ident(t.clone()),
        TokenKind::Bool(b) => TokenKind::Bool(*b),
        TokenKind::Fn => TokenKind::Fn,
        TokenKind::Type => TokenKind::Type,
        TokenKind::Enum => TokenKind::Enum,
        TokenKind::Struct => TokenKind::Struct,
        TokenKind::Match => TokenKind::Match,
        TokenKind::If => TokenKind::If,
        TokenKind::Else => TokenKind::Else,
        TokenKind::For => TokenKind::For,
        TokenKind::In => TokenKind::In,
        TokenKind::Return => TokenKind::Return,
        TokenKind::Defer => TokenKind::Defer,
        TokenKind::While => TokenKind::While,
        TokenKind::Loop => TokenKind::Loop,
        TokenKind::Break => TokenKind::Break,
        TokenKind::Continue => TokenKind::Continue,
        TokenKind::As => TokenKind::As,
        TokenKind::Import => TokenKind::Import,
        TokenKind::Base => TokenKind::Base,
        TokenKind::Safe => TokenKind::Safe,
        TokenKind::Read => TokenKind::Read,
        TokenKind::Mut => TokenKind::Mut,
        TokenKind::Move => TokenKind::Move,
        TokenKind::OrElse => TokenKind::OrElse,
        TokenKind::OrReturn => TokenKind::OrReturn,
        TokenKind::OrPanic => TokenKind::OrPanic,
        TokenKind::OrZero => TokenKind::OrZero,
        TokenKind::OrNil => TokenKind::OrNil,
        TokenKind::Let => TokenKind::Let,
        TokenKind::Var => TokenKind::Var,
        TokenKind::Ding => TokenKind::Ding,
        TokenKind::She => TokenKind::She,
        TokenKind::I8 => TokenKind::I8,
        TokenKind::I16 => TokenKind::I16,
        TokenKind::I32 => TokenKind::I32,
        TokenKind::I64 => TokenKind::I64,
        TokenKind::U8 => TokenKind::U8,
        TokenKind::U16 => TokenKind::U16,
        TokenKind::U32 => TokenKind::U32,
        TokenKind::U64 => TokenKind::U64,
        TokenKind::F32 => TokenKind::F32,
        TokenKind::F64 => TokenKind::F64,
        TokenKind::BoolTy => TokenKind::BoolTy,
        TokenKind::Usize => TokenKind::Usize,
        TokenKind::StrTy => TokenKind::StrTy,
        TokenKind::Void => TokenKind::Void,
        TokenKind::AsmBang => TokenKind::AsmBang,
        TokenKind::Pipe => TokenKind::Pipe,
        TokenKind::Arrow => TokenKind::Arrow,
        TokenKind::FatArrow => TokenKind::FatArrow,
        TokenKind::Question => TokenKind::Question,
        TokenKind::Colon => TokenKind::Colon,
        TokenKind::ColonColon => TokenKind::ColonColon,
        TokenKind::Comma => TokenKind::Comma,
        TokenKind::Dot => TokenKind::Dot,
        TokenKind::DotDot => TokenKind::DotDot,
        TokenKind::Semi => TokenKind::Semi,
        TokenKind::At => TokenKind::At,
        TokenKind::Star => TokenKind::Star,
        TokenKind::Amp => TokenKind::Amp,
        TokenKind::PlusPlus => TokenKind::PlusPlus,
        TokenKind::Plus => TokenKind::Plus,
        TokenKind::Minus => TokenKind::Minus,
        TokenKind::Slash => TokenKind::Slash,
        TokenKind::Percent => TokenKind::Percent,
        TokenKind::Caret => TokenKind::Caret,
        TokenKind::Tilde => TokenKind::Tilde,
        TokenKind::Shl => TokenKind::Shl,
        TokenKind::Shr => TokenKind::Shr,
        TokenKind::BitOr => TokenKind::BitOr,
        TokenKind::Eq => TokenKind::Eq,
        TokenKind::NotEq => TokenKind::NotEq,
        TokenKind::Lt => TokenKind::Lt,
        TokenKind::LtEq => TokenKind::LtEq,
        TokenKind::Gt => TokenKind::Gt,
        TokenKind::GtEq => TokenKind::GtEq,
        TokenKind::Assign => TokenKind::Assign,
        TokenKind::And => TokenKind::And,
        TokenKind::Or => TokenKind::Or,
        TokenKind::Not => TokenKind::Not,
        TokenKind::LParen => TokenKind::LParen,
        TokenKind::RParen => TokenKind::RParen,
        TokenKind::LBrace => TokenKind::LBrace,
        TokenKind::RBrace => TokenKind::RBrace,
        TokenKind::LBracket => TokenKind::LBracket,
        TokenKind::RBracket => TokenKind::RBracket,
        TokenKind::Eof => TokenKind::Eof,
        TokenKind::Newline => TokenKind::Newline,
    }
}

/// `toks` without its `Newline` tokens.
pub open spec fn drop_newlines(toks: Seq<Token>) -> Seq<Token>
    decreases toks.len(),
{
    if toks.len() == 0 {
        toks
    } else if toks.last().kind is Newline {
        drop_newlines(toks.drop_last())
    } else {
        drop_newlines(toks.drop_last()).push(toks.last())
    }
}

pub struct Parser {
    tokens: Vec<Token>,
    /// Current position in `tokens`.
    pos: usize,
    /// Current control-flow nesting depth inside a function body.
    /// Rym's absolute flatness rule: max depth = 1.
    control_depth: usize,
}

/// `new` is `old` after reading zero or more tokens; on success it has read at
/// least one and the nesting depth is as before.
pub closed spec fn reads<T>(old: Parser, new: Parser, r: Result<T, ParseError>) -> bool {
    &&& new.wf()
    &&& new.tokens@ == old.tokens@
    &&& old.pos <= new.pos
    &&& (r is Ok ==> old.pos < new.pos && new.control_depth == old.control_depth)
}

/// Like `reads`, but success may read nothing.
pub closed spec fn reads_any<T>(old: Parser, new: Parser, r: Result<T, ParseError>) -> bool {
    &&& new.wf()
    &&& new.tokens@ == old.tokens@
    &&& old.pos <= new.pos
    &&& (r is Ok ==> new.control_depth == old.control_depth)
}

impl Parser {
    pub closed spec fn wf(&self) -> bool {
        &&& self.pos <= self.tokens.len()
        &&& self.control_depth <= 1
    }

    /// The control-flow nesting depth.
    pub closed spec fn depth(&self) -> int {
        self.control_depth as int
    }

    /// Index of the next token to read.
    pub closed spec fn at(&self) -> int {
        self.pos as int
    }

    /// The tokens the parser reads (newlines removed).
    pub closed spec fn tokens_spec(&self) -> Seq<Token> {
        self.tokens@
    }

    /// The kind of the token at the current position (`Eof` past the end).
    pub closed spec fn peek_spec(&self) -> TokenKind {
        if self.pos < self.tokens.len() {
            self.tokens@[self.pos as int].kind
        } else {
            TokenKind::Eof
        }
    }

    pub fn new(tokens: Vec<Token>) -> (p: Self)
        ensures
            p.wf(),
            p.at() == 0,
            p.depth() == 0,
            p.tokens_spec() == drop_newlines(tokens@),
    {
        // Newlines only separate statements; the grammar does not need them.
        let ghost all = tokens@;
        let mut rest = tokens;
        let mut rev: Vec<Token> = Vec::new();
        // Take tokens from the back, then restore the order.
        while rest.len() > 0
            invariant
                drop_newlines(all) == drop_newlines(rest@) + rev@.reverse(),
            decreases rest.len(),
        {
            let ghost before = rest@;
            let ghost rev0 = rev@;
            let t = rest.pop().unwrap();
            assert(before.drop_last() =~= rest@);
            if !matches!(t.kind, TokenKind::Newline) {
                rev.push(t);
                assert(rev@.reverse() =~= seq![t] + rev0.reverse());
                assert(drop_newlines(before) =~= drop_newlines(rest@) + seq![t]);
            }
        }
        assert(drop_newlines(rest@) =~= Seq::<Token>::empty());
        let mut kept: Vec<Token> = Vec::new();
        while rev.len() > 0
            invariant
                kept@ + rev@.reverse() == drop_newlines(all),
            decreases rev.len(),
        {
            let ghost before_rev = rev@;
            let t = rev.pop().unwrap();
            assert(before_rev.reverse() =~= seq![t] + rev@.reverse());
            let ghost kept0 = kept@;
            kept.push(t);
            assert(kept0 + before_rev.reverse() =~= kept@ + rev@.reverse());
        }
        assert(kept@ =~= drop_newlines(all));
        Parser { tokens: kept, pos: 0, control_depth: 0 }
    }

    /// Parse a complete source file.
    pub fn parse_file(&mut self) -> (r: Result<SourceFile, ParseError>)
        requires
            old(self).wf(),
        ensures
            reads_any(*old(self), *final(self), r),
            r matches Ok(f) ==> (f.ring == Ring::Base <==> old(self).peek_spec() is Base),
            r is Ok ==> final(self).peek_spec() is Eof,
            res_file(r, final(self).at()) == p_file(old(self).tokens_spec(), old(self).at(), old(self).depth()),
    {
        let ghost ts = self.tokens@;
        let ghost d = self.control_depth as int;
        let start = self.span();
        // Optional ring declaration at the very top.
        let ring = if self.eat_base() {
            Ring::Base
        } else {
            self.eat_safe();
            Ring::Safe
        };
        let ghost p1 = *self;
        let ghost total = p_zones(ts, self.pos as int, d, Seq::empty(), Seq::empty(), false);
        let mut def_zone: Vec<Item> = Vec::new();
        let mut alg_zone: Vec<Stmt> = Vec::new();
        let mut in_alg = false;
        assert(items_m(def_zone@) =~= Seq::empty());
        while !self.is_eof()
            invariant
                reads_any(*old(self), *self, Ok::<(), ParseError>(())),
                p1.pos <= self.pos,
                ts == self.tokens@,
                d == self.control_depth,
                p_zones(ts, self.pos as int, d, items_m(def_zone@), stmts_m(alg_zone@), in_alg) == total,
                total matches Err(e) ==> p_file(old(self).tokens@, old(self).pos as int, old(self).control_depth as int)
                    == Err::<(SourceFileM, int), ParseErrV>(e),
            decreases self.tokens.len() - self.pos,
        {
            proof {
                unfold_p_zones(ts, self.pos as int, d, items_m(def_zone@), stmts_m(alg_zone@), in_alg);
            }
            let ghost defs = def_zone@;
            let ghost algs = alg_zone@;
            // `import` is always a definition.
            if matches!(self.peek(), TokenKind::Import) {
                if in_alg {
                    return Err(ParseError::DefInAlgZone { span: self.span() });
                }
                def_zone.push(self.parse_import()?);
                assert(items_m(def_zone@) =~= items_m(defs).push(def_zone@.last().model()));
                continue;
            }
            // Compiler extension attribute `@name`.
            if matches!(self.peek(), TokenKind::At) {
                if in_alg {
                    return Err(ParseError::DefInAlgZone { span: self.span() });
                }
                def_zone.push(self.parse_compiler_ext_item()?);
                assert(items_m(def_zone@) =~= items_m(defs).push(def_zone@.last().model()));
                continue;
            }
            // `fn` / `type` / `enum` → definition zone.
            if matches!(self.peek(), TokenKind::Fn | TokenKind::Type | TokenKind::Enum) {
                if in_alg {
                    return Err(ParseError::DefInAlgZone { span: self.span() });
                }
                def_zone.push(self.parse_item()?);
                assert(items_m(def_zone@) =~= items_m(defs).push(def_zone@.last().model()));
                continue;
            }
            // Anything else starts the algorithm zone.
            in_alg = true;
            alg_zone.push(self.parse_stmt()?);
            assert(alg_zone@.drop_last() =~= algs);
        }
        proof {
            unfold_p_zones(ts, self.pos as int, d, items_m(def_zone@), stmts_m(alg_zone@), in_alg);
        }
        let end = self.span();
        Ok(SourceFile { ring, def_zone, alg_zone, span: Span::new(start.start, end.end) })
    }

    fn eat_base(&mut self) -> (b: bool)
        requires
            old(self).wf(),
        ensures
            reads_any(*old(self), *final(self), Ok::<(), ParseError>(())),
            final(self).control_depth == old(self).control_depth,
            b == (old(self).peek_spec() is Base),
            b ==> final(self).pos == old(self).pos + 1,
            !b ==> final(self).pos == old(self).pos,
    {
        if matches!(self.peek(), TokenKind::Base) {
            self.advance();
            true
        } else {
            false
        }
    }

    fn eat_safe(&mut self)
        requires
            old(self).wf(),
        ensures
            reads_any(*old(self), *final(self), Ok::<(), ParseError>(())),
            final(self).control_depth == old(self).control_depth,
            final(self).pos == skip(old(self).tokens@, old(self).pos as int, TokenKind::Safe),
    {
        if matches!(self.peek(), TokenKind::Safe) {
            self.advance();
        }
    }

    // ── Items (definition zone) ───────────────────────────────

    fn parse_item(&mut self) -> (r: Result<Item, ParseError>)
        requires
            old(self).wf(),
        ensures
            reads(*old(self), *final(self), r),
            res_item(r, final(self).pos) == p_item(old(self).tokens@, old(self).pos as int),
    {
        proof {
            unfold_p_item(self.tokens@, self.pos as int);
        }
        let span = self.span();
        match self.peek_kind() {
            TokenKind::Fn => Ok(Item { kind: ItemKind::Fn(self.parse_fn()?), span }),
            TokenKind::Type => Ok(Item { kind: ItemKind::Type(self.parse_type_def()?), span }),
            TokenKind::Enum => Ok(Item { kind: ItemKind::Enum(self.parse_enum_def()?), span }),
            other => Err(
                ParseError::UnexpectedToken { expected: "fn, type, or enum", found: other, span },
            ),
        }
    }

    fn parse_import(&mut self) -> (r: Result<Item, ParseError>)
        requires
            old(self).wf(),
        ensures
            reads(*old(self), *final(self), r),
            res_item(r, final(self).pos) == p_import(old(self).tokens@, old(self).pos as int),
    {
        proof {
            unfold_p_import(self.tokens@, self.pos as int);
        }
        let span = self.span();
        self.expect_import()?;
        let path = self.expect_str()?;
        Ok(Item { kind: ItemKind::Import(path), span })
    }

    fn parse_compiler_ext_item(&mut self) -> (r: Result<Item, ParseError>)
        requires
            old(self).wf(),
        ensures
            reads(*old(self), *final(self), r),
            res_item(r, final(self).pos) == p_ext_item(old(self).tokens@, old(self).pos as int),
    {
        proof {
            unfold_p_ext_item(self.tokens@, self.pos as int);
        }
        let span = self.span();
        self.expect_at()?;
        let phase_name = self.expect_ident()?;
        let phase = if is_lit(phase_name.as_str(), "parser_rule") {
            ExtPhase::ParserRule
        } else if is_lit(phase_name.as_str(), "ast_node") {
            ExtPhase::AstNode
        } else if is_lit(phase_name.as_str(), "type_rule") {
            ExtPhase::TypeRule
        } else if is_lit(phase_name.as_str(), "lower_pass") {
            ExtPhase::LowerPass
        } else if is_lit(phase_name.as_str(), "opt_pass") {
            ExtPhase::OptPass
        } else if is_lit(phase_name.as_str(), "backend") {
            ExtPhase::Backend
        } else {
            return Err(
                ParseError::UnexpectedToken {
                    expected: "known compiler extension phase",
                    found: TokenKind::Ident(phase_name),
                    span,
                },
            );
        };
        // `(key = "value", ...)` — consumed and not kept.
        if matches!(self.peek(), TokenKind::LParen) {
            self.parse_attr_args()?;
        }
        // The next item must be a fn.
        let fn_name = if matches!(self.peek(), TokenKind::Fn) {
            let f = self.parse_fn()?;
            f.name
        } else {
            return Err(
                ParseError::UnexpectedToken {
                    expected: "fn after compiler extension attribute",
                    found: self.peek_kind(),
                    span: self.span(),
                },
            );
        };
        Ok(Item { kind: ItemKind::CompilerExt(CompilerExt { phase, fn_name }), span })
    }

    // ── fn definition ─────────────────────────────────────────

    fn parse_fn(&mut self) -> (r: Result<FnDef, ParseError>)
        requires
            old(self).wf(),
        ensures
            reads(*old(self), *final(self), r),
            res_fn(r, final(self).pos) == p_fn(old(self).tokens@, old(self).pos as int),
    {
        proof {
            unfold_p_fn(self.tokens@, self.pos as int);
        }
        let ghost ts = self.tokens@;
        let ghost i = self.pos as int;
        self.expect_kind(TokenKind::Fn)?;
        let name = self.expect_ident()?;
        let attrs: Vec<Attr> = Vec::new();
        self.expect_kind(TokenKind::LParen)?;
        let ghost i3 = self.pos as int;
        let mut params: Vec<Param> = Vec::new();
        assert(params_m(params@) =~= Seq::empty());
        while !matches!(self.peek(), TokenKind::RParen)
            invariant_except_break
                p_params(ts, self.pos as int, params_m(params@)) == p_params(ts, i3, Seq::empty()),
            invariant
                reads(*old(self), *self, Ok::<(), ParseError>(())),
                ts == self.tokens@,
                ts == old(self).tokens@,
                i == old(self).pos,
                i3 <= self.pos,
                p_params(ts, i3, Seq::empty()) matches Err(e) ==> p_fn(ts, i) == Err::<(FnDefM, int), ParseErrV>(e),
            ensures
                p_params(ts, i3, Seq::empty()) == Ok::<(Seq<ParamM>, int), ParseErrV>((params_m(params@), self.pos as int)),
            decreases self.tokens.len() - self.pos,
        {
            let ghost acc = params@;
            let prm = self.parse_param()?;
            params.push(prm);
            assert(params_m(params@) =~= params_m(acc).push(params_m(params@).last()));
            if !self.eat_kind(TokenKind::Comma) {
                break ;
            }
        }
        self.expect_kind(TokenKind::RParen)?;
        self.expect_kind(TokenKind::Arrow)?;
        let ret = self.parse_ty()?;
        // Reset nesting depth for each new function body.
        let saved_depth = self.control_depth;
        self.control_depth = 0;
        let body = self.parse_branch()?;
        self.control_depth = saved_depth;
        let f = FnDef { name, params, ret, body, attrs };
        assert(fn_def_m(f).attrs =~= Seq::empty());
        Ok(f)
    }

    fn parse_param(&mut self) -> (r: Result<Param, ParseError>)
        requires
            old(self).wf(),
        ensures
            reads(*old(self), *final(self), r),
            res_param(r, final(self).pos) == p_param(old(self).tokens@, old(self).pos as int),
    {
        let mode = self.parse_ownership_mode();
        let name = self.expect_ident()?;
        self.expect_kind(TokenKind::Colon)?;
        // The mode may also appear after the colon: `x: read i32`
        let mode = if mode == OwnershipMode::Inferred {
            self.parse_ownership_mode()
        } else {
            mode
        };
        let ty = self.parse_ty()?;
        Ok(Param { name, mode, ty })
    }

    // ── type / enum definitions ───────────────────────────────

    fn parse_type_def(&mut self) -> (r: Result<TypeDef, ParseError>)
        requires
            old(self).wf(),
        ensures
            reads(*old(self), *final(self), r),
            res_type_def(r, final(self).pos) == p_type_def(old(self).tokens@, old(self).pos as int),
    {
        proof {
            unfold_p_type_def(self.tokens@, self.pos as int);
        }
        let ghost ts = self.tokens@;
        let ghost i = self.pos as int;
        self.expect_kind(TokenKind::Type)?;
        let name = self.expect_ident()?;
        self.expect_kind(TokenKind::LBrace)?;
        let ghost i3 = self.pos as int;
        let mut fields: Vec<FieldDef> = Vec::new();
        assert(field_defs_m(fields@) =~= Seq::empty());
        while !matches!(self.peek(), TokenKind::RBrace)
            invariant
                reads(*old(self), *self, Ok::<(), ParseError>(())),
                ts == self.tokens@,
                ts == old(self).tokens@,
                i == old(self).pos,
                i3 <= self.pos,
                p_field_defs(ts, self.pos as int, field_defs_m(fields@)) == p_field_defs(ts, i3, Seq::empty()),
                p_field_defs(ts, i3, Seq::empty()) matches Err(e) ==> p_type_def(ts, i) == Err::<((Seq<char>, Seq<FieldDefM>), int), ParseErrV>(e),
            decreases self.tokens.len() - self.pos,
        {
            let ghost acc = fields@;
            let fname = self.expect_ident()?;
            self.expect_kind(TokenKind::Colon)?;
            let fty = self.parse_ty()?;
            fields.push(FieldDef { name: fname, ty: fty });
            assert(field_defs_m(fields@) =~= field_defs_m(acc).push(field_defs_m(fields@).last()));
        }
        self.expect_kind(TokenKind::RBrace)?;
        Ok(TypeDef { name, fields })
    }

    fn parse_enum_def(&mut self) -> (r: Result<EnumDef, ParseError>)
        requires
            old(self).wf(),
        ensures
            reads(*old(self), *final(self), r),
            res_enum_def(r, final(self).pos) == p_enum_def(old(self).tokens@, old(self).pos as int),
    {
        proof {
            unfold_p_enum_def(self.tokens@, self.pos as int);
        }
        let ghost ts = self.tokens@;
        let ghost i = self.pos as int;
        self.expect_kind(TokenKind::Enum)?;
        let name = self.expect_ident()?;
        self.expect_kind(TokenKind::LBrace)?;
        let ghost i3 = self.pos as int;
        let mut variants: Vec<EnumVariant> = Vec::new();
        assert(variants_m(variants@) =~= Seq::empty());
        while !matches!(self.peek(), TokenKind::RBrace)
            invariant
                reads(*old(self), *self, Ok::<(), ParseError>(())),
                ts == self.tokens@,
                ts == old(self).tokens@,
                i == old(self).pos,
                i3 <= self.pos,
                p_variants(ts, self.pos as int, variants_m(variants@)) == p_variants(ts, i3, Seq::empty()),
                p_variants(ts, i3, Seq::empty()) matches Err(e) ==> p_enum_def(ts, i) == Err::<((Seq<char>, Seq<VariantM>), int), ParseErrV>(e),
            decreases self.tokens.len() - self.pos,
        {
            let ghost acc = variants@;
            let vname = self.expect_ident()?;
            let payload = if matches!(self.peek(), TokenKind::Colon) {
                self.advance();
                Some(self.parse_ty()?)
            } else {
                None
            };
            variants.push(EnumVariant { name: vname, payload });
            assert(variants_m(variants@) =~= variants_m(acc).push(variants_m(variants@).last()));
            self.eat_kind(TokenKind::Comma);
        }
        self.expect_kind(TokenKind::RBrace)?;
        Ok(EnumDef { name, variants })
    }

    // ── Statements ────────────────────────────────────────────

    fn parse_stmt(&mut self) -> (r: Result<Stmt, ParseError>)
        requires
            old(self).wf(),
        ensures
            reads(*old(self), *final(self), r),
            res_stmt(r, final(self).pos) == p_stmt(old(self).tokens@, old(self).pos as int, old(self).control_depth as int),
        decreases old(self).tokens@.len() - old(self).pos, 29nat,
    {
        proof {
            unfold_p_stmt(self.tokens@, self.pos as int, self.control_depth as int);
        }
        let ghost ts = self.tokens@;
        let ghost i = self.pos as int;
        let ghost d = self.control_depth as int;
        let span = self.span();
        match self.peek_kind() {
            // 定 / let — immutable binding
            TokenKind::Ding | TokenKind::Let => {
                self.advance();
                let name = self.expect_ident()?;
                let ty = if self.eat_kind(TokenKind::Colon) {
                    Some(self.parse_ty()?)
                } else {
                    None
                };
                self.expect_kind(TokenKind::Assign)?;
                let init = self.parse_expr()?;
                Ok(Stmt { kind: StmtKind::Let { name, ty, init }, span })
            },
            // 设 / var — mutable binding
            TokenKind::She | TokenKind::Var => {
                self.advance();
                let name = self.expect_ident()?;
                let ty = if self.eat_kind(TokenKind::Colon) {
                    Some(self.parse_ty()?)
                } else {
                    None
                };
                self.expect_kind(TokenKind::Assign)?;
                let init = self.parse_expr()?;
                Ok(Stmt { kind: StmtKind::Var { name, ty, init }, span })
            },
            TokenKind::Return => {
                self.advance();
                let expr = if self.is_eof() || matches!(self.peek(), TokenKind::RBrace) {
                    None
                } else {
                    Some(self.parse_expr()?)
                };
                Ok(Stmt { kind: StmtKind::Return(expr), span })
            },
            TokenKind::Defer => {
                self.advance();
                let expr = self.parse_expr()?;
                Ok(Stmt { kind: StmtKind::Defer(expr), span })
            },
            TokenKind::For => {
                self.advance();
                if self.control_depth >= 1 {
                    return Err(ParseError::IllegalNesting { span });
                }
                let binding = self.expect_ident()?;
                self.expect_kind(TokenKind::In)?;
                let iter = self.parse_expr()?;
                self.control_depth = self.control_depth + 1;
                let body = self.parse_branch()?;
                self.control_depth = self.control_depth - 1;
                Ok(Stmt { kind: StmtKind::For { binding, iter, body }, span })
            },
            _ => {
                // Expression statement (including pipelines and assignments).
                let expr = self.parse_expr()?;
                // Assignment: `name = value`
                if self.eat_kind(TokenKind::Assign) {
                    let value = self.parse_expr()?;
                    return Ok(Stmt { kind: StmtKind::Assign { target: expr, value }, span });
                }
                Ok(Stmt { kind: StmtKind::Expr(expr), span })
            },
        }
    }

    fn parse_block(&mut self) -> (r: Result<Vec<Stmt>, ParseError>)
        requires
            old(self).wf(),
        ensures
            reads_any(*old(self), *final(self), r),
            r is Ok ==> final(self).peek_spec() is RBrace || final(self).peek_spec() is Eof,
            res_stmts(r, final(self).pos) == p_block(old(self).tokens@, old(self).pos as int, old(self).control_depth as int),
        decreases old(self).tokens@.len() - old(self).pos, 30nat,
    {
        proof {
            unfold_p_block(self.tokens@, self.pos as int, self.control_depth as int);
        }
        let ghost ts = self.tokens@;
        let ghost d = self.control_depth as int;
        let ghost total = p_block(ts, self.pos as int, d);
        let mut stmts: Vec<Stmt> = Vec::new();
        while !matches!(self.peek(), TokenKind::RBrace) && !self.is_eof()
            invariant
                reads_any(*old(self), *self, Ok::<(), ParseError>(())),
                ts == self.tokens@,
                d == self.control_depth,
                total == p_block(old(self).tokens@, old(self).pos as int, old(self).control_depth as int),
                p_block_rest(ts, self.pos as int, d, stmts_m(stmts@)) == total,
            decreases self.tokens.len() - self.pos,
        {
            proof {
                unfold_p_block_rest(ts, self.pos as int, d, stmts_m(stmts@));
            }
            let ghost acc = stmts@;
            let st = self.parse_stmt()?;
            stmts.push(st);
            assert(stmts@.drop_last() =~= acc);
        }
        proof {
            unfold_p_block_rest(ts, self.pos as int, d, stmts_m(stmts@));
        }
        Ok(stmts)
    }

    /// `{ statements }`.
    fn parse_branch(&mut self) -> (r: Result<Vec<Stmt>, ParseError>)
        requires
            old(self).wf(),
        ensures
            reads(*old(self), *final(self), r),
            res_stmts(r, final(self).pos) == p_branch(old(self).tokens@, old(self).pos as int, old(self).control_depth as int),
        decreases old(self).tokens@.len() - old(self).pos, 25nat,
    {
        proof {
            unfold_p_branch(self.tokens@, self.pos as int, self.control_depth as int);
        }
        self.expect_kind(TokenKind::LBrace)?;
        let body = self.parse_block()?;
        self.expect_kind(TokenKind::RBrace)?;
        Ok(body)
    }

    // ── Expressions ───────────────────────────────────────────

    /// Entry point for expression parsing — `|>` binds loosest.
    fn parse_expr(&mut self) -> (r: Result<Expr, ParseError>)
        requires
            old(self).wf(),
        ensures
            reads(*old(self), *final(self), r),
            res_expr(r, final(self).pos) == p_expr(old(self).tokens@, old(self).pos as int, old(self).control_depth as int),
        decreases old(self).tokens@.len() - old(self).pos, 20nat,
    {
        proof {
            unfold_p_expr(self.tokens@, self.pos as int, self.control_depth as int);
        }
        self.parse_pipe()
    }

    fn parse_pipe(&mut self) -> (r: Result<Expr, ParseError>)
        requires
            old(self).wf(),
        ensures
            reads(*old(self), *final(self), r),
            res_expr(r, final(self).pos) == p_pipe(old(self).tokens@, old(self).pos as int, old(self).control_depth as int),
        decreases old(self).tokens@.len() - old(self).pos, 19nat,
    {
        proof {
            unfold_p_pipe(self.tokens@, self.pos as int, self.control_depth as int);
        }
        let ghost ts = self.tokens@;
        let ghost d = self.control_depth as int;
        let ghost total = p_pipe(ts, self.pos as int, d);
        let mut left = self.parse_or()?;
        loop
            invariant
                reads(*old(self), *self, Ok::<(), ParseError>(())),
                ts == self.tokens@,
                d == self.control_depth,
                total == p_pipe(old(self).tokens@, old(self).pos as int, old(self).control_depth as int),
                p_pipe_rest(ts, self.pos as int, d, left.model()) == total,
            ensures
                total == Ok::<(ExprM, int), ParseErrV>((left.model(), self.pos as int)),
            decreases self.tokens.len() - self.pos,
        {
            proof {
                unfold_p_pipe_rest(ts, self.pos as int, d, left.model());
            }
            if !self.eat_kind(TokenKind::Pipe) {
                break ;
            }
            let right = self.parse_or()?;
            let span = Span::new(left.span.start, right.span.end);
            left = Expr {
                kind: ExprKind::Pipe { left: Box::new(left), right: Box::new(right) },
                span,
            };
        }
        Ok(left)
    }

    fn parse_or(&mut self) -> (r: Result<Expr, ParseError>)
        requires
            old(self).wf(),
        ensures
            reads(*old(self), *final(self), r),
            res_expr(r, final(self).pos) == p_or(old(self).tokens@, old(self).pos as int, old(self).control_depth as int),
        decreases old(self).tokens@.len() - old(self).pos, 18nat,
    {
        proof {
            unfold_p_or(self.tokens@, self.pos as int, self.control_depth as int);
        }
        let ghost ts = self.tokens@;
        let ghost d = self.control_depth as int;
        let ghost total = p_or(ts, self.pos as int, d);
        let mut left = self.parse_and()?;
        loop
            invariant
                reads(*old(self), *self, Ok::<(), ParseError>(())),
                ts == self.tokens@,
                d == self.control_depth,
                total == p_or(old(self).tokens@, old(self).pos as int, old(self).control_depth as int),
                p_or_rest(ts, self.pos as int, d, left.model()) == total,
            ensures
                total == Ok::<(ExprM, int), ParseErrV>((left.model(), self.pos as int)),
            decreases self.tokens.len() - self.pos,
        {
            proof {
                unfold_p_or_rest(ts, self.pos as int, d, left.model());
            }
            if !self.eat_kind(TokenKind::Or) {
                break ;
            }
            let right = self.parse_and()?;
            let span = Span::new(left.span.start, right.span.end);
            left = Expr {
                kind: ExprKind::BinOp { op: BinOp::Or, left: Box::new(left), right: Box::new(right) },
                span,
            };
        }
        Ok(left)
    }

    fn parse_and(&mut self) -> (r: Result<Expr, ParseError>)
        requires
            old(self).wf(),
        ensures
            reads(*old(self), *final(self), r),
            res_expr(r, final(self).pos) == p_and(old(self).tokens@, old(self).pos as int, old(self).control_depth as int),
        decreases old(self).tokens@.len() - old(self).pos, 17nat,
    {
        proof {
            unfold_p_and(self.tokens@, self.pos as int, self.control_depth as int);
        }
        let ghost ts = self.tokens@;
        let ghost d = self.control_depth as int;
        let ghost total = p_and(ts, self.pos as int, d);
        let mut left = self.parse_comparison()?;
        loop
            invariant
                reads(*old(self), *self, Ok::<(), ParseError>(())),
                ts == self.tokens@,
                d == self.control_depth,
                total == p_and(old(self).tokens@, old(self).pos as int, old(self).control_depth as int),
                p_and_rest(ts, self.pos as int, d, left.model()) == total,
            ensures
                total == Ok::<(ExprM, int), ParseErrV>((left.model(), self.pos as int)),
            decreases self.tokens.len() - self.pos,
        {
            proof {
                unfold_p_and_rest(ts, self.pos as int, d, left.model());
            }
            if !self.eat_kind(TokenKind::And) {
                break ;
            }
            let right = self.parse_comparison()?;
            let span = Span::new(left.span.start, right.span.end);
            left = Expr {
                kind: ExprKind::BinOp { op: BinOp::And, left: Box::new(left), right: Box::new(right) },
                span,
            };
        }
        Ok(left)
    }

    fn parse_comparison(&mut self) -> (r: Result<Expr, ParseError>)
        requires
            old(self).wf(),
        ensures
            reads(*old(self), *final(self), r),
            res_expr(r, final(self).pos) == p_comparison(old(self).tokens@, old(self).pos as int, old(self).control_depth as int),
        decreases old(self).tokens@.len() - old(self).pos, 16nat,
    {
        proof {
            unfold_p_comparison(self.tokens@, self.pos as int, self.control_depth as int);
        }
        let ghost ts = self.tokens@;
        let ghost d = self.control_depth as int;
        let ghost total = p_comparison(ts, self.pos as int, d);
        let mut left = self.parse_add()?;
        loop
            invariant
                reads(*old(self), *self, Ok::<(), ParseError>(())),
                ts == self.tokens@,
                d == self.control_depth,
                total == p_comparison(old(self).tokens@, old(self).pos as int, old(self).control_depth as int),
                p_comparison_rest(ts, self.pos as int, d, left.model()) == total,
            ensures
                total == Ok::<(ExprM, int), ParseErrV>((left.model(), self.pos as int)),
            decreases self.tokens.len() - self.pos,
        {
            proof {
                unfold_p_comparison_rest(ts, self.pos as int, d, left.model());
            }
            let op = match self.peek() {
                TokenKind::Eq => BinOp::Eq,
                TokenKind::NotEq => BinOp::NotEq,
                TokenKind::Lt => BinOp::Lt,
                TokenKind::LtEq => BinOp::LtEq,
                TokenKind::Gt => BinOp::Gt,
                TokenKind::GtEq => BinOp::GtEq,
                _ => break ,
            };
            self.advance();
            let right = self.parse_add()?;
            let span = Span::new(left.span.start, right.span.end);
            left = Expr {
                kind: ExprKind::BinOp { op, left: Box::new(left), right: Box::new(right) },
                span,
            };
        }
        Ok(left)
    }

    fn parse_add(&mut self) -> (r: Result<Expr, ParseError>)
        requires
            old(self).wf(),
        ensures
            reads(*old(self), *final(self), r),
            res_expr(r, final(self).pos) == p_add(old(self).tokens@, old(self).pos as int, old(self).control_depth as int),
        decreases old(self).tokens@.len() - old(self).pos, 15nat,
    {
        proof {
            unfold_p_add(self.tokens@, self.pos as int, self.control_depth as int);
        }
        let ghost ts = self.tokens@;
        let ghost d = self.control_depth as int;
        let ghost total = p_add(ts, self.pos as int, d);
        let mut left = self.parse_mul()?;
        loop
            invariant
                reads(*old(self), *self, Ok::<(), ParseError>(())),
                ts == self.tokens@,
                d == self.control_depth,
                total == p_add(old(self).tokens@, old(self).pos as int, old(self).control_depth as int),
                p_add_rest(ts, self.pos as int, d, left.model()) == total,
            ensures
                total == Ok::<(ExprM, int), ParseErrV>((left.model(), self.pos as int)),
            decreases self.tokens.len() - self.pos,
        {
            proof {
                unfold_p_add_rest(ts, self.pos as int, d, left.model());
            }
            let op = match self.peek() {
                TokenKind::Plus => BinOp::Add,
                TokenKind::Minus => BinOp::Sub,
                TokenKind::PlusPlus => BinOp::Concat,
                _ => break ,
            };
            self.advance();
            let right = self.parse_mul()?;
            let span = Span::new(left.span.start, right.span.end);
            left = Expr {
                kind: ExprKind::BinOp { op, left: Box::new(left), right: Box::new(right) },
                span,
            };
        }
        Ok(left)
    }

    fn parse_mul(&mut self) -> (r: Result<Expr, ParseError>)
        requires
            old(self).wf(),
        ensures
            reads(*old(self), *final(self), r),
            res_expr(r, final(self).pos) == p_mul(old(self).tokens@, old(self).pos as int, old(self).control_depth as int),
        decreases old(self).tokens@.len() - old(self).pos, 14nat,
    {
        proof {
            unfold_p_mul(self.tokens@, self.pos as int, self.control_depth as int);
        }
        let ghost ts = self.tokens@;
        let ghost d = self.control_depth as int;
        let ghost total = p_mul(ts, self.pos as int, d);
        let mut left = self.parse_unary()?;
        loop
            invariant
                reads(*old(self), *self, Ok::<(), ParseError>(())),
                ts == self.tokens@,
                d == self.control_depth,
                total == p_mul(old(self).tokens@, old(self).pos as int, old(self).control_depth as int),
                p_mul_rest(ts, self.pos as int, d, left.model()) == total,
            ensures
                total == Ok::<(ExprM, int), ParseErrV>((left.model(), self.pos as int)),
            decreases self.tokens.len() - self.pos,
        {
            proof {
                unfold_p_mul_rest(ts, self.pos as int, d, left.model());
            }
            let op = match self.peek() {
                TokenKind::Star => BinOp::Mul,
                TokenKind::Slash => BinOp::Div,
                TokenKind::Percent => BinOp::Rem,
                _ => break ,
            };
            self.advance();
            let right = self.parse_unary()?;
            let span = Span::new(left.span.start, right.span.end);
            left = Expr {
                kind: ExprKind::BinOp { op, left: Box::new(left), right: Box::new(right) },
                span,
            };
        }
        Ok(left)
    }

    fn parse_unary(&mut self) -> (r: Result<Expr, ParseError>)
        requires
            old(self).wf(),
        ensures
            reads(*old(self), *final(self), r),
            res_expr(r, final(self).pos) == p_unary(old(self).tokens@, old(self).pos as int, old(self).control_depth as int),
        decreases old(self).tokens@.len() - old(self).pos, 13nat,
    {
        proof {
            unfold_p_unary(self.tokens@, self.pos as int, self.control_depth as int);
        }
        let span = self.span();
        if self.eat_kind(TokenKind::Not) {
            let expr = self.parse_unary()?;
            let end = expr.span.end;
            return Ok(
                Expr {
                    kind: ExprKind::UnOp { op: UnOp::Not, expr: Box::new(expr) },
                    span: Span::new(span.start, end),
                },
            );
        }
        if self.eat_kind(TokenKind::Minus) {
            let expr = self.parse_unary()?;
            let end = expr.span.end;
            return Ok(
                Expr {
                    kind: ExprKind::UnOp { op: UnOp::Neg, expr: Box::new(expr) },
                    span: Span::new(span.start, end),
                },
            );
        }
        if self.eat_kind(TokenKind::Star) {
            let expr = self.parse_unary()?;
            let end = expr.span.end;
            return Ok(Expr { kind: ExprKind::Deref(Box::new(expr)), span: Span::new(span.start, end) });
        }
        if self.eat_kind(TokenKind::Amp) {
            let expr = self.parse_unary()?;
            let end = expr.span.end;
            return Ok(Expr { kind: ExprKind::Ref(Box::new(expr)), span: Span::new(span.start, end) });
        }
        self.parse_postfix()
    }

    /// Handles `.field`, `[index]`, `.or_return`, `.or_panic(msg)`,
    /// `.or_else(default)`, `.or_zero`, `.or_nil`, `.alloc(T, n)` and calls.
    fn parse_postfix(&mut self) -> (r: Result<Expr, ParseError>)
        requires
            old(self).wf(),
        ensures
            reads(*old(self), *final(self), r),
            res_expr(r, final(self).pos) == p_postfix(old(self).tokens@, old(self).pos as int, old(self).control_depth as int),
        decreases old(self).tokens@.len() - old(self).pos, 12nat,
    {
        proof {
            unfold_p_postfix(self.tokens@, self.pos as int, self.control_depth as int);
        }
        let ghost ts = self.tokens@;
        let ghost d = self.control_depth as int;
        let ghost total = p_postfix(ts, self.pos as int, d);
        let mut expr = self.parse_primary()?;
        loop
            invariant
                reads(*old(self), *self, Ok::<(), ParseError>(())),
                ts == self.tokens@,
                d == self.control_depth,
                total == p_postfix(old(self).tokens@, old(self).pos as int, old(self).control_depth as int),
                p_postfix_rest(ts, self.pos as int, d, expr.model()) == total,
            ensures
                total == Ok::<(ExprM, int), ParseErrV>((expr.model(), self.pos as int)),
            decreases self.tokens.len() - self.pos,
        {
            proof {
                unfold_p_postfix_rest(ts, self.pos as int, d, expr.model());
            }
            let span_start = expr.span.start;
            if self.eat_kind(TokenKind::Dot) {
                expr = self.parse_dot_suffix(expr)?;
            } else if self.eat_kind(TokenKind::LBracket) {
                let index = self.parse_expr()?;
                self.expect_kind(TokenKind::RBracket)?;
                let end = self.span().start;
                expr = Expr {
                    kind: ExprKind::Index { base: Box::new(expr), index: Box::new(index) },
                    span: Span::new(span_start, end),
                };
            } else if matches!(self.peek(), TokenKind::LParen) {
                // Trailing call: `f(a, b)`
                let args = self.parse_call_args()?;
                let end = self.span().start;
                expr = Expr {
                    kind: ExprKind::Call { callee: Box::new(expr), args },
                    span: Span::new(span_start, end),
                };
            } else {
                break ;
            }
        }
        Ok(expr)
    }

    /// What follows `expr.`: a field name or one of the `.or_*` and
    /// `.alloc(T, n)` forms.
    fn parse_dot_suffix(&mut self, expr: Expr) -> (r: Result<Expr, ParseError>)
        requires
            old(self).wf(),
        ensures
            reads(*old(self), *final(self), r),
            res_expr(r, final(self).pos) == p_dot_suffix(
                old(self).tokens@,
                old(self).pos as int,
                old(self).control_depth as int,
                expr.model(),
            ),
        decreases old(self).tokens@.len() - old(self).pos, 25nat,
    {
        proof {
            unfold_p_dot_suffix(self.tokens@, self.pos as int, self.control_depth as int, expr.model());
        }
        let span_start = expr.span.start;
        let after_dot = self.peek_kind();
        let is_alloc = match &after_dot {
            TokenKind::Ident(s) => is_lit(s.as_str(), "alloc"),
            _ => false,
        };
        if is_alloc {
            // `expr.alloc(T, count)` — allocator call
            self.advance();
            self.expect_kind(TokenKind::LParen)?;
            let elem_ty = self.parse_ty()?;
            self.expect_kind(TokenKind::Comma)?;
            let count = self.parse_expr()?;
            self.expect_kind(TokenKind::RParen)?;
            let end = self.span().start;
            return Ok(
                Expr {
                    kind: ExprKind::AllocCall { allocator: Box::new(expr), elem_ty, count: Box::new(count) },
                    span: Span::new(span_start, end),
                },
            );
        }
        match after_dot {
            TokenKind::OrReturn => {
                self.advance();
                self.eat_kind(TokenKind::Question);
                let end = self.span().start;
                Ok(Expr { kind: ExprKind::OrReturn(Box::new(expr)), span: Span::new(span_start, end) })
            },
            TokenKind::OrPanic => {
                self.advance();
                self.expect_kind(TokenKind::LParen)?;
                let msg = self.expect_str()?;
                self.expect_kind(TokenKind::RParen)?;
                let end = self.span().start;
                Ok(Expr { kind: ExprKind::OrPanic(Box::new(expr), msg), span: Span::new(span_start, end) })
            },
            TokenKind::OrElse => {
                self.advance();
                self.expect_kind(TokenKind::LParen)?;
                let default = self.parse_expr()?;
                self.expect_kind(TokenKind::RParen)?;
                let end = self.span().start;
                Ok(
                    Expr {
                        kind: ExprKind::OrElse(Box::new(expr), Box::new(default)),
                        span: Span::new(span_start, end),
                    },
                )
            },
            TokenKind::OrZero => {
                self.advance();
                let end = self.span().start;
                Ok(Expr { kind: ExprKind::OrZero(Box::new(expr)), span: Span::new(span_start, end) })
            },
            TokenKind::OrNil => {
                self.advance();
                let end = self.span().start;
                Ok(Expr { kind: ExprKind::OrNil(Box::new(expr)), span: Span::new(span_start, end) })
            },
            _ => {
                let field = self.expect_ident()?;
                let end = self.span().start;
                Ok(Expr { kind: ExprKind::Field { base: Box::new(expr), field }, span: Span::new(span_start, end) })
            },
        }
    }

    fn parse_primary(&mut self) -> (r: Result<Expr, ParseError>)
        requires
            old(self).wf(),
        ensures
            reads(*old(self), *final(self), r),
            res_expr(r, final(self).pos) == p_primary(old(self).tokens@, old(self).pos as int, old(self).control_depth as int),
        decreases old(self).tokens@.len() - old(self).pos, 11nat,
    {
        proof {
            unfold_p_primary(self.tokens@, self.pos as int, self.control_depth as int);
        }
        let span = self.span();
        match self.peek_kind() {
            TokenKind::Int(v) => {
                self.advance();
                Ok(Expr { kind: ExprKind::Int(v), span })
            },
            TokenKind::Float(v) => {
                self.advance();
                Ok(Expr { kind: ExprKind::Float(v), span })
            },
            TokenKind::Bool(v) => {
                self.advance();
                Ok(Expr { kind: ExprKind::Bool(v), span })
            },
            TokenKind::Str(s) => {
                self.advance();
                Ok(Expr { kind: ExprKind::Str(s), span })
            },
            TokenKind::Ident(name) => {
                self.advance();
                self.parse_named(name, span)
            },
            TokenKind::AsmBang => {
                self.advance();
                self.expect_kind(TokenKind::LParen)?;
                let template = self.expect_str()?;
                let args = self.parse_asm_args()?;
                self.expect_kind(TokenKind::RParen)?;
                let end = self.span().start;
                Ok(Expr { kind: ExprKind::Asm { template, args }, span: Span::new(span.start, end) })
            },
            TokenKind::LBracket => self.parse_array_or_matrix(),
            TokenKind::If => self.parse_if(),
            TokenKind::Match => self.parse_match(),
            TokenKind::LParen => {
                self.advance();
                let inner = self.parse_expr()?;
                self.expect_kind(TokenKind::RParen)?;
                Ok(inner)
            },
            other => Err(ParseError::UnexpectedToken { expected: "expression", found: other, span }),
        }
    }

    /// What follows a name: `Ok(..)`/`Err(..)`, a struct literal, or
    /// nothing (a plain name). `span` is the name's.
    fn parse_named(&mut self, name: String, span: Span) -> (r: Result<Expr, ParseError>)
        requires
            old(self).wf(),
        ensures
            reads_any(*old(self), *final(self), r),
            res_expr(r, final(self).pos) == p_named(
                old(self).tokens@,
                old(self).pos as int,
                old(self).control_depth as int,
                name@,
                span,
            ),
        decreases old(self).tokens@.len() - old(self).pos, 25nat,
    {
        proof {
            unfold_p_named(self.tokens@, self.pos as int, self.control_depth as int, name@, span);
        }
        if is_lit(name.as_str(), "Ok") || is_lit(name.as_str(), "Err") {
            // `Ok(expr)` / `Err(expr)`
            let variant = if is_lit(name.as_str(), "Ok") {
                ResultVariant::Success
            } else {
                ResultVariant::Failure
            };
            self.expect_kind(TokenKind::LParen)?;
            let inner = self.parse_expr()?;
            self.expect_kind(TokenKind::RParen)?;
            let end = self.span().start;
            return Ok(
                Expr {
                    kind: ExprKind::ResultCtor { variant, inner: Box::new(inner) },
                    span: Span::new(span.start, end),
                },
            );
        }
        // Struct literal: `Name { field = expr, ... }` — only when the
        // interior starts with `}` or `Ident =`, so that match/if
        // subjects are not taken for struct literals.
        if matches!(self.peek(), TokenKind::LBrace) && self.is_struct_lit_opening() {
            self.advance();
            let fields = self.parse_field_inits()?;
            self.expect_kind(TokenKind::RBrace)?;
            let end = self.span().start;
            return Ok(
                Expr { kind: ExprKind::StructLit { name, fields }, span: Span::new(span.start, end) },
            );
        }
        Ok(Expr { kind: ExprKind::Ident(name), span })
    }

    /// The `name = expr` fields of a struct literal, up to `}`.
    fn parse_field_inits(&mut self) -> (r: Result<Vec<FieldInit>, ParseError>)
        requires
            old(self).wf(),
        ensures
            reads_any(*old(self), *final(self), r),
            res_inits(r, final(self).pos) == p_inits(
                old(self).tokens@,
                old(self).pos as int,
                old(self).control_depth as int,
                Seq::empty(),
            ),
        decreases old(self).tokens@.len() - old(self).pos, 25nat,
    {
        let ghost ts = self.tokens@;
        let ghost d = self.control_depth as int;
        let ghost total = p_inits(ts, self.pos as int, d, Seq::empty());
        let mut fields: Vec<FieldInit> = Vec::new();
        while !matches!(self.peek(), TokenKind::RBrace)
            invariant
                reads_any(*old(self), *self, Ok::<(), ParseError>(())),
                ts == self.tokens@,
                d == self.control_depth,
                total == p_inits(old(self).tokens@, old(self).pos as int, old(self).control_depth as int, Seq::empty()),
                p_inits(ts, self.pos as int, d, inits_m(fields@)) == total,
            decreases self.tokens.len() - self.pos,
        {
            proof {
                unfold_p_inits(ts, self.pos as int, d, inits_m(fields@));
            }
            let ghost acc = fields@;
            let fname = self.expect_ident()?;
            self.expect_kind(TokenKind::Assign)?;
            let fexpr = self.parse_expr()?;
            fields.push(FieldInit { name: fname, expr: fexpr });
            assert(fields@.drop_last() =~= acc);
            self.eat_kind(TokenKind::Comma);
        }
        proof {
            unfold_p_inits(ts, self.pos as int, d, inits_m(fields@));
        }
        Ok(fields)
    }

    /// The `, expr` operands of `asm!(template, ...)`.
    fn parse_asm_args(&mut self) -> (r: Result<Vec<Expr>, ParseError>)
        requires
            old(self).wf(),
        ensures
            reads_any(*old(self), *final(self), r),
            res_exprs(r, final(self).pos) == p_asm_args(
                old(self).tokens@,
                old(self).pos as int,
                old(self).control_depth as int,
                Seq::empty(),
            ),
        decreases old(self).tokens@.len() - old(self).pos, 25nat,
    {
        let ghost ts = self.tokens@;
        let ghost d = self.control_depth as int;
        let ghost total = p_asm_args(ts, self.pos as int, d, Seq::empty());
        let mut args: Vec<Expr> = Vec::new();
        loop
            invariant
                reads_any(*old(self), *self, Ok::<(), ParseError>(())),
                ts == self.tokens@,
                d == self.control_depth,
                total == p_asm_args(old(self).tokens@, old(self).pos as int, old(self).control_depth as int, Seq::empty()),
                p_asm_args(ts, self.pos as int, d, exprs_m(args@)) == total,
            ensures
                total == Ok::<(Seq<ExprM>, int), ParseErrV>((exprs_m(args@), self.pos as int)),
            decreases self.tokens.len() - self.pos,
        {
            proof {
                unfold_p_asm_args(ts, self.pos as int, d, exprs_m(args@));
            }
            if !self.eat_kind(TokenKind::Comma) {
                break ;
            }
            let ghost acc = args@;
            let a = self.parse_expr()?;
            args.push(a);
            assert(args@.drop_last() =~= acc);
        }
        Ok(args)
    }

    /// Parse `[e1, e2; e3, e4]` (matrix) or `[e1, e2, e3]` (array).
    /// `;` in the brackets starts a new row.
    fn parse_array_or_matrix(&mut self) -> (r: Result<Expr, ParseError>)
        requires
            old(self).wf(),
        ensures
            reads(*old(self), *final(self), r),
            res_expr(r, final(self).pos) == p_array(old(self).tokens@, old(self).pos as int, old(self).control_depth as int),
        decreases old(self).tokens@.len() - old(self).pos, 10nat,
    {
        proof {
            unfold_p_array(self.tokens@, self.pos as int, self.control_depth as int);
        }
        let ghost ts = self.tokens@;
        let ghost d = self.control_depth as int;
        let ghost total = p_array(ts, self.pos as int, d);
        let span = self.span();
        self.expect_kind(TokenKind::LBracket)?;
        let ghost i1 = self.pos as int;
        // The elements of the finished rows, the current row, the number of
        // finished rows and the length of the first of them.
        let mut done: Vec<Expr> = Vec::new();
        let mut row: Vec<Expr> = Vec::new();
        let mut rows: usize = 0;
        let mut cols: usize = 0;
        while !matches!(self.peek(), TokenKind::RBracket) && !self.is_eof()
            invariant
                reads(*old(self), *self, Ok::<(), ParseError>(())),
                ts == self.tokens@,
                d == self.control_depth,
                total == p_array(old(self).tokens@, old(self).pos as int, old(self).control_depth as int),
                1 <= i1 <= self.pos,
                rows + i1 <= self.pos,
                p_array_rest(ts, self.pos as int, d, span.start, exprs_m(done@), exprs_m(row@), rows as int, cols as int)
                    == total,
            decreases self.tokens.len() - self.pos,
        {
            proof {
                unfold_p_array_rest(ts, self.pos as int, d, span.start, exprs_m(done@), exprs_m(row@), rows as int, cols as int);
            }
            if self.eat_kind(TokenKind::Semi) {
                let ghost d0 = done@;
                let ghost r0 = row@;
                proof {
                    lemma_exprs_m_len(r0);
                    lemma_exprs_m_add(d0, r0);
                }
                if rows == 0 {
                    cols = row.len();
                }
                done.append(&mut row);
                rows = rows + 1;
                assert(done@ =~= d0 + r0);
                assert(exprs_m(row@) =~= Seq::<ExprM>::empty());
                continue;
            }
            let ghost acc = row@;
            let x = self.parse_expr()?;
            row.push(x);
            assert(row@.drop_last() =~= acc);
            if !matches!(self.peek(), TokenKind::Semi) && !matches!(self.peek(), TokenKind::RBracket) {
                self.eat_kind(TokenKind::Comma);
            }
        }
        proof {
            unfold_p_array_rest(ts, self.pos as int, d, span.start, exprs_m(done@), exprs_m(row@), rows as int, cols as int);
        }
        self.expect_kind(TokenKind::RBracket)?;
        let end = self.span().start;
        if rows > 0 {
            // Matrix literal — the last row ends at `]`.
            let ghost d0 = done@;
            let ghost r0 = row@;
            proof {
                lemma_exprs_m_add(d0, r0);
            }
            done.append(&mut row);
            assert(done@ =~= d0 + r0);
            Ok(
                Expr {
                    kind: ExprKind::MatrixLit { elems: done, rows: rows + 1, cols },
                    span: Span::new(span.start, end),
                },
            )
        } else {
            Ok(Expr { kind: ExprKind::ArrayLit(row), span: Span::new(span.start, end) })
        }
    }

    fn parse_if(&mut self) -> (r: Result<Expr, ParseError>)
        requires
            old(self).wf(),
        ensures
            reads(*old(self), *final(self), r),
            res_expr(r, final(self).pos) == p_if(old(self).tokens@, old(self).pos as int, old(self).control_depth as int),
        decreases old(self).tokens@.len() - old(self).pos, 10nat,
    {
        proof {
            unfold_p_if(self.tokens@, self.pos as int, self.control_depth as int);
        }
        let ghost ts = self.tokens@;
        let ghost i = self.pos as int;
        let ghost d = self.control_depth as int;
        let span = self.span();
        self.expect_kind(TokenKind::If)?;
        if self.control_depth >= 1 {
            return Err(ParseError::IllegalNesting { span });
        }
        let cond = self.parse_expr()?;
        self.control_depth = self.control_depth + 1;
        let ghost j = self.pos as int;
        let (then_stmts, else_stmts) = self.parse_if_branches()?;
        assert(p_if_branches(ts, j, d + 1) matches Ok((b, k)) && b.0 == stmts_m(then_stmts@) && k == self.pos);
        self.control_depth = self.control_depth - 1;
        let then_expr = Expr { span, kind: ExprKind::Block(then_stmts) };
        assert(then_expr.model() == mk(ExprKindM::Block(stmts_m(then_stmts@)), span));
        let end = self.span().start;
        match else_stmts {
            Some(stmts) => {
                let else_expr = Expr { span, kind: ExprKind::Block(stmts) };
                assert(else_expr.model() == mk(ExprKindM::Block(stmts_m(stmts@)), span));
                Ok(
                    Expr {
                        kind: ExprKind::If {
                            cond: Box::new(cond),
                            then: Box::new(then_expr),
                            else_: Some(Box::new(else_expr)),
                        },
                        span: Span::new(span.start, end),
                    },
                )
            },
            None => Ok(
                Expr {
                    kind: ExprKind::If { cond: Box::new(cond), then: Box::new(then_expr), else_: None },
                    span: Span::new(span.start, end),
                },
            ),
        }
    }

    /// The statements of the branches of an `if`: `{ .. }` and, after
    /// `else`, another `{ .. }`.
    fn parse_if_branches(&mut self) -> (r: Result<(Vec<Stmt>, Option<Vec<Stmt>>), ParseError>)
        requires
            old(self).wf(),
        ensures
            reads(*old(self), *final(self), r),
            res_branches(r, final(self).pos) == p_if_branches(
                old(self).tokens@,
                old(self).pos as int,
                old(self).control_depth as int,
            ),
        decreases old(self).tokens@.len() - old(self).pos, 26nat,
    {
        proof {
            unfold_p_if_branches(self.tokens@, self.pos as int, self.control_depth as int);
        }
        let then_stmts = self.parse_branch()?;
        if self.eat_kind(TokenKind::Else) {
            let else_stmts = self.parse_branch()?;
            return Ok((then_stmts, Some(else_stmts)));
        }
        Ok((then_stmts, None))
    }

    fn parse_match(&mut self) -> (r: Result<Expr, ParseError>)
        requires
            old(self).wf(),
        ensures
            reads(*old(self), *final(self), r),
            res_expr(r, final(self).pos) == p_match(old(self).tokens@, old(self).pos as int, old(self).control_depth as int),
        decreases old(self).tokens@.len() - old(self).pos, 10nat,
    {
        proof {
            unfold_p_match(self.tokens@, self.pos as int, self.control_depth as int);
        }
        let span = self.span();
        self.expect_kind(TokenKind::Match)?;
        if self.control_depth >= 1 {
            return Err(ParseError::IllegalNesting { span });
        }
        let subject = self.parse_expr()?;
        self.control_depth = self.control_depth + 1;
        self.expect_kind(TokenKind::LBrace)?;
        let arms = self.parse_arms()?;
        self.expect_kind(TokenKind::RBrace)?;
        self.control_depth = self.control_depth - 1;
        let end = self.span().start;
        Ok(
            Expr {
                kind: ExprKind::Match { subject: Box::new(subject), arms },
                span: Span::new(span.start, end),
            },
        )
    }

    /// The arms of a `match`, up to `}`.
    fn parse_arms(&mut self) -> (r: Result<Vec<MatchArm>, ParseError>)
        requires
            old(self).wf(),
        ensures
            reads_any(*old(self), *final(self), r),
            res_arms(r, final(self).pos) == p_arms(
                old(self).tokens@,
                old(self).pos as int,
                old(self).control_depth as int,
                Seq::empty(),
            ),
        decreases old(self).tokens@.len() - old(self).pos, 25nat,
    {
        let ghost ts = self.tokens@;
        let ghost d = self.control_depth as int;
        let ghost total = p_arms(ts, self.pos as int, d, Seq::empty());
        let mut arms: Vec<MatchArm> = Vec::new();
        while !matches!(self.peek(), TokenKind::RBrace)
            invariant
                reads_any(*old(self), *self, Ok::<(), ParseError>(())),
                ts == self.tokens@,
                d == self.control_depth,
                total == p_arms(old(self).tokens@, old(self).pos as int, old(self).control_depth as int, Seq::empty()),
                p_arms(ts, self.pos as int, d, arms_m(arms@)) == total,
            decreases self.tokens.len() - self.pos,
        {
            proof {
                unfold_p_arms(ts, self.pos as int, d, arms_m(arms@));
            }
            let ghost acc = arms@;
            let pattern = self.parse_pattern()?;
            self.expect_kind(TokenKind::FatArrow)?;
            let body = self.parse_expr()?;
            arms.push(MatchArm { pattern, body });
            assert(arms@.drop_last() =~= acc);
            self.eat_kind(TokenKind::Comma);
        }
        proof {
            unfold_p_arms(ts, self.pos as int, d, arms_m(arms@));
        }
        Ok(arms)
    }

    fn parse_pattern(&mut self) -> (r: Result<Pattern, ParseError>)
        requires
            old(self).wf(),
        ensures
            reads(*old(self), *final(self), r),
            res_pat(r, final(self).pos) == p_pattern(old(self).tokens@, old(self).pos as int),
    {
        match self.peek_kind() {
            TokenKind::Ident(s) => {
                self.advance();
                if is_lit(s.as_str(), "_") {
                    Ok(Pattern::Wildcard)
                } else if self.eat_kind(TokenKind::Dot) {
                    let variant = self.expect_ident()?;
                    Ok(Pattern::Variant { ty: s, variant })
                } else {
                    Ok(Pattern::Lit(ExprKind::Ident(s)))
                }
            },
            TokenKind::Else => {
                self.advance();
                Ok(Pattern::Else)
            },
            TokenKind::Int(v) => {
                self.advance();
                Ok(Pattern::Lit(ExprKind::Int(v)))
            },
            TokenKind::Str(s) => {
                self.advance();
                Ok(Pattern::Lit(ExprKind::Str(s)))
            },
            other => Err(
                ParseError::UnexpectedToken { expected: "pattern", found: other, span: self.span() },
            ),
        }
    }

    fn parse_call_args(&mut self) -> (r: Result<Vec<Arg>, ParseError>)
        requires
            old(self).wf(),
        ensures
            reads(*old(self), *final(self), r),
            res_args(r, final(self).pos) == p_call_args(old(self).tokens@, old(self).pos as int, old(self).control_depth as int),
        decreases old(self).tokens@.len() - old(self).pos, 10nat,
    {
        proof {
            unfold_p_call_args(self.tokens@, self.pos as int, self.control_depth as int);
        }
        let ghost ts = self.tokens@;
        let ghost i = self.pos as int;
        let ghost d = self.control_depth as int;
        self.expect_kind(TokenKind::LParen)?;
        let ghost i1 = self.pos as int;
        let mut args: Vec<Arg> = Vec::new();
        loop
            invariant_except_break
                p_args(ts, self.pos as int, d, args_m(args@)) == p_args(ts, i1, d, Seq::empty()),
            invariant
                reads(*old(self), *self, Ok::<(), ParseError>(())),
                ts == self.tokens@,
                d == self.control_depth,
                i == old(self).pos,
                d == old(self).control_depth,
                ts == old(self).tokens@,
                i1 == i + 1,
                i1 <= self.pos,
                p_expect(ts, i, TokenKind::LParen) == Ok::<int, ParseErrV>(i1),
                p_args(ts, i1, d, Seq::empty()) matches Err(e) ==> p_call_args(ts, i, d) == Err::<(Seq<ArgM>, int), ParseErrV>(e),
            ensures
                p_args(ts, i1, d, Seq::empty()) == Ok::<(Seq<ArgM>, int), ParseErrV>((args_m(args@), self.pos as int)),
            decreases self.tokens.len() - self.pos,
        {
            proof {
                unfold_p_args(ts, self.pos as int, d, args_m(args@));
            }
            if matches!(self.peek(), TokenKind::RParen) {
                break ;
            }
            let ghost acc = args@;
            let mode = self.parse_ownership_mode();
            // Optional label: `前缀: expr`
            let label = match self.peek_kind() {
                TokenKind::Ident(name) => {
                    if self.pos + 1 < self.tokens.len() && matches!(
                        self.tokens[self.pos + 1].kind,
                        TokenKind::Colon
                    ) {
                        self.advance();  // name
                        self.advance();  // ':'
                        Some(name)
                    } else {
                        None
                    }
                },
                _ => None,
            };
            let expr = self.parse_expr()?;
            args.push(Arg { label, mode, expr });
            assert(args@.drop_last() =~= acc);
            if !self.eat_kind(TokenKind::Comma) {
                break ;
            }
        }
        self.expect_kind(TokenKind::RParen)?;
        Ok(args)
    }

    fn parse_attr_args(&mut self) -> (r: Result<Vec<AttrArg>, ParseError>)
        requires
            old(self).wf(),
        ensures
            reads(*old(self), *final(self), r),
            res_attr_args(r, final(self).pos) == p_attr_args(old(self).tokens@, old(self).pos as int),
    {
        proof {
            unfold_p_attr_args(self.tokens@, self.pos as int);
        }
        let ghost ts = self.tokens@;
        let ghost i = self.pos as int;
        self.expect_kind(TokenKind::LParen)?;
        let ghost i1 = self.pos as int;
        let mut args: Vec<AttrArg> = Vec::new();
        assert(attr_args_m(args@) =~= Seq::empty());
        while !matches!(self.peek(), TokenKind::RParen)
            invariant
                reads(*old(self), *self, Ok::<(), ParseError>(())),
                ts == self.tokens@,
                ts == old(self).tokens@,
                i == old(self).pos,
                i1 <= self.pos,
                p_attr_list(ts, self.pos as int, attr_args_m(args@)) == p_attr_list(ts, i1, Seq::empty()),
                p_attr_list(ts, i1, Seq::empty()) matches Err(e) ==> p_attr_args(ts, i) == Err::<(Seq<(Seq<char>, Seq<char>)>, int), ParseErrV>(e),
            decreases self.tokens.len() - self.pos,
        {
            let ghost acc = args@;
            let key = self.expect_ident()?;
            self.expect_kind(TokenKind::Assign)?;
            let value = self.expect_str()?;
            args.push(AttrArg { key, value });
            assert(attr_args_m(args@) =~= attr_args_m(acc).push(attr_args_m(args@).last()));
            self.eat_kind(TokenKind::Comma);
        }
        self.expect_kind(TokenKind::RParen)?;
        Ok(args)
    }

    // ── Types ─────────────────────────────────────────────────

    #[verifier::rlimit(40)]
    fn parse_ty(&mut self) -> (r: Result<Ty, ParseError>)
        requires
            old(self).wf(),
        ensures
            reads(*old(self), *final(self), r),
            res_ty(r, final(self).pos) == p_ty(old(self).tokens@, old(self).pos as int),
        decreases old(self).tokens@.len() - old(self).pos,
    {
        let ghost ts = self.tokens@;
        let ghost i = self.pos as int;
        let span = self.span();
        // `[N]T` — fixed array  OR  `[]T` — slice
        if self.eat_kind(TokenKind::LBracket) {
            if let TokenKind::Int(n) = self.peek_kind() {
                let size = n as usize;
                self.advance();
                self.expect_kind(TokenKind::RBracket)?;
                let elem = self.parse_ty()?;
                let end = elem.span.end;
                return Ok(
                    Ty { kind: TyKind::Array { size, elem: Box::new(elem) }, span: Span::new(span.start, end) },
                );
            }
            self.expect_kind(TokenKind::RBracket)?;
            let inner = self.parse_ty()?;
            let end = inner.span.end;
            return Ok(Ty { kind: TyKind::Slice(Box::new(inner)), span: Span::new(span.start, end) });
        }
        // `fn(T, U) -> R` — function pointer type
        if self.eat_kind(TokenKind::Fn) {
            self.expect_kind(TokenKind::LParen)?;
            let ghost i2 = self.pos as int;
            let mut params: Vec<Ty> = Vec::new();
            while !matches!(self.peek(), TokenKind::RParen)
                invariant_except_break
                    p_ty_list(ts, self.pos as int, tys_m(params@)) == p_ty_list(ts, i2, Seq::empty()),
                invariant
                    reads(*old(self), *self, Ok::<(), ParseError>(())),
                    ts == self.tokens@,
                    i == old(self).pos,
                    i2 <= self.pos,
                    p_ty_list(ts, i2, Seq::empty()) matches Err(e) ==> p_ty(ts, i) == Err::<(TyM, int), ParseErrV>(e),
                ensures
                    p_ty_list(ts, i2, Seq::empty()) == Ok::<(Seq<TyM>, int), ParseErrV>((tys_m(params@), self.pos as int)),
                decreases self.tokens.len() - self.pos,
            {
                let ghost acc = params@;
                let t = self.parse_ty()?;
                params.push(t);
                assert(params@.drop_last() =~= acc);
                if !self.eat_kind(TokenKind::Comma) {
                    break ;
                }
            }
            self.expect_kind(TokenKind::RParen)?;
            self.expect_kind(TokenKind::Arrow)?;
            let ret = self.parse_ty()?;
            let end = ret.span.end;
            return Ok(
                Ty { kind: TyKind::FnPtr { params, ret: Box::new(ret) }, span: Span::new(span.start, end) },
            );
        }
        // `*mut T` / `*T`
        if self.eat_kind(TokenKind::Star) {
            if self.eat_kind(TokenKind::Mut) {
                let inner = self.parse_ty()?;
                let end = inner.span.end;
                return Ok(Ty { kind: TyKind::PtrMut(Box::new(inner)), span: Span::new(span.start, end) });
            }
            let inner = self.parse_ty()?;
            let end = inner.span.end;
            return Ok(Ty { kind: TyKind::Ptr(Box::new(inner)), span: Span::new(span.start, end) });
        }
        // A simple or named type. Past the end of the token list the last
        // token is the one reported as found.
        if self.pos >= self.tokens.len() {
            let found = if self.tokens.len() > 0 {
                copy_kind(&self.tokens[self.tokens.len() - 1].kind)
            } else {
                TokenKind::Eof
            };
            return Err(ParseError::UnexpectedToken { expected: "type", found, span });
        }
        let current = self.peek_kind();
        self.advance();
        let kind = match current {
            TokenKind::I8 => TyKind::I8,
            TokenKind::I16 => TyKind::I16,
            TokenKind::I32 => TyKind::I32,
            TokenKind::I64 => TyKind::I64,
            TokenKind::U8 => TyKind::U8,
            TokenKind::U16 => TyKind::U16,
            TokenKind::U32 => TyKind::U32,
            TokenKind::U64 => TyKind::U64,
            TokenKind::F32 => TyKind::F32,
            TokenKind::F64 => TyKind::F64,
            TokenKind::BoolTy => TyKind::Bool,
            TokenKind::Usize => TyKind::Usize,
            TokenKind::StrTy => TyKind::Str,
            TokenKind::Void => TyKind::Void,
            TokenKind::Ident(name) => {
                // `Result(T, E)` / `Option(T)`
                if is_lit(name.as_str(), "Result") && matches!(self.peek(), TokenKind::LParen) {
                    self.advance();
                    let ok_ty = self.parse_ty()?;
                    self.expect_kind(TokenKind::Comma)?;
                    let err_ty = self.parse_ty()?;
                    self.expect_kind(TokenKind::RParen)?;
                    TyKind::Result(Box::new(ok_ty), Box::new(err_ty))
                } else if is_lit(name.as_str(), "Option") && matches!(self.peek(), TokenKind::LParen) {
                    self.advance();
                    let inner = self.parse_ty()?;
                    self.expect_kind(TokenKind::RParen)?;
                    TyKind::Option(Box::new(inner))
                } else if is_lit(name.as_str(), "Allocator") {
                    TyKind::Allocator
                } else {
                    TyKind::Named(name)
                }
            },
            other => {
                return Err(ParseError::UnexpectedToken { expected: "type", found: other, span });
            },
        };
        Ok(Ty { kind, span: Span::new(span.start, self.span().start) })
    }

    // ── Ownership mode ────────────────────────────────────────

    fn parse_ownership_mode(&mut self) -> (m: OwnershipMode)
        requires
            old(self).wf(),
        ensures
            reads_any(*old(self), *final(self), Ok::<(), ParseError>(())),
            final(self).control_depth == old(self).control_depth,
            (m, final(self).pos as int) == p_mode(old(self).tokens@, old(self).pos as int),
    {
        match self.peek() {
            TokenKind::Read => {
                self.advance();
                OwnershipMode::Read
            },
            TokenKind::Mut => {
                self.advance();
                OwnershipMode::Mut
            },
            TokenKind::Move => {
                self.advance();
                OwnershipMode::Move
            },
            _ => OwnershipMode::Inferred,
        }
    }

    // ── Token stream helpers ──────────────────────────────────

    fn peek(&self) -> (k: &TokenKind)
        ensures
            *k == self.peek_spec(),
    {
        if self.pos < self.tokens.len() {
            &self.tokens[self.pos].kind
        } else {
            &TokenKind::Eof
        }
    }

    fn peek_kind(&self) -> (k: TokenKind)
        ensures
            k == self.peek_spec(),
    {
        copy_kind(self.peek())
    }

    fn span(&self) -> (s: Span)
        ensures
            s == (if self.pos < self.tokens.len() {
                self.tokens@[self.pos as int].span
            } else {
                Span { start: 0, end: 0 }
            }),
    {
        if self.pos < self.tokens.len() {
            self.tokens[self.pos].span
        } else {
            Span::new(0, 0)
        }
    }

    fn advance(&mut self)
        requires
            old(self).wf(),
        ensures
            final(self).wf(),
            final(self).tokens@ == old(self).tokens@,
            final(self).control_depth == old(self).control_depth,
            final(self).pos == (if old(self).pos < old(self).tokens.len() {
                old(self).pos + 1
            } else {
                old(self).pos as int
            }),
    {
        if self.pos < self.tokens.len() {
            self.pos = self.pos + 1;
        }
    }

    /// Consumes the current token if it is of kind `kind`.
    fn eat_kind(&mut self, kind: TokenKind) -> (b: bool)
        requires
            old(self).wf(),
            is_plain(kind),
            !(kind is Eof),
        ensures
            final(self).wf(),
            final(self).tokens@ == old(self).tokens@,
            final(self).control_depth == old(self).control_depth,
            b == (old(self).peek_spec() == kind),
            b ==> final(self).pos == old(self).pos + 1,
            !b ==> final(self).pos == old(self).pos,
    {
        if plain_kind_eq(self.peek(), &kind) {
            self.advance();
            true
        } else {
            false
        }
    }

    fn expect_kind(&mut self, kind: TokenKind) -> (r: Result<(), ParseError>)
        requires
            old(self).wf(),
            is_plain(kind),
            !(kind is Eof),
        ensures
            reads(*old(self), *final(self), r),
            r is Ok <==> old(self).peek_spec() == kind,
            r is Ok ==> final(self).pos == old(self).pos + 1,
            r is Err ==> final(self).pos == old(self).pos,
            res_unit(r, final(self).pos) == p_expect(old(self).tokens@, old(self).pos as int, kind),
    {
        if self.eat_kind(kind) {
            Ok(())
        } else {
            Err(
                ParseError::UnexpectedToken {
                    expected: "expected token",
                    found: self.peek_kind(),
                    span: self.span(),
                },
            )
        }
    }

    fn expect_import(&mut self) -> (r: Result<(), ParseError>)
        requires
            old(self).wf(),
        ensures
            reads(*old(self), *final(self), r),
            res_unit(r, final(self).pos) == p_expect(old(self).tokens@, old(self).pos as int, TokenKind::Import),
    {
        self.expect_kind(TokenKind::Import)
    }

    fn expect_at(&mut self) -> (r: Result<(), ParseError>)
        requires
            old(self).wf(),
        ensures
            reads(*old(self), *final(self), r),
            res_unit(r, final(self).pos) == p_expect(old(self).tokens@, old(self).pos as int, TokenKind::At),
    {
        self.expect_kind(TokenKind::At)
    }

    fn expect_ident(&mut self) -> (r: Result<String, ParseError>)
        requires
            old(self).wf(),
        ensures
            reads(*old(self), *final(self), r),
            r matches Ok(s) ==> old(self).peek_spec() == TokenKind::Ident(s),
            res_str(r, final(self).pos) == p_ident(old(self).tokens@, old(self).pos as int),
    {
        match self.peek_kind() {
            TokenKind::Ident(s) => {
                self.advance();
                Ok(s)
            },
            other => Err(
                ParseError::UnexpectedToken { expected: "identifier", found: other, span: self.span() },
            ),
        }
    }

    fn expect_str(&mut self) -> (r: Result<String, ParseError>)
        requires
            old(self).wf(),
        ensures
            reads(*old(self), *final(self), r),
            r matches Ok(s) ==> old(self).peek_spec() == TokenKind::Str(s),
            res_str(r, final(self).pos) == p_str(old(self).tokens@, old(self).pos as int),
    {
        match self.peek_kind() {
            TokenKind::Str(s) => {
                self.advance();
                Ok(s)
            },
            other => Err(
                ParseError::UnexpectedToken {
                    expected: "string literal",
                    found: other,
                    span: self.span(),
                },
            ),
        }
    }

    fn is_eof(&self) -> (b: bool)
        ensures
            b == (self.peek_spec() is Eof),
    {
        matches!(self.peek(), TokenKind::Eof)
    }

    /// Whether the current `{` opens a struct literal: `{}` or `{ ident = ...`.
    /// This tells `Name { field = val }` apart from `match Name { arm => ... }`.
    fn is_struct_lit_opening(&self) -> (b: bool)
        ensures
            b == struct_lit_opening(self.tokens@, self.pos as int),
    {
        let n = self.tokens.len();
        if self.pos < n && n - self.pos > 1 {
            if matches!(self.tokens[self.pos + 1].kind, TokenKind::RBrace) {
                return true;
            }
            if matches!(self.tokens[self.pos + 1].kind, TokenKind::Ident(_)) && n - self.pos > 2
                && matches!(self.tokens[self.pos + 2].kind, TokenKind::Assign) {
                return true;
            }
        }
        false
    }
}

/// A number for each kind of token that carries no text.
pub open spec fn kind_index(k: TokenKind) -> int {
    match k {
        TokenKind::Int(_) => 0,
        TokenKind::Float(_) => 0,
        TokenKind::Str(_) => 0,
        TokenKind::Ident(_) => 0,
        TokenKind::Bool(b) => if b { 1 } else { 2 },
        TokenKind::Fn => 3,
        TokenKind::Type => 4,
        TokenKind::Enum => 5,
        TokenKind::Struct => 6,
        TokenKind::Match => 7,
        TokenKind::If => 8,
        TokenKind::Else => 9,
        TokenKind::For => 10,
        TokenKind::In => 11,
        TokenKind::Return => 12,
        TokenKind::Defer => 13,
        TokenKind::While => 14,
        TokenKind::Loop => 15,
        TokenKind::Break => 16,
        TokenKind::Continue => 17,
        TokenKind::As => 18,
        TokenKind::Import => 19,
        TokenKind::Base => 20,
        TokenKind::Safe => 21,
        TokenKind::Read => 22,
        TokenKind::Mut => 23,
        TokenKind::Move => 24,
        TokenKind::OrElse => 25,
        TokenKind::OrReturn => 26,
        TokenKind::OrPanic => 27,
        TokenKind::OrZero => 28,
        TokenKind::OrNil => 29,
        TokenKind::Let => 30,
        TokenKind::Var => 31,
        TokenKind::Ding => 32,
        TokenKind::She => 33,
        TokenKind::I8 => 34,
        TokenKind::I16 => 35,
        TokenKind::I32 => 36,
        TokenKind::I64 => 37,
        TokenKind::U8 => 38,
        TokenKind::U16 => 39,
        TokenKind::U32 => 40,
        TokenKind::U64 => 41,
        TokenKind::F32 => 42,
        TokenKind::F64 => 43,
        TokenKind::BoolTy => 44,
        TokenKind::Usize => 45,
        TokenKind::StrTy => 46,
        TokenKind::Void => 47,
        TokenKind::AsmBang => 48,
        TokenKind::Pipe => 49,
        TokenKind::Arrow => 50,
        TokenKind::FatArrow => 51,
        TokenKind::Question => 52,
        TokenKind::Colon => 53,
        TokenKind::ColonColon => 54,
        TokenKind::Comma => 55,
        TokenKind::Dot => 56,
        TokenKind::DotDot => 57,
        TokenKind::Semi => 58,
        TokenKind::At => 59,
        TokenKind::Star => 60,
        TokenKind::Amp => 61,
        TokenKind::PlusPlus => 62,
        TokenKind::Plus => 63,
        TokenKind::Minus => 64,
        TokenKind::Slash => 65,
        TokenKind::Percent => 66,
        TokenKind::Caret => 67,
        TokenKind::Tilde => 68,
        TokenKind::Shl => 69,
        TokenKind::Shr => 70,
        TokenKind::BitOr => 71,
        TokenKind::Eq => 72,
        TokenKind::NotEq => 73,
        TokenKind::Lt => 74,
        TokenKind::LtEq => 75,
        TokenKind::Gt => 76,
        TokenKind::GtEq => 77,
        TokenKind::Assign => 78,
        TokenKind::And => 79,
        TokenKind::Or => 80,
        TokenKind::Not => 81,
        TokenKind::LParen => 82,
        TokenKind::RParen => 83,
        TokenKind::LBrace => 84,
        TokenKind::RBrace => 85,
        TokenKind::LBracket => 86,
        TokenKind::RBracket => 87,
        TokenKind::Eof => 88,
        TokenKind::Newline => 89,
    }
}

/// `kind_index` of `k`.
fn kind_number(k: &TokenKind) -> (n: u8)
    ensures
        n as int == kind_index(*k),
{
    match k {
        TokenKind::Int(_) => 0,
        TokenKind::Float(_) => 0,
        TokenKind::Str(_) => 0,
        TokenKind::Ident(_) => 0,
        TokenKind::Bool(b) => if *b { 1 } else { 2 },
        TokenKind::Fn => 3,
        TokenKind::Type => 4,
        TokenKind::Enum => 5,
        TokenKind::Struct => 6,
        TokenKind::Match => 7,
        TokenKind::If => 8,
        TokenKind::Else => 9,
        TokenKind::For => 10,
        TokenKind::In => 11,
        TokenKind::Return => 12,
        TokenKind::Defer => 13,
        TokenKind::While => 14,
        TokenKind::Loop => 15,
        TokenKind::Break => 16,
        TokenKind::Continue => 17,
        TokenKind::As => 18,
        TokenKind::Import => 19,
        TokenKind::Base => 20,
        TokenKind::Safe => 21,
        TokenKind::Read => 22,
        TokenKind::Mut => 23,
        TokenKind::Move => 24,
        TokenKind::OrElse => 25,
        TokenKind::OrReturn => 26,
        TokenKind::OrPanic => 27,
        TokenKind::OrZero => 28,
        TokenKind::OrNil => 29,
        TokenKind::Let => 30,
        TokenKind::Var => 31,
        TokenKind::Ding => 32,
        TokenKind::She => 33,
        TokenKind::I8 => 34,
        TokenKind::I16 => 35,
        TokenKind::I32 => 36,
        TokenKind::I64 => 37,
        TokenKind::U8 => 38,
        TokenKind::U16 => 39,
        TokenKind::U32 => 40,
        TokenKind::U64 => 41,
        TokenKind::F32 => 42,
        TokenKind::F64 => 43,
        TokenKind::BoolTy => 44,
        TokenKind::Usize => 45,
        TokenKind::StrTy => 46,
        TokenKind::Void => 47,
        TokenKind::AsmBang => 48,
        TokenKind::Pipe => 49,
        TokenKind::Arrow => 50,
        TokenKind::FatArrow => 51,
        TokenKind::Question => 52,
        TokenKind::Colon => 53,
        TokenKind::ColonColon => 54,
        TokenKind::Comma => 55,
        TokenKind::Dot => 56,
        TokenKind::DotDot => 57,
        TokenKind::Semi => 58,
        TokenKind::At => 59,
        TokenKind::Star => 60,
        TokenKind::Amp => 61,
        TokenKind::PlusPlus => 62,
        TokenKind::Plus => 63,
        TokenKind::Minus => 64,
        TokenKind::Slash => 65,
        TokenKind::Percent => 66,
        TokenKind::Caret => 67,
        TokenKind::Tilde => 68,
        TokenKind::Shl => 69,
        TokenKind::Shr => 70,
        TokenKind::BitOr => 71,
        TokenKind::Eq => 72,
        TokenKind::NotEq => 73,
        TokenKind::Lt => 74,
        TokenKind::LtEq => 75,
        TokenKind::Gt => 76,
        TokenKind::GtEq => 77,
        TokenKind::Assign => 78,
        TokenKind::And => 79,
        TokenKind::Or => 80,
        TokenKind::Not => 81,
        TokenKind::LParen => 82,
        TokenKind::RParen => 83,
        TokenKind::LBrace => 84,
        TokenKind::RBrace => 85,
        TokenKind::LBracket => 86,
        TokenKind::RBracket => 87,
        TokenKind::Eof => 88,
        TokenKind::Newline => 89,
    }
}

/// Equality of two token kinds, the second carrying no payload.
fn plain_kind_eq(a: &TokenKind, b: &TokenKind) -> (r: bool)
    requires
        is_plain(*b),
    ensures
        r == (*a == *b),
{
    match a {
        TokenKind::Int(_) | TokenKind::Float(_) | TokenKind::Str(_) | TokenKind::Ident(_) => false,
        _ => kind_number(a) == kind_number(b),
    }
}

} // verus!

//! The operators of Rym from text to machine code: how each one is spelled,
//! which syntax node each spelling becomes, what each operator computes, and
//! laws that every stage keeps the operator it was given.
use vstd::prelude::*;
use crate::token::{TokV, Token, TokenKind};
use crate::ast::{BinOp, Expr, UnOp};
use crate::ast_model::ExprM;
use crate::lex_spec::{lex_at, skip_blank, ident_end, ident_continue, ident_start, is_digit, lemma_ident_end, lemma_skip_blank_bounds};
use crate::parse_spec::{
    bin, fwd, p_add_rest, p_comparison_rest, p_mul, p_mul_rest, p_unary, pk, unfold_p_add_rest, unfold_p_comparison_rest,
    unfold_p_mul_rest, p_add, p_and, p_and_rest, p_comparison, p_or_rest, unfold_p_and_rest, unfold_p_or_rest,
};
use crate::ir::{Op, OpV};
use crate::lower_spec::{LowV, low_e};
use crate::codegen_spec::{Layouts, RaV, Tail, bin_operands, bin_text, dest_text, get2_s, get_s, ins3, tail_text, un_operand};

verus! {

// ── Spelling ──────────────────────────────────────────────────

/// How a token that carries no text is written: an operator, a delimiter,
/// a line break or a keyword.
pub open spec fn spelling(k: TokenKind) -> Option<Seq<char>> {
    match k {
        TokenKind::LParen => Some(seq!['(']),
        TokenKind::RParen => Some(seq![')']),
        TokenKind::LBrace => Some(seq!['{']),
        TokenKind::RBrace => Some(seq!['}']),
        TokenKind::LBracket => Some(seq!['[']),
        TokenKind::RBracket => Some(seq![']']),
        TokenKind::Comma => Some(seq![',']),
        TokenKind::Semi => Some(seq![';']),
        TokenKind::At => Some(seq!['@']),
        TokenKind::Percent => Some(seq!['%']),
        TokenKind::Slash => Some(seq!['/']),
        TokenKind::Question => Some(seq!['?']),
        TokenKind::Star => Some(seq!['*']),
        TokenKind::Caret => Some(seq!['^']),
        TokenKind::Tilde => Some(seq!['~']),
        TokenKind::Plus => Some(seq!['+']),
        TokenKind::PlusPlus => Some(seq!['+', '+']),
        TokenKind::Minus => Some(seq!['-']),
        TokenKind::Arrow => Some(seq!['-', '>']),
        TokenKind::Assign => Some(seq!['=']),
        TokenKind::Eq => Some(seq!['=', '=']),
        TokenKind::FatArrow => Some(seq!['=', '>']),
        TokenKind::Not => Some(seq!['!']),
        TokenKind::NotEq => Some(seq!['!', '=']),
        TokenKind::Lt => Some(seq!['<']),
        TokenKind::LtEq => Some(seq!['<', '=']),
        TokenKind::Shl => Some(seq!['<', '<']),
        TokenKind::Gt => Some(seq!['>']),
        TokenKind::GtEq => Some(seq!['>', '=']),
        TokenKind::Shr => Some(seq!['>', '>']),
        TokenKind::Amp => Some(seq!['&']),
        TokenKind::And => Some(seq!['&', '&']),
        TokenKind::BitOr => Some(seq!['|']),
        TokenKind::Or => Some(seq!['|', '|']),
        TokenKind::Pipe => Some(seq!['|', '>']),
        TokenKind::Colon => Some(seq![':']),
        TokenKind::ColonColon => Some(seq![':', ':']),
        TokenKind::Dot => Some(seq!['.']),
        TokenKind::DotDot => Some(seq!['.', '.']),
        TokenKind::Newline => Some(seq!['\n']),
        TokenKind::Fn => Some("fn"@),
        TokenKind::Type => Some("type"@),
        TokenKind::Enum => Some("enum"@),
        TokenKind::Struct => Some("struct"@),
        TokenKind::Match => Some("match"@),
        TokenKind::If => Some("if"@),
        TokenKind::Else => Some("else"@),
        TokenKind::For => Some("for"@),
        TokenKind::In => Some("in"@),
        TokenKind::Return => Some("return"@),
        TokenKind::Defer => Some("defer"@),
        TokenKind::While => Some("while"@),
        TokenKind::Loop => Some("loop"@),
        TokenKind::Break => Some("break"@),
        TokenKind::Continue => Some("continue"@),
        TokenKind::As => Some("as"@),
        TokenKind::Import => Some("import"@),
        TokenKind::Base => Some("base"@),
        TokenKind::Safe => Some("safe"@),
        TokenKind::Read => Some("read"@),
        TokenKind::Mut => Some("mut"@),
        TokenKind::Move => Some("move"@),
        TokenKind::OrElse => Some("or_else"@),
        TokenKind::OrReturn => Some("or_return"@),
        TokenKind::OrPanic => Some("or_panic"@),
        TokenKind::OrZero => Some("or_zero"@),
        TokenKind::OrNil => Some("or_nil"@),
        TokenKind::Let => Some("let"@),
        TokenKind::Var => Some("var"@),
        TokenKind::Ding => Some("定"@),
        TokenKind::She => Some("设"@),
        TokenKind::I8 => Some("i8"@),
        TokenKind::I16 => Some("i16"@),
        TokenKind::I32 => Some("i32"@),
        TokenKind::I64 => Some("i64"@),
        TokenKind::U8 => Some("u8"@),
        TokenKind::U16 => Some("u16"@),
        TokenKind::U32 => Some("u32"@),
        TokenKind::U64 => Some("u64"@),
        TokenKind::F32 => Some("f32"@),
        TokenKind::F64 => Some("f64"@),
        TokenKind::BoolTy => Some("bool"@),
        TokenKind::Usize => Some("usize"@),
        TokenKind::StrTy => Some("str"@),
        TokenKind::Void => Some("void"@),
        TokenKind::Bool(true) => Some("true"@),
        TokenKind::Bool(false) => Some("false"@),
        TokenKind::AsmBang => Some("asm!"@),
        _ => None,
    }
}

/// A character that starts an operator or delimiter.
pub open spec fn operator_char(c: char) -> bool {
    c == '(' || c == ')' || c == '{' || c == '}' || c == '[' || c == ']' || c == ',' || c == ';' || c == '@'
        || c == '%' || c == '/' || c == '?' || c == '*' || c == '^' || c == '~' || c == '+' || c == '-' || c == '='
        || c == '!' || c == '<' || c == '>' || c == '&' || c == '|' || c == ':' || c == '.'
}

/// A token that carries no text is read from exactly the text that spells
/// it, so two different such tokens are never read from the same text.
pub proof fn law_token_is_its_spelling(s: Seq<char>, i: int)
    requires
        0 <= i <= s.len(),
    ensures
        match lex_at(s, i) {
            Ok((TokV::Plain(k), a, b)) => spelling(k) is Some ==> s.subrange(a, b) == spelling(k)->0,
            _ => true,
        },
{
    let st = skip_blank(s, i, false);
    lemma_skip_blank_bounds(s, i, false);
    if st < s.len() {
        if st + 1 < s.len() {
            assert(s.subrange(st, st + 2) =~= seq![s[st], s[st + 1]]);
        }
        assert(s.subrange(st, st + 1) =~= seq![s[st]]);
        if ident_start(s[st]) {
            let j = ident_end(s, st);
            reveal_strlit("asm");
            reveal_strlit("asm!");
            lemma_ident_end(s, st);
            if s.subrange(st, j) == "asm"@ && j < s.len() && s[j] == '!' {
                assert(s.subrange(st, j + 1) =~= s.subrange(st, j).push('!'));
            }
        }
    }
}

proof fn lemma_ident_chars(s: Seq<char>, j: int)
    requires
        0 <= j <= s.len(),
    ensures
        forall|m: int| j <= m < ident_end(s, j) ==> ident_continue(#[trigger] s[m]),
    decreases s.len() - j,
{
    if j < s.len() && ident_continue(s[j]) {
        lemma_ident_chars(s, j + 1);
    }
}

/// An identifier is read from exactly its own text, and that text spells no
/// keyword, operator or delimiter.
pub proof fn law_identifier_is_its_text(s: Seq<char>, i: int)
    requires
        0 <= i <= s.len(),
    ensures
        match lex_at(s, i) {
            Ok((TokV::Ident(t), a, b)) => t == s.subrange(a, b) && forall|k: TokenKind| spelling(k) != Some(t),
            _ => true,
        },
{
    let st = skip_blank(s, i, false);
    lemma_skip_blank_bounds(s, i, false);
    if st < s.len() && ident_start(s[st]) {
        lemma_ident_end(s, st + 1);
        let j = ident_end(s, st);
        assert(j == ident_end(s, st + 1));
        let t = s.subrange(st, j);
        if lex_at(s, i) matches Ok((TokV::Ident(_), _, _)) {
            assert(t.len() > 0 && t[0] == s[st]);
            lemma_ident_chars(s, st);
            reveal_strlit("asm!");
            assert forall|k: TokenKind| spelling(k) != Some(t) by {
                if spelling(k) == Some(t) {
                    assert(spelling(k)->0[0] == s[st]);
                    if k is AsmBang {
                        assert(t[3] == s[st + 3]);
                    }
                }
            }
        }
    }
}

/// A token that starts with an operator character is an operator or
/// delimiter.
pub proof fn law_operator_char_gives_operator(s: Seq<char>, i: int)
    requires
        0 <= i <= s.len(),
    ensures
        match lex_at(s, i) {
            Ok((t, a, b)) => 0 <= a < s.len() && operator_char(s[a]) ==> (t matches TokV::Plain(k) && spelling(k) is Some),
            _ => true,
        },
{
    let st = skip_blank(s, i, false);
    if st < s.len() && operator_char(s[st]) {
        assert(!ident_start(s[st]));
        assert(!is_digit(s[st]));
    }
}

// ── Parsing ───────────────────────────────────────────────────

/// After a left operand `left`, an additive operator joins it with the next
/// multiplicative operand into the operation that the operator writes:
/// `+` adds, `-` subtracts, `++` concatenates. Any other token ends the sum.
pub proof fn law_additive_operator_is_kept(ts: Seq<Token>, i: int, d: int, left: ExprM)
    ensures
        match p_mul(ts, i + 1, d) {
            Ok((r, j)) => fwd(ts, i, j) ==> {
            &&& pk(ts, i) == TokenKind::Plus ==> p_add_rest(ts, i, d, left) == p_add_rest(ts, j, d, bin(BinOp::Add, left, r))
            &&& pk(ts, i) == TokenKind::Minus ==> p_add_rest(ts, i, d, left) == p_add_rest(ts, j, d, bin(BinOp::Sub, left, r))
            &&& pk(ts, i) == TokenKind::PlusPlus ==> p_add_rest(ts, i, d, left) == p_add_rest(
                ts,
                j,
                d,
                bin(BinOp::Concat, left, r),
            )
            },
            _ => true,
        },
        pk(ts, i) != TokenKind::Plus && pk(ts, i) != TokenKind::Minus && pk(ts, i) != TokenKind::PlusPlus ==> p_add_rest(
            ts,
            i,
            d,
            left,
        ) == Ok::<(ExprM, int), crate::parse_spec::ParseErrV>((left, i)),
{
    unfold_p_add_rest(ts, i, d, left);
}

/// After a left operand `left`, a multiplicative operator joins it with the
/// next unary operand: `*` multiplies, `/` divides, `%` takes the remainder.
/// Any other token ends the product.
pub proof fn law_multiplicative_operator_is_kept(ts: Seq<Token>, i: int, d: int, left: ExprM)
    ensures
        match p_unary(ts, i + 1, d) {
            Ok((r, j)) => fwd(ts, i, j) ==> {
            &&& pk(ts, i) == TokenKind::Star ==> p_mul_rest(ts, i, d, left) == p_mul_rest(ts, j, d, bin(BinOp::Mul, left, r))
            &&& pk(ts, i) == TokenKind::Slash ==> p_mul_rest(ts, i, d, left) == p_mul_rest(ts, j, d, bin(BinOp::Div, left, r))
            &&& pk(ts, i) == TokenKind::Percent ==> p_mul_rest(ts, i, d, left) == p_mul_rest(ts, j, d, bin(BinOp::Rem, left, r))
            },
            _ => true,
        },
        pk(ts, i) != TokenKind::Star && pk(ts, i) != TokenKind::Slash && pk(ts, i) != TokenKind::Percent ==> p_mul_rest(
            ts,
            i,
            d,
            left,
        ) == Ok::<(ExprM, int), crate::parse_spec::ParseErrV>((left, i)),
{
    unfold_p_mul_rest(ts, i, d, left);
}

/// After a left operand `left`, a comparison operator joins it with the next
/// additive operand into the comparison that it writes. Any other token ends
/// the comparison.
pub proof fn law_comparison_operator_is_kept(ts: Seq<Token>, i: int, d: int, left: ExprM)
    ensures
        match p_add(ts, i + 1, d) {
            Ok((r, j)) => fwd(ts, i, j) ==> {
            &&& pk(ts, i) == TokenKind::Eq ==> p_comparison_rest(ts, i, d, left) == p_comparison_rest(ts, j, d, bin(BinOp::Eq, left, r))
            &&& pk(ts, i) == TokenKind::NotEq ==> p_comparison_rest(ts, i, d, left) == p_comparison_rest(
                ts,
                j,
                d,
                bin(BinOp::NotEq, left, r),
            )
            &&& pk(ts, i) == TokenKind::Lt ==> p_comparison_rest(ts, i, d, left) == p_comparison_rest(ts, j, d, bin(BinOp::Lt, left, r))
            &&& pk(ts, i) == TokenKind::LtEq ==> p_comparison_rest(ts, i, d, left) == p_comparison_rest(
                ts,
                j,
                d,
                bin(BinOp::LtEq, left, r),
            )
            &&& pk(ts, i) == TokenKind::Gt ==> p_comparison_rest(ts, i, d, left) == p_comparison_rest(ts, j, d, bin(BinOp::Gt, left, r))
            &&& pk(ts, i) == TokenKind::GtEq ==> p_comparison_rest(ts, i, d, left) == p_comparison_rest(
                ts,
                j,
                d,
                bin(BinOp::GtEq, left, r),
            )
            },
            _ => true,
        },
        pk(ts, i) != TokenKind::Eq && pk(ts, i) != TokenKind::NotEq && pk(ts, i) != TokenKind::Lt && pk(ts, i)
            != TokenKind::LtEq && pk(ts, i) != TokenKind::Gt && pk(ts, i) != TokenKind::GtEq ==> p_comparison_rest(
            ts,
            i,
            d,
            left,
        ) == Ok::<(ExprM, int), crate::parse_spec::ParseErrV>((left, i)),
{
    unfold_p_comparison_rest(ts, i, d, left);
}

/// `||` joins its operands into an `Or`, `&&` into an `And`; another token
/// ends the chain.
pub proof fn law_logical_operator_is_kept(ts: Seq<Token>, i: int, d: int, left: ExprM)
    ensures
        match p_and(ts, i + 1, d) {
            Ok((r, j)) => fwd(ts, i, j) && pk(ts, i) == TokenKind::Or ==> p_or_rest(ts, i, d, left) == p_or_rest(
                ts,
                j,
                d,
                bin(BinOp::Or, left, r),
            ),
            _ => true,
        },
        match p_comparison(ts, i + 1, d) {
            Ok((r, j)) => fwd(ts, i, j) && pk(ts, i) == TokenKind::And ==> p_and_rest(ts, i, d, left) == p_and_rest(
                ts,
                j,
                d,
                bin(BinOp::And, left, r),
            ),
            _ => true,
        },
        pk(ts, i) != TokenKind::Or ==> p_or_rest(ts, i, d, left) == Ok::<(ExprM, int), crate::parse_spec::ParseErrV>((left, i)),
        pk(ts, i) != TokenKind::And ==> p_and_rest(ts, i, d, left) == Ok::<(ExprM, int), crate::parse_spec::ParseErrV>((left, i)),
{
    unfold_p_or_rest(ts, i, d, left);
    unfold_p_and_rest(ts, i, d, left);
}

// ── What the operators compute ────────────────────────────────

/// 1 for true, 0 for false.
pub open spec fn flag(b: bool) -> int {
    if b {
        1
    } else {
        0
    }
}

/// `x` cut to 64 bits, read as a signed number.
pub open spec fn wrap(x: int) -> int {
    (x as i64) as int
}

/// The quotient of `a / b`, rounded toward zero.
pub open spec fn quot(a: int, b: int) -> int {
    let q = (if a < 0 { -a } else { a }) / (if b < 0 { -b } else { b });
    if (a < 0) != (b < 0) {
        -q
    } else {
        q
    }
}

pub open spec fn bits_and(a: i64, b: i64) -> int {
    (a & b) as int
}

pub open spec fn bits_or(a: i64, b: i64) -> int {
    (a | b) as int
}

pub open spec fn bits_not(a: i64) -> int {
    (!a) as int
}

pub open spec fn bits_xor(a: i64, b: i64) -> int {
    (a ^ b) as int
}

/// `a` shifted left by the low six bits of `b`.
pub open spec fn shift_left(a: i64, b: i64) -> int {
    (((a as u64) << ((b as u64) % 64)) as i64) as int
}

/// `a` shifted right by the low six bits of `b`, filling with zeros.
pub open spec fn shift_right(a: i64, b: i64) -> int {
    (((a as u64) >> ((b as u64) % 64)) as i64) as int
}

/// The value of `a op b` on 64-bit integers: arithmetic wraps around, a
/// division by zero has no value, a comparison gives 1 or 0, `&&` and `||`
/// act on the bits of their truth values 1 and 0. `++` joins strings and has
/// no integer value.
pub open spec fn source_value(op: BinOp, a: i64, b: i64) -> Option<int> {
    match op {
        BinOp::Add => Some(wrap(a + b)),
        BinOp::Sub => Some(wrap(a - b)),
        BinOp::Mul => Some(wrap(a * b)),
        BinOp::Div => if b == 0 { None } else { Some(wrap(quot(a as int, b as int))) },
        BinOp::Rem => if b == 0 { None } else { Some(wrap(a - b * quot(a as int, b as int))) },
        BinOp::Eq => Some(flag(a == b)),
        BinOp::NotEq => Some(flag(a != b)),
        BinOp::Lt => Some(flag(a < b)),
        BinOp::LtEq => Some(flag(a <= b)),
        BinOp::Gt => Some(flag(a > b)),
        BinOp::GtEq => Some(flag(a >= b)),
        BinOp::And => Some(bits_and(a, b)),
        BinOp::Or => Some(bits_or(a, b)),
        BinOp::BitAnd => Some(bits_and(a, b)),
        BinOp::BitOr => Some(bits_or(a, b)),
        BinOp::BitXor => Some(bits_xor(a, b)),
        BinOp::Shl => Some(shift_left(a, b)),
        BinOp::Shr => Some(shift_right(a, b)),
        BinOp::Concat => None,
    }
}

/// The value of a unary operator applied to `a`: `!` gives 1 for 0 and 0
/// otherwise, `-` negates with wrap-around, `~` inverts every bit; `*` reads
/// memory and has no value here.
pub open spec fn source_unary_value(op: UnOp, a: i64) -> Option<int> {
    match op {
        UnOp::Not => Some(flag(a == 0)),
        UnOp::Neg => Some(wrap(0 - a)),
        UnOp::BitNot => Some(bits_not(a)),
        UnOp::Deref => None,
    }
}

/// The value that an IR operation computes when each name `n` holds
/// `env(n)`; only the arithmetic, logical and bitwise operations on
/// integers have one here.
pub open spec fn ir_value(op: OpV, env: spec_fn(Seq<char>) -> i64) -> Option<int> {
    match op {
        OpV::Add(a, b) => source_value(BinOp::Add, env(a), env(b)),
        OpV::Sub(a, b) => source_value(BinOp::Sub, env(a), env(b)),
        OpV::Mul(a, b) => source_value(BinOp::Mul, env(a), env(b)),
        OpV::Div(a, b) => source_value(BinOp::Div, env(a), env(b)),
        OpV::Rem(a, b) => source_value(BinOp::Rem, env(a), env(b)),
        OpV::CmpEq(a, b) => Some(flag(env(a) == env(b))),
        OpV::CmpNeq(a, b) => Some(flag(env(a) != env(b))),
        OpV::CmpLt(a, b) => Some(flag(env(a) < env(b))),
        OpV::CmpLe(a, b) => Some(flag(env(a) <= env(b))),
        OpV::CmpGt(a, b) => Some(flag(env(a) > env(b))),
        OpV::CmpGe(a, b) => Some(flag(env(a) >= env(b))),
        OpV::And(a, b) => Some(bits_and(env(a), env(b))),
        OpV::Or(a, b) => Some(bits_or(env(a), env(b))),
        OpV::BitAnd(a, b) => Some(bits_and(env(a), env(b))),
        OpV::BitOr(a, b) => Some(bits_or(env(a), env(b))),
        OpV::BitXor(a, b) => Some(bits_xor(env(a), env(b))),
        OpV::Shl(a, b) => Some(shift_left(env(a), env(b))),
        OpV::Shr(a, b) => Some(shift_right(env(a), env(b))),
        OpV::Not(a) => source_unary_value(UnOp::Not, env(a)),
        OpV::Neg(a) => source_unary_value(UnOp::Neg, env(a)),
        OpV::BitNot(a) => source_unary_value(UnOp::BitNot, env(a)),
        _ => None,
    }
}

/// The value that the LoongArch64 instruction `m rd, rj, rk` writes to `rd`
/// when `rj` holds `x` and `rk` holds `y`.
pub open spec fn machine_value(m: Seq<char>, x: i64, y: i64) -> Option<int> {
    if m == "add.d"@ {
        Some(wrap(x + y))
    } else if m == "sub.d"@ {
        Some(wrap(x - y))
    } else if m == "mul.d"@ {
        Some(wrap(x * y))
    } else if m == "div.d"@ {
        if y == 0 { None } else { Some(wrap(quot(x as int, y as int))) }
    } else if m == "mod.d"@ {
        if y == 0 { None } else { Some(wrap(x - y * quot(x as int, y as int))) }
    } else if m == "slt"@ {
        Some(flag(x < y))
    } else if m == "and"@ {
        Some(bits_and(x, y))
    } else if m == "or"@ {
        Some(bits_or(x, y))
    } else if m == "xor"@ {
        Some(bits_xor(x, y))
    } else if m == "sll.d"@ {
        Some(shift_left(x, y))
    } else if m == "srl.d"@ {
        Some(shift_right(x, y))
    } else if m == "sltui"@ {
        Some(flag((x as u64) < (y as u64)))
    } else if m == "nor"@ {
        Some(bits_not(x | y))
    } else {
        None
    }
}

/// The value in `rd` after the instructions that `tail_text(t, rd)` writes,
/// when `rd` held `v`.
pub open spec fn tail_value(t: Tail, v: int) -> int {
    match t {
        Tail::Nothing => v,
        // sltui rd, rd, 1
        Tail::SetIfZero => flag(v == 0),
        // sltu rd, $zero, rd
        Tail::SetIfNonZero => flag(v != 0),
        // xori rd, rd, 1
        Tail::Flip => bits_xor(v as i64, 1),
    }
}

// ── Lowering keeps what an operator computes ──────────────────

/// The instruction that a binary expression lowers to computes, from the
/// values of its lowered operands, what the source operator computes from
/// the values of the operands; `++` becomes a call of the runtime's string
/// concatenation on the two operands, in order.
pub proof fn law_binop_lowering_keeps_meaning(st: LowV, e: Expr, env: spec_fn(Seq<char>) -> i64)
    requires
        e.kind is BinOp,
    ensures
        ({
            let (l, s1) = low_e(st, *e.kind->BinOp_left);
            let (r, s2) = low_e(s1, *e.kind->BinOp_right);
            &&& ir_value(low_e(st, e).1.instrs.last().op, env) == source_value(e.kind->BinOp_op, env(l), env(r))
            &&& e.kind->BinOp_op is Concat ==> low_e(st, e).1.instrs.last().op == (OpV::Call {
                func: "__str_concat"@,
                args: seq![l, r],
            })
        }),
{
}

/// The instruction that a unary expression lowers to computes, from the
/// value of its lowered operand, what the source operator computes.
pub proof fn law_unop_lowering_keeps_meaning(st: LowV, e: Expr, env: spec_fn(Seq<char>) -> i64)
    requires
        e.kind is UnOp,
    ensures
        ({
            let (v, s1) = low_e(st, *e.kind->UnOp_expr);
            &&& e.kind->UnOp_op !is Deref ==> ir_value(low_e(st, e).1.instrs.last().op, env) == source_unary_value(
                e.kind->UnOp_op,
                env(v),
            )
            &&& e.kind->UnOp_op is Deref ==> low_e(st, e).1.instrs.last().op == OpV::Deref(v)
        }),
{
}

// ── Code generation keeps what an operation computes ──────────

/// The two operands of a binary IR operation.
pub open spec fn bin_args(op: Op) -> Option<(Seq<char>, Seq<char>)> {
    match op {
        Op::Add(a, b) | Op::Sub(a, b) | Op::Mul(a, b) | Op::Div(a, b) | Op::Rem(a, b) | Op::CmpEq(a, b) | Op::CmpNeq(a, b)
        | Op::CmpLt(a, b) | Op::CmpLe(a, b) | Op::CmpGt(a, b) | Op::CmpGe(a, b) | Op::And(a, b) | Op::Or(a, b)
        | Op::BitAnd(a, b) | Op::BitOr(a, b) | Op::BitXor(a, b) | Op::Shl(a, b) | Op::Shr(a, b) => Some((a@, b@)),
        _ => None,
    }
}

proof fn lemma_flip_flag(c: bool)
    ensures
        bits_xor(flag(c) as i64, 1) == flag(!c),
{
    assert((0i64 ^ 1i64) == 1i64) by (bit_vector);
    assert((1i64 ^ 1i64) == 0i64) by (bit_vector);
}

proof fn lemma_difference_is_zero(a: i64, b: i64)
    ensures
        (wrap(a - b) == 0) == (a == b),
{
    assert(((a - b) as i64 == 0) == (a == b)) by (bit_vector);
}

/// `dest_text` for `op` loads its operands `a`, `b` into `x`, `y` (text
/// `t`), runs `m` on them, `x` first when `a_first`, then `tail`; and with
/// each name `n` holding `env(n)`, that leaves in `r` what `op` computes.
pub open spec fn runs_as(
    ra: RaV,
    lay: Layouts,
    r: Seq<char>,
    op: Op,
    env: spec_fn(Seq<char>) -> i64,
    a: Seq<char>,
    b: Seq<char>,
    m: Seq<char>,
    a_first: bool,
    tail: Tail,
) -> bool {
    let (x, y, t) = get2_s(ra, a, b);
    &&& dest_text(ra, lay, r, op) == t + (if a_first {
        ins3(m, r, x, y)
    } else {
        ins3(m, r, y, x)
    }) + tail_text(tail, r)
    &&& match machine_value(m, if a_first { env(a) } else { env(b) }, if a_first { env(b) } else { env(a) }) {
        Some(v) => Some(tail_value(tail, v)),
        None => None,
    } == ir_value(op.model(), env)
}

/// The code for a binary operation loads its operands into two registers,
/// runs one instruction on them in some order, then a short tail; with the
/// operands holding their values, the destination then holds what the
/// operation computes.
pub proof fn law_binary_code_computes_the_operation(ra: RaV, lay: Layouts, r: Seq<char>, op: Op, env: spec_fn(Seq<char>) -> i64)
    ensures
        match bin_args(op) {
            Some((a, b)) => exists|m: Seq<char>, a_first: bool, tail: Tail| #[trigger] runs_as(ra, lay, r, op, env, a, b, m, a_first, tail),
            None => true,
        },
{
    reveal(dest_text);
    reveal(bin_operands);
    reveal_strlit("add.d");
    reveal_strlit("sub.d");
    reveal_strlit("mul.d");
    reveal_strlit("div.d");
    reveal_strlit("mod.d");
    reveal_strlit("slt");
    reveal_strlit("and");
    reveal_strlit("or");
    reveal_strlit("xor");
    reveal_strlit("sll.d");
    reveal_strlit("srl.d");
    assert("add.d"@[0] != "sub.d"@[0]);
    assert("add.d"@[0] != "mul.d"@[0]);
    assert("add.d"@[0] != "div.d"@[0]);
    assert("add.d"@[0] != "mod.d"@[0]);
    assert("add.d"@[0] != "sll.d"@[0]);
    assert("add.d"@[0] != "srl.d"@[0]);
    assert("sub.d"@[0] != "mul.d"@[0]);
    assert("sub.d"@[0] != "div.d"@[0]);
    assert("sub.d"@[0] != "mod.d"@[0]);
    assert("sub.d"@[1] != "sll.d"@[1]);
    assert("sub.d"@[1] != "srl.d"@[1]);
    assert("mul.d"@[0] != "div.d"@[0]);
    assert("mul.d"@[1] != "mod.d"@[1]);
    assert("mul.d"@[0] != "sll.d"@[0]);
    assert("mul.d"@[0] != "srl.d"@[0]);
    assert("div.d"@[0] != "mod.d"@[0]);
    assert("div.d"@[0] != "sll.d"@[0]);
    assert("div.d"@[0] != "srl.d"@[0]);
    assert("mod.d"@[0] != "sll.d"@[0]);
    assert("mod.d"@[0] != "srl.d"@[0]);
    assert("slt"@[0] != "and"@[0]);
    assert("slt"@[0] != "xor"@[0]);
    assert("and"@[0] != "xor"@[0]);
    assert("sll.d"@[1] != "srl.d"@[1]);
    match bin_args(op) {
        Some((a, b)) => {
            let (x, y, t) = get2_s(ra, a, b);
            let (a2, b2, m, swap, tail) = bin_operands(op)->0;
            let va = env(a);
            let vb = env(b);
            lemma_flip_flag(va < vb);
            lemma_flip_flag(vb < va);
            lemma_difference_is_zero(va, vb);
            assert(dest_text(ra, lay, r, op) == bin_text(ra, r, a, b, m, swap, tail));
            let (x, y, t) = get2_s(ra, a, b);
            assert(dest_text(ra, lay, r, op) == t + (if !swap {
                ins3(m, r, x, y)
            } else {
                ins3(m, r, y, x)
            }) + tail_text(tail, r));
            assert(a2 == a && b2 == b);
            let p = if !swap { va } else { vb };
            let q = if !swap { vb } else { va };
            assert(match machine_value(m, p, q) {
                Some(v) => Some(tail_value(tail, v)),
                None => None,
            } == ir_value(op.model(), env));
            assert(runs_as(ra, lay, r, op, env, a, b, m, !swap, tail));
        },
        None => {},
    }
}

/// The operand of a unary arithmetic or bitwise IR operation.
pub open spec fn un_arg(op: Op) -> Option<Seq<char>> {
    match op {
        Op::Not(a) | Op::Neg(a) | Op::BitNot(a) => Some(a@),
        _ => None,
    }
}

/// `dest_text` for `op` loads its operand `a` into a register `s` (text
/// `t`), then runs `m r, s, c` (or `m r, c, s` when not `reg_first`), where
/// `c` is `$zero` (holding 0) or the immediate 1 and `k` is its value; with
/// `a` holding `env(a)`, that leaves in `r` what `op` computes.
pub open spec fn runs_as_unary(
    ra: RaV,
    lay: Layouts,
    r: Seq<char>,
    op: Op,
    env: spec_fn(Seq<char>) -> i64,
    a: Seq<char>,
    m: Seq<char>,
    reg_first: bool,
    c: Seq<char>,
    k: i64,
) -> bool {
    let (s, t) = get_s(ra, a);
    &&& (c == "$zero"@ && k == 0) || (c == "1"@ && k == 1)
    &&& dest_text(ra, lay, r, op) == t + (if reg_first {
        ins3(m, r, s, c)
    } else {
        ins3(m, r, c, s)
    })
    &&& machine_value(m, if reg_first { env(a) } else { k }, if reg_first { k } else { env(a) }) == ir_value(op.model(), env)
}

proof fn lemma_unary_bits(x: i64)
    ensures
        ((x as u64) < (1i64 as u64)) == (x == 0),
        !(x | 0i64) == !x,
{
    assert(((x as u64) < (1i64 as u64)) == (x == 0)) by (bit_vector);
    assert(!(x | 0i64) == !x) by (bit_vector);
}

/// The code for `!a`, `-a` and `~a` loads `a` into a register and runs one
/// instruction on it, with `$zero` or the immediate 1 as the other operand;
/// with `a` holding its value, the destination then holds what the
/// operation computes.
pub proof fn law_unary_code_computes_the_operation(ra: RaV, lay: Layouts, r: Seq<char>, op: Op, env: spec_fn(Seq<char>) -> i64)
    ensures
        match un_arg(op) {
            Some(a) => exists|m: Seq<char>, reg_first: bool, c: Seq<char>, k: i64| #[trigger] runs_as_unary(
                ra,
                lay,
                r,
                op,
                env,
                a,
                m,
                reg_first,
                c,
                k,
            ),
            None => true,
        },
{
    reveal(dest_text);
    reveal(bin_operands);
    reveal(un_operand);
    reveal_strlit("sltui");
    reveal_strlit("sub.d");
    reveal_strlit("nor");
    reveal_strlit("$zero");
    reveal_strlit("1");
    reveal_strlit("add.d");
    reveal_strlit("mul.d");
    reveal_strlit("div.d");
    reveal_strlit("mod.d");
    reveal_strlit("slt");
    reveal_strlit("and");
    reveal_strlit("or");
    reveal_strlit("xor");
    reveal_strlit("sll.d");
    reveal_strlit("srl.d");
    assert("sltui"@[0] != "add.d"@[0]);
    assert("sltui"@[1] != "sub.d"@[1]);
    assert("sltui"@[0] != "mul.d"@[0]);
    assert("sltui"@[0] != "div.d"@[0]);
    assert("sltui"@[0] != "mod.d"@[0]);
    assert("sltui"@[2] != "sll.d"@[2]);
    assert("sltui"@[1] != "srl.d"@[1]);
    assert("sub.d"@[0] != "add.d"@[0]);
    assert("nor"@[0] != "and"@[0]);
    assert("nor"@[0] != "slt"@[0]);
    assert("nor"@[0] != "xor"@[0]);
    match un_arg(op) {
        Some(a) => {
            let (s, t) = get_s(ra, a);
            let va = env(a);
            lemma_unary_bits(va);
            match op {
                Op::Not(_) => {
                    assert(dest_text(ra, lay, r, op) == t + ins3("sltui"@, r, s, "1"@));
                    assert(machine_value("sltui"@, va, 1) == Some(flag((va as u64) < (1i64 as u64))));
                    assert(ir_value(op.model(), env) == Some(flag(va == 0)));
                    assert(runs_as_unary(ra, lay, r, op, env, a, "sltui"@, true, "1"@, 1));
                },
                Op::Neg(_) => {
                    assert(runs_as_unary(ra, lay, r, op, env, a, "sub.d"@, false, "$zero"@, 0));
                },
                Op::BitNot(_) => {
                    assert(runs_as_unary(ra, lay, r, op, env, a, "nor"@, true, "$zero"@, 0));
                },
                _ => {},
            }
        },
        None => {},
    }
}

} // verus!

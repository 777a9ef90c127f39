//! What the lexer computes, stated over the source as a sequence of characters.
//!
//! Positions inside these definitions are character indices; the spans that
//! tokens and errors carry are byte offsets into the UTF-8 encoding
//! (`byte_at`).
use vstd::prelude::*;
use vstd::utf8::*;
use crate::token::{TokV, TokenKind};

verus! {

// ── UTF-8 byte offsets ────────────────────────────────────────

/// Number of bytes of the UTF-8 encoding of `c`.
pub open spec fn width(c: char) -> nat {
    if (c as u32) < 0x80 {
        1
    } else if (c as u32) < 0x800 {
        2
    } else if (c as u32) < 0x10000 {
        3
    } else {
        4
    }
}

/// Number of bytes of the UTF-8 encoding of `s`.
pub open spec fn byte_len(s: Seq<char>) -> nat
    decreases s.len(),
{
    if s.len() == 0 {
        0
    } else {
        width(s[0]) + byte_len(s.drop_first())
    }
}

/// Byte offset of the character at index `i`.
pub open spec fn byte_at(s: Seq<char>, i: int) -> int {
    byte_len(s.take(i)) as int
}

pub proof fn lemma_byte_len_concat(a: Seq<char>, b: Seq<char>)
    ensures
        byte_len(a + b) == byte_len(a) + byte_len(b),
    decreases a.len(),
{
    if a.len() == 0 {
        assert(a + b =~= b);
    } else {
        assert((a + b).drop_first() =~= a.drop_first() + b);
        lemma_byte_len_concat(a.drop_first(), b);
    }
}

pub proof fn lemma_byte_len_single(c: char)
    ensures
        byte_len(seq![c]) == width(c),
{
    assert(seq![c].drop_first() =~= Seq::<char>::empty());
    assert(byte_len(Seq::<char>::empty()) == 0);
}

pub proof fn lemma_byte_at_step(s: Seq<char>, i: int)
    requires
        0 <= i < s.len(),
    ensures
        byte_at(s, i + 1) == byte_at(s, i) + width(s[i]),
{
    assert(s.take(i + 1) =~= s.take(i) + seq![s[i]]);
    lemma_byte_len_concat(s.take(i), seq![s[i]]);
    lemma_byte_len_single(s[i]);
}

pub proof fn lemma_byte_at_mono(s: Seq<char>, i: int, j: int)
    requires
        0 <= i <= j <= s.len(),
    ensures
        byte_at(s, i) <= byte_at(s, j) <= byte_len(s),
{
    assert(s.take(j) =~= s.take(i) + s.subrange(i, j));
    lemma_byte_len_concat(s.take(i), s.subrange(i, j));
    assert(s =~= s.take(j) + s.skip(j));
    lemma_byte_len_concat(s.take(j), s.skip(j));
}

/// The encoding that `str` uses has exactly `byte_len` bytes.
pub proof fn lemma_encode_len(s: Seq<char>)
    ensures
        encode_utf8(s).len() == byte_len(s),
    decreases s.len(),
{
    if s.len() > 0 {
        lemma_encode_len(s.drop_first());
        char_is_scalar(s[0]);
    }
}

// ── Character classes ─────────────────────────────────────────

pub open spec fn is_digit(c: char) -> bool {
    '0' <= c && c <= '9'
}

/// Space, tab and carriage return: skipped between tokens (newlines are tokens).
pub open spec fn is_blank(c: char) -> bool {
    c == ' ' || c == '\t' || c == '\r'
}

/// A character that may start an identifier: an ASCII letter, `_`, or any
/// non-ASCII character (so Chinese identifiers are first-class).
pub open spec fn ident_start(c: char) -> bool {
    ('a' <= c && c <= 'z') || ('A' <= c && c <= 'Z') || c == '_' || (c as u32) >= 0x80
}

/// A character that may continue an identifier.
pub open spec fn ident_continue(c: char) -> bool {
    ident_start(c) || is_digit(c)
}

// ── Whitespace and comments ───────────────────────────────────

/// Index of the first character at or after `i` that is not blank and not
/// inside a `//` comment (`in_comment`: `i` lies inside a comment).
pub open spec fn skip_blank(s: Seq<char>, i: int, in_comment: bool) -> int
    decreases s.len() - i,
{
    if i < 0 || i >= s.len() {
        i
    } else if in_comment {
        if s[i] == '\n' {
            i
        } else {
            skip_blank(s, i + 1, true)
        }
    } else if is_blank(s[i]) {
        skip_blank(s, i + 1, false)
    } else if i + 1 < s.len() && s[i] == '/' && s[i + 1] == '/' {
        skip_blank(s, i + 2, true)
    } else {
        i
    }
}

pub proof fn lemma_skip_blank_bounds(s: Seq<char>, i: int, c: bool)
    requires
        0 <= i <= s.len(),
    ensures
        i <= skip_blank(s, i, c) <= s.len(),
    decreases s.len() - i,
{
    if i < s.len() {
        if c {
            if s[i] != '\n' {
                lemma_skip_blank_bounds(s, i + 1, true);
            }
        } else if is_blank(s[i]) {
            lemma_skip_blank_bounds(s, i + 1, false);
        } else if i + 1 < s.len() && s[i] == '/' && s[i + 1] == '/' {
            lemma_skip_blank_bounds(s, i + 2, true);
        }
    }
}

// ── Numbers ───────────────────────────────────────────────────

/// End of the run of digits and `_` separators starting at `j`.
pub open spec fn digits_end(s: Seq<char>, j: int) -> int
    decreases s.len() - j,
{
    if 0 <= j < s.len() && (is_digit(s[j]) || s[j] == '_') {
        digits_end(s, j + 1)
    } else {
        j
    }
}

pub proof fn lemma_digits_end(s: Seq<char>, j: int)
    requires
        0 <= j <= s.len(),
    ensures
        j <= digits_end(s, j) <= s.len(),
        forall|k: int| j <= k < digits_end(s, j) ==> is_digit(#[trigger] s[k]) || s[k] == '_',
    decreases s.len() - j,
{
    if j < s.len() && (is_digit(s[j]) || s[j] == '_') {
        lemma_digits_end(s, j + 1);
    }
}

/// `t` with every `_` removed.
pub open spec fn strip_sep(t: Seq<char>) -> Seq<char>
    decreases t.len(),
{
    if t.len() == 0 {
        t
    } else if t.last() == '_' {
        strip_sep(t.drop_last())
    } else {
        strip_sep(t.drop_last()).push(t.last())
    }
}

/// The natural number written in decimal by the digits `t`.
pub open spec fn dec_value(t: Seq<char>) -> int
    decreases t.len(),
{
    if t.len() == 0 {
        0
    } else {
        dec_value(t.drop_last()) * 10 + (t.last() as int - '0' as int)
    }
}

/// Lexes the number literal that starts at `st`.
pub open spec fn lex_number(s: Seq<char>, st: int) -> Result<(TokV, int, int), LexErrV> {
    let j1 = digits_end(s, st);
    if j1 + 1 < s.len() && s[j1] == '.' && is_digit(s[j1 + 1]) {
        let j2 = digits_end(s, j1 + 1);
        Ok((TokV::Float(strip_sep(s.subrange(st, j2))), st, j2))
    } else {
        let t = strip_sep(s.subrange(st, j1));
        if dec_value(t) <= i64::MAX {
            Ok((TokV::Int(dec_value(t) as i64), st, j1))
        } else {
            Err(LexErrV::InvalidNumber { text: t, pos: byte_at(s, st) })
        }
    }
}

// ── Strings ───────────────────────────────────────────────────

/// The character that the escape `\e` stands for.
pub open spec fn unescape(e: char) -> char {
    if e == 'n' {
        '\n'
    } else if e == 't' {
        '\t'
    } else {
        e
    }
}

/// Scans string contents from `j`, with `buf` decoded so far: `Ok` gives the
/// contents and the index after the closing quote; `Err` gives the index at
/// which the literal was found unterminated.
pub open spec fn str_scan(s: Seq<char>, j: int, buf: Seq<char>) -> Result<(Seq<char>, int), int>
    decreases s.len() - j,
{
    if j < 0 || j >= s.len() {
        Err(j)
    } else if s[j] == '\n' {
        Err(j + 1)
    } else if s[j] == '"' {
        Ok((buf, j + 1))
    } else if s[j] == '\\' {
        if j + 1 >= s.len() {
            Err(j + 1)
        } else {
            str_scan(s, j + 2, buf.push(unescape(s[j + 1])))
        }
    } else {
        str_scan(s, j + 1, buf.push(s[j]))
    }
}

pub proof fn lemma_str_scan(s: Seq<char>, j: int, buf: Seq<char>)
    requires
        0 <= j <= s.len(),
    ensures
        str_scan(s, j, buf) matches Ok((_, e)) ==> j < e <= s.len(),
        str_scan(s, j, buf) matches Err(e) ==> j <= e <= s.len(),
    decreases s.len() - j,
{
    if j < s.len() && s[j] != '\n' && s[j] != '"' {
        if s[j] == '\\' {
            if j + 1 < s.len() {
                lemma_str_scan(s, j + 2, buf.push(unescape(s[j + 1])));
            }
        } else {
            lemma_str_scan(s, j + 1, buf.push(s[j]));
        }
    }
}

/// Lexes the string literal whose opening quote is at `st`.
pub open spec fn lex_string(s: Seq<char>, st: int) -> Result<(TokV, int, int), LexErrV> {
    match str_scan(s, st + 1, Seq::empty()) {
        Ok((b, e)) => Ok((TokV::Str(b), st, e)),
        Err(e) => Err(LexErrV::UnterminatedString { start: byte_at(s, st), end: byte_at(s, e) }),
    }
}

// ── Identifiers and keywords ──────────────────────────────────

/// End of the run of identifier characters starting at `j`.
pub open spec fn ident_end(s: Seq<char>, j: int) -> int
    decreases s.len() - j,
{
    if 0 <= j < s.len() && ident_continue(s[j]) {
        ident_end(s, j + 1)
    } else {
        j
    }
}

pub proof fn lemma_ident_end(s: Seq<char>, j: int)
    requires
        0 <= j <= s.len(),
    ensures
        j <= ident_end(s, j) <= s.len(),
    decreases s.len() - j,
{
    if j < s.len() && ident_continue(s[j]) {
        lemma_ident_end(s, j + 1);
    }
}

/// The keyword that `t` spells, or an identifier.
pub open spec fn keyword_of(t: Seq<char>) -> TokV {
    if t == "fn"@ {
        TokV::Plain(TokenKind::Fn)
    } else if t == "type"@ {
        TokV::Plain(TokenKind::Type)
    } else if t == "enum"@ {
        TokV::Plain(TokenKind::Enum)
    } else if t == "struct"@ {
        TokV::Plain(TokenKind::Struct)
    } else if t == "match"@ {
        TokV::Plain(TokenKind::Match)
    } else if t == "if"@ {
        TokV::Plain(TokenKind::If)
    } else if t == "else"@ {
        TokV::Plain(TokenKind::Else)
    } else if t == "for"@ {
        TokV::Plain(TokenKind::For)
    } else if t == "in"@ {
        TokV::Plain(TokenKind::In)
    } else if t == "return"@ {
        TokV::Plain(TokenKind::Return)
    } else if t == "defer"@ {
        TokV::Plain(TokenKind::Defer)
    } else if t == "while"@ {
        TokV::Plain(TokenKind::While)
    } else if t == "loop"@ {
        TokV::Plain(TokenKind::Loop)
    } else if t == "break"@ {
        TokV::Plain(TokenKind::Break)
    } else if t == "continue"@ {
        TokV::Plain(TokenKind::Continue)
    } else if t == "as"@ {
        TokV::Plain(TokenKind::As)
    } else if t == "import"@ {
        TokV::Plain(TokenKind::Import)
    } else if t == "base"@ {
        TokV::Plain(TokenKind::Base)
    } else if t == "safe"@ {
        TokV::Plain(TokenKind::Safe)
    } else if t == "read"@ {
        TokV::Plain(TokenKind::Read)
    } else if t == "mut"@ {
        TokV::Plain(TokenKind::Mut)
    } else if t == "move"@ {
        TokV::Plain(TokenKind::Move)
    } else if t == "or_else"@ {
        TokV::Plain(TokenKind::OrElse)
    } else if t == "or_return"@ {
        TokV::Plain(TokenKind::OrReturn)
    } else if t == "or_panic"@ {
        TokV::Plain(TokenKind::OrPanic)
    } else if t == "or_zero"@ {
        TokV::Plain(TokenKind::OrZero)
    } else if t == "or_nil"@ {
        TokV::Plain(TokenKind::OrNil)
    } else if t == "let"@ {
        TokV::Plain(TokenKind::Let)
    } else if t == "var"@ {
        TokV::Plain(TokenKind::Var)
    } else if t == "定"@ {
        TokV::Plain(TokenKind::Ding)
    } else if t == "设"@ {
        TokV::Plain(TokenKind::She)
    } else if t == "i8"@ {
        TokV::Plain(TokenKind::I8)
    } else if t == "i16"@ {
        TokV::Plain(TokenKind::I16)
    } else if t == "i32"@ {
        TokV::Plain(TokenKind::I32)
    } else if t == "i64"@ {
        TokV::Plain(TokenKind::I64)
    } else if t == "u8"@ {
        TokV::Plain(TokenKind::U8)
    } else if t == "u16"@ {
        TokV::Plain(TokenKind::U16)
    } else if t == "u32"@ {
        TokV::Plain(TokenKind::U32)
    } else if t == "u64"@ {
        TokV::Plain(TokenKind::U64)
    } else if t == "f32"@ {
        TokV::Plain(TokenKind::F32)
    } else if t == "f64"@ {
        TokV::Plain(TokenKind::F64)
    } else if t == "bool"@ {
        TokV::Plain(TokenKind::BoolTy)
    } else if t == "usize"@ {
        TokV::Plain(TokenKind::Usize)
    } else if t == "str"@ {
        TokV::Plain(TokenKind::StrTy)
    } else if t == "void"@ {
        TokV::Plain(TokenKind::Void)
    } else if t == "true"@ {
        TokV::Plain(TokenKind::Bool(true))
    } else if t == "false"@ {
        TokV::Plain(TokenKind::Bool(false))
    } else {
        TokV::Ident(t)
    }
}

/// Lexes the identifier, keyword or `asm!` that starts at `st`.
pub open spec fn lex_word(s: Seq<char>, st: int) -> Result<(TokV, int, int), LexErrV> {
    let j = ident_end(s, st);
    let t = s.subrange(st, j);
    if t == "asm"@ && j < s.len() && s[j] == '!' {
        Ok((TokV::Plain(TokenKind::AsmBang), st, j + 1))
    } else {
        Ok((keyword_of(t), st, j))
    }
}

// ── Punctuation ───────────────────────────────────────────────

/// Whether the character after `st` is `c`.
pub open spec fn next_is(s: Seq<char>, st: int, c: char) -> bool {
    st + 1 < s.len() && s[st + 1] == c
}

/// The operator or delimiter that starts at `st`, with its length in characters.
pub open spec fn punct(s: Seq<char>, st: int) -> Option<(TokenKind, int)> {
    let c = s[st];
    if c == '(' {
        Some((TokenKind::LParen, 1))
    } else if c == ')' {
        Some((TokenKind::RParen, 1))
    } else if c == '{' {
        Some((TokenKind::LBrace, 1))
    } else if c == '}' {
        Some((TokenKind::RBrace, 1))
    } else if c == '[' {
        Some((TokenKind::LBracket, 1))
    } else if c == ']' {
        Some((TokenKind::RBracket, 1))
    } else if c == ',' {
        Some((TokenKind::Comma, 1))
    } else if c == ';' {
        Some((TokenKind::Semi, 1))
    } else if c == '@' {
        Some((TokenKind::At, 1))
    } else if c == '%' {
        Some((TokenKind::Percent, 1))
    } else if c == '/' {
        Some((TokenKind::Slash, 1))
    } else if c == '?' {
        Some((TokenKind::Question, 1))
    } else if c == '*' {
        Some((TokenKind::Star, 1))
    } else if c == '^' {
        Some((TokenKind::Caret, 1))
    } else if c == '~' {
        Some((TokenKind::Tilde, 1))
    } else if c == '+' {
        if next_is(s, st, '+') { Some((TokenKind::PlusPlus, 2)) } else { Some((TokenKind::Plus, 1)) }
    } else if c == '-' {
        if next_is(s, st, '>') { Some((TokenKind::Arrow, 2)) } else { Some((TokenKind::Minus, 1)) }
    } else if c == '=' {
        if next_is(s, st, '>') {
            Some((TokenKind::FatArrow, 2))
        } else if next_is(s, st, '=') {
            Some((TokenKind::Eq, 2))
        } else {
            Some((TokenKind::Assign, 1))
        }
    } else if c == '!' {
        if next_is(s, st, '=') { Some((TokenKind::NotEq, 2)) } else { Some((TokenKind::Not, 1)) }
    } else if c == '<' {
        if next_is(s, st, '=') {
            Some((TokenKind::LtEq, 2))
        } else if next_is(s, st, '<') {
            Some((TokenKind::Shl, 2))
        } else {
            Some((TokenKind::Lt, 1))
        }
    } else if c == '>' {
        if next_is(s, st, '=') {
            Some((TokenKind::GtEq, 2))
        } else if next_is(s, st, '>') {
            Some((TokenKind::Shr, 2))
        } else {
            Some((TokenKind::Gt, 1))
        }
    } else if c == '&' {
        if next_is(s, st, '&') { Some((TokenKind::And, 2)) } else { Some((TokenKind::Amp, 1)) }
    } else if c == '|' {
        if next_is(s, st, '>') {
            Some((TokenKind::Pipe, 2))
        } else if next_is(s, st, '|') {
            Some((TokenKind::Or, 2))
        } else {
            Some((TokenKind::BitOr, 1))
        }
    } else if c == ':' {
        if next_is(s, st, ':') { Some((TokenKind::ColonColon, 2)) } else { Some((TokenKind::Colon, 1)) }
    } else if c == '.' {
        if next_is(s, st, '.') { Some((TokenKind::DotDot, 2)) } else { Some((TokenKind::Dot, 1)) }
    } else {
        None
    }
}

// ── One token ─────────────────────────────────────────────────

/// Model of a lexing error; positions are byte offsets.
pub enum LexErrV {
    UnknownChar { ch: char, pos: int },
    UnterminatedString { start: int, end: int },
    InvalidNumber { text: Seq<char>, pos: int },
}

/// The token that follows position `i`: its kind and the character indices
/// where it starts and ends, or the error that the lexer reports there.
pub open spec fn lex_at(s: Seq<char>, i: int) -> Result<(TokV, int, int), LexErrV> {
    let st = skip_blank(s, i, false);
    if st >= s.len() {
        Ok((TokV::Plain(TokenKind::Eof), st, st))
    } else {
        let c = s[st];
        if c == '\n' {
            Ok((TokV::Plain(TokenKind::Newline), st, st + 1))
        } else if is_digit(c) {
            lex_number(s, st)
        } else if c == '"' {
            lex_string(s, st)
        } else if ident_start(c) {
            lex_word(s, st)
        } else {
            match punct(s, st) {
                Some((k, n)) => Ok((TokV::Plain(k), st, st + n)),
                None => Err(LexErrV::UnknownChar { ch: c, pos: byte_at(s, st) }),
            }
        }
    }
}

/// Every token that `lex_at` gives after `i` ends after `i`, unless it is the end of input.
pub proof fn lemma_lex_at_progress(s: Seq<char>, i: int)
    requires
        0 <= i <= s.len(),
    ensures
        lex_at(s, i) matches Ok((k, a, b)) ==> {
            &&& i <= a <= b <= s.len()
            &&& (k != TokV::Plain(TokenKind::Eof) ==> a < b)
            &&& (k == TokV::Plain(TokenKind::Eof) ==> a == b == s.len())
        },
{
    let st = skip_blank(s, i, false);
    lemma_skip_blank_bounds(s, i, false);
    if st < s.len() {
        let c = s[st];
        if c == '\n' {
        } else if is_digit(c) {
            lemma_digits_end(s, st);
            lemma_digits_end(s, st + 1);
            let j1 = digits_end(s, st);
            if j1 + 1 < s.len() && s[j1] == '.' && is_digit(s[j1 + 1]) {
                lemma_digits_end(s, j1 + 1);
            }
        } else if c == '"' {
            lemma_str_scan(s, st + 1, Seq::empty());
        } else if ident_start(c) {
            lemma_ident_end(s, st);
            lemma_ident_end(s, st + 1);
        } else {
        }
    }
}

// ── The whole token stream ────────────────────────────────────

/// A token as the lexer hands it out: its kind and its byte span.
pub open spec fn tok_at(s: Seq<char>, k: TokV, a: int, b: int) -> (TokV, usize, usize) {
    (k, byte_at(s, a) as usize, byte_at(s, b) as usize)
}

/// The tokens from position `i` to the end of input, the last being `Eof`,
/// or the first error.
pub open spec fn lex_from(s: Seq<char>, i: int) -> Result<Seq<(TokV, usize, usize)>, LexErrV>
    decreases s.len() - i,
{
    if i < 0 || i > s.len() {
        Err(LexErrV::UnknownChar { ch: ' ', pos: -1 })
    } else {
        match lex_at(s, i) {
            Err(e) => Err(e),
            Ok((k, a, b)) => {
                if k == TokV::Plain(TokenKind::Eof) {
                    Ok(seq![tok_at(s, k, a, b)])
                } else {
                    proof {
                        lemma_lex_at_progress(s, i);
                    }
                    match lex_from(s, b) {
                        Err(e) => Err(e),
                        Ok(rest) => Ok(seq![tok_at(s, k, a, b)] + rest),
                    }
                }
            },
        }
    }
}

} // verus!

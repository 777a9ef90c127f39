use vstd::prelude::*;
use crate::token::{Span, Token, TokenKind, TokV};
use crate::text::{chars_of, push_char, string_of, run_is};
use crate::lex_spec::{
    LexErrV, byte_at, byte_len, dec_value, digits_end, ident_continue, ident_end, ident_start,
    is_digit, keyword_of, lemma_byte_at_mono, lemma_byte_at_step, lemma_digits_end,
    lemma_encode_len, lemma_lex_at_progress, lemma_skip_blank_bounds, lemma_str_scan, lex_at,
    lex_from, lex_number, lex_string, lex_word, skip_blank, str_scan, strip_sep, tok_at, width,
};

verus! {

/// Lexing errors.
#[derive(Debug, Clone, PartialEq)]
pub enum LexError {
    /// `unknown character '{ch}' at byte offset {pos}`
    UnknownChar { ch: char, pos: usize },
    /// `unterminated string literal starting at {span:?}`
    UnterminatedString { span: Span },
    /// `invalid numeric literal '{text}' at byte offset {pos}`
    InvalidNumber { text: String, pos: usize },
}

impl View for LexError {
    type V = LexErrV;

    open spec fn view(&self) -> LexErrV {
        match self {
            LexError::UnknownChar { ch, pos } => LexErrV::UnknownChar { ch: *ch, pos: *pos as int },
            LexError::UnterminatedString { span } => LexErrV::UnterminatedString {
                start: span.start as int,
                end: span.end as int,
            },
            LexError::InvalidNumber { text, pos } => LexErrV::InvalidNumber {
                text: text@,
                pos: *pos as int,
            },
        }
    }
}

/// Byte width of `c` in UTF-8 (`char::len_utf8`).
pub fn char_width(c: char) -> (n: usize)
    ensures
        n == width(c),
{
    let u = c as u32;
    if u < 0x80 {
        1
    } else if u < 0x800 {
        2
    } else if u < 0x10000 {
        3
    } else {
        4
    }
}

pub fn char_is_digit(c: char) -> (b: bool)
    ensures
        b == is_digit(c),
{
    '0' <= c && c <= '9'
}

fn char_ident_start(c: char) -> (b: bool)
    ensures
        b == ident_start(c),
{
    ('a' <= c && c <= 'z') || ('A' <= c && c <= 'Z') || c == '_' || (c as u32) >= 0x80
}

fn char_ident_continue(c: char) -> (b: bool)
    ensures
        b == ident_continue(c),
{
    char_ident_start(c) || char_is_digit(c)
}

pub struct Lexer {
    /// The source, character by character.
    chars: Vec<char>,
    /// Current character index into `chars`.
    pos: usize,
    /// Byte offset of `pos` in the UTF-8 source.
    byte_pos: usize,
}

impl Lexer {
    /// The source being lexed.
    pub closed spec fn source(&self) -> Seq<char> {
        self.chars@
    }

    /// Character index of the next character to lex.
    pub closed spec fn at(&self) -> int {
        self.pos as int
    }

    pub closed spec fn wf(&self) -> bool {
        &&& self.pos <= self.chars.len()
        &&& self.byte_pos == byte_at(self.chars@, self.pos as int)
        &&& byte_len(self.chars@) <= usize::MAX
    }

    pub fn new(src: &str) -> (l: Self)
        ensures
            l.wf(),
            l.source() == src@,
            l.at() == 0,
    {
        let chars = chars_of(src);
        let bytes = src.as_bytes();
        let n = bytes.len();
        proof {
            lemma_encode_len(src@);
            assert(chars@.take(0) =~= Seq::<char>::empty());
        }
        Lexer { chars, pos: 0, byte_pos: 0 }
    }

    /// Tokenise the entire source, returning a token list ending with `Eof`,
    /// or the first error.
    pub fn tokenize(&mut self) -> (r: Result<Vec<Token>, LexError>)
        requires
            old(self).wf(),
        ensures
            final(self).wf(),
            final(self).source() == old(self).source(),
            match r {
                Ok(toks) => lex_from(old(self).source(), old(self).at()) == Ok::<
                    Seq<(TokV, usize, usize)>,
                    LexErrV,
                >(toks@.map_values(|t: Token| t@)),
                Err(e) => lex_from(old(self).source(), old(self).at()) == Err::<
                    Seq<(TokV, usize, usize)>,
                    LexErrV,
                >(e@),
            },
    {
        let ghost s = self.chars@;
        let ghost i0 = self.pos as int;
        let mut tokens: Vec<Token> = Vec::new();
        loop
            invariant
                self.wf(),
                self.chars@ == s,
                s == old(self).chars@,
                i0 == old(self).pos,
                lex_from(s, i0) == match lex_from(s, self.pos as int) {
                    Ok(rest) => Ok(tokens@.map_values(|t: Token| t@) + rest),
                    Err(e) => Err::<Seq<(TokV, usize, usize)>, LexErrV>(e),
                },
            decreases s.len() - self.pos,
        {
            let ghost p = self.pos as int;
            let tok = match self.next_token() {
                Ok(t) => t,
                Err(e) => {
                    return Err(e);
                },
            };
            let is_eof = matches!(tok.kind, TokenKind::Eof);
            proof {
                lemma_lex_at_progress(s, p);
            }
            let ghost before = tokens@.map_values(|t: Token| t@);
            tokens.push(tok);
            assert(tokens@.map_values(|t: Token| t@) =~= before.push(tok@));
            if is_eof {
                assert(lex_from(s, p) == Ok::<Seq<(TokV, usize, usize)>, LexErrV>(seq![tok@]));
                assert(before + seq![tok@] =~= before.push(tok@));
                return Ok(tokens);
            }
            assert(forall|r: Seq<(TokV, usize, usize)>| before + (seq![tok@] + r) =~= before.push(tok@) + r);
        }
    }

    // ── Helpers ───────────────────────────────────────────────

    fn current(&self) -> (c: Option<char>)
        requires
            self.wf(),
        ensures
            c == (if self.pos < self.chars.len() { Some(self.chars@[self.pos as int]) } else { None::<char> }),
    {
        if self.pos < self.chars.len() {
            Some(self.chars[self.pos])
        } else {
            None
        }
    }

    fn peek_nth(&self, n: usize) -> (c: Option<char>)
        requires
            self.wf(),
        ensures
            c == (if self.pos + n < self.chars.len() {
                Some(self.chars@[self.pos + n])
            } else {
                None::<char>
            }),
    {
        if n < self.chars.len() - self.pos {
            Some(self.chars[self.pos + n])
        } else {
            None
        }
    }

    fn advance(&mut self) -> (c: Option<char>)
        requires
            old(self).wf(),
        ensures
            final(self).wf(),
            final(self).chars@ == old(self).chars@,
            old(self).pos < old(self).chars.len() ==> c == Some(old(self).chars@[old(self).pos as int])
                && final(self).pos == old(self).pos + 1,
            old(self).pos >= old(self).chars.len() ==> c is None && final(self).pos == old(self).pos,
    {
        if self.pos < self.chars.len() {
            let ch = self.chars[self.pos];
            proof {
                lemma_byte_at_step(self.chars@, self.pos as int);
                lemma_byte_at_mono(self.chars@, self.pos + 1, self.chars.len() as int);
            }
            self.byte_pos = self.byte_pos + char_width(ch);
            self.pos = self.pos + 1;
            Some(ch)
        } else {
            None
        }
    }

    /// Skip spaces, tabs, carriage returns, and `//` line comments.
    /// Newlines are kept so the parser can use them as statement terminators.
    fn skip_whitespace_and_comments(&mut self)
        requires
            old(self).wf(),
        ensures
            final(self).wf(),
            final(self).chars@ == old(self).chars@,
            final(self).pos == skip_blank(old(self).chars@, old(self).pos as int, false),
    {
        let ghost s = self.chars@;
        let ghost p0 = self.pos as int;
        loop
            invariant
                self.wf(),
                self.chars@ == s,
                s == old(self).chars@,
                p0 == old(self).pos,
                skip_blank(s, p0, false) == skip_blank(s, self.pos as int, false),
            decreases s.len() - self.pos,
        {
            let ghost round = self.pos as int;
            while self.pos < self.chars.len() && (self.chars[self.pos] == ' '
                || self.chars[self.pos] == '\t' || self.chars[self.pos] == '\r')
                invariant
                    self.wf(),
                    self.chars@ == s,
                    round <= self.pos,
                    skip_blank(s, p0, false) == skip_blank(s, self.pos as int, false),
                decreases s.len() - self.pos,
            {
                self.advance();
            }
            if self.chars.len() - self.pos > 1 && self.chars[self.pos] == '/' && self.chars[self.pos
                + 1] == '/' {
                self.advance();
                self.advance();
                while self.pos < self.chars.len() && self.chars[self.pos] != '\n'
                    invariant
                        self.wf(),
                        self.chars@ == s,
                        round + 2 <= self.pos,
                        skip_blank(s, p0, false) == skip_blank(s, self.pos as int, true),
                    decreases s.len() - self.pos,
                {
                    self.advance();
                }
                continue;
            }
            return;
        }
    }

    /// The token after the current position.
    fn next_token(&mut self) -> (r: Result<Token, LexError>)
        requires
            old(self).wf(),
        ensures
            final(self).wf(),
            final(self).chars@ == old(self).chars@,
            match r {
                Ok(t) => lex_at(old(self).chars@, old(self).pos as int) matches Ok((k, a, b)) && t@
                    == tok_at(old(self).chars@, k, a, b) && final(self).pos == b,
                Err(e) => lex_at(old(self).chars@, old(self).pos as int) == Err::<
                    (TokV, int, int),
                    LexErrV,
                >(e@),
            },
    {
        let ghost s = self.chars@;
        let ghost p0 = self.pos as int;
        self.skip_whitespace_and_comments();
        proof {
            lemma_skip_blank_bounds(s, p0, false);
            lemma_lex_at_progress(s, p0);
        }
        let start = self.pos;
        let start_byte = self.byte_pos;
        let ch = match self.current() {
            None => {
                return Ok(Token::new(TokenKind::Eof, start_byte, start_byte));
            },
            Some(c) => c,
        };
        if ch == '\n' {
            self.advance();
            return Ok(Token::new(TokenKind::Newline, start_byte, self.byte_pos));
        }
        if char_is_digit(ch) {
            return self.lex_number(start);
        }
        if ch == '"' {
            return self.lex_string(start);
        }
        if char_ident_start(ch) {
            return self.lex_ident_or_keyword(start);
        }
        self.advance();
        let kind = if ch == '(' {
            TokenKind::LParen
        } else if ch == ')' {
            TokenKind::RParen
        } else if ch == '{' {
            TokenKind::LBrace
        } else if ch == '}' {
            TokenKind::RBrace
        } else if ch == '[' {
            TokenKind::LBracket
        } else if ch == ']' {
            TokenKind::RBracket
        } else if ch == ',' {
            TokenKind::Comma
        } else if ch == ';' {
            TokenKind::Semi
        } else if ch == '@' {
            TokenKind::At
        } else if ch == '%' {
            TokenKind::Percent
        } else if ch == '/' {
            TokenKind::Slash
        } else if ch == '?' {
            TokenKind::Question
        } else if ch == '*' {
            TokenKind::Star
        } else if ch == '^' {
            TokenKind::Caret
        } else if ch == '~' {
            TokenKind::Tilde
        } else if ch == '+' {
            if self.current() == Some('+') {
                self.advance();
                TokenKind::PlusPlus
            } else {
                TokenKind::Plus
            }
        } else if ch == '-' {
            if self.current() == Some('>') {
                self.advance();
                TokenKind::Arrow
            } else {
                TokenKind::Minus
            }
        } else if ch == '=' {
            if self.current() == Some('>') {
                self.advance();
                TokenKind::FatArrow
            } else if self.current() == Some('=') {
                self.advance();
                TokenKind::Eq
            } else {
                TokenKind::Assign
            }
        } else if ch == '!' {
            if self.current() == Some('=') {
                self.advance();
                TokenKind::NotEq
            } else {
                TokenKind::Not
            }
        } else if ch == '<' {
            if self.current() == Some('=') {
                self.advance();
                TokenKind::LtEq
            } else if self.current() == Some('<') {
                self.advance();
                TokenKind::Shl
            } else {
                TokenKind::Lt
            }
        } else if ch == '>' {
            if self.current() == Some('=') {
                self.advance();
                TokenKind::GtEq
            } else if self.current() == Some('>') {
                self.advance();
                TokenKind::Shr
            } else {
                TokenKind::Gt
            }
        } else if ch == '&' {
            // A single `&` is address-of or bitwise AND; the parser decides.
            if self.current() == Some('&') {
                self.advance();
                TokenKind::And
            } else {
                TokenKind::Amp
            }
        } else if ch == '|' {
            if self.current() == Some('>') {
                self.advance();
                TokenKind::Pipe
            } else if self.current() == Some('|') {
                self.advance();
                TokenKind::Or
            } else {
                TokenKind::BitOr
            }
        } else if ch == ':' {
            if self.current() == Some(':') {
                self.advance();
                TokenKind::ColonColon
            } else {
                TokenKind::Colon
            }
        } else if ch == '.' {
            if self.current() == Some('.') {
                self.advance();
                TokenKind::DotDot
            } else {
                TokenKind::Dot
            }
        } else {
            return Err(LexError::UnknownChar { ch, pos: start_byte });
        };
        Ok(Token::new(kind, start_byte, self.byte_pos))
    }

    fn lex_number(&mut self, start: usize) -> (r: Result<Token, LexError>)
        requires
            old(self).wf(),
            old(self).pos == start < old(self).chars.len(),
            is_digit(old(self).chars@[start as int]),
        ensures
            final(self).wf(),
            final(self).chars@ == old(self).chars@,
            match r {
                Ok(t) => lex_number(old(self).chars@, start as int) matches Ok((k, a, b)) && t@
                    == tok_at(old(self).chars@, k, a, b) && final(self).pos == b,
                Err(e) => lex_number(old(self).chars@, start as int) == Err::<
                    (TokV, int, int),
                    LexErrV,
                >(e@),
            },
    {
        let ghost s = self.chars@;
        let start_byte = self.byte_pos;
        while self.pos < self.chars.len() && (char_is_digit(self.chars[self.pos])
            || self.chars[self.pos] == '_')
            invariant
                self.wf(),
                self.chars@ == s,
                start <= self.pos,
                digits_end(s, start as int) == digits_end(s, self.pos as int),
            decreases s.len() - self.pos,
        {
            self.advance();
        }
        let j1 = self.pos;
        proof {
            lemma_digits_end(s, start as int);
        }
        let is_float = self.current() == Some('.') && match self.peek_nth(1) {
            Some(c) => char_is_digit(c),
            None => false,
        };
        if is_float {
            self.advance();
            while self.pos < self.chars.len() && (char_is_digit(self.chars[self.pos])
                || self.chars[self.pos] == '_')
                invariant
                    self.wf(),
                    self.chars@ == s,
                    j1 < self.pos,
                    digits_end(s, j1 + 1) == digits_end(s, self.pos as int),
                decreases s.len() - self.pos,
            {
                self.advance();
            }
            let text = self.strip_separators(start, self.pos);
            proof {
                lemma_digits_end(s, j1 + 1);
            }
            Ok(Token::new(TokenKind::Float(text), start_byte, self.byte_pos))
        } else {
            let text = self.strip_separators(start, self.pos);
            match self.decimal(start, self.pos) {
                Some(val) => Ok(Token::new(TokenKind::Int(val), start_byte, self.byte_pos)),
                None => Err(LexError::InvalidNumber { text, pos: start_byte }),
            }
        }
    }

    /// `chars[lo..hi]` without its `_` separators.
    fn strip_separators(&self, lo: usize, hi: usize) -> (t: String)
        requires
            lo <= hi <= self.chars.len(),
        ensures
            t@ == strip_sep(self.chars@.subrange(lo as int, hi as int)),
    {
        let mut t = String::new();
        let mut i = lo;
        proof {
            assert(self.chars@.subrange(lo as int, lo as int) =~= Seq::<char>::empty());
        }
        while i < hi
            invariant
                lo <= i <= hi <= self.chars.len(),
                t@ == strip_sep(self.chars@.subrange(lo as int, i as int)),
            decreases hi - i,
        {
            let c = self.chars[i];
            assert(self.chars@.subrange(lo as int, i + 1).drop_last() =~= self.chars@.subrange(
                lo as int,
                i as int,
            ));
            if c != '_' {
                push_char(&mut t, c);
            }
            i += 1;
        }
        t
    }

    /// The value of the decimal digits (and separators) `chars[lo..hi]`, if it fits in `i64`.
    fn decimal(&self, lo: usize, hi: usize) -> (v: Option<i64>)
        requires
            lo <= hi <= self.chars.len(),
            forall|k: int| lo <= k < hi ==> is_digit(#[trigger] self.chars@[k]) || self.chars@[k] == '_',
        ensures
            ({
                let d = dec_value(strip_sep(self.chars@.subrange(lo as int, hi as int)));
                match v {
                    Some(x) => d <= i64::MAX && x == d,
                    None => d > i64::MAX,
                }
            }),
    {
        let mut acc: i64 = 0;
        let mut over = false;
        let mut i = lo;
        proof {
            assert(self.chars@.subrange(lo as int, lo as int) =~= Seq::<char>::empty());
        }
        while i < hi
            invariant
                lo <= i <= hi <= self.chars.len(),
                forall|k: int| lo <= k < hi ==> is_digit(#[trigger] self.chars@[k]) || self.chars@[k] == '_',
                ({
                    let d = dec_value(strip_sep(self.chars@.subrange(lo as int, i as int)));
                    &&& d >= 0
                    &&& (over ==> d > i64::MAX)
                    &&& (!over ==> acc == d)
                }),
            decreases hi - i,
        {
            let c = self.chars[i];
            let ghost prev = strip_sep(self.chars@.subrange(lo as int, i as int));
            assert(self.chars@.subrange(lo as int, i + 1).drop_last() =~= self.chars@.subrange(
                lo as int,
                i as int,
            ));
            if c != '_' {
                let d = (c as u32 - '0' as u32) as i64;
                proof {
                    let next = prev.push(c);
                    assert(next.drop_last() =~= prev);
                    assert(dec_value(next) == dec_value(prev) * 10 + (c as int - '0' as int));
                    assert(dec_value(prev) * 10 >= dec_value(prev)) by (nonlinear_arith)
                        requires
                            dec_value(prev) >= 0,
                    ;
                }
                if !over {
                    match acc.checked_mul(10) {
                        Some(m) => match m.checked_add(d) {
                            Some(x) => {
                                acc = x;
                            },
                            None => {
                                over = true;
                            },
                        },
                        None => {
                            over = true;
                        },
                    }
                }
            }
            i += 1;
        }
        if over {
            None
        } else {
            Some(acc)
        }
    }

    fn lex_string(&mut self, start: usize) -> (r: Result<Token, LexError>)
        requires
            old(self).wf(),
            old(self).pos == start < old(self).chars.len(),
            old(self).chars@[start as int] == '"',
        ensures
            final(self).wf(),
            final(self).chars@ == old(self).chars@,
            match r {
                Ok(t) => lex_string(old(self).chars@, start as int) matches Ok((k, a, b)) && t@
                    == tok_at(old(self).chars@, k, a, b) && final(self).pos == b,
                Err(e) => lex_string(old(self).chars@, start as int) == Err::<
                    (TokV, int, int),
                    LexErrV,
                >(e@),
            },
    {
        let ghost s = self.chars@;
        let start_byte = self.byte_pos;
        self.advance();  // the opening quote
        let mut buf = String::new();
        loop
            invariant_except_break
                str_scan(s, start + 1, Seq::empty()) == str_scan(s, self.pos as int, buf@),
            invariant
                self.wf(),
                self.chars@ == s,
                s == old(self).chars@,
                start < self.pos,
                start_byte == byte_at(s, start as int),
            ensures
                str_scan(s, start + 1, Seq::empty()) == Ok::<(Seq<char>, int), int>(
                    (buf@, self.pos as int),
                ),
            decreases s.len() - self.pos,
        {
            let ghost p = self.pos as int;
            match self.advance() {
                None => {
                    return Err(
                        LexError::UnterminatedString { span: Span::new(start_byte, self.byte_pos) },
                    );
                },
                Some(c) => {
                    if c == '\n' {
                        return Err(
                            LexError::UnterminatedString {
                                span: Span::new(start_byte, self.byte_pos),
                            },
                        );
                    } else if c == '"' {
                        break ;
                    } else if c == '\\' {
                        match self.advance() {
                            Some(e) => {
                                let u = if e == 'n' {
                                    '\n'
                                } else if e == 't' {
                                    '\t'
                                } else {
                                    e
                                };
                                push_char(&mut buf, u);
                            },
                            None => {
                                return Err(
                                    LexError::UnterminatedString {
                                        span: Span::new(start_byte, self.byte_pos),
                                    },
                                );
                            },
                        }
                    } else {
                        push_char(&mut buf, c);
                    }
                },
            }
        }
        proof {
            lemma_str_scan(s, start + 1, Seq::empty());
        }
        Ok(Token::new(TokenKind::Str(buf), start_byte, self.byte_pos))
    }

    fn lex_ident_or_keyword(&mut self, start: usize) -> (r: Result<Token, LexError>)
        requires
            old(self).wf(),
            old(self).pos == start < old(self).chars.len(),
            ident_start(old(self).chars@[start as int]),
        ensures
            final(self).wf(),
            final(self).chars@ == old(self).chars@,
            match r {
                Ok(t) => lex_word(old(self).chars@, start as int) matches Ok((k, a, b)) && t@
                    == tok_at(old(self).chars@, k, a, b) && final(self).pos == b,
                Err(e) => false,
            },
    {
        let ghost s = self.chars@;
        let start_byte = self.byte_pos;
        while self.pos < self.chars.len() && char_ident_continue(self.chars[self.pos])
            invariant
                self.wf(),
                self.chars@ == s,
                start <= self.pos,
                ident_end(s, start as int) == ident_end(s, self.pos as int),
            decreases s.len() - self.pos,
        {
            self.advance();
        }
        let end = self.pos;
        // `asm!` — the `!` is part of the macro-call sigil, consumed here.
        if run_is(&self.chars, start, end, "asm") && self.current() == Some('!') {
            self.advance();
            return Ok(Token::new(TokenKind::AsmBang, start_byte, self.byte_pos));
        }
        let kind = Self::keyword(&self.chars, start, end);
        Ok(Token::new(kind, start_byte, self.byte_pos))
    }

    /// The keyword spelled by `v[lo..hi]`, or an identifier.
    fn keyword(v: &Vec<char>, lo: usize, hi: usize) -> (k: TokenKind)
        requires
            lo <= hi <= v.len(),
        ensures
            k@ == keyword_of(v@.subrange(lo as int, hi as int)),
    {
        if run_is(v, lo, hi, "fn") {
            TokenKind::Fn
        } else if run_is(v, lo, hi, "type") {
            TokenKind::Type
        } else if run_is(v, lo, hi, "enum") {
            TokenKind::Enum
        } else if run_is(v, lo, hi, "struct") {
            TokenKind::Struct
        } else if run_is(v, lo, hi, "match") {
            TokenKind::Match
        } else if run_is(v, lo, hi, "if") {
            TokenKind::If
        } else if run_is(v, lo, hi, "else") {
            TokenKind::Else
        } else if run_is(v, lo, hi, "for") {
            TokenKind::For
        } else if run_is(v, lo, hi, "in") {
            TokenKind::In
        } else if run_is(v, lo, hi, "return") {
            TokenKind::Return
        } else if run_is(v, lo, hi, "defer") {
            TokenKind::Defer
        } else if run_is(v, lo, hi, "while") {
            TokenKind::While
        } else if run_is(v, lo, hi, "loop") {
            TokenKind::Loop
        } else if run_is(v, lo, hi, "break") {
            TokenKind::Break
        } else if run_is(v, lo, hi, "continue") {
            TokenKind::Continue
        } else if run_is(v, lo, hi, "as") {
            TokenKind::As
        } else if run_is(v, lo, hi, "import") {
            TokenKind::Import
        } else if run_is(v, lo, hi, "base") {
            TokenKind::Base
        } else if run_is(v, lo, hi, "safe") {
            TokenKind::Safe
        } else if run_is(v, lo, hi, "read") {
            TokenKind::Read
        } else if run_is(v, lo, hi, "mut") {
            TokenKind::Mut
        } else if run_is(v, lo, hi, "move") {
            TokenKind::Move
        } else if run_is(v, lo, hi, "or_else") {
            TokenKind::OrElse
        } else if run_is(v, lo, hi, "or_return") {
            TokenKind::OrReturn
        } else if run_is(v, lo, hi, "or_panic") {
            TokenKind::OrPanic
        } else if run_is(v, lo, hi, "or_zero") {
            TokenKind::OrZero
        } else if run_is(v, lo, hi, "or_nil") {
            TokenKind::OrNil
        } else if run_is(v, lo, hi, "let") {
            TokenKind::Let
        } else if run_is(v, lo, hi, "var") {
            TokenKind::Var
        } else if run_is(v, lo, hi, "定") {
            TokenKind::Ding
        } else if run_is(v, lo, hi, "设") {
            TokenKind::She
        } else if run_is(v, lo, hi, "i8") {
            TokenKind::I8
        } else if run_is(v, lo, hi, "i16") {
            TokenKind::I16
        } else if run_is(v, lo, hi, "i32") {
            TokenKind::I32
        } else if run_is(v, lo, hi, "i64") {
            TokenKind::I64
        } else if run_is(v, lo, hi, "u8") {
            TokenKind::U8
        } else if run_is(v, lo, hi, "u16") {
            TokenKind::U16
        } else if run_is(v, lo, hi, "u32") {
            TokenKind::U32
        } else if run_is(v, lo, hi, "u64") {
            TokenKind::U64
        } else if run_is(v, lo, hi, "f32") {
            TokenKind::F32
        } else if run_is(v, lo, hi, "f64") {
            TokenKind::F64
        } else if run_is(v, lo, hi, "bool") {
            TokenKind::BoolTy
        } else if run_is(v, lo, hi, "usize") {
            TokenKind::Usize
        } else if run_is(v, lo, hi, "str") {
            TokenKind::StrTy
        } else if run_is(v, lo, hi, "void") {
            TokenKind::Void
        } else if run_is(v, lo, hi, "true") {
            TokenKind::Bool(true)
        } else if run_is(v, lo, hi, "false") {
            TokenKind::Bool(false)
        } else {
            TokenKind::Ident(string_of(v, lo, hi))
        }
    }
}

} // verus!

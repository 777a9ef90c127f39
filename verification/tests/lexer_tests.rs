use rym::lexer::{LexError, Lexer};
use rym::token::{Span, Token, TokenKind};

fn lex(src: &str) -> Vec<TokenKind> {
    Lexer::new(src)
        .tokenize()
        .unwrap()
        .into_iter()
        .filter(|t| !matches!(t.kind, TokenKind::Newline | TokenKind::Eof))
        .map(|t| t.kind)
        .collect()
}

#[test]
fn keywords() {
    assert_eq!(lex("fn type match"), vec![TokenKind::Fn, TokenKind::Type, TokenKind::Match]);
}

#[test]
fn chinese_keywords() {
    assert_eq!(lex("定 设"), vec![TokenKind::Ding, TokenKind::She]);
}

#[test]
fn pipe_operator() {
    assert_eq!(
        lex("a |> b"),
        vec![TokenKind::Ident("a".into()), TokenKind::Pipe, TokenKind::Ident("b".into())]
    );
}

#[test]
fn arrows() {
    assert_eq!(lex("-> =>"), vec![TokenKind::Arrow, TokenKind::FatArrow]);
}

#[test]
fn numbers() {
    let toks = lex("42 3.14 1_000");
    assert_eq!(toks.len(), 3);
    assert_eq!(toks[0], TokenKind::Int(42));
    match &toks[1] {
        TokenKind::Float(text) => assert_eq!(text.parse::<f64>().unwrap(), 3.14),
        other => panic!("expected a float, got {other:?}"),
    }
    assert_eq!(toks[2], TokenKind::Int(1000));
}

#[test]
fn string_literal() {
    assert_eq!(lex(r#""hello Rym""#), vec![TokenKind::Str("hello Rym".into())]);
}

#[test]
fn chinese_identifier() {
    let tokens = lex("fn 解析请求(原始: read []u8)");
    assert!(tokens.contains(&TokenKind::Fn));
    assert!(tokens.contains(&TokenKind::Ident("解析请求".into())));
    assert!(tokens.contains(&TokenKind::Read));
}

#[test]
fn error_operators() {
    assert_eq!(
        lex("or_return or_panic or_else or_zero or_nil"),
        vec![
            TokenKind::OrReturn,
            TokenKind::OrPanic,
            TokenKind::OrElse,
            TokenKind::OrZero,
            TokenKind::OrNil,
        ]
    );
}

#[test]
fn tokens_end_with_a_single_eof() {
    for src in ["", "定 x = 1\n", "fn f() -> void {}", "a |> b() |> c()", "// only a comment"] {
        let toks = Lexer::new(src).tokenize().unwrap();
        assert_eq!(toks.last().unwrap().kind, TokenKind::Eof);
        assert_eq!(toks.iter().filter(|t| t.kind == TokenKind::Eof).count(), 1);
    }
}

#[test]
fn spans_are_byte_offsets() {
    let toks = Lexer::new("定 x").tokenize().unwrap();
    // `定` is three bytes in UTF-8.
    assert_eq!(toks[0].span, Span::new(0, 3));
    assert_eq!(toks[1].span, Span::new(4, 5));
    assert_eq!(toks[0].span.len(), 3);
}

#[test]
fn newlines_are_tokens() {
    let toks = Lexer::new("a\nb").tokenize().unwrap();
    let kinds: Vec<TokenKind> = toks.into_iter().map(|t| t.kind).collect();
    assert_eq!(
        kinds,
        vec![
            TokenKind::Ident("a".into()),
            TokenKind::Newline,
            TokenKind::Ident("b".into()),
            TokenKind::Eof,
        ]
    );
}

#[test]
fn unterminated_string_is_an_error() {
    let r = Lexer::new("\"abc").tokenize();
    assert!(matches!(r, Err(LexError::UnterminatedString { .. })));
}

#[test]
fn unknown_character_is_an_error() {
    let r = Lexer::new("a # b").tokenize();
    assert!(matches!(r, Err(LexError::UnknownChar { ch: '#', .. })));
}

#[test]
fn string_escapes() {
    assert_eq!(lex(r#""a\nb\"c""#), vec![TokenKind::Str("a\nb\"c".into())]);
}

#[test]
fn token_new_sets_span() {
    let t = Token::new(TokenKind::Comma, 2, 3);
    assert_eq!(t.kind, TokenKind::Comma);
    assert_eq!(t.span, Span::new(2, 3));
}

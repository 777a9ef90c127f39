use rym::ast::{ExprKind, ItemKind, Ring, SourceFile, StmtKind};
use rym::lexer::Lexer;
use rym::parser::{ParseError, Parser};

fn parse(src: &str) -> SourceFile {
    let tokens = Lexer::new(src).tokenize().unwrap();
    Parser::new(tokens).parse_file().unwrap()
}

fn parse_err(src: &str) -> ParseError {
    let tokens = Lexer::new(src).tokenize().unwrap();
    match Parser::new(tokens).parse_file() {
        Ok(_) => panic!("expected a parse error"),
        Err(e) => e,
    }
}

#[test]
fn empty_file() {
    let f = parse("");
    assert!(f.def_zone.is_empty());
    assert!(f.alg_zone.is_empty());
}

#[test]
fn base_ring_declaration() {
    let f = parse("base\nfn foo() -> void {}");
    assert_eq!(f.ring, Ring::Base);
    assert_eq!(f.def_zone.len(), 1);
}

#[test]
fn simple_fn() {
    let f = parse("fn add(a: read i32, b: read i32) -> i32 { return a }");
    assert_eq!(f.def_zone.len(), 1);
    match &f.def_zone[0].kind {
        ItemKind::Fn(fn_def) => {
            assert_eq!(fn_def.name, "add");
            assert_eq!(fn_def.params.len(), 2);
        }
        _ => panic!("expected fn"),
    }
}

#[test]
fn chinese_fn() {
    let f = parse("fn 解析(原始: read []u8) -> void {}");
    match &f.def_zone[0].kind {
        ItemKind::Fn(fn_def) => assert_eq!(fn_def.name, "解析"),
        _ => panic!("expected fn"),
    }
}

#[test]
fn let_binding() {
    let f = parse("定 x = 42");
    assert_eq!(f.alg_zone.len(), 1);
    assert!(matches!(f.alg_zone[0].kind, StmtKind::Let { .. }));
}

#[test]
fn var_binding() {
    let f = parse("设 x = 42");
    assert!(matches!(f.alg_zone[0].kind, StmtKind::Var { .. }));
}

#[test]
fn pipeline_expr() {
    let f = parse("a |> b() |> c()");
    assert_eq!(f.alg_zone.len(), 1);
    match &f.alg_zone[0].kind {
        StmtKind::Expr(e) => assert!(matches!(e.kind, ExprKind::Pipe { .. })),
        _ => panic!("expected expr stmt"),
    }
}

#[test]
fn import() {
    let f = parse(r#"import "safe/fs.rym""#);
    assert!(matches!(f.def_zone[0].kind, ItemKind::Import(_)));
}

#[test]
fn type_def() {
    let f = parse("type 请求 { 路径: str }");
    match &f.def_zone[0].kind {
        ItemKind::Type(t) => {
            assert_eq!(t.name, "请求");
            assert_eq!(t.fields.len(), 1);
        }
        _ => panic!("expected type"),
    }
}

#[test]
fn or_return() {
    let f = parse("定 x = foo().or_return?");
    match &f.alg_zone[0].kind {
        StmtKind::Let { init, .. } => {
            assert!(matches!(init.kind, ExprKind::OrReturn(_)));
        }
        _ => panic!(),
    }
}

#[test]
fn safe_ring_is_the_default() {
    let f = parse("fn foo() -> void {}");
    assert_eq!(f.ring, Ring::Safe);
}

#[test]
fn pipes_associate_to_the_left() {
    let f = parse("a |> b() |> c()");
    match &f.alg_zone[0].kind {
        StmtKind::Expr(e) => match &e.kind {
            ExprKind::Pipe { left, right } => {
                assert!(matches!(left.kind, ExprKind::Pipe { .. }));
                assert!(matches!(right.kind, ExprKind::Call { .. }));
            }
            _ => panic!("expected a pipe"),
        },
        _ => panic!("expected expr stmt"),
    }
}

#[test]
fn missing_closing_paren_is_an_error() {
    let e = parse_err("fn f(a: read i32 -> void {}");
    assert!(e.span().is_some());
}

#[test]
fn enum_def() {
    let f = parse("enum 颜色 { 红, 绿: i32 }");
    match &f.def_zone[0].kind {
        ItemKind::Enum(e) => {
            assert_eq!(e.name, "颜色");
            assert_eq!(e.variants.len(), 2);
            assert!(e.variants[0].payload.is_none());
            assert!(e.variants[1].payload.is_some());
        }
        _ => panic!("expected enum"),
    }
}

#[test]
fn nested_if_is_refused() {
    let e = parse_err("fn f() -> void { if a { if b { x } } }");
    assert!(matches!(e, ParseError::IllegalNesting { .. }));
}

#[test]
fn match_inside_for_is_refused() {
    let e = parse_err("fn f() -> void { for i in xs { match y { 1 => 2 } } }");
    assert!(matches!(e, ParseError::IllegalNesting { .. }));
}

#[test]
fn definition_after_statement_is_refused() {
    let e = parse_err("let x = 1\nfn f() -> void {}");
    assert!(matches!(e, ParseError::DefInAlgZone { .. }));
}

#[test]
fn sequential_ifs_are_allowed() {
    let f = parse("fn f() -> void { if a { x } else { y }\nif b { z } }");
    match &f.def_zone[0].kind {
        ItemKind::Fn(func) => {
            assert_eq!(func.body.len(), 2);
            match &func.body[0].kind {
                StmtKind::Expr(e) => match &e.kind {
                    ExprKind::If { else_, .. } => assert!(else_.is_some()),
                    _ => panic!("expected if"),
                },
                _ => panic!("expected expr stmt"),
            }
        }
        _ => panic!("expected fn"),
    }
}

#[test]
fn match_arms_and_patterns() {
    let f = parse("match 结果 { IO结果.成功 => 1, 0 => 2, _ => 3, else => 4 }");
    match &f.alg_zone[0].kind {
        StmtKind::Expr(e) => match &e.kind {
            ExprKind::Match { arms, .. } => {
                assert_eq!(arms.len(), 4);
                assert!(matches!(arms[0].pattern, rym::ast::Pattern::Variant { .. }));
                assert!(matches!(arms[1].pattern, rym::ast::Pattern::Lit(ExprKind::Int(0))));
                assert!(matches!(arms[2].pattern, rym::ast::Pattern::Wildcard));
                assert!(matches!(arms[3].pattern, rym::ast::Pattern::Else));
            }
            _ => panic!("expected match"),
        },
        _ => panic!("expected expr stmt"),
    }
}

#[test]
fn struct_literal_and_field_access() {
    let f = parse("定 p = 点 { x = 1, y = 2 }\np.x");
    match &f.alg_zone[0].kind {
        StmtKind::Let { init, .. } => match &init.kind {
            ExprKind::StructLit { name, fields } => {
                assert_eq!(name, "点");
                assert_eq!(fields.len(), 2);
                assert_eq!(fields[1].name, "y");
            }
            _ => panic!("expected struct literal"),
        },
        _ => panic!("expected let"),
    }
    match &f.alg_zone[1].kind {
        StmtKind::Expr(e) => assert!(matches!(&e.kind, ExprKind::Field { field, .. } if field == "x")),
        _ => panic!("expected expr stmt"),
    }
}

#[test]
fn matrix_literal_rows_and_cols() {
    let f = parse("[1, 2, 3; 4, 5, 6]");
    match &f.alg_zone[0].kind {
        StmtKind::Expr(e) => match &e.kind {
            ExprKind::MatrixLit { elems, rows, cols } => {
                assert_eq!(elems.len(), 6);
                assert_eq!(*rows, 2);
                assert_eq!(*cols, 3);
            }
            _ => panic!("expected matrix literal"),
        },
        _ => panic!("expected expr stmt"),
    }
}

#[test]
fn array_literal() {
    let f = parse("[1, 2, 3]");
    match &f.alg_zone[0].kind {
        StmtKind::Expr(e) => assert!(matches!(&e.kind, ExprKind::ArrayLit(es) if es.len() == 3)),
        _ => panic!("expected expr stmt"),
    }
}

#[test]
fn alloc_call_and_or_forms() {
    let f = parse("a.alloc(u8, 16).or_panic(\"oom\")\nb.or_else(0)\nc.or_zero\nd.or_nil");
    match &f.alg_zone[0].kind {
        StmtKind::Expr(e) => match &e.kind {
            ExprKind::OrPanic(inner, msg) => {
                assert_eq!(msg, "oom");
                assert!(matches!(inner.kind, ExprKind::AllocCall { .. }));
            }
            _ => panic!("expected or_panic"),
        },
        _ => panic!("expected expr stmt"),
    }
    assert!(matches!(&f.alg_zone[1].kind, StmtKind::Expr(e) if matches!(e.kind, ExprKind::OrElse(..))));
    assert!(matches!(&f.alg_zone[2].kind, StmtKind::Expr(e) if matches!(e.kind, ExprKind::OrZero(..))));
    assert!(matches!(&f.alg_zone[3].kind, StmtKind::Expr(e) if matches!(e.kind, ExprKind::OrNil(..))));
}

#[test]
fn call_arguments_with_modes_and_labels() {
    let f = parse("f(read x, 前缀: \"Mr.\", mut y)");
    match &f.alg_zone[0].kind {
        StmtKind::Expr(e) => match &e.kind {
            ExprKind::Call { args, .. } => {
                assert_eq!(args.len(), 3);
                assert_eq!(args[0].mode, rym::ast::OwnershipMode::Read);
                assert_eq!(args[1].label.as_deref(), Some("前缀"));
                assert_eq!(args[2].mode, rym::ast::OwnershipMode::Mut);
            }
            _ => panic!("expected call"),
        },
        _ => panic!("expected expr stmt"),
    }
}

#[test]
fn operator_precedence() {
    let f = parse("1 + 2 * 3 == 7 && !b");
    match &f.alg_zone[0].kind {
        StmtKind::Expr(e) => match &e.kind {
            ExprKind::BinOp { op, left, right } => {
                assert_eq!(*op, rym::ast::BinOp::And);
                assert!(matches!(left.kind, ExprKind::BinOp { op: rym::ast::BinOp::Eq, .. }));
                assert!(matches!(right.kind, ExprKind::UnOp { op: rym::ast::UnOp::Not, .. }));
            }
            _ => panic!("expected binop"),
        },
        _ => panic!("expected expr stmt"),
    }
}

#[test]
fn compiler_extension_item() {
    let f = parse("base\n@lower_pass(node = \"Syscall\")\nfn 降低() -> void {}");
    match &f.def_zone[0].kind {
        ItemKind::CompilerExt(c) => {
            assert_eq!(c.phase, rym::ast::ExtPhase::LowerPass);
            assert_eq!(c.fn_name, "降低");
        }
        _ => panic!("expected compiler extension"),
    }
}

#[test]
fn unknown_extension_phase_is_an_error() {
    let e = parse_err("@frobnicate\nfn f() -> void {}");
    match e {
        ParseError::UnexpectedToken { expected, .. } => assert_eq!(expected, "known compiler extension phase"),
        _ => panic!("expected unexpected token"),
    }
}

#[test]
fn assignment_statement() {
    let f = parse("var x = 1\nx = x + 1");
    assert!(matches!(f.alg_zone[1].kind, StmtKind::Assign { .. }));
}

#[test]
fn function_pointer_and_result_types() {
    let f = parse("fn f(g: fn(i32, i32) -> i32, r: Result(i32, str)) -> Option(u8) {}");
    match &f.def_zone[0].kind {
        ItemKind::Fn(func) => {
            assert!(matches!(func.params[0].ty.kind, rym::ast::TyKind::FnPtr { .. }));
            assert!(matches!(func.params[1].ty.kind, rym::ast::TyKind::Result(..)));
            assert!(matches!(func.ret.kind, rym::ast::TyKind::Option(..)));
        }
        _ => panic!("expected fn"),
    }
}

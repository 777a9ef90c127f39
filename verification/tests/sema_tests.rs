use rym::ast::SourceFile;
use rym::lexer::Lexer;
use rym::parser::Parser;
use rym::sema_error::SemaError;
use rym::ty_check::TyChecker;

fn parse(src: &str) -> SourceFile {
    let tokens = Lexer::new(src).tokenize().unwrap();
    Parser::new(tokens).parse_file().unwrap()
}

fn check(src: &str) -> Vec<SemaError> {
    let file = parse(src);
    TyChecker::new().check(&file)
}

fn assert_ok(src: &str) {
    let errs = check(src);
    assert!(errs.is_empty(), "unexpected errors: {errs:?}");
}

fn assert_err(src: &str) {
    let errs = check(src);
    assert!(!errs.is_empty(), "expected errors but got none");
}

#[test]
fn let_binding_ok() {
    assert_ok("定 x = 42");
}

#[test]
fn var_binding_ok() {
    assert_ok("设 x = 42");
}

#[test]
fn mutate_immutable_binding() {
    assert_err("定 x = 42\nx = 10");
}

#[test]
fn simple_fn_ok() {
    assert_ok("fn add(a: read i32, b: read i32) -> i32 { return a }");
}

#[test]
fn undefined_variable() {
    assert_err("定 x = y");
}

#[test]
fn if_non_bool_cond() {
    assert_err("if 42 { return 1 }");
}

#[test]
fn or_return_on_result_ok() {
    assert_ok(
        "fn foo() -> Result(i64, str) { return Ok(1) }\n\
         定 x = foo().or_return?",
    );
}

#[test]
fn pipeline_ok() {
    assert_ok(
        "fn double(n: read i32) -> i32 { return n }\n\
         定 x = 1\n\
         x |> double()",
    );
}

#[test]
fn chinese_fn_ok() {
    assert_ok("fn 解析(原始: read []u8) -> void {}");
}

#[test]
fn struct_lit_ok() {
    assert_ok(
        "type 请求 { 路径: str }\n\
         定 r = 请求{ 路径=\"/\" }",
    );
}

#[test]
fn struct_field_type_ok() {
    assert_ok(
        "type Point { x: i64\ny: i64 }\n\
         fn get_x(p: read Point) -> i64 { return p.x }\n\
         定 p = Point{ x=1, y=2 }\n\
         定 x = get_x(p)",
    );
}

#[test]
fn struct_unknown_field_err() {
    assert_err(
        "type Point { x: i64 }\n\
         定 p = Point{ x=1 }\n\
         定 v = p.z",
    );
}

#[test]
fn struct_wrong_field_type_err() {
    assert_err(
        "type Point { x: i64 }\n\
         定 p = Point{ x=true }",
    );
}

#[test]
fn mutate_immutable_reports_the_name() {
    let errs = check("定 x = 42\nx = 10");
    assert_eq!(errs.len(), 1);
    match &errs[0] {
        SemaError::MutateImmutable { name, .. } => assert_eq!(name, "x"),
        other => panic!("unexpected error {other:?}"),
    }
}

#[test]
fn mutable_binding_may_be_assigned() {
    assert_ok("设 x = 42\nx = 10");
}

#[test]
fn undefined_variable_reports_name_and_span() {
    let errs = check("定 x = y");
    assert_eq!(errs.len(), 1);
    match &errs[0] {
        SemaError::Undefined { name, span } => {
            assert_eq!(name, "y");
            assert_eq!(errs[0].span(), *span);
            assert_eq!(span.start, 8);
        }
        other => panic!("unexpected error {other:?}"),
    }
}

#[test]
fn if_condition_mismatch_names_the_types() {
    let errs = check("if 42 { return 1 }");
    match &errs[0] {
        SemaError::TypeMismatch { expected, found, .. } => {
            assert_eq!(expected, "bool");
            assert_eq!(found, "i64");
        }
        other => panic!("unexpected error {other:?}"),
    }
}

#[test]
fn or_return_needs_a_result() {
    let errs = check(
        "fn foo() -> i64 { return 1 }\n\
         定 x = foo().or_return?",
    );
    assert!(errs.iter().any(|e| matches!(e, SemaError::OrReturnNonResult { .. })));
}

#[test]
fn argument_count_is_checked() {
    let errs = check(
        "fn double(n: read i32) -> i32 { return n }\n\
         定 x = double(1, 2)",
    );
    match &errs[0] {
        SemaError::ArgCountMismatch { name, expected, found, .. } => {
            assert_eq!(name, "double");
            assert_eq!(*expected, 1);
            assert_eq!(*found, 2);
        }
        other => panic!("unexpected error {other:?}"),
    }
}

#[test]
fn use_after_move_is_reported() {
    let errs = check(
        "fn take(v: move i64) -> void {}\n\
         设 x = 1\n\
         take(move x)\n\
         take(move x)",
    );
    assert!(errs.iter().any(|e| matches!(e, SemaError::UseAfterMove { name, .. } if name == "x")));
}

#[test]
fn concat_needs_strings() {
    let errs = check("定 s = 1 ++ \"a\"");
    assert!(errs.iter().any(|e| matches!(e, SemaError::TypeMismatch { expected, .. } if expected == "str")));
}

#[test]
fn pipe_into_function_without_parameters_is_an_arity_error() {
    let errs = check(
        "fn nothing() -> i32 { return 1 }\n\
         定 y = 3 |> nothing()",
    );
    assert!(errs.iter().any(|e| matches!(e, SemaError::ArgCountMismatch { name, found: 0, .. } if name == "nothing")));
}

#[test]
fn pipe_fills_the_first_parameter() {
    assert_ok(
        "fn add(a: read i64, b: read i64) -> i64 { return a + b }\n\
         定 y = 3 |> add(4)",
    );
}

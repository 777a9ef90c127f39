use rym::ast::OwnershipMode;
use rym::ownership::{check_move, check_mutate};
use rym::scope::{Binding, ResolvedTy, Scope};
use rym::sema_error::SemaError;
use rym::token::Span;

fn binding(mode: OwnershipMode, mutable: bool) -> Binding {
    Binding { ty: ResolvedTy::I64, mode, mutable, moved: false, span: Span::new(0, 1) }
}

#[test]
fn define_then_lookup() {
    let mut s = Scope::new();
    s.define("x".to_string(), binding(OwnershipMode::Read, false));
    let b = s.lookup("x").unwrap();
    assert!(!b.mutable);
    assert!(s.lookup("y").is_none());
}

#[test]
fn inner_frame_shadows_and_pop_restores() {
    let mut s = Scope::new();
    s.define("x".to_string(), binding(OwnershipMode::Read, false));
    s.push();
    s.define("x".to_string(), binding(OwnershipMode::Mut, true));
    assert!(s.lookup("x").unwrap().mutable);
    s.pop();
    assert!(!s.lookup("x").unwrap().mutable);
}

#[test]
fn binding_made_in_inner_frame_is_gone_after_pop() {
    let mut s = Scope::new();
    s.push();
    s.define("t".to_string(), binding(OwnershipMode::Read, false));
    assert!(s.lookup("t").is_some());
    s.pop();
    assert!(s.lookup("t").is_none());
}

#[test]
fn mark_moved_marks_the_innermost_binding() {
    let mut s = Scope::new();
    s.define("x".to_string(), binding(OwnershipMode::Move, false));
    s.push();
    s.define("x".to_string(), binding(OwnershipMode::Move, false));
    s.mark_moved("x");
    assert!(s.lookup("x").unwrap().moved);
    s.pop();
    assert!(!s.lookup("x").unwrap().moved);
}

#[test]
fn mark_moved_of_unknown_name_changes_nothing() {
    let mut s = Scope::new();
    s.mark_moved("nope");
    assert!(s.lookup("nope").is_none());
    assert_eq!(s.frames.len(), 1);
}

#[test]
fn lookup_mut_changes_in_place() {
    let mut s = Scope::new();
    s.define("x".to_string(), binding(OwnershipMode::Read, false));
    if let Some(b) = s.lookup_mut("x") {
        b.mutable = true;
    }
    assert!(s.lookup("x").unwrap().mutable);
    assert!(s.lookup_mut("y").is_none());
}

#[test]
fn move_of_moved_binding_is_use_after_move() {
    let mut s = Scope::new();
    s.define("x".to_string(), binding(OwnershipMode::Move, false));
    assert!(check_move("x", &s, Span::new(3, 4)).is_ok());
    s.mark_moved("x");
    match check_move("x", &s, Span::new(3, 4)) {
        Err(SemaError::UseAfterMove { name, span }) => {
            assert_eq!(name, "x");
            assert_eq!(span, Span::new(3, 4));
        }
        other => panic!("unexpected {other:?}"),
    }
}

#[test]
fn move_of_read_binding_is_an_error() {
    let mut s = Scope::new();
    s.define("r".to_string(), binding(OwnershipMode::Read, false));
    assert!(matches!(check_move("r", &s, Span::new(0, 1)), Err(SemaError::MoveOfReadBinding { .. })));
    // Unknown names are not this check's concern.
    assert!(check_move("q", &s, Span::new(0, 1)).is_ok());
}

#[test]
fn mutating_immutable_binding_is_an_error() {
    let mut s = Scope::new();
    s.define("c".to_string(), binding(OwnershipMode::Read, false));
    s.define("v".to_string(), binding(OwnershipMode::Read, true));
    assert!(matches!(check_mutate("c", &s, Span::new(0, 1)), Err(SemaError::MutateImmutable { .. })));
    assert!(check_mutate("v", &s, Span::new(0, 1)).is_ok());
    assert!(check_mutate("w", &s, Span::new(0, 1)).is_ok());
}

#[test]
fn sema_error_span() {
    let e = SemaError::PipeOwnershipConflict { span: Span::new(5, 9) };
    assert_eq!(e.span(), Span::new(5, 9));
    assert_eq!(Span::new(5, 9).len(), 4);
}

#[test]
fn resolved_type_display() {
    let t = ResolvedTy::Result(Box::new(ResolvedTy::Slice(Box::new(ResolvedTy::U8))), Box::new(ResolvedTy::Str));
    assert_eq!(t.display(), "Result([]u8, str)");
    assert!(t.is_result());
    let f = ResolvedTy::FnPtr {
        params: vec![ResolvedTy::I32, ResolvedTy::PtrMut(Box::new(ResolvedTy::U8))],
        ret: Box::new(ResolvedTy::Array { size: 4, elem: Box::new(ResolvedTy::Bool) }),
    };
    assert_eq!(f.display(), "fn(i32, *mut u8) -> [4]bool");
    assert!(!f.is_result());
    assert_eq!(ResolvedTy::Named("请求".to_string()).display(), "请求");
}

fn ident(n: &str) -> rym::ast::Expr {
    rym::ast::Expr { kind: rym::ast::ExprKind::Ident(n.to_string()), span: Span::new(0, 1) }
}

fn call(f: &str) -> rym::ast::Expr {
    rym::ast::Expr {
        kind: rym::ast::ExprKind::Call { callee: Box::new(ident(f)), args: vec![] },
        span: Span::new(0, 1),
    }
}

fn scope_with_fn(first: OwnershipMode) -> Scope {
    let mut s = Scope::new();
    s.define("x".to_string(), binding(OwnershipMode::Move, false));
    s.fns.insert(
        "f".to_string(),
        rym::scope::FnSig { params: vec![("p".to_string(), first, ResolvedTy::I64)], ret: ResolvedTy::Void },
    );
    s
}

#[test]
fn piped_move_into_move_parameter_is_accepted() {
    let s = scope_with_fn(OwnershipMode::Move);
    assert!(rym::ownership::check_pipe(&ident("x"), &call("f"), &s, Span::new(0, 1)).is_ok());
}

#[test]
fn piped_move_into_read_parameter_is_refused() {
    let s = scope_with_fn(OwnershipMode::Read);
    let r = rym::ownership::check_pipe(&ident("x"), &call("f"), &s, Span::new(0, 1));
    assert!(matches!(r, Err(SemaError::PipeOwnershipConflict { .. })));
}

#[test]
fn pop_undoes_push_and_several_defines() {
    let mut s = Scope::new();
    s.define("a".to_string(), binding(OwnershipMode::Read, false));
    s.define("b".to_string(), binding(OwnershipMode::Mut, true));
    s.push();
    s.define("a".to_string(), binding(OwnershipMode::Mut, true));
    s.define("c".to_string(), binding(OwnershipMode::Move, false));
    s.define("b".to_string(), binding(OwnershipMode::Read, false));
    s.define("a".to_string(), binding(OwnershipMode::Move, false));
    assert_eq!(s.lookup("a").unwrap().mode, OwnershipMode::Move);
    s.pop();
    assert_eq!(s.frames.len(), 1);
    assert_eq!(s.lookup("a").unwrap().mode, OwnershipMode::Read);
    assert!(!s.lookup("a").unwrap().mutable);
    assert!(s.lookup("b").unwrap().mutable);
    assert!(s.lookup("c").is_none());
}

use rym::ast::{OwnershipMode, Ty, TyKind};
use rym::ast::{FnDef, Item, ItemKind, Ring, SourceFile, Stmt, StmtKind};
use rym::ir::{EnumLayout, IrFunc, IrMode, IrModule, IrTy, Op, Terminator};
use rym::lexer::Lexer;
use rym::lower::{lower_mode, lower_ty, Lowerer};
use rym::parser::Parser;
use rym::token::Span;

fn parse(src: &str) -> SourceFile {
    let tokens = Lexer::new(src).tokenize().unwrap();
    Parser::new(tokens).parse_file().unwrap()
}

fn lower(src: &str) -> IrModule {
    let file = parse(src);
    Lowerer::new().lower_file(&file, "m")
}

fn ty(kind: TyKind) -> Ty {
    Ty { kind, span: Span::new(0, 0) }
}

/// Each instruction as `dest = op` (without spans), and each terminator.
fn listing(f: &IrFunc) -> Vec<String> {
    let mut out = Vec::new();
    for b in &f.blocks {
        out.push(format!("{}:", b.label));
        for i in &b.instrs {
            out.push(format!("{:?} = {:?}", i.dest, i.op));
        }
        out.push(format!("{:?}", b.term));
    }
    out
}

#[test]
fn tag_of_is_the_first_index() {
    let e = EnumLayout {
        name: "颜色".to_string(),
        variants: vec!["红".to_string(), "绿".to_string(), "红".to_string()],
    };
    assert_eq!(e.tag_of("红"), Some(0));
    assert_eq!(e.tag_of("绿"), Some(1));
    assert_eq!(e.tag_of("蓝"), None);
}

#[test]
fn ir_type_display() {
    let t = IrTy::FnPtr {
        params: vec![IrTy::I32, IrTy::Ptr(Box::new(IrTy::U8))],
        ret: Box::new(IrTy::Result(Box::new(IrTy::Void), Box::new(IrTy::Str))),
    };
    assert_eq!(t.display(), "fn(i32, *u8) -> Result(void, str)");
    assert_eq!(IrTy::Array { size: 4, elem: Box::new(IrTy::I32) }.display(), "[4]i32");
    assert_eq!(IrTy::Option(Box::new(IrTy::Named("请求".to_string()))).display(), "Option(请求)");
    assert_eq!(IrTy::FnPtr { params: vec![], ret: Box::new(IrTy::Void) }.display(), "fn() -> void");
}

#[test]
fn lower_types_and_modes() {
    let t = ty(TyKind::Slice(Box::new(ty(TyKind::U8))));
    assert_eq!(lower_ty(&t).display(), "[]u8");
    let f = ty(TyKind::FnPtr { params: vec![ty(TyKind::I64), ty(TyKind::Bool)], ret: Box::new(ty(TyKind::Usize)) });
    assert_eq!(lower_ty(&f).display(), "fn(i64, bool) -> usize");
    let a = ty(TyKind::Array { size: 3, elem: Box::new(ty(TyKind::PtrMut(Box::new(ty(TyKind::F32))))) });
    assert_eq!(lower_ty(&a).display(), "[3]*mut f32");
    assert_eq!(lower_mode(&OwnershipMode::Read), IrMode::Read);
    assert_eq!(lower_mode(&OwnershipMode::Mut), IrMode::Mut);
    assert_eq!(lower_mode(&OwnershipMode::Move), IrMode::Move);
    assert_eq!(lower_mode(&OwnershipMode::Inferred), IrMode::Read);
}

#[test]
fn return_constant() {
    let m = lower("fn one() -> i64 { return 1 }");
    assert_eq!(m.name, "m");
    assert_eq!(m.funcs.len(), 1);
    let f = &m.funcs[0];
    assert_eq!(f.name, "one");
    assert_eq!(f.ret.display(), "i64");
    assert_eq!(f.blocks.len(), 2);
    assert_eq!(f.blocks[0].label, "entry");
    assert_eq!(f.blocks[0].instrs[0].dest.as_deref(), Some("%0"));
    assert!(matches!(f.blocks[0].instrs[0].op, Op::ConstInt(1)));
    assert!(matches!(&f.blocks[0].term, Terminator::Return(Some(v)) if v == "%0"));
    // Later statements would go to a block that nothing jumps to.
    assert_eq!(f.blocks[1].label, "bb0");
    assert!(f.blocks[1].instrs.is_empty());
    assert!(matches!(f.blocks[1].term, Terminator::Return(None)));
}

#[test]
fn params_are_lowered() {
    let m = lower("fn f(a: read i32, b: move []u8) -> void {}");
    let f = &m.funcs[0];
    assert_eq!(f.params.len(), 2);
    assert_eq!(f.params[0].name, "a");
    assert_eq!(f.params[0].ty.display(), "i32");
    assert_eq!(f.params[0].mode, IrMode::Read);
    assert_eq!(f.params[1].ty.display(), "[]u8");
    assert_eq!(f.params[1].mode, IrMode::Move);
}

#[test]
fn algorithm_zone_becomes_main() {
    let m = lower("定 x = 1 + 2");
    assert_eq!(m.funcs.len(), 1);
    let f = &m.funcs[0];
    assert_eq!(f.name, "__main");
    assert_eq!(
        listing(f),
        vec![
            "entry:".to_string(),
            "Some(\"%0\") = ConstInt(1)".to_string(),
            "Some(\"%1\") = ConstInt(2)".to_string(),
            "Some(\"%2\") = Add(\"%0\", \"%1\")".to_string(),
            "Some(\"x\") = Load(\"%2\")".to_string(),
            "Return(None)".to_string(),
        ]
    );
}

#[test]
fn empty_file_has_no_functions() {
    let m = lower("");
    assert!(m.funcs.is_empty());
    assert!(m.structs.is_empty());
    assert!(m.enums.is_empty());
}

#[test]
fn pipe_lowers_as_the_call() {
    let piped = lower("定 a = 1\n定 b = 2\na |> f(b)");
    let called = lower("定 a = 1\n定 b = 2\nf(a, b)");
    assert_eq!(listing(&piped.funcs[0]), listing(&called.funcs[0]));
    let last = piped.funcs[0].blocks[0].instrs.last().unwrap();
    match &last.op {
        Op::Call { func, args } => {
            assert_eq!(func, "f");
            assert_eq!(args.len(), 2);
        }
        other => panic!("unexpected {other:?}"),
    }
}

#[test]
fn method_call_takes_receiver_first() {
    let m = lower("定 c = 1\nc.recv(2)");
    let last = m.funcs[0].blocks[0].instrs.last().unwrap();
    match &last.op {
        Op::Call { func, args } => {
            assert_eq!(func, "recv");
            assert_eq!(args.len(), 2);
        }
        other => panic!("unexpected {other:?}"),
    }
}

#[test]
fn struct_and_enum_layouts() {
    let m = lower("type P { x: i64\ny: i64 }\nenum E { A, B }");
    assert_eq!(m.structs.len(), 1);
    assert_eq!(m.structs[0].name, "P");
    assert_eq!(m.structs[0].fields, vec!["x".to_string(), "y".to_string()]);
    assert_eq!(m.enums.len(), 1);
    assert_eq!(m.enums[0].tag_of("B"), Some(1));
}

#[test]
fn if_branches_to_fresh_blocks() {
    let m = lower("fn f(c: read bool) -> i64 { if c { return 1 } else { return 2 }\nreturn 0 }");
    let f = &m.funcs[0];
    match &f.blocks[0].term {
        Terminator::Branch { cond, then_block, else_block } => {
            assert_eq!(cond, "%0");
            assert_eq!(then_block, "bb0");
            assert_eq!(else_block, "bb1");
        }
        other => panic!("unexpected {other:?}"),
    }
    assert!(matches!(f.blocks.last().unwrap().term, Terminator::Return(None)));
}

#[test]
fn or_return_propagates_the_error() {
    let m = lower("fn g() -> Result(i64, str) { return Ok(1) }\nfn h() -> Result(i64, str) { 定 v = g().or_return?\nreturn Ok(v) }");
    let h = &m.funcs[1];
    let listing = listing(h);
    assert!(listing.iter().any(|l| l.contains("UnwrapOk")));
    assert!(listing.iter().any(|l| l == "Return(Some(\"__err\"))"));
}

#[test]
fn every_function_ends_with_a_return() {
    let m = lower("fn a() -> void {}\nfn b(x: read i64) -> i64 { for i in x { 定 y = 1 } }\n定 z = 3");
    for f in &m.funcs {
        assert!(matches!(f.blocks.last().unwrap().term, Terminator::Return(None)));
    }
}

#[test]
fn loop_break_jumps_after_the_loop() {
    let sp = Span::new(0, 0);
    let body = vec![Stmt { kind: StmtKind::Loop(vec![Stmt { kind: StmtKind::Break, span: sp }]), span: sp }];
    let f = FnDef { name: "f".to_string(), params: vec![], ret: ty(TyKind::Void), body, attrs: vec![] };
    let file = SourceFile {
        ring: Ring::Safe,
        def_zone: vec![Item { kind: ItemKind::Fn(f), span: sp }],
        alg_zone: vec![],
        span: sp,
    };
    let m = Lowerer::new().lower_file(&file, "m");
    // entry jumps to the loop head bb0; `break` jumps to bb1, after the loop;
    // the loop body's end jumps back to the head.
    assert_eq!(
        listing(&m.funcs[0]),
        vec![
            "entry:".to_string(),
            "Jump(\"bb0\")".to_string(),
            "bb0:".to_string(),
            "Jump(\"bb1\")".to_string(),
            "bb2:".to_string(),
            "Jump(\"bb0\")".to_string(),
            "bb1:".to_string(),
            "Return(None)".to_string(),
        ]
    );
}

#[test]
fn break_outside_a_loop_lowers_to_nothing() {
    let sp = Span::new(0, 0);
    let file = SourceFile {
        ring: Ring::Safe,
        def_zone: vec![],
        alg_zone: vec![Stmt { kind: StmtKind::Break, span: sp }],
        span: sp,
    };
    let m = Lowerer::new().lower_file(&file, "m");
    assert_eq!(listing(&m.funcs[0]), vec!["entry:".to_string(), "Return(None)".to_string()]);
}

#[test]
fn unused_item_kinds_give_no_function() {
    let file = parse("import \"a.rym\"\nfn f() -> void {}");
    assert!(matches!(file.def_zone[0].kind, ItemKind::Import(_)));
    let m = Lowerer::new().lower_file(&file, "x");
    assert_eq!(m.funcs.len(), 1);
    assert!(matches!(file.alg_zone.first().map(|s| &s.kind), None | Some(StmtKind::Expr(_))));
}

/// Every label that a terminator jumps to.
fn jump_targets(f: &IrFunc) -> Vec<String> {
    let mut out = Vec::new();
    for b in &f.blocks {
        match &b.term {
            Terminator::Jump(l) => out.push(l.clone()),
            Terminator::Branch { then_block, else_block, .. } => {
                out.push(then_block.clone());
                out.push(else_block.clone());
            }
            _ => {}
        }
        for i in &b.instrs {
            if let Op::UnwrapOk { err_block, .. } = &i.op {
                out.push(err_block.clone());
            }
        }
    }
    out
}

#[test]
fn every_jump_names_a_block_of_its_function() {
    let m = lower(
        "fn g() -> Result(i64, str) { return Ok(1) }\nfn f(x: read i64) -> Result(i64, str) { 设 y = 0\nfor i in x + 0 { y = i }\nif x > 0 { y = 2 } else { y = 3 }\n定 z = match x + 0 { 1 => 2, _ => 3 }\n定 v = g().or_return?\nreturn Ok(z) }\n定 w = 1",
    );
    assert_eq!(m.funcs.len(), 3);
    assert!(listing(&m.funcs[1]).iter().any(|l| l.contains("UnwrapOk")));
    for f in &m.funcs {
        let labels: Vec<String> = f.blocks.iter().map(|b| b.label.clone()).collect();
        let targets = jump_targets(f);
        assert!(f.name != "f" || targets.len() >= 10);
        for t in &targets {
            assert!(labels.contains(t), "{} jumps to {} which is not a block", f.name, t);
        }
    }
}

#[test]
fn match_without_arms_after_an_if_drops_the_merge_block() {
    let m = lower("fn f(x: read i64) -> i64 { if x { return 1 }\n定 z = match 1 { }\nreturn 0 }");
    let f = &m.funcs[0];
    let labels: Vec<String> = f.blocks.iter().map(|b| b.label.clone()).collect();
    // The `if` jumps to its merge block bb2, which the empty `match` replaces
    // by its own merge block before it is closed.
    assert!(jump_targets(f).contains(&"bb2".to_string()));
    assert!(!labels.contains(&"bb2".to_string()));
}

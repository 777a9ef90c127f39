use rym::codegen::Codegen;
use rym::ir::{BasicBlock, Instr, IrFunc, IrModule, IrParam, IrMode, IrTy, Op, StructLayout, Terminator};
use rym::lexer::Lexer;
use rym::lower::Lowerer;
use rym::parser::Parser;
use rym::token::Span;

fn compile(src: &str) -> String {
    let tokens = Lexer::new(src).tokenize().unwrap();
    let file = Parser::new(tokens).parse_file().unwrap();
    let ir = Lowerer::new().lower_file(&file, "m");
    Codegen::new().emit_module(&ir)
}

fn instr(dest: Option<&str>, op: Op) -> Instr {
    Instr { dest: dest.map(|d| d.to_string()), op, span: Span::new(0, 0) }
}

fn module(instrs: Vec<Instr>, term: Terminator) -> IrModule {
    IrModule {
        name: "t".to_string(),
        funcs: vec![IrFunc {
            name: "f".to_string(),
            params: vec![],
            ret: IrTy::Void,
            blocks: vec![BasicBlock { label: "entry".to_string(), instrs, term }],
        }],
        structs: vec![],
        enums: vec![],
    }
}

const EPILOGUE_16: &str = "\tld.d\t$ra, $sp, 8\n\tld.d\t$fp, $sp, 0\n\taddi.d\t$sp, $sp, 16\n\tjr\t$ra\n";

#[test]
fn return_constant_assembly() {
    let out = compile("fn one() -> i64 { return 1 }");
    let expected = String::new()
        + "\t.file\t\"m\"\n\t.text\n"
        + "\t.globl\tone\n\t.type\tone, @function\none:\n"
        + "\taddi.d\t$sp, $sp, -16\n\tst.d\t$ra, $sp, 8\n\tst.d\t$fp, $sp, 0\n\taddi.d\t$fp, $sp, 16\n"
        + ".Lone_entry:\n\taddi.d\t$t0, $zero, 1\n\tmove\t$a0, $t0\n"
        + EPILOGUE_16
        + ".Lone_bb0:\n"
        + EPILOGUE_16
        + "\t.size\tone, . - one\n\n";
    assert_eq!(out, expected);
}

#[test]
fn parameters_live_in_argument_registers() {
    let out = compile("fn id(a: read i64) -> i64 { return a }");
    // `a` is bound to $a0, loaded into the first temporary, and returned.
    assert!(out.contains("\tmove\t$t0, $a0\n\tmove\t$a0, $t0\n"));
}

#[test]
fn binary_operations() {
    let m = module(
        vec![
            instr(Some("%0"), Op::ConstInt(7)),
            instr(Some("%1"), Op::ConstInt(3)),
            instr(Some("%2"), Op::CmpLe("%0".to_string(), "%1".to_string())),
            instr(Some("%3"), Op::Sub("%0".to_string(), "%1".to_string())),
        ],
        Terminator::Return(Some("%3".to_string())),
    );
    let out = Codegen::new().emit_module(&m);
    assert!(out.contains(
        "\taddi.d\t$t0, $zero, 7\n\taddi.d\t$t1, $zero, 3\n\tslt\t$t2, $t1, $t0\n\txori\t$t2, $t2, 1\n\tsub.d\t$t3, $t0, $t1\n\tmove\t$a0, $t3\n"
    ));
}

#[test]
fn large_constants() {
    let m = module(
        vec![instr(Some("%0"), Op::ConstInt(5000)), instr(Some("%1"), Op::ConstInt(-5000)), instr(Some("%2"), Op::ConstInt(4096))],
        Terminator::Return(None),
    );
    let out = Codegen::new().emit_module(&m);
    assert!(out.contains("\tlu12i.w\t$t0, 1\n\tori\t$t0, $t0, 904\n"));
    // -5000 fits in 32 signed bits: `lu12i.w` sign-extends, no `lu32i.d`.
    assert!(out.contains("\tlu12i.w\t$t1, 1048574\n\tori\t$t1, $t1, 3192\n\tlu12i.w\t$t2"));
    assert!(!out.contains("\tlu32i.d\t$t1"));
    assert!(out.contains("\tlu12i.w\t$t2, 1\n\t"));
    assert!(!out.contains("\tori\t$t2"));
}

#[test]
fn spills_go_to_the_stack() {
    let mut instrs = Vec::new();
    for i in 0..9 {
        instrs.push(instr(Some(&format!("%{i}")), Op::ConstInt(i)));
    }
    let m = module(instrs, Term::ret());
    let out = Codegen::new().emit_module(&m);
    // Nine SSA values: one spill slot, frame 16 + 8 rounded up to 32.
    assert!(out.contains("\taddi.d\t$sp, $sp, -32\n\tst.d\t$ra, $sp, 24\n\tst.d\t$fp, $sp, 16\n"));
    assert!(out.contains("\taddi.d\t$t7, $zero, 7\n\tld.d\t$t7, $sp, 0\t# reload spill\n\taddi.d\t$t7, $zero, 8\n"));
}

struct Term;
impl Term {
    fn ret() -> Terminator {
        Terminator::Return(None)
    }
}

#[test]
fn string_constants_are_escaped() {
    let m = module(vec![instr(Some("%0"), Op::ConstStr("a\"b\\c\n".to_string()))], Terminator::Return(None));
    let out = Codegen::new().emit_module(&m);
    assert!(out.contains(
        "\t.section\t.rodata\n.Lstr_f_0:\n\t.string\t\"a\\\"b\\\\c\\n\"\n\t.text\n\tla.local\t$t0, .Lstr_f_0\n"
    ));
}

#[test]
fn calls_move_arguments() {
    let m = module(
        vec![
            instr(Some("%0"), Op::ConstInt(1)),
            instr(Some("%1"), Op::Call { func: "g".to_string(), args: vec!["%0".to_string()] }),
        ],
        Terminator::Return(None),
    );
    let out = Codegen::new().emit_module(&m);
    assert!(out.contains("\tmove\t$a0, $t0\n\tbl\tg\n\tmove\t$t1, $a0\n"));
}

#[test]
fn struct_fields_use_layout_offsets() {
    let mut m = module(
        vec![instr(
            Some("%1"),
            Op::Field { base: "p".to_string(), field: "y".to_string(), struct_ty: Some("P".to_string()) },
        )],
        Terminator::Return(None),
    );
    m.structs.push(StructLayout { name: "P".to_string(), fields: vec!["x".to_string(), "y".to_string()] });
    m.funcs[0].params.push(IrParam { name: "p".to_string(), ty: IrTy::Named("P".to_string()), mode: IrMode::Read });
    let out = Codegen::new().emit_module(&m);
    assert!(out.contains("\tld.d\t$t0, $a0, 8\t# .y\n"));
}

#[test]
fn inline_assembly_substitutes_registers() {
    let m = module(
        vec![
            instr(Some("%0"), Op::ConstInt(1)),
            instr(None, Op::Asm { template: "csrwr {0}, 0x0".to_string(), args: vec!["%0".to_string()] }),
        ],
        Terminator::Return(None),
    );
    let out = Codegen::new().emit_module(&m);
    assert!(out.contains("\tcsrwr $t0, 0x0\n"));
}

#[test]
fn branches_name_blocks_by_function() {
    let m = module(
        vec![instr(Some("%0"), Op::ConstBool(true))],
        Terminator::Branch { cond: "%0".to_string(), then_block: "bb0".to_string(), else_block: "bb1".to_string() },
    );
    let out = Codegen::new().emit_module(&m);
    assert!(out.contains("\taddi.d\t$t0, $zero, 1\n\tbnez\t$t0, .Lf_bb0\n\tb\t.Lf_bb1\n"));
}

#[test]
fn unknown_values_read_the_scratch_register() {
    let m = module(vec![instr(Some("%0"), Op::Load("nowhere".to_string()))], Terminator::Unreachable);
    let out = Codegen::new().emit_module(&m);
    assert!(out.contains("\tmove\t$t0, $t7\n\tbreak\t0\t# unreachable\n"));
}

#[test]
fn emit_module_starts_afresh() {
    let m = module(vec![], Terminator::Return(None));
    let mut cg = Codegen::new();
    let a = cg.emit_module(&m);
    let b = cg.emit_module(&m);
    assert_eq!(a, b);
    assert!(a.starts_with("\t.file\t\"t\"\n\t.text\n"));
}

/// Runs the lines that load a constant into `reg` (LoongArch64 semantics).
fn run_load(out: &str, reg: &str) -> u64 {
    let mut r: u64 = 0xDEAD_BEEF_DEAD_BEEF;
    for line in out.lines() {
        let line = line.trim();
        let mut parts = line.splitn(2, '\t');
        let m = parts.next().unwrap_or("");
        let rest: Vec<&str> = parts.next().unwrap_or("").split(", ").collect();
        if rest.is_empty() || rest[0] != reg {
            continue;
        }
        let k: i64 = rest.last().unwrap().parse().unwrap_or(0);
        match m {
            "addi.d" => r = k as u64,
            "lu12i.w" => r = ((((k as u64) & 0xFFFFF) << 12) as u32 as i32) as i64 as u64,
            "ori" => r |= (k as u64) & 0xFFF,
            "lu32i.d" => {
                let hi = ((((k as u64) & 0xFFFFF) << 44) as i64 >> 12) as u64;
                r = (r & 0xFFFF_FFFF) | hi;
            }
            "lu52i.d" => r = (r & 0x000F_FFFF_FFFF_FFFF) | (((k as u64) & 0xFFF) << 52),
            _ => {}
        }
    }
    r
}

#[test]
fn constant_loads_are_exact() {
    for v in [
        0i64,
        5,
        -5,
        2047,
        -2048,
        4096,
        0xFFFFF,
        -5000,
        0x8000_0000,
        -0x8000_0001,
        0x1234_5678_9ABC_DEF0,
        -0x1234_5678_9ABC_DEF0,
        0x7_FFFF_FFFF_FFFF,
        0x8_0000_0000_0000,
        i64::MAX,
        i64::MIN,
    ] {
        let m = module(vec![instr(Some("%0"), Op::ConstInt(v))], Terminator::Return(None));
        let out = Codegen::new().emit_module(&m);
        assert_eq!(run_load(&out, "$t0"), v as u64, "value {v}");
    }
}

#[test]
fn upper_bits_use_lu52i() {
    let m = module(vec![instr(Some("%0"), Op::ConstInt(0x1234_5678_9ABC_DEF0))], Terminator::Return(None));
    let out = Codegen::new().emit_module(&m);
    assert!(out.contains(
        "\tlu12i.w\t$t0, 633805\n\tori\t$t0, $t0, 3824\n\tlu32i.d\t$t0, 284280\n\tlu52i.d\t$t0, $t0, 291\n"
    ));
}

#[test]
fn two_spilled_operands_use_two_scratch_registers() {
    let mut instrs = Vec::new();
    for i in 0..10 {
        instrs.push(instr(Some(&format!("%{i}")), Op::ConstInt(i)));
    }
    instrs.push(instr(Some("%10"), Op::Add("%8".to_string(), "%9".to_string())));
    let m = module(instrs, Term::ret());
    let out = Codegen::new().emit_module(&m);
    assert!(out.contains("\tld.d\t$t7, $sp, 0\t# reload spill\n\tld.d\t$t8, $sp, 8\t# reload spill\n\tadd.d\t$t7, $t7, $t8\n"));
}

#[test]
fn unwrap_tests_the_tag_and_jumps_on_err() {
    let m = module(
        vec![
            instr(Some("%0"), Op::ConstInt(1)),
            instr(Some("%1"), Op::UnwrapOk { val: "%0".to_string(), err_block: "bb0".to_string() }),
        ],
        Terminator::Return(None),
    );
    let out = Codegen::new().emit_module(&m);
    assert!(out.contains("\tld.d\t$t8, $t0, 0\n\tbnez\t$t8, .Lf_bb0\n\tld.d\t$t1, $t0, 8\n"));
}

//! The LoongArch64 assembly text that code generation produces from IR.
//!
//! Arithmetic on sizes and counters follows `usize` arithmetic that wraps
//! around, as in an optimised build.
use vstd::prelude::*;
use crate::ir::{BasicBlock, Instr, IrFunc, IrModule, Op, StructLayout, Terminator};
use crate::text::{dec_int, dec_nat};

verus! {

pub open spec fn wadd(a: usize, b: usize) -> usize {
    vstd::wrapping::usize_specs::wrapping_add(a, b)
}

pub open spec fn wsub(a: usize, b: usize) -> usize {
    vstd::wrapping::usize_specs::wrapping_sub(a, b)
}

pub open spec fn wmul(a: usize, b: usize) -> usize {
    vstd::wrapping::usize_specs::wrapping_mul(a, b)
}

/// `n` rounded up to a multiple of 16.
pub open spec fn align16(n: usize) -> usize {
    wadd(n, 15) & !15usize
}

/// Decimal numeral of a `usize`.
pub open spec fn num(n: usize) -> Seq<char> {
    dec_nat(n as nat)
}

// ── Register names ────────────────────────────────────────────

/// The `i`-th caller-saved temporary: `$t0` … `$t7`.
pub open spec fn temp_reg(i: nat) -> Seq<char> {
    "$t"@ + dec_nat(i)
}

/// The `i`-th argument register: `$a0` … `$a7`.
pub open spec fn arg_reg(i: nat) -> Seq<char> {
    "$a"@ + dec_nat(i)
}

// ── Lines of assembly ─────────────────────────────────────────

pub open spec fn ins1(m: Seq<char>, x: Seq<char>) -> Seq<char> {
    "\t"@ + m + "\t"@ + x + "\n"@
}

pub open spec fn ins2(m: Seq<char>, x: Seq<char>, y: Seq<char>) -> Seq<char> {
    "\t"@ + m + "\t"@ + x + ", "@ + y + "\n"@
}

pub open spec fn ins3(m: Seq<char>, x: Seq<char>, y: Seq<char>, z: Seq<char>) -> Seq<char> {
    "\t"@ + m + "\t"@ + x + ", "@ + y + ", "@ + z + "\n"@
}

/// `move d, s`, or nothing when `d` already is `s`.
pub open spec fn mv(d: Seq<char>, s: Seq<char>) -> Seq<char> {
    if d == s {
        Seq::empty()
    } else {
        ins2("move"@, d, s)
    }
}

/// The label of block `label` of function `f`.
pub open spec fn block_ref(f: Seq<char>, label: Seq<char>) -> Seq<char> {
    ".L"@ + f + "_"@ + label
}

// ── The register allocator ────────────────────────────────────

/// Where an SSA value lives.
pub enum LocV {
    Reg(Seq<char>),
    /// Offset from `$sp`.
    Stack(usize),
}

pub struct RaV {
    pub map: Map<Seq<char>, LocV>,
    pub next_reg: usize,
    pub next_spill: usize,
    pub frame_size: usize,
    pub str_cnt: usize,
}

pub open spec fn ra_new(frame_size: usize) -> RaV {
    RaV { map: Map::empty(), next_reg: 0, next_spill: 0, frame_size, str_cnt: 0 }
}

/// The register that holds a location's value, and the text that loads it
/// (a spilled value is reloaded into the scratch register `scratch`).
pub open spec fn loc_text_into(l: LocV, scratch: Seq<char>) -> (Seq<char>, Seq<char>) {
    match l {
        LocV::Reg(r) => (r, Seq::empty()),
        LocV::Stack(off) => (scratch, "\tld.d\t"@ + scratch + ", $sp, "@ + num(off) + "\t# reload spill\n"@),
    }
}

/// The register that holds a location's value, and the text that loads it
/// (a spilled value is reloaded into `$t7`).
pub open spec fn loc_text(l: LocV) -> (Seq<char>, Seq<char>) {
    loc_text_into(l, "$t7"@)
}

/// The register holding `name` and the text that loads it; `$t7` for an unknown name.
pub open spec fn get_s(ra: RaV, name: Seq<char>) -> (Seq<char>, Seq<char>) {
    if ra.map.contains_key(name) {
        loc_text(ra.map[name])
    } else {
        ("$t7"@, Seq::empty())
    }
}

/// Like `get_s`, with a spilled value reloaded into `scratch`.
pub open spec fn get_into(ra: RaV, name: Seq<char>, scratch: Seq<char>) -> (Seq<char>, Seq<char>) {
    if ra.map.contains_key(name) {
        loc_text_into(ra.map[name], scratch)
    } else {
        ("$t7"@, Seq::empty())
    }
}

/// Whether the value `name` is read from `$t7`: it lives there, or it is unknown.
pub open spec fn reads_t7(ra: RaV, name: Seq<char>) -> bool {
    !ra.map.contains_key(name) || ra.map[name] == LocV::Reg("$t7"@)
}

/// Whether `name` lives in a stack slot.
pub open spec fn spilled(ra: RaV, name: Seq<char>) -> bool {
    ra.map.contains_key(name) && ra.map[name] is Stack
}

/// The registers of two values and the text that loads them: a spilled
/// value is reloaded into `$t7`, or into `$t8` where the other value is read
/// from `$t7`, so that a reload never overwrites the other value.
pub open spec fn get2_s(ra: RaV, a: Seq<char>, b: Seq<char>) -> (Seq<char>, Seq<char>, Seq<char>) {
    let sa = if reads_t7(ra, b) {
        "$t8"@
    } else {
        "$t7"@
    };
    let (x, tx) = get_into(ra, a, sa);
    let sb = if x == "$t7"@ {
        "$t8"@
    } else {
        "$t7"@
    };
    let (y, ty) = get_into(ra, b, sb);
    (x, y, tx + ty)
}

/// A register for the destination `name`: its location if it has one, else
/// the next free temporary, else a new 8-byte stack slot.
pub open spec fn alloc_s(ra: RaV, name: Seq<char>) -> (Seq<char>, Seq<char>, RaV) {
    if ra.map.contains_key(name) {
        let (r, t) = loc_text(ra.map[name]);
        (r, t, ra)
    } else if ra.next_reg < 8 {
        let r = temp_reg(ra.next_reg as nat);
        (r, Seq::empty(), RaV { map: ra.map.insert(name, LocV::Reg(r)), next_reg: (ra.next_reg + 1) as usize, ..ra })
    } else {
        let (r, t) = loc_text(LocV::Stack(ra.next_spill));
        (
            r,
            t,
            RaV {
                map: ra.map.insert(name, LocV::Stack(ra.next_spill)),
                next_spill: wadd(ra.next_spill, 8),
                ..ra
            },
        )
    }
}

pub open spec fn bind_s(ra: RaV, name: Seq<char>, reg: Seq<char>) -> RaV {
    RaV { map: ra.map.insert(name, LocV::Reg(reg)), ..ra }
}

/// The distance below the frame pointer of a spilled value; 0 for others.
pub open spec fn stack_slot_s(ra: RaV, name: Seq<char>) -> usize {
    if ra.map.contains_key(name) && ra.map[name] is Stack {
        wsub(ra.frame_size, ra.map[name]->Stack_0)
    } else {
        0
    }
}

/// The label of the next string constant of function `f`.
pub open spec fn str_label_s(ra: RaV, f: Seq<char>) -> Seq<char> {
    ".Lstr_"@ + f + "_"@ + num(ra.str_cnt)
}

// ── Texts ─────────────────────────────────────────────────────

/// A string constant as written between double quotes.
pub open spec fn escape(s: Seq<char>) -> Seq<char>
    decreases s.len(),
{
    if s.len() == 0 {
        Seq::empty()
    } else {
        escape(s.drop_last()) + escape_char(s.last())
    }
}

pub open spec fn escape_char(c: char) -> Seq<char> {
    if c == '\\' {
        "\\\\"@
    } else if c == '"' {
        "\\\""@
    } else if c == '\n' {
        "\\n"@
    } else if c == '\t' {
        "\\t"@
    } else {
        seq![c]
    }
}

/// `s` with every occurrence of `pat` replaced by `rep`, left to right.
pub open spec fn replace_all(s: Seq<char>, pat: Seq<char>, rep: Seq<char>) -> Seq<char>
    decreases s.len(),
{
    if s.len() == 0 {
        Seq::empty()
    } else if pat.len() > 0 && pat.len() <= s.len() && s.take(pat.len() as int) == pat {
        rep + replace_all(s.skip(pat.len() as int), pat, rep)
    } else {
        seq![s[0]] + replace_all(s.skip(1), pat, rep)
    }
}

/// One instruction of a constant load.
pub enum ImmStep {
    /// `addi.d reg, $zero, k`
    Addi(i64),
    /// `lu12i.w reg, k`: bits 31..12, sign-extended from bit 31.
    Lu12i(u64),
    /// `ori reg, reg, k`: bits 11..0.
    Ori(u64),
    /// `lu32i.d reg, k`: bits 51..32, sign-extended from bit 51.
    Lu32i(u64),
    /// `lu52i.d reg, reg, k`: bits 63..52.
    Lu52i(u64),
}

/// The instructions that load `v`: one `addi.d` for a 12-bit value; else
/// `lu12i.w` and `ori` for the low 32 bits, then `lu32i.d` where `v` does not
/// fit in 32 signed bits and `lu52i.d` where it does not fit in 52.
pub open spec fn imm_steps(v: i64) -> Seq<ImmStep> {
    let w = v as u64;
    if -2048 <= v && v <= 2047 {
        seq![ImmStep::Addi(v)]
    } else if 0 <= v && v <= 0xFFFFF {
        seq![ImmStep::Lu12i(w >> 12u64)] + if w & 0xFFFu64 != 0 {
            seq![ImmStep::Ori(w & 0xFFFu64)]
        } else {
            Seq::empty()
        }
    } else {
        seq![ImmStep::Lu12i((w >> 12u64) & 0xFFFFFu64), ImmStep::Ori(w & 0xFFFu64)] + if -0x8000_0000 <= v
            && v <= 0x7FFF_FFFF {
            Seq::empty()
        } else {
            seq![ImmStep::Lu32i((w >> 32u64) & 0xFFFFFu64)]
        } + if -0x8_0000_0000_0000 <= v && v <= 0x7_FFFF_FFFF_FFFF {
            Seq::empty()
        } else {
            seq![ImmStep::Lu52i(w >> 52u64)]
        }
    }
}

/// The line of one step into `reg`.
pub open spec fn step_text(reg: Seq<char>, s: ImmStep) -> Seq<char> {
    match s {
        ImmStep::Addi(k) => ins3("addi.d"@, reg, "$zero"@, dec_int(k as int)),
        ImmStep::Lu12i(k) => ins2("lu12i.w"@, reg, dec_int(k as int)),
        ImmStep::Ori(k) => ins3("ori"@, reg, reg, dec_int(k as int)),
        ImmStep::Lu32i(k) => ins2("lu32i.d"@, reg, dec_int(k as int)),
        ImmStep::Lu52i(k) => ins3("lu52i.d"@, reg, reg, dec_int(k as int)),
    }
}

pub open spec fn steps_text(reg: Seq<char>, ss: Seq<ImmStep>) -> Seq<char>
    decreases ss.len(),
{
    if ss.len() == 0 {
        Seq::empty()
    } else {
        steps_text(reg, ss.drop_last()) + step_text(reg, ss.last())
    }
}

pub proof fn lemma_steps_push(reg: Seq<char>, ss: Seq<ImmStep>, x: ImmStep)
    ensures
        steps_text(reg, ss.push(x)) == steps_text(reg, ss) + step_text(reg, x),
{
    assert(ss.push(x).drop_last() =~= ss);
}

/// The value of a register `r` after one step (LoongArch64 semantics).
pub open spec fn run_step(r: u64, s: ImmStep) -> u64 {
    match s {
        ImmStep::Addi(k) => k as u64,
        ImmStep::Lu12i(k) => {
            let x = (k & 0xFFFFFu64) << 12u64;
            if x & 0x8000_0000u64 != 0 {
                x | 0xFFFF_FFFF_0000_0000u64
            } else {
                x
            }
        },
        ImmStep::Ori(k) => r | (k & 0xFFFu64),
        ImmStep::Lu32i(k) => (r & 0xFFFF_FFFFu64) | ((k & 0xFFFFFu64) << 32u64) | (if k & 0x8_0000u64 != 0 {
            0xFFF0_0000_0000_0000u64
        } else {
            0u64
        }),
        ImmStep::Lu52i(k) => (r & 0x000F_FFFF_FFFF_FFFFu64) | ((k & 0xFFFu64) << 52u64),
    }
}

/// The value of a register `r` after the steps `ss`.
pub open spec fn run_steps(r: u64, ss: Seq<ImmStep>) -> u64
    decreases ss.len(),
{
    if ss.len() == 0 {
        r
    } else {
        run_step(run_steps(r, ss.drop_last()), ss.last())
    }
}

/// Loading the constant `v` into `reg`.
#[verifier::opaque]
pub open spec fn load_imm(reg: Seq<char>, v: i64) -> Seq<char> {
    steps_text(reg, imm_steps(v))
}

// ── Instructions ──────────────────────────────────────────────

/// Struct layouts: type name → field name → byte offset.
pub type Layouts = Map<Seq<char>, Map<Seq<char>, usize>>;

/// The byte offset of `field` in `struct_ty`, 0 when unknown.
pub open spec fn field_offset(lay: Layouts, struct_ty: Option<Seq<char>>, field: Seq<char>) -> usize {
    match struct_ty {
        Some(t) => if lay.contains_key(t) && lay[t].contains_key(field) {
            lay[t][field]
        } else {
            0
        },
        None => 0,
    }
}

/// Moving the first 8 arguments of a call into `$a0` … `$a7`.
pub open spec fn call_args_text(ra: RaV, args: Seq<String>) -> Seq<char>
    decreases args.len(),
{
    if args.len() == 0 {
        Seq::empty()
    } else {
        let k = (args.len() - 1) as nat;
        let rest = call_args_text(ra, args.drop_last());
        if k < 8 {
            let (s, t) = get_s(ra, args.last()@);
            rest + t + mv(arg_reg(k), s)
        } else {
            rest
        }
    }
}

/// Storing the values `vals` into consecutive words at `d`; `note` gives
/// the comment of each store.
pub open spec fn store_words(ra: RaV, d: Seq<char>, vals: Seq<Seq<char>>, notes: Seq<Seq<char>>) -> Seq<char>
    decreases vals.len(),
{
    if vals.len() == 0 {
        Seq::empty()
    } else {
        let k = (vals.len() - 1) as usize;
        let (v, t) = get_s(ra, vals.last());
        store_words(ra, d, vals.drop_last(), notes) + t + "\tst.d\t"@ + v + ", "@ + d + ", "@ + num(
            wmul(k, 8),
        ) + notes[k as int] + "\n"@
    }
}

/// The template of an inline assembly block with `{i}` replaced by the
/// register of the `i`-th argument, and the reload texts of the arguments.
pub open spec fn asm_text(ra: RaV, template: Seq<char>, args: Seq<String>) -> (Seq<char>, Seq<char>)
    decreases args.len(),
{
    if args.len() == 0 {
        (template, Seq::empty())
    } else {
        let (tpl, t0) = asm_text(ra, template, args.drop_last());
        let (reg, t) = get_s(ra, args.last()@);
        let k = (args.len() - 1) as nat;
        (replace_all(tpl, "{"@ + dec_nat(k) + "}"@, reg), t0 + t)
    }
}

/// What follows the main line of a binary operation.
#[derive(Clone, Copy, PartialEq, Eq, Structural)]
pub enum Tail {
    Nothing,
    /// `sltui d, d, 1`: 1 when the difference is zero.
    SetIfZero,
    /// `sltu d, $zero, d`: 1 when the difference is not zero.
    SetIfNonZero,
    /// `xori d, d, 1`: the negation of a comparison.
    Flip,
}

pub open spec fn tail_text(t: Tail, r: Seq<char>) -> Seq<char> {
    match t {
        Tail::Nothing => Seq::empty(),
        Tail::SetIfZero => ins3("sltui"@, r, r, "1"@),
        Tail::SetIfNonZero => ins3("sltu"@, r, "$zero"@, r),
        Tail::Flip => ins3("xori"@, r, r, "1"@),
    }
}

/// A binary operation `m r, a, b` (operands swapped when `swap`), then its tail.
pub open spec fn bin_text(ra: RaV, r: Seq<char>, a: Seq<char>, b: Seq<char>, m: Seq<char>, swap: bool, tail: Tail) -> Seq<char> {
    let (x, y, t) = get2_s(ra, a, b);
    t + if swap {
        ins3(m, r, y, x)
    } else {
        ins3(m, r, x, y)
    } + tail_text(tail, r)
}

/// The line of an operation that reads one register `s` into `r`.
#[derive(Clone, Copy, PartialEq, Eq, Structural)]
pub enum Unary {
    /// `move r, s` unless they are the same register.
    Move,
    /// `sltui r, s, 1`
    IsZero,
    /// `sub.d r, $zero, s`
    Negate,
    /// `nor r, s, $zero`
    Invert,
    /// `ld.d r, s, 0`
    LoadWord0,
    /// `ld.d r, s, 8`
    LoadWord8,
    /// `strlen(s)` into `r`.
    StrLen,
    /// `malloc(s * 8)` into `r`.
    AllocWords,
}

pub open spec fn unary_line(u: Unary, r: Seq<char>, s: Seq<char>) -> Seq<char> {
    match u {
        Unary::Move => mv(r, s),
        Unary::IsZero => ins3("sltui"@, r, s, "1"@),
        Unary::Negate => ins3("sub.d"@, r, "$zero"@, s),
        Unary::Invert => ins3("nor"@, r, s, "$zero"@),
        Unary::LoadWord0 => ins3("ld.d"@, r, s, "0"@),
        Unary::LoadWord8 => ins3("ld.d"@, r, s, "8"@),
        Unary::StrLen => ins2("move"@, "$a0"@, s) + ins1("bl"@, "strlen"@) + ins2("move"@, r, "$a0"@),
        Unary::AllocWords => ins3("slli.d"@, "$a0"@, s, "3\t# count * 8 bytes"@) + ins1("bl"@, "malloc"@)
            + ins2("move"@, r, "$a0"@),
    }
}

/// An operation reading the value `a` into `r`.
pub open spec fn un_text(ra: RaV, r: Seq<char>, a: Seq<char>, u: Unary) -> Seq<char> {
    let (s, t) = get_s(ra, a);
    t + unary_line(u, r, s)
}

/// A 16-byte tagged cell `[tag, payload]` from `malloc`; `tag_text` stores the tag.
pub open spec fn cell_text(ra: RaV, r: Seq<char>, payload: Seq<char>, tag_text: Seq<char>) -> Seq<char> {
    let (p, t) = get_s(ra, payload);
    ins3("addi.d"@, "$a0"@, "$zero"@, "16"@) + ins1("bl"@, "malloc"@) + ins2("move"@, r, "$a0"@)
        + tag_text + t + ins3("st.d"@, p, r, "8"@)
}

/// Moving the result of a call from `$a0` into the destination.
pub open spec fn call_result(d: Option<Seq<char>>) -> Seq<char> {
    match d {
        Some(r) => mv(r, "$a0"@),
        None => Seq::empty(),
    }
}

/// The operands, mnemonic, operand order and tail of a binary operation.
#[verifier::opaque]
pub open spec fn bin_operands(op: Op) -> Option<(Seq<char>, Seq<char>, Seq<char>, bool, Tail)> {
    match op {
        Op::Add(a, b) => Some((a@, b@, "add.d"@, false, Tail::Nothing)),
        Op::Sub(a, b) => Some((a@, b@, "sub.d"@, false, Tail::Nothing)),
        Op::Mul(a, b) => Some((a@, b@, "mul.d"@, false, Tail::Nothing)),
        Op::Div(a, b) => Some((a@, b@, "div.d"@, false, Tail::Nothing)),
        Op::Rem(a, b) => Some((a@, b@, "mod.d"@, false, Tail::Nothing)),
        Op::CmpEq(a, b) => Some((a@, b@, "sub.d"@, false, Tail::SetIfZero)),
        Op::CmpNeq(a, b) => Some((a@, b@, "sub.d"@, false, Tail::SetIfNonZero)),
        Op::CmpLt(a, b) => Some((a@, b@, "slt"@, false, Tail::Nothing)),
        Op::CmpLe(a, b) => Some((a@, b@, "slt"@, true, Tail::Flip)),
        Op::CmpGt(a, b) => Some((a@, b@, "slt"@, true, Tail::Nothing)),
        Op::CmpGe(a, b) => Some((a@, b@, "slt"@, false, Tail::Flip)),
        Op::And(a, b) => Some((a@, b@, "and"@, false, Tail::Nothing)),
        Op::Or(a, b) => Some((a@, b@, "or"@, false, Tail::Nothing)),
        Op::BitAnd(a, b) => Some((a@, b@, "and"@, false, Tail::Nothing)),
        Op::BitOr(a, b) => Some((a@, b@, "or"@, false, Tail::Nothing)),
        Op::BitXor(a, b) => Some((a@, b@, "xor"@, false, Tail::Nothing)),
        Op::Shl(a, b) => Some((a@, b@, "sll.d"@, false, Tail::Nothing)),
        Op::Shr(a, b) => Some((a@, b@, "srl.d"@, false, Tail::Nothing)),
        _ => None,
    }
}

/// The operand and line shape of an operation that reads one value.
#[verifier::opaque]
pub open spec fn un_operand(op: Op) -> Option<(Seq<char>, Unary)> {
    match op {
        Op::Load(src) => Some((src@, Unary::Move)),
        Op::Not(a) => Some((a@, Unary::IsZero)),
        Op::Neg(a) => Some((a@, Unary::Negate)),
        Op::BitNot(a) => Some((a@, Unary::Invert)),
        Op::GetTag(v) => Some((v@, Unary::LoadWord0)),
        Op::GetPayload(v) => Some((v@, Unary::LoadWord8)),
        Op::Cast { val, .. } => Some((val@, Unary::Move)),
        Op::SliceLen(b) => Some((b@, Unary::LoadWord8)),
        Op::SlicePtr(b) => Some((b@, Unary::LoadWord0)),
        Op::StrLen(b) => Some((b@, Unary::StrLen)),
        Op::Deref(v) => Some((v@, Unary::LoadWord0)),
        Op::AllocCall { count, .. } => Some((count@, Unary::AllocWords)),
        _ => None,
    }
}

/// The text of an operation that writes its destination register `r`.
#[verifier::opaque]
pub open spec fn dest_text(ra: RaV, lay: Layouts, r: Seq<char>, op: Op) -> Seq<char> {
    match bin_operands(op) {
        Some((a, b, m, swap, tail)) => bin_text(ra, r, a, b, m, swap, tail),
        None => match un_operand(op) {
            Some((a, u)) => un_text(ra, r, a, u),
            None => other_text(ra, lay, r, op),
        },
    }
}

/// The text of the remaining operations that write their destination `r`:
/// constants, tagged cells, fields, indexing, addresses and aggregates.
#[verifier::opaque]
pub open spec fn other_text(ra: RaV, lay: Layouts, r: Seq<char>, op: Op) -> Seq<char> {
    match op {
        Op::ConstInt(v) => load_imm(r, v),
        Op::ConstBool(v) => ins3("addi.d"@, r, "$zero"@, if v { "1"@ } else { "0"@ }),
        Op::ConstFloat(_) => ins3("addi.d"@, r, "$zero"@, "0\t# float stub"@),
        Op::MakeVariant { tag, payload } => cell_text(
            ra,
            r,
            payload@,
            ins3("addi.d"@, "$t8"@, "$zero"@, num(tag)) + ins3("st.d"@, "$t8"@, r, "0"@),
        ),
        Op::WrapOk(v) => cell_text(ra, r, v@, ins3("st.d"@, "$zero"@, r, "0"@)),
        Op::WrapErr(v) => cell_text(
            ra,
            r,
            v@,
            ins3("addi.d"@, "$t8"@, "$zero"@, "1"@) + ins3("st.d"@, "$t8"@, r, "0"@),
        ),
        Op::Field { base, field, struct_ty } => {
            let (b, t) = get_s(ra, base@);
            t + ins3("ld.d"@, r, b, num(field_offset(lay, struct_ty.deep_view(), field@)) + "\t# ."@ + field@)
        },
        Op::Index { base, index } => {
            let (b, i, t) = get2_s(ra, base@, index@);
            t + ins3("slli.d"@, r, i, "3"@) + ins3("add.d"@, r, b, r) + ins3("ld.d"@, r, r, "0"@)
        },
        Op::Ref(v) => ins3("addi.d"@, r, "$fp"@, "-"@ + num(stack_slot_s(ra, v@))),
        Op::StructLit { ty, fields } => ins3(
            "addi.d"@,
            "$sp"@,
            "$sp"@,
            "-"@ + num(wmul(fields.len(), 8)) + "\t# struct "@ + ty@,
        ) + ins2("move"@, r, "$sp"@) + store_words(
            ra,
            r,
            fields@.map_values(|p: (String, String)| p.1@),
            fields@.map_values(|p: (String, String)| "\t# ."@ + p.0@),
        ),
        Op::ArrayLit(elems) => ins3("addi.d"@, "$sp"@, "$sp"@, "-"@ + num(wmul(elems.len(), 8))) + ins2(
            "move"@,
            r,
            "$sp"@,
        ) + store_words(ra, r, elems@.map_values(|e: String| e@), Seq::new(elems.len() as nat, |k: int| Seq::<char>::empty())),
        Op::MatrixLit { elems, rows, cols } => ins3(
            "addi.d"@,
            "$sp"@,
            "$sp"@,
            "-"@ + num(wmul(elems.len(), 8)) + "\t# matrix "@ + num(rows) + "x"@ + num(cols),
        ) + ins2("move"@, r, "$sp"@) + store_words(
            ra,
            r,
            elems@.map_values(|e: String| e@),
            Seq::new(elems.len() as nat, |k: int| Seq::<char>::empty()),
        ),
        _ => Seq::empty(),
    }
}

/// The text of one instruction whose destination register is `d`, and the
/// allocator afterwards. Without a destination most operations emit nothing.
#[verifier::opaque]
pub open spec fn op_text(ra: RaV, lay: Layouts, f: Seq<char>, d: Option<Seq<char>>, op: Op) -> (Seq<char>, RaV) {
    match op {
        Op::ConstStr(s) => {
            let label = str_label_s(ra, f);
            (
                "\t.section\t.rodata\n"@ + label + ":\n"@ + "\t.string\t\""@ + escape(s@) + "\"\n"@
                    + "\t.text\n"@ + match d {
                    Some(r) => ins2("la.local"@, r, label),
                    None => Seq::empty(),
                },
                RaV { str_cnt: wadd(ra.str_cnt, 1), ..ra },
            )
        },
        Op::Store { dest, src } => {
            let (s, t) = get_s(ra, src@);
            (t, bind_s(ra, dest@, s))
        },
        Op::Call { func, args } => (call_args_text(ra, args@) + ins1("bl"@, func@) + call_result(d), ra),
        Op::CallIndirect { fp, args } => {
            let (fr, ft) = get_s(ra, fp@);
            (ft + call_args_text(ra, args@) + ins3("jirl"@, "$ra"@, fr, "0"@) + call_result(d), ra)
        },
        Op::Asm { template, args } => {
            let (tpl, t) = asm_text(ra, template@, args@);
            (t + "\t"@ + tpl + "\n"@, ra)
        },
        Op::UnwrapOk { val, err_block } => (unwrap_text(ra, f, d, val@, err_block@), ra),
        Op::Nop => ("\tnop\n"@, ra),
        _ => (
            match d {
                Some(r) => dest_text(ra, lay, r, op),
                None => Seq::empty(),
            },
            ra,
        ),
    }
}

/// Unwrapping the tagged cell `v`: a jump to the block `err_block` of
/// function `f` when its tag (word 0) is non-zero, that is `Err`; else its
/// payload (word 8) into the destination.
pub open spec fn unwrap_text(ra: RaV, f: Seq<char>, d: Option<Seq<char>>, v: Seq<char>, err_block: Seq<char>) -> Seq<char> {
    let (s, t) = get_s(ra, v);
    t + ins3("ld.d"@, "$t8"@, s, "0"@) + ins2("bnez"@, "$t8"@, block_ref(f, err_block)) + match d {
        Some(r) => ins3("ld.d"@, r, s, "8"@),
        None => Seq::empty(),
    }
}

/// The text of one instruction and the allocator afterwards: its destination
/// gets a register first.
pub open spec fn instr_text(ra: RaV, lay: Layouts, f: Seq<char>, i: Instr) -> (Seq<char>, RaV) {
    match i.dest {
        Some(dname) => {
            let (r, t, ra1) = alloc_s(ra, dname@);
            let (t2, ra2) = op_text(ra1, lay, f, Some(r), i.op);
            (t + t2, ra2)
        },
        None => op_text(ra, lay, f, None, i.op),
    }
}

pub open spec fn instrs_text(ra: RaV, lay: Layouts, f: Seq<char>, is: Seq<Instr>) -> (Seq<char>, RaV)
    decreases is.len(),
{
    if is.len() == 0 {
        (Seq::empty(), ra)
    } else {
        let (t0, ra1) = instrs_text(ra, lay, f, is.drop_last());
        let (t1, ra2) = instr_text(ra1, lay, f, is.last());
        (t0 + t1, ra2)
    }
}

/// The epilogue that restores `$ra` and `$fp` and returns.
pub open spec fn epilogue(fs: usize) -> Seq<char> {
    ins3("ld.d"@, "$ra"@, "$sp"@, num(wsub(fs, 8))) + ins3("ld.d"@, "$fp"@, "$sp"@, num(wsub(fs, 16)))
        + ins3("addi.d"@, "$sp"@, "$sp"@, num(fs)) + ins1("jr"@, "$ra"@)
}

#[verifier::opaque]
pub open spec fn term_text(ra: RaV, f: Seq<char>, fs: usize, t: Terminator) -> Seq<char> {
    match t {
        Terminator::Return(v) => match v {
            Some(x) => {
                let (s, tx) = get_s(ra, x@);
                tx + mv("$a0"@, s) + epilogue(fs)
            },
            None => epilogue(fs),
        },
        Terminator::Jump(l) => ins1("b"@, block_ref(f, l@)),
        Terminator::Branch { cond, then_block, else_block } => {
            let (c, tc) = get_s(ra, cond@);
            tc + ins2("bnez"@, c, block_ref(f, then_block@)) + ins1("b"@, block_ref(f, else_block@))
        },
        Terminator::Unreachable => "\tbreak\t0\t# unreachable\n"@,
    }
}

pub open spec fn block_text(ra: RaV, lay: Layouts, f: Seq<char>, fs: usize, b: BasicBlock) -> (Seq<char>, RaV) {
    let (t, ra1) = instrs_text(ra, lay, f, b.instrs@);
    (block_ref(f, b.label@) + ":\n"@ + t + term_text(ra1, f, fs, b.term), ra1)
}

pub open spec fn blocks_text(ra: RaV, lay: Layouts, f: Seq<char>, fs: usize, bs: Seq<BasicBlock>) -> (Seq<char>, RaV)
    decreases bs.len(),
{
    if bs.len() == 0 {
        (Seq::empty(), ra)
    } else {
        let (t0, ra1) = blocks_text(ra, lay, f, fs, bs.drop_last());
        let (t1, ra2) = block_text(ra1, lay, f, fs, bs.last());
        (t0 + t1, ra2)
    }
}

// ── Functions and modules ─────────────────────────────────────

/// The digits of an SSA name `%n` (after an optional `+`, as `usize`'s
/// parser accepts).
pub open spec fn ssa_digits(d: Seq<char>) -> Seq<char> {
    if d.len() > 1 && d[1] == '+' {
        d.skip(2)
    } else {
        d.skip(1)
    }
}

pub open spec fn all_digits(t: Seq<char>) -> bool {
    forall|i: int| 0 <= i < t.len() ==> crate::lex_spec::is_digit(#[trigger] t[i])
}

/// The number of an SSA name `%n`, if it is one whose number fits in `usize`.
pub open spec fn ssa_number(d: Seq<char>) -> Option<usize> {
    let t = ssa_digits(d);
    if d.len() > 0 && d[0] == '%' && t.len() > 0 && all_digits(t) && crate::lex_spec::dec_value(t) <= usize::MAX {
        Some(crate::lex_spec::dec_value(t) as usize)
    } else {
        None
    }
}

/// One more than the largest SSA number among the destinations of `is`, at least `m`.
pub open spec fn ssa_bound(m: usize, is: Seq<Instr>) -> usize
    decreases is.len(),
{
    if is.len() == 0 {
        m
    } else {
        let m1 = ssa_bound(m, is.drop_last());
        match is.last().dest {
            Some(d) => match ssa_number(d@) {
                Some(v) => if wadd(v, 1) > m1 {
                    wadd(v, 1)
                } else {
                    m1
                },
                None => m1,
            },
            None => m1,
        }
    }
}

pub open spec fn ssa_count_blocks(bs: Seq<BasicBlock>) -> usize
    decreases bs.len(),
{
    if bs.len() == 0 {
        0
    } else {
        ssa_bound(ssa_count_blocks(bs.drop_last()), bs.last().instrs@)
    }
}

/// The frame of a function: `$ra`, `$fp` and one word per SSA value beyond
/// the eight temporaries, 16-byte aligned.
pub open spec fn frame_size(f: IrFunc) -> usize {
    let n = ssa_count_blocks(f.blocks@);
    let spill = if n >= 8 {
        (n - 8) as usize
    } else {
        0
    };
    align16(wadd(16, wmul(spill, 8)))
}

/// The allocator with the first 8 parameters bound to `$a0` … `$a7`.
pub open spec fn bind_params(ra: RaV, ps: Seq<crate::ir::IrParam>) -> RaV
    decreases ps.len(),
{
    if ps.len() == 0 {
        ra
    } else {
        let ra1 = bind_params(ra, ps.drop_last());
        let k = (ps.len() - 1) as nat;
        if k < 8 {
            bind_s(ra1, ps.last().name@, arg_reg(k))
        } else {
            ra1
        }
    }
}

/// The function's label and the prologue that saves `$ra` and `$fp`.
pub open spec fn prologue(n: Seq<char>, fs: usize) -> Seq<char> {
    ins1(".globl"@, n) + ins2(".type"@, n, "@function"@) + n + ":\n"@ + ins3(
        "addi.d"@,
        "$sp"@,
        "$sp"@,
        "-"@ + num(fs),
    ) + ins3("st.d"@, "$ra"@, "$sp"@, num(wsub(fs, 8))) + ins3("st.d"@, "$fp"@, "$sp"@, num(wsub(fs, 16)))
        + ins3("addi.d"@, "$fp"@, "$sp"@, num(fs))
}

/// The size directive that ends a function, and an empty line.
pub open spec fn size_line(n: Seq<char>) -> Seq<char> {
    ins2(".size"@, n, ". - "@ + n) + "\n"@
}

pub open spec fn func_text(lay: Layouts, f: IrFunc) -> Seq<char> {
    let n = f.name@;
    let fs = frame_size(f);
    let ra = bind_params(ra_new(fs), f.params@);
    prologue(n, fs) + blocks_text(ra, lay, n, fs, f.blocks@).0 + size_line(n)
}

pub open spec fn funcs_text(lay: Layouts, fs: Seq<IrFunc>) -> Seq<char>
    decreases fs.len(),
{
    if fs.len() == 0 {
        Seq::empty()
    } else {
        funcs_text(lay, fs.drop_last()) + func_text(lay, fs.last())
    }
}

/// Field name → byte offset (8 bytes per field); a repeated name keeps its last offset.
pub open spec fn field_offsets(fields: Seq<String>) -> Map<Seq<char>, usize>
    decreases fields.len(),
{
    if fields.len() == 0 {
        Map::empty()
    } else {
        field_offsets(fields.drop_last()).insert(fields.last()@, wmul((fields.len() - 1) as usize, 8))
    }
}

/// Type name → field offsets; a repeated type name keeps its last layout.
pub open spec fn layouts(ss: Seq<StructLayout>) -> Layouts
    decreases ss.len(),
{
    if ss.len() == 0 {
        Map::empty()
    } else {
        layouts(ss.drop_last()).insert(ss.last().name@, field_offsets(ss.last().fields@))
    }
}

pub open spec fn module_text(m: IrModule) -> Seq<char> {
    "\t.file\t\""@ + m.name@ + "\"\n"@ + "\t.text\n"@ + funcs_text(layouts(m.structs@), m.funcs@)
}

} // verus!

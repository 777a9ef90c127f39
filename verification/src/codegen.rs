//! LoongArch64 assembly code generator.
//!
//! Emits GNU-as-compatible LA64 assembly text from an `IrModule`.
//! Register allocation: `$t0`-`$t7` for temps, `$a0`-`$a7` for args.
//! Spills to stack when temp regs exhausted.
use vstd::prelude::*;
use crate::laws::law_load_imm_is_exact;
use vstd::string::StringExecFns;
use crate::ir::{BasicBlock, Instr, IrFunc, IrModule, Op, Terminator};
use crate::codegen_spec::{
    LocV, RaV, Tail, Unary, align16, bin_operands, other_text, un_operand, prologue, size_line, alloc_s, arg_reg, asm_text, bin_text, bind_params, bind_s,
    block_ref, block_text, blocks_text, call_args_text, call_result, cell_text, dest_text,
    epilogue, escape, escape_char, field_offset, field_offsets, frame_size, func_text, funcs_text,
    get_s, ins1, ins2, ins3, instr_text, instrs_text, layouts, load_imm, loc_text, module_text,
    ImmStep, imm_steps, steps_text, run_steps, lemma_steps_push, loc_text_into, get_into, get2_s, spilled, reads_t7,
    unwrap_text,
    mv, num, op_text, ra_new, replace_all, ssa_bound, ssa_count_blocks, ssa_number, ssa_digits, all_digits,
    stack_slot_s, store_words, str_label_s, tail_text, temp_reg, term_text, un_text, unary_line,
    wadd, wmul, wsub,
};
use crate::lex_spec::{dec_value, is_digit};
use crate::names::NameMap;
use crate::text::{chars_of, dec_int, is_lit, push_char, push_i64, push_str, push_usize};

verus! {

pub struct Codegen {
    output: String,
    /// Struct field-offset lookup: type name → (field name → byte offset).
    struct_layouts: NameMap<NameMap<usize>>,
}

impl Codegen {
    /// The text emitted so far.
    pub closed spec fn text(&self) -> Seq<char> {
        self.output@
    }

    /// The struct layouts of the module being emitted.
    pub closed spec fn layouts(&self) -> Map<Seq<char>, Map<Seq<char>, usize>> {
        self.struct_layouts@
    }

    pub fn new() -> (c: Self)
        ensures
            c.text() == Seq::<char>::empty(),
            c.layouts() == Map::<Seq<char>, Map<Seq<char>, usize>>::empty(),
    {
        Self { output: String::new(), struct_layouts: NameMap::new() }
    }

    /// The assembly text of `module`.
    pub fn emit_module(&mut self, module: &IrModule) -> (s: String)
        ensures
            s@ == module_text(*module),
            final(self).text() == s@,
            final(self).layouts() == layouts(module.structs@),
    {
        self.output = String::new();
        // Build struct layouts (each field is 8 bytes, pointer-sized).
        self.struct_layouts = NameMap::new();
        let mut i: usize = 0;
        while i < module.structs.len()
            invariant
                i <= module.structs.len(),
                self.struct_layouts@ == layouts(module.structs@.take(i as int)),
                self.output@ == Seq::<char>::empty(),
            decreases module.structs.len() - i,
        {
            let s = &module.structs[i];
            let mut m: NameMap<usize> = NameMap::new();
            let mut k: usize = 0;
            while k < s.fields.len()
                invariant
                    k <= s.fields.len(),
                    m@ == field_offsets(s.fields@.take(k as int)),
                decreases s.fields.len() - k,
            {
                m.insert(s.fields[k].clone(), k.wrapping_mul(8));
                assert(s.fields@.take(k + 1).drop_last() =~= s.fields@.take(k as int));
                k += 1;
            }
            assert(s.fields@.take(k as int) =~= s.fields@);
            self.struct_layouts.insert(s.name.clone(), m);
            assert(module.structs@.take(i + 1).drop_last() =~= module.structs@.take(i as int));
            i += 1;
        }
        assert(module.structs@.take(i as int) =~= module.structs@);
        push_str(&mut self.output, "\t.file\t\"");
        push_str(&mut self.output, module.name.as_str());
        push_str(&mut self.output, "\"\n");
        push_str(&mut self.output, "\t.text\n");
        let ghost head = self.output@;
        let mut j: usize = 0;
        while j < module.funcs.len()
            invariant
                j <= module.funcs.len(),
                self.struct_layouts@ == layouts(module.structs@),
                self.output@ == head + funcs_text(layouts(module.structs@), module.funcs@.take(j as int)),
            decreases module.funcs.len() - j,
        {
            self.emit_func(&module.funcs[j]);
            assert(module.funcs@.take(j + 1).drop_last() =~= module.funcs@.take(j as int));
            j += 1;
        }
        assert(module.funcs@.take(j as int) =~= module.funcs@);
        assert(self.output@ =~= module_text(*module));
        self.output.clone()
    }

    fn emit_func(&mut self, func: &IrFunc)
        ensures
            final(self).output@ == old(self).output@ + func_text(old(self).struct_layouts@, *func),
            final(self).struct_layouts@ == old(self).struct_layouts@,
    {
        let ghost out0 = self.output@;
        let name = &func.name;
        // Count how many SSA names will need stack slots (spills).
        // Reserve 8 bytes per potential spill beyond the temporaries.
        let ssa_count = count_ssa_names(func);
        let spill_slots = if ssa_count >= 8 {
            ssa_count - 8
        } else {
            0
        };
        // Frame: 8 ($ra) + 8 ($fp) + 8*spill_slots, rounded up to 16-byte align.
        let fs = align16_of(16usize.wrapping_add(spill_slots.wrapping_mul(8)));
        assert(fs == frame_size(*func));
        self.emit_prologue(name.as_str(), fs);
        let ghost out1 = self.output@;
        let mut ra = RegAlloc::new(fs);
        // Bind incoming parameters to argument registers.
        let mut i: usize = 0;
        while i < func.params.len()
            invariant
                i <= func.params.len(),
                ra.state() == bind_params(ra_new(fs), func.params@.take(i as int)),
                ra.state().frame_size == fs,
            decreases func.params.len() - i,
        {
            if i < 8 {
                let a = arg_reg_name(i);
                ra.bind(func.params[i].name.clone(), a);
            }
            assert(func.params@.take(i + 1).drop_last() =~= func.params@.take(i as int));
            i += 1;
        }
        assert(func.params@.take(i as int) =~= func.params@);
        self.emit_blocks(func, &mut ra, fs);
        let mut size_of = String::from_str(". - ");
        push_str(&mut size_of, name.as_str());
        put2(&mut self.output, ".size", name.as_str(), size_of.as_str());
        push_str(&mut self.output, "\n");
        assert(self.output@ =~= out0 + func_text(self.struct_layouts@, *func));
    }

    fn emit_blocks(&mut self, func: &IrFunc, ra: &mut RegAlloc, fs: usize)
        ensures
            final(self).output@ == old(self).output@ + blocks_text(
                old(ra).state(),
                old(self).struct_layouts@,
                func.name@,
                fs,
                func.blocks@,
            ).0,
            final(self).struct_layouts@ == old(self).struct_layouts@,
    {
        let ghost out1 = self.output@;
        let ghost ra0 = ra.state();
        let ghost lay = self.struct_layouts@;
        let mut b: usize = 0;
        while b < func.blocks.len()
            invariant
                b <= func.blocks.len(),
                self.struct_layouts@ == lay,
                self.output@ == out1 + blocks_text(ra0, lay, func.name@, fs, func.blocks@.take(b as int)).0,
                ra.state() == blocks_text(ra0, lay, func.name@, fs, func.blocks@.take(b as int)).1,
            decreases func.blocks.len() - b,
        {
            let ghost o = self.output@;
            self.emit_block(&func.blocks[b], ra, func, fs);
            proof {
                let bs = func.blocks@.take(b + 1);
                assert(bs.drop_last() =~= func.blocks@.take(b as int));
            }
            b += 1;
        }
        assert(func.blocks@.take(b as int) =~= func.blocks@);
    }

    fn emit_prologue(&mut self, name: &str, fs: usize)
        ensures
            final(self).output@ == old(self).output@ + prologue(name@, fs),
            final(self).struct_layouts@ == old(self).struct_layouts@,
    {
        let ghost out0 = self.output@;
        put1(&mut self.output, ".globl", name);
        put2(&mut self.output, ".type", name, "@function");
        push_str(&mut self.output, name);
        push_str(&mut self.output, ":\n");
        // Prologue.
        let neg_fs = minus(fs);
        put3(&mut self.output, "addi.d", "$sp", "$sp", neg_fs.as_str());
        let ra_off = num_str(fs.wrapping_sub(8));
        put3(&mut self.output, "st.d", "$ra", "$sp", ra_off.as_str());
        let fp_off = num_str(fs.wrapping_sub(16));
        put3(&mut self.output, "st.d", "$fp", "$sp", fp_off.as_str());
        let fs_s = num_str(fs);
        put3(&mut self.output, "addi.d", "$fp", "$sp", fs_s.as_str());
        assert(self.output@ =~= out0 + prologue(name@, fs));
    }

    fn emit_block(&mut self, block: &BasicBlock, ra: &mut RegAlloc, func: &IrFunc, fs: usize)
        ensures
            final(self).output@ == old(self).output@ + block_text(
                old(ra).state(),
                old(self).struct_layouts@,
                func.name@,
                fs,
                *block,
            ).0,
            final(ra).state() == block_text(old(ra).state(), old(self).struct_layouts@, func.name@, fs, *block).1,
            final(self).struct_layouts@ == old(self).struct_layouts@,
            final(ra).state().frame_size == old(ra).state().frame_size,
    {
        let ghost out0 = self.output@;
        let ghost ra0 = ra.state();
        let ghost lay = self.struct_layouts@;
        push_block_ref(&mut self.output, func.name.as_str(), block.label.as_str());
        push_str(&mut self.output, ":\n");
        let ghost out1 = self.output@;
        let mut i: usize = 0;
        while i < block.instrs.len()
            invariant
                i <= block.instrs.len(),
                self.struct_layouts@ == lay,
                self.output@ == out1 + instrs_text(ra0, lay, func.name@, block.instrs@.take(i as int)).0,
                ra.state() == instrs_text(ra0, lay, func.name@, block.instrs@.take(i as int)).1,
                ra.state().frame_size == ra0.frame_size,
            decreases block.instrs.len() - i,
        {
            self.emit_instr(&block.instrs[i], ra, func);
            assert(block.instrs@.take(i + 1).drop_last() =~= block.instrs@.take(i as int));
            i += 1;
        }
        assert(block.instrs@.take(i as int) =~= block.instrs@);
        self.emit_terminator(&block.term, ra, func, fs);
        assert(self.output@ =~= out0 + block_text(ra0, lay, func.name@, fs, *block).0);
    }

    fn emit_instr(&mut self, instr: &Instr, ra: &mut RegAlloc, func: &IrFunc)
        ensures
            final(self).output@ == old(self).output@ + instr_text(
                old(ra).state(),
                old(self).struct_layouts@,
                func.name@,
                *instr,
            ).0,
            final(ra).state() == instr_text(old(ra).state(), old(self).struct_layouts@, func.name@, *instr).1,
            final(self).struct_layouts@ == old(self).struct_layouts@,
            final(ra).state().frame_size == old(ra).state().frame_size,
    {
        let ghost out0 = self.output@;
        let dest_reg = match &instr.dest {
            Some(d) => Some(ra.assign(d.clone(), &mut self.output)),
            None => None,
        };
        self.emit_op(&instr.op, &dest_reg, ra, func.name.as_str());
        assert(self.output@ =~= out0 + instr_text(old(ra).state(), self.struct_layouts@, func.name@, *instr).0);
    }

    /// The text of `op` once its destination has the register `dest_reg`.
    #[verifier::rlimit(60)]
    #[verifier::spinoff_prover]
    fn emit_op(&mut self, op: &Op, dest_reg: &Option<String>, ra: &mut RegAlloc, fname: &str)
        ensures
            final(self).output@ == old(self).output@ + op_text(
                old(ra).state(),
                old(self).struct_layouts@,
                fname@,
                dest_reg.deep_view(),
                *op,
            ).0,
            final(ra).state() == op_text(old(ra).state(), old(self).struct_layouts@, fname@, dest_reg.deep_view(), *op).1,
            final(self).struct_layouts@ == old(self).struct_layouts@,
            final(ra).state().frame_size == old(ra).state().frame_size,
    {
        reveal(op_text);
        let ghost out0 = self.output@;
        match op {
            Op::ConstStr(s) => {
                let label = ra.str_label(fname);
                // Emit string data into .rodata section, then return to .text.
                push_str(&mut self.output, "\t.section\t.rodata\n");
                push_str(&mut self.output, label.as_str());
                push_str(&mut self.output, ":\n");
                push_str(&mut self.output, "\t.string\t\"");
                let escaped = escape_str(s.as_str());
                push_str(&mut self.output, escaped.as_str());
                push_str(&mut self.output, "\"\n");
                push_str(&mut self.output, "\t.text\n");
                match dest_reg {
                    Some(d) => put2(&mut self.output, "la.local", d.as_str(), label.as_str()),
                    None => {},
                }
            },
            Op::Store { dest, src } => {
                let s = ra.get(src.as_str(), &mut self.output);
                // Rebind dest SSA to the same register/slot as src.
                ra.bind(dest.clone(), s);
            },
            Op::Call { func: fname2, args } => {
                self.emit_call_args(args, ra);
                put1(&mut self.output, "bl", fname2.as_str());
                self.emit_call_result(dest_reg);
            },
            Op::CallIndirect { fp, args } => {
                let f = ra.get(fp.as_str(), &mut self.output);
                self.emit_call_args(args, ra);
                put3(&mut self.output, "jirl", "$ra", f.as_str(), "0");
                self.emit_call_result(dest_reg);
            },
            Op::Asm { template, args } => {
                // Substitute {0}, {1}, … with the register names of the corresponding SSA values.
                let tpl = self.emit_asm_args(template, args, ra);
                push_str(&mut self.output, "\t");
                push_str(&mut self.output, tpl.as_str());
                push_str(&mut self.output, "\n");
            },
            Op::UnwrapOk { val, err_block } => self.emit_unwrap_ok(val, err_block, dest_reg, ra, fname),
            Op::Nop => {
                push_str(&mut self.output, "\tnop\n");
            },
            _ => match dest_reg {
                Some(r) => self.emit_dest(op, r, ra),
                None => {},
            },
        }
        assert(self.output@ =~= out0 + op_text(old(ra).state(), self.struct_layouts@, fname@, dest_reg.deep_view(), *op).0);
    }

    /// Unwrapping a tagged cell: a jump to the error block when the tag
    /// (word 0) is non-zero, else the payload (word 8) into the destination.
    fn emit_unwrap_ok(&mut self, val: &String, err_block: &String, dest_reg: &Option<String>, ra: &RegAlloc, fname: &str)
        ensures
            final(self).output@ == old(self).output@ + unwrap_text(ra.state(), fname@, dest_reg.deep_view(), val@, err_block@),
            final(self).struct_layouts@ == old(self).struct_layouts@,
    {
        let ghost out0 = self.output@;
        let s = ra.get(val.as_str(), &mut self.output);
        put3(&mut self.output, "ld.d", "$t8", s.as_str(), "0");
        let mut target = String::from_str(".L");
        push_str(&mut target, fname);
        push_str(&mut target, "_");
        push_str(&mut target, err_block.as_str());
        put2(&mut self.output, "bnez", "$t8", target.as_str());
        match dest_reg {
            Some(d) => put3(&mut self.output, "ld.d", d.as_str(), s.as_str(), "8"),
            None => {},
        }
        assert(self.output@ =~= out0 + unwrap_text(ra.state(), fname@, dest_reg.deep_view(), val@, err_block@));
    }

    /// `move d, $a0` after a call, when the call has a destination elsewhere.
    fn emit_call_result(&mut self, dest_reg: &Option<String>)
        ensures
            final(self).output@ == old(self).output@ + call_result(dest_reg.deep_view()),
            final(self).struct_layouts@ == old(self).struct_layouts@,
    {
        match dest_reg {
            Some(d) => put_mv(&mut self.output, d.as_str(), "$a0"),
            None => {},
        }
    }

    /// Moving the first 8 arguments into `$a0` … `$a7`.
    fn emit_call_args(&mut self, args: &Vec<String>, ra: &RegAlloc)
        ensures
            final(self).output@ == old(self).output@ + call_args_text(ra.state(), args@),
            final(self).struct_layouts@ == old(self).struct_layouts@,
    {
        let ghost out0 = self.output@;
        let mut i: usize = 0;
        while i < args.len()
            invariant
                i <= args.len(),
                self.struct_layouts@ == old(self).struct_layouts@,
                self.output@ == out0 + call_args_text(ra.state(), args@.take(i as int)),
            decreases args.len() - i,
        {
            if i < 8 {
                let s = ra.get(args[i].as_str(), &mut self.output);
                let a = arg_reg_name(i);
                put_mv(&mut self.output, a.as_str(), s.as_str());
            }
            assert(args@.take(i + 1).drop_last() =~= args@.take(i as int));
            i += 1;
            assert(self.output@ =~= out0 + call_args_text(ra.state(), args@.take(i as int)));
        }
        assert(args@.take(i as int) =~= args@);
    }

    /// The reload texts of the arguments of an inline assembly block, and
    /// the template with `{i}` replaced by the register of argument `i`.
    fn emit_asm_args(&mut self, template: &String, args: &Vec<String>, ra: &RegAlloc) -> (tpl: String)
        ensures
            final(self).output@ == old(self).output@ + asm_text(ra.state(), template@, args@).1,
            tpl@ == asm_text(ra.state(), template@, args@).0,
            final(self).struct_layouts@ == old(self).struct_layouts@,
    {
        let ghost out0 = self.output@;
        let mut tpl = template.clone();
        let mut i: usize = 0;
        while i < args.len()
            invariant
                i <= args.len(),
                self.struct_layouts@ == old(self).struct_layouts@,
                self.output@ == out0 + asm_text(ra.state(), template@, args@.take(i as int)).1,
                tpl@ == asm_text(ra.state(), template@, args@.take(i as int)).0,
            decreases args.len() - i,
        {
            let reg = ra.get(args[i].as_str(), &mut self.output);
            let mut pat = String::from_str("{");
            push_usize(&mut pat, i);
            push_str(&mut pat, "}");
            tpl = replace_all_of(&tpl, &pat, &reg);
            assert(args@.take(i + 1).drop_last() =~= args@.take(i as int));
            i += 1;
            assert(self.output@ =~= out0 + asm_text(ra.state(), template@, args@.take(i as int)).1);
        }
        assert(args@.take(i as int) =~= args@);
        tpl
    }

    /// The text of an operation that writes the register `r`.
    fn emit_dest(&mut self, op: &Op, r: &String, ra: &RegAlloc)
        ensures
            final(self).output@ == old(self).output@ + dest_text(ra.state(), old(self).struct_layouts@, r@, *op),
            final(self).struct_layouts@ == old(self).struct_layouts@,
    {
        reveal(dest_text);
        match bin_operands_of(op) {
            Some((a, b, m, swap, tail)) => self.emit_bin(ra, r.as_str(), a.as_str(), b.as_str(), m, swap, tail),
            None => match un_operand_of(op) {
                Some((a, u)) => self.emit_un(ra, r.as_str(), a.as_str(), u),
                None => self.emit_other(op, r, ra),
            },
        }
    }

    /// Constants, tagged cells, fields, indexing, addresses and aggregates.
    fn emit_other(&mut self, op: &Op, r: &String, ra: &RegAlloc)
        ensures
            final(self).output@ == old(self).output@ + other_text(ra.state(), old(self).struct_layouts@, r@, *op),
            final(self).struct_layouts@ == old(self).struct_layouts@,
    {
        reveal(other_text);
        match op {
            Op::Field { .. } | Op::Index { .. } | Op::Ref(_) | Op::StructLit { .. } | Op::ArrayLit(_)
            | Op::MatrixLit { .. } => self.emit_memory(op, r, ra),
            Op::MakeVariant { .. } | Op::WrapOk(_) | Op::WrapErr(_) => self.emit_cell(op, r, ra),
            _ => self.emit_value(op, r, ra),
        }
    }

    /// Constants.
    #[verifier::rlimit(40)]
    fn emit_value(&mut self, op: &Op, r: &String, ra: &RegAlloc)
        requires
            !(op is Field || op is Index || op is Ref || op is StructLit || op is ArrayLit || op is MatrixLit
                || op is MakeVariant || op is WrapOk || op is WrapErr),
        ensures
            final(self).output@ == old(self).output@ + other_text(ra.state(), old(self).struct_layouts@, r@, *op),
            final(self).struct_layouts@ == old(self).struct_layouts@,
    {
        reveal(other_text);
        let ghost out0 = self.output@;
        let d = r.as_str();
        match op {
            Op::ConstInt(v) => emit_load_imm(&mut self.output, d, *v),
            Op::ConstBool(v) => put3(&mut self.output, "addi.d", d, "$zero", if *v { "1" } else { "0" }),
            Op::ConstFloat(_) => {
                // Floating-point constants need a .rodata pool entry — stub for now.
                put3(&mut self.output, "addi.d", d, "$zero", "0\t# float stub");
            },
            _ => {},
        }
    }

    /// Tagged cells `[tag, payload]`.
    #[verifier::rlimit(40)]
    fn emit_cell(&mut self, op: &Op, r: &String, ra: &RegAlloc)
        requires
            op is MakeVariant || op is WrapOk || op is WrapErr,
        ensures
            final(self).output@ == old(self).output@ + other_text(ra.state(), old(self).struct_layouts@, r@, *op),
            final(self).struct_layouts@ == old(self).struct_layouts@,
    {
        reveal(other_text);
        let ghost out0 = self.output@;
        let d = r.as_str();
        match op {
            Op::MakeVariant { tag, payload } => {
                // Allocate 16 bytes (2 words): [tag, payload].
                self.emit_cell_head(d);
                let tag_s = num_str(*tag);
                put3(&mut self.output, "addi.d", "$t8", "$zero", tag_s.as_str());
                put3(&mut self.output, "st.d", "$t8", d, "0");
                self.emit_cell_payload(ra, d, payload.as_str());
                assert(self.output@ =~= out0 + other_text(ra.state(), self.struct_layouts@, r@, *op));
            },
            Op::WrapOk(v) => {
                self.emit_cell_head(d);
                put3(&mut self.output, "st.d", "$zero", d, "0");
                self.emit_cell_payload(ra, d, v.as_str());
                assert(self.output@ =~= out0 + other_text(ra.state(), self.struct_layouts@, r@, *op));
            },
            Op::WrapErr(v) => {
                self.emit_cell_head(d);
                put3(&mut self.output, "addi.d", "$t8", "$zero", "1");
                put3(&mut self.output, "st.d", "$t8", d, "0");
                self.emit_cell_payload(ra, d, v.as_str());
                assert(self.output@ =~= out0 + other_text(ra.state(), self.struct_layouts@, r@, *op));
            },
            _ => {},
        }
    }

    /// Fields, indexing, addresses and aggregates.
    #[verifier::rlimit(40)]
    fn emit_memory(&mut self, op: &Op, r: &String, ra: &RegAlloc)
        requires
            op is Field || op is Index || op is Ref || op is StructLit || op is ArrayLit || op is MatrixLit,
        ensures
            final(self).output@ == old(self).output@ + other_text(ra.state(), old(self).struct_layouts@, r@, *op),
            final(self).struct_layouts@ == old(self).struct_layouts@,
    {
        reveal(other_text);
        let ghost out0 = self.output@;
        let d = r.as_str();
        match op {
            // Struct field access: base + field_index*8.
            Op::Field { base, field, struct_ty } => {
                let b = ra.get(base.as_str(), &mut self.output);
                let offset = self.field_offset_of(struct_ty, field);
                let mut z = num_str(offset);
                push_str(&mut z, "\t# .");
                push_str(&mut z, field.as_str());
                put3(&mut self.output, "ld.d", d, b.as_str(), z.as_str());
                assert(self.output@ =~= out0 + other_text(ra.state(), self.struct_layouts@, r@, *op));
            },
            Op::Index { base, index } => {
                let (b, i) = ra.get2(base.as_str(), index.as_str(), &mut self.output);
                // Element size = 8 (pointer-sized default).
                put3(&mut self.output, "slli.d", d, i.as_str(), "3");
                put3(&mut self.output, "add.d", d, b.as_str(), d);
                put3(&mut self.output, "ld.d", d, d, "0");
                assert(self.output@ =~= out0 + other_text(ra.state(), self.struct_layouts@, r@, *op));
            },
            Op::Ref(v) => {
                // Address-of a local: needs stack slot. Emit addi.d from $fp - slot.
                let slot = ra.stack_slot_for(v.as_str());
                let z = minus(slot);
                put3(&mut self.output, "addi.d", d, "$fp", z.as_str());
            },
            Op::StructLit { ty, fields } => {
                // Allocate on stack: each field is 8 bytes.
                let mut z = minus(fields.len().wrapping_mul(8));
                push_str(&mut z, "\t# struct ");
                push_str(&mut z, ty.as_str());
                put3(&mut self.output, "addi.d", "$sp", "$sp", z.as_str());
                put2(&mut self.output, "move", d, "$sp");
                self.emit_field_stores(ra, d, fields);
                assert(self.output@ =~= out0 + other_text(ra.state(), self.struct_layouts@, r@, *op));
            },
            Op::ArrayLit(elems) => {
                let z = minus(elems.len().wrapping_mul(8));
                put3(&mut self.output, "addi.d", "$sp", "$sp", z.as_str());
                put2(&mut self.output, "move", d, "$sp");
                self.emit_elem_stores(ra, d, elems);
                assert(self.output@ =~= out0 + other_text(ra.state(), self.struct_layouts@, r@, *op));
            },
            Op::MatrixLit { elems, rows, cols } => {
                let mut z = minus(elems.len().wrapping_mul(8));
                push_str(&mut z, "\t# matrix ");
                push_usize(&mut z, *rows);
                push_str(&mut z, "x");
                push_usize(&mut z, *cols);
                put3(&mut self.output, "addi.d", "$sp", "$sp", z.as_str());
                put2(&mut self.output, "move", d, "$sp");
                self.emit_elem_stores(ra, d, elems);
                assert(self.output@ =~= out0 + other_text(ra.state(), self.struct_layouts@, r@, *op));
            },
            _ => {},
        }
    }

    /// `m d, a, b` (operands swapped when `swap`), then `tail`.
    fn emit_bin(&mut self, ra: &RegAlloc, d: &str, a: &str, b: &str, m: &str, swap: bool, tail: Tail)
        ensures
            final(self).output@ == old(self).output@ + bin_text(ra.state(), d@, a@, b@, m@, swap, tail),
            final(self).struct_layouts@ == old(self).struct_layouts@,
    {
        let ghost out0 = self.output@;
        let (x, y) = ra.get2(a, b, &mut self.output);
        if swap {
            put3(&mut self.output, m, d, y.as_str(), x.as_str());
        } else {
            put3(&mut self.output, m, d, x.as_str(), y.as_str());
        }
        match tail {
            Tail::Nothing => {},
            Tail::SetIfZero => put3(&mut self.output, "sltui", d, d, "1"),
            Tail::SetIfNonZero => put3(&mut self.output, "sltu", d, "$zero", d),
            Tail::Flip => put3(&mut self.output, "xori", d, d, "1"),
        }
        assert(self.output@ =~= out0 + bin_text(ra.state(), d@, a@, b@, m@, swap, tail));
    }

    /// An operation reading `a` into `d`.
    fn emit_un(&mut self, ra: &RegAlloc, d: &str, a: &str, u: Unary)
        ensures
            final(self).output@ == old(self).output@ + un_text(ra.state(), d@, a@, u),
            final(self).struct_layouts@ == old(self).struct_layouts@,
    {
        let ghost out0 = self.output@;
        let s = ra.get(a, &mut self.output);
        let s = s.as_str();
        match u {
            Unary::Move => put_mv(&mut self.output, d, s),
            Unary::IsZero => put3(&mut self.output, "sltui", d, s, "1"),
            Unary::Negate => put3(&mut self.output, "sub.d", d, "$zero", s),
            Unary::Invert => put3(&mut self.output, "nor", d, s, "$zero"),
            Unary::LoadWord0 => put3(&mut self.output, "ld.d", d, s, "0"),
            Unary::LoadWord8 => put3(&mut self.output, "ld.d", d, s, "8"),
            Unary::StrLen => {
                // Call libc strlen.
                put2(&mut self.output, "move", "$a0", s);
                put1(&mut self.output, "bl", "strlen");
                put2(&mut self.output, "move", d, "$a0");
            },
            Unary::AllocWords => {
                put3(&mut self.output, "slli.d", "$a0", s, "3\t# count * 8 bytes");
                // Call malloc (assume linked in).
                put1(&mut self.output, "bl", "malloc");
                put2(&mut self.output, "move", d, "$a0");
            },
        }
        assert(self.output@ =~= out0 + un_text(ra.state(), d@, a@, u));
    }

    /// `malloc(16)` into `d`.
    fn emit_cell_head(&mut self, d: &str)
        ensures
            final(self).output@ == old(self).output@ + ins3("addi.d"@, "$a0"@, "$zero"@, "16"@) + ins1(
                "bl"@,
                "malloc"@,
            ) + ins2("move"@, d@, "$a0"@),
            final(self).struct_layouts@ == old(self).struct_layouts@,
    {
        put3(&mut self.output, "addi.d", "$a0", "$zero", "16");
        put1(&mut self.output, "bl", "malloc");
        put2(&mut self.output, "move", d, "$a0");
    }

    /// Storing `payload` into the second word of the cell at `d`.
    fn emit_cell_payload(&mut self, ra: &RegAlloc, d: &str, payload: &str)
        ensures
            final(self).output@ == old(self).output@ + get_s(ra.state(), payload@).1 + ins3(
                "st.d"@,
                get_s(ra.state(), payload@).0,
                d@,
                "8"@,
            ),
            final(self).struct_layouts@ == old(self).struct_layouts@,
    {
        let p = ra.get(payload, &mut self.output);
        put3(&mut self.output, "st.d", p.as_str(), d, "8");
    }

    fn field_offset_of(&self, struct_ty: &Option<String>, field: &String) -> (off: usize)
        ensures
            off == field_offset(self.struct_layouts@, struct_ty.deep_view(), field@),
    {
        match struct_ty {
            Some(ty) => match self.struct_layouts.get(ty.as_str()) {
                Some(m) => match m.get(field.as_str()) {
                    Some(off) => *off,
                    None => 0,
                },
                None => 0,
            },
            None => 0,
        }
    }

    /// The values of a struct literal's fields, one word each, at `d`.
    #[verifier::rlimit(40)]
    #[verifier::spinoff_prover]
    fn emit_field_stores(&mut self, ra: &RegAlloc, d: &str, fields: &Vec<(String, String)>)
        ensures
            final(self).output@ == old(self).output@ + store_words(
                ra.state(),
                d@,
                fields@.map_values(|p: (String, String)| p.1@),
                fields@.map_values(|p: (String, String)| "\t# ."@ + p.0@),
            ),
            final(self).struct_layouts@ == old(self).struct_layouts@,
    {
        let ghost out0 = self.output@;
        let ghost vals = fields@.map_values(|p: (String, String)| p.1@);
        let ghost notes = fields@.map_values(|p: (String, String)| "\t# ."@ + p.0@);
        let mut i: usize = 0;
        while i < fields.len()
            invariant
                i <= fields.len(),
                vals == fields@.map_values(|p: (String, String)| p.1@),
                notes == fields@.map_values(|p: (String, String)| "\t# ."@ + p.0@),
                self.struct_layouts@ == old(self).struct_layouts@,
                self.output@ == out0 + store_words(ra.state(), d@, vals.take(i as int), notes),
            decreases fields.len() - i,
        {
            let fv = ra.get(fields[i].1.as_str(), &mut self.output);
            push_str(&mut self.output, "\tst.d\t");
            push_str(&mut self.output, fv.as_str());
            push_str(&mut self.output, ", ");
            push_str(&mut self.output, d);
            push_str(&mut self.output, ", ");
            push_usize(&mut self.output, i.wrapping_mul(8));
            push_str(&mut self.output, "\t# .");
            push_str(&mut self.output, fields[i].0.as_str());
            push_str(&mut self.output, "\n");
            assert(vals.take(i + 1).drop_last() =~= vals.take(i as int));
            i += 1;
            assert(self.output@ =~= out0 + store_words(ra.state(), d@, vals.take(i as int), notes));
        }
        assert(vals.take(i as int) =~= vals);
    }

    /// The elements of an array or matrix literal, one word each, at `d`.
    fn emit_elem_stores(&mut self, ra: &RegAlloc, d: &str, elems: &Vec<String>)
        ensures
            final(self).output@ == old(self).output@ + store_words(
                ra.state(),
                d@,
                elems@.map_values(|e: String| e@),
                Seq::new(elems.len() as nat, |k: int| Seq::<char>::empty()),
            ),
            final(self).struct_layouts@ == old(self).struct_layouts@,
    {
        let ghost out0 = self.output@;
        let ghost vals = elems@.map_values(|e: String| e@);
        let ghost notes = Seq::new(elems.len() as nat, |k: int| Seq::<char>::empty());
        let mut i: usize = 0;
        while i < elems.len()
            invariant
                i <= elems.len(),
                vals == elems@.map_values(|e: String| e@),
                notes == Seq::new(elems.len() as nat, |k: int| Seq::<char>::empty()),
                self.struct_layouts@ == old(self).struct_layouts@,
                self.output@ == out0 + store_words(ra.state(), d@, vals.take(i as int), notes),
            decreases elems.len() - i,
        {
            let v = ra.get(elems[i].as_str(), &mut self.output);
            push_str(&mut self.output, "\tst.d\t");
            push_str(&mut self.output, v.as_str());
            push_str(&mut self.output, ", ");
            push_str(&mut self.output, d);
            push_str(&mut self.output, ", ");
            push_usize(&mut self.output, i.wrapping_mul(8));
            push_str(&mut self.output, "\n");
            assert(vals.take(i + 1).drop_last() =~= vals.take(i as int));
            i += 1;
            assert(self.output@ =~= out0 + store_words(ra.state(), d@, vals.take(i as int), notes));
        }
        assert(vals.take(i as int) =~= vals);
    }

    #[verifier::rlimit(40)]
    fn emit_terminator(&mut self, term: &Terminator, ra: &RegAlloc, func: &IrFunc, fs: usize)
        ensures
            final(self).output@ == old(self).output@ + term_text(ra.state(), func.name@, fs, *term),
            final(self).struct_layouts@ == old(self).struct_layouts@,
    {
        reveal(term_text);
        let ghost out0 = self.output@;
        match term {
            Terminator::Return(val) => {
                match val {
                    Some(v) => {
                        let s = ra.get(v.as_str(), &mut self.output);
                        put_mv(&mut self.output, "$a0", s.as_str());
                    },
                    None => {},
                }
                // Epilogue.
                let ra_off = num_str(fs.wrapping_sub(8));
                put3(&mut self.output, "ld.d", "$ra", "$sp", ra_off.as_str());
                let fp_off = num_str(fs.wrapping_sub(16));
                put3(&mut self.output, "ld.d", "$fp", "$sp", fp_off.as_str());
                let fs_s = num_str(fs);
                put3(&mut self.output, "addi.d", "$sp", "$sp", fs_s.as_str());
                put1(&mut self.output, "jr", "$ra");
            },
            Terminator::Jump(label) => {
                let target = block_ref_of(func.name.as_str(), label.as_str());
                put1(&mut self.output, "b", target.as_str());
            },
            Terminator::Branch { cond, then_block, else_block } => {
                let c = ra.get(cond.as_str(), &mut self.output);
                let t = block_ref_of(func.name.as_str(), then_block.as_str());
                put2(&mut self.output, "bnez", c.as_str(), t.as_str());
                let e = block_ref_of(func.name.as_str(), else_block.as_str());
                put1(&mut self.output, "b", e.as_str());
            },
            Terminator::Unreachable => {
                push_str(&mut self.output, "\tbreak\t0\t# unreachable\n");
            },
        }
        assert(self.output@ =~= out0 + term_text(ra.state(), func.name@, fs, *term));
    }
}

impl Default for Codegen {
    fn default() -> (c: Self)
        ensures
            c.text() == Seq::<char>::empty(),
            c.layouts() == Map::<Seq<char>, Map<Seq<char>, usize>>::empty(),
    {
        Self::new()
    }
}

// ── Register allocator with stack spill ───────────────────────

/// Where an SSA value lives.
enum Loc {
    Reg(String),
    /// Offset from `$sp`.
    Stack(usize),
}

impl View for Loc {
    type V = LocV;

    closed spec fn view(&self) -> LocV {
        match self {
            Loc::Reg(r) => LocV::Reg(r@),
            Loc::Stack(off) => LocV::Stack(*off),
        }
    }
}

struct RegAlloc {
    /// SSA name → physical register or stack slot.
    map: NameMap<Loc>,
    next_reg: usize,
    /// Next stack offset from $sp for spills (grows down from frame base).
    next_spill: usize,
    frame_size: usize,
    str_cnt: usize,
}

impl RegAlloc {
    closed spec fn state(&self) -> RaV {
        RaV {
            map: self.map@,
            next_reg: self.next_reg,
            next_spill: self.next_spill,
            frame_size: self.frame_size,
            str_cnt: self.str_cnt,
        }
    }

    fn new(frame_size: usize) -> (r: Self)
        ensures
            r.state() == ra_new(frame_size),
    {
        Self { map: NameMap::new(), next_reg: 0, next_spill: 0, frame_size, str_cnt: 0 }
    }

    /// Allocate a register for SSA dest `name`. Spills to stack if needed,
    /// emitting the reload into `out`.
    fn assign(&mut self, name: String, out: &mut String) -> (reg: String)
        ensures
            reg@ == alloc_s(old(self).state(), name@).0,
            final(out)@ == old(out)@ + alloc_s(old(self).state(), name@).1,
            final(self).state() == alloc_s(old(self).state(), name@).2,
    {
        match self.map.get(name.as_str()) {
            Some(loc) => {
                return self.loc_to_reg(loc, out);
            },
            None => {},
        }
        let loc = if self.next_reg < 8 {
            let r = temp_reg_name(self.next_reg);
            self.next_reg += 1;
            Loc::Reg(r)
        } else {
            // Spill: allocate a new stack slot (8 bytes).
            let offset = self.next_spill;
            self.next_spill = offset.wrapping_add(8);
            Loc::Stack(offset)
        };
        let reg = self.loc_to_reg(&loc, out);
        self.map.insert(name, loc);
        reg
    }

    /// Get the register currently holding `name`, loading from stack if spilled.
    fn get(&self, name: &str, out: &mut String) -> (reg: String)
        ensures
            reg@ == get_s(self.state(), name@).0,
            final(out)@ == old(out)@ + get_s(self.state(), name@).1,
    {
        match self.map.get(name) {
            Some(loc) => self.loc_to_reg(loc, out),
            // Unknown SSA — return scratch register $t7.
            None => String::from_str("$t7"),
        }
    }

    /// Get the register holding `name`, a spilled value being reloaded into `scratch`.
    fn get_into(&self, name: &str, scratch: &str, out: &mut String) -> (reg: String)
        ensures
            reg@ == get_into(self.state(), name@, scratch@).0,
            final(out)@ == old(out)@ + get_into(self.state(), name@, scratch@).1,
    {
        match self.map.get(name) {
            Some(loc) => self.loc_to_reg_into(loc, scratch, out),
            None => String::from_str("$t7"),
        }
    }

    /// Get two values into registers, avoiding the same scratch register:
    /// a value reloaded from the stack never lands in the other's register.
    fn get2(&self, a: &str, b: &str, out: &mut String) -> (regs: (String, String))
        ensures
            regs.0@ == get2_s(self.state(), a@, b@).0,
            regs.1@ == get2_s(self.state(), a@, b@).1,
            final(out)@ == old(out)@ + get2_s(self.state(), a@, b@).2,
            spilled(self.state(), a@) || spilled(self.state(), b@) ==> regs.0@ != regs.1@,
    {
        proof {
            reveal_strlit("$t7");
            reveal_strlit("$t8");
            assert("$t7"@[2] == '7' && "$t8"@[2] == '8');
            assert("$t7"@ != "$t8"@);
        }
        let b_reads_t7 = match self.map.get(b) {
            Some(Loc::Reg(r)) => is_lit(r.as_str(), "$t7"),
            Some(Loc::Stack(_)) => false,
            None => true,
        };
        let sa = if b_reads_t7 {
            "$t8"
        } else {
            "$t7"
        };
        let ra = self.get_into(a, sa, out);
        let sb = if is_lit(ra.as_str(), "$t7") {
            "$t8"
        } else {
            "$t7"
        };
        let rb = self.get_into(b, sb, out);
        (ra, rb)
    }

    fn bind(&mut self, name: String, reg: String)
        ensures
            final(self).state() == bind_s(old(self).state(), name@, reg@),
    {
        self.map.insert(name, Loc::Reg(reg));
    }

    /// Returns the stack byte offset for a named value (for address-of).
    fn stack_slot_for(&self, name: &str) -> (off: usize)
        ensures
            off == stack_slot_s(self.state(), name@),
    {
        match self.map.get(name) {
            Some(Loc::Stack(off)) => self.frame_size.wrapping_sub(*off),
            _ => 0,
        }
    }

    fn str_label(&mut self, func: &str) -> (l: String)
        ensures
            l@ == str_label_s(old(self).state(), func@),
            final(self).state() == (RaV { str_cnt: wadd(old(self).state().str_cnt, 1), ..old(self).state() }),
    {
        let id = self.str_cnt;
        self.str_cnt = id.wrapping_add(1);
        let mut l = String::from_str(".Lstr_");
        push_str(&mut l, func);
        push_str(&mut l, "_");
        push_usize(&mut l, id);
        l
    }

    fn loc_to_reg(&self, loc: &Loc, out: &mut String) -> (reg: String)
        ensures
            reg@ == loc_text(loc@).0,
            final(out)@ == old(out)@ + loc_text(loc@).1,
    {
        self.loc_to_reg_into(loc, "$t7", out)
    }

    /// The register holding `loc`'s value, a spilled value being reloaded
    /// into `scratch`.
    fn loc_to_reg_into(&self, loc: &Loc, scratch: &str, out: &mut String) -> (reg: String)
        ensures
            reg@ == loc_text_into(loc@, scratch@).0,
            final(out)@ == old(out)@ + loc_text_into(loc@, scratch@).1,
    {
        match loc {
            Loc::Reg(r) => r.clone(),
            Loc::Stack(offset) => {
                // Load the spilled value into the scratch register.
                let ghost o = out@;
                push_str(out, "\tld.d\t");
                push_str(out, scratch);
                push_str(out, ", $sp, ");
                push_usize(out, *offset);
                push_str(out, "\t# reload spill\n");
                assert(out@ =~= o + loc_text_into(loc@, scratch@).1);
                String::from_str(scratch)
            },
        }
    }
}

// ── Utility helpers ───────────────────────────────────────────

/// The operands, mnemonic, operand order and tail of a binary operation.
fn bin_operands_of(op: &Op) -> (r: Option<(&String, &String, &'static str, bool, Tail)>)
    ensures
        match r {
            Some((a, b, m, swap, tail)) => bin_operands(*op) == Some((a@, b@, m@, swap, tail)),
            None => bin_operands(*op) is None,
        },
{
    reveal(bin_operands);
    match op {
        Op::Add(a, b) => Some((a, b, "add.d", false, Tail::Nothing)),
        Op::Sub(a, b) => Some((a, b, "sub.d", false, Tail::Nothing)),
        Op::Mul(a, b) => Some((a, b, "mul.d", false, Tail::Nothing)),
        Op::Div(a, b) => Some((a, b, "div.d", false, Tail::Nothing)),
        Op::Rem(a, b) => Some((a, b, "mod.d", false, Tail::Nothing)),
        Op::CmpEq(a, b) => Some((a, b, "sub.d", false, Tail::SetIfZero)),
        Op::CmpNeq(a, b) => Some((a, b, "sub.d", false, Tail::SetIfNonZero)),
        Op::CmpLt(a, b) => Some((a, b, "slt", false, Tail::Nothing)),
        Op::CmpLe(a, b) => Some((a, b, "slt", true, Tail::Flip)),
        Op::CmpGt(a, b) => Some((a, b, "slt", true, Tail::Nothing)),
        Op::CmpGe(a, b) => Some((a, b, "slt", false, Tail::Flip)),
        Op::And(a, b) => Some((a, b, "and", false, Tail::Nothing)),
        Op::Or(a, b) => Some((a, b, "or", false, Tail::Nothing)),
        Op::BitAnd(a, b) => Some((a, b, "and", false, Tail::Nothing)),
        Op::BitOr(a, b) => Some((a, b, "or", false, Tail::Nothing)),
        Op::BitXor(a, b) => Some((a, b, "xor", false, Tail::Nothing)),
        Op::Shl(a, b) => Some((a, b, "sll.d", false, Tail::Nothing)),
        Op::Shr(a, b) => Some((a, b, "srl.d", false, Tail::Nothing)),
        _ => None,
    }
}

/// The operand and line shape of an operation that reads one value.
fn un_operand_of(op: &Op) -> (r: Option<(&String, Unary)>)
    ensures
        match r {
            Some((a, u)) => un_operand(*op) == Some((a@, u)),
            None => un_operand(*op) is None,
        },
{
    reveal(un_operand);
    match op {
        Op::Load(src) => Some((src, Unary::Move)),
        Op::Not(a) => Some((a, Unary::IsZero)),
        Op::Neg(a) => Some((a, Unary::Negate)),
        Op::BitNot(a) => Some((a, Unary::Invert)),
        Op::GetTag(v) => Some((v, Unary::LoadWord0)),
        Op::GetPayload(v) => Some((v, Unary::LoadWord8)),
        Op::Cast { val, .. } => Some((val, Unary::Move)),
        Op::SliceLen(b) => Some((b, Unary::LoadWord8)),
        Op::SlicePtr(b) => Some((b, Unary::LoadWord0)),
        Op::StrLen(b) => Some((b, Unary::StrLen)),
        Op::Deref(v) => Some((v, Unary::LoadWord0)),
        Op::AllocCall { count, .. } => Some((count, Unary::AllocWords)),
        _ => None,
    }
}

fn align16_of(n: usize) -> (r: usize)
    ensures
        r == align16(n),
{
    n.wrapping_add(15) & !15usize
}

/// One more than the largest SSA number among the function's destinations.
fn count_ssa_names(func: &IrFunc) -> (n: usize)
    ensures
        n == ssa_count_blocks(func.blocks@),
{
    let mut max: usize = 0;
    let mut b: usize = 0;
    while b < func.blocks.len()
        invariant
            b <= func.blocks.len(),
            max == ssa_count_blocks(func.blocks@.take(b as int)),
        decreases func.blocks.len() - b,
    {
        let block = &func.blocks[b];
        let ghost m0 = max;
        let mut i: usize = 0;
        while i < block.instrs.len()
            invariant
                i <= block.instrs.len(),
                max == ssa_bound(m0, block.instrs@.take(i as int)),
            decreases block.instrs.len() - i,
        {
            match &block.instrs[i].dest {
                Some(d) => match parse_ssa_number(d.as_str()) {
                    Some(v) => {
                        let w = v.wrapping_add(1);
                        if w > max {
                            max = w;
                        }
                    },
                    None => {},
                },
                None => {},
            }
            assert(block.instrs@.take(i + 1).drop_last() =~= block.instrs@.take(i as int));
            i += 1;
        }
        assert(block.instrs@.take(i as int) =~= block.instrs@);
        assert(func.blocks@.take(b + 1).drop_last() =~= func.blocks@.take(b as int));
        b += 1;
    }
    assert(func.blocks@.take(b as int) =~= func.blocks@);
    max
}

/// The number of an SSA name `%n`.
fn parse_ssa_number(d: &str) -> (r: Option<usize>)
    ensures
        r == ssa_number(d@),
{
    let cs = chars_of(d);
    if cs.len() == 0 || cs[0] != '%' {
        return None;
    }
    let start: usize = if cs.len() > 1 && cs[1] == '+' {
        2
    } else {
        1
    };
    let ghost t = ssa_digits(d@);
    assert(t =~= cs@.skip(start as int));
    if start >= cs.len() {
        return None;
    }
    let mut acc: u128 = 0;
    let mut j: usize = start;
    while j < cs.len()
        invariant
            start <= j <= cs.len(),
            cs@ == d@,
            d@.len() > 0,
            d@[0] == '%',
            t == ssa_digits(d@),
            t == cs@.skip(start as int),
            forall|k: int| 0 <= k < j - start ==> is_digit(#[trigger] t[k]),
            acc == dec_value(t.take(j - start)),
            acc <= usize::MAX,
        decreases cs.len() - j,
    {
        let c = cs[j];
        assert(c == t[j - start]);
        if !('0' <= c && c <= '9') {
            assert(!is_digit(t[j - start]));
            assert(!all_digits(t));
            return None;
        }
        assert(is_digit(t[j - start]));
        let dv = (c as u32 - '0' as u32) as u128;
        assert(t.take(j + 1 - start).drop_last() =~= t.take(j - start));
        let next = acc * 10 + dv;
        if next > usize::MAX as u128 {
            proof {
                lemma_dec_value_prefix(t, j + 1 - start);
                assert(dec_value(t.take(j + 1 - start)) == next);
            }
            return None;
        }
        acc = next;
        j += 1;
    }
    assert(t.take(j - start) =~= t);
    assert(all_digits(t));
    Some(acc as usize)
}

/// The value of a numeral is at least that of any of its prefixes.
proof fn lemma_dec_value_prefix(t: Seq<char>, k: int)
    requires
        0 <= k <= t.len(),
        forall|i: int| 0 <= i < k ==> is_digit(#[trigger] t[i]),
    ensures
        (forall|i: int| 0 <= i < t.len() ==> is_digit(#[trigger] t[i])) ==> dec_value(t) >= dec_value(t.take(k)),
    decreases t.len(),
{
    if (forall|i: int| 0 <= i < t.len() ==> is_digit(#[trigger] t[i])) {
        if k < t.len() {
            let u = t.drop_last();
            assert forall|i: int| 0 <= i < u.len() implies is_digit(#[trigger] u[i]) by {
                assert(u[i] == t[i]);
            }
            lemma_dec_value_prefix(u, k);
            assert(u.take(k) =~= t.take(k));
            lemma_dec_value_nonneg(u);
        } else {
            assert(t.take(k) =~= t);
        }
    }
}

proof fn lemma_dec_value_nonneg(t: Seq<char>)
    requires
        forall|i: int| 0 <= i < t.len() ==> is_digit(#[trigger] t[i]),
    ensures
        dec_value(t) >= 0,
    decreases t.len(),
{
    if t.len() > 0 {
        let u = t.drop_last();
        assert forall|i: int| 0 <= i < u.len() implies is_digit(#[trigger] u[i]) by {
            assert(u[i] == t[i]);
        }
        lemma_dec_value_nonneg(u);
        assert(is_digit(t[t.len() - 1]));
    }
}

/// Loading the constant `v` into `reg`: the register ends up holding `v`.
fn emit_load_imm(out: &mut String, reg: &str, v: i64)
    ensures
        final(out)@ == old(out)@ + load_imm(reg@, v),
        load_imm(reg@, v) == steps_text(reg@, imm_steps(v)),
        forall|r: u64| #[trigger] run_steps(r, imm_steps(v)) == v as u64,
{
    reveal(load_imm);
    proof {
        assert forall|r: u64| #[trigger] run_steps(r, imm_steps(v)) == v as u64 by {
            law_load_imm_is_exact(v, r);
        }
    }
    if v >= -2048 && v <= 2047 {
        emit_load_short(out, reg, v);
    } else {
        emit_load_long(out, reg, v);
    }
}

/// `addi.d reg, $zero, v` for a 12-bit constant.
fn emit_load_short(out: &mut String, reg: &str, v: i64)
    requires
        -2048 <= v <= 2047,
    ensures
        final(out)@ == old(out)@ + steps_text(reg@, imm_steps(v)),
{
    let ghost out0 = out@;
    let z = int_str(v);
    put3(out, "addi.d", reg, "$zero", z.as_str());
    proof {
        lemma_steps_push(reg@, Seq::empty(), ImmStep::Addi(v));
        assert(imm_steps(v) =~= Seq::<ImmStep>::empty().push(ImmStep::Addi(v)));
    }
}

/// The `lu12i.w`, `ori`, `lu32i.d` and `lu52i.d` lines of a constant that
/// does not fit in 12 signed bits.
fn emit_load_long(out: &mut String, reg: &str, v: i64)
    requires
        !(-2048 <= v <= 2047),
    ensures
        final(out)@ == old(out)@ + steps_text(reg@, imm_steps(v)),
{
    let ghost out0 = out@;
    let w = v as u64;
    if v >= 0 && v <= 0xFFFFF {
        let hi = w >> 12u64;
        assert(w == v);
        assert(hi <= 0xFFFFFu64) by (bit_vector)
            requires
                hi == w >> 12u64,
                w <= 0xFFFFFu64,
        ;
        let z = int_str(hi as i64);
        put2(out, "lu12i.w", reg, z.as_str());
        proof {
            lemma_steps_push(reg@, Seq::empty(), ImmStep::Lu12i(hi));
        }
        let ghost first = Seq::<ImmStep>::empty().push(ImmStep::Lu12i(hi));
        assert(out@ =~= out0 + steps_text(reg@, first));
        if w & 0xFFF != 0 {
            let lo = w & 0xFFF;
            assert(lo <= 0xFFFu64) by (bit_vector)
                requires
                    lo == w & 0xFFFu64,
            ;
            let y = int_str(lo as i64);
            put3(out, "ori", reg, reg, y.as_str());
            proof {
                lemma_steps_push(reg@, first, ImmStep::Ori(lo));
                assert(imm_steps(v) =~= first.push(ImmStep::Ori(lo)));
            }
        } else {
            assert(imm_steps(v) =~= first);
        }
        assert(out@ =~= out0 + steps_text(reg@, imm_steps(v)));
    } else {
        // Full 64-bit: lu12i + ori for the low 32 bits, lu32i for bits
        // 51..32 and lu52i for bits 63..52, each where needed.
        let k1 = (w >> 12u64) & 0xFFFFF;
        let k2 = w & 0xFFF;
        assert(k1 <= 0xFFFFFu64 && k2 <= 0xFFFu64) by (bit_vector)
            requires
                k1 == (w >> 12u64) & 0xFFFFFu64,
                k2 == w & 0xFFFu64,
        ;
        let z = int_str(k1 as i64);
        put2(out, "lu12i.w", reg, z.as_str());
        let y = int_str(k2 as i64);
        put3(out, "ori", reg, reg, y.as_str());
        let ghost mut done = Seq::<ImmStep>::empty().push(ImmStep::Lu12i(k1));
        proof {
            lemma_steps_push(reg@, Seq::empty(), ImmStep::Lu12i(k1));
            lemma_steps_push(reg@, done, ImmStep::Ori(k2));
            done = done.push(ImmStep::Ori(k2));
        }
        assert(out@ =~= out0 + steps_text(reg@, done));
        if !(v >= -0x8000_0000 && v <= 0x7FFF_FFFF) {
            let k3 = (w >> 32u64) & 0xFFFFF;
            assert(k3 <= 0xFFFFFu64) by (bit_vector)
                requires
                    k3 == (w >> 32u64) & 0xFFFFFu64,
            ;
            let h = int_str(k3 as i64);
            put2(out, "lu32i.d", reg, h.as_str());
            proof {
                lemma_steps_push(reg@, done, ImmStep::Lu32i(k3));
                done = done.push(ImmStep::Lu32i(k3));
            }
            assert(out@ =~= out0 + steps_text(reg@, done));
        }
        if !(v >= -0x8_0000_0000_0000 && v <= 0x7_FFFF_FFFF_FFFF) {
            let k4 = w >> 52u64;
            assert(k4 <= 0xFFFu64) by (bit_vector)
                requires
                    k4 == w >> 52u64,
            ;
            let t = int_str(k4 as i64);
            put3(out, "lu52i.d", reg, reg, t.as_str());
            proof {
                lemma_steps_push(reg@, done, ImmStep::Lu52i(k4));
                done = done.push(ImmStep::Lu52i(k4));
            }
            assert(out@ =~= out0 + steps_text(reg@, done));
        }
        assert(done =~= imm_steps(v));
    }
}

/// A string constant as written between double quotes.
fn escape_str(s: &str) -> (e: String)
    ensures
        e@ == escape(s@),
{
    let cs = chars_of(s);
    let mut e = String::new();
    let mut i: usize = 0;
    while i < cs.len()
        invariant
            i <= cs.len(),
            cs@ == s@,
            e@ == escape(cs@.take(i as int)),
        decreases cs.len() - i,
    {
        let c = cs[i];
        let ghost e0 = e@;
        if c == '\\' {
            push_str(&mut e, "\\\\");
        } else if c == '"' {
            push_str(&mut e, "\\\"");
        } else if c == '\n' {
            push_str(&mut e, "\\n");
        } else if c == '\t' {
            push_str(&mut e, "\\t");
        } else {
            push_char(&mut e, c);
        }
        assert(e@ =~= e0 + escape_char(c));
        assert(cs@.take(i + 1).drop_last() =~= cs@.take(i as int));
        i += 1;
    }
    assert(cs@.take(i as int) =~= cs@);
    e
}

/// `s` with every occurrence of `pat` replaced by `rep`, left to right.
fn replace_all_of(s: &String, pat: &String, rep: &String) -> (r: String)
    ensures
        r@ == replace_all(s@, pat@, rep@),
{
    let cs = chars_of(s.as_str());
    let ps = chars_of(pat.as_str());
    let mut r = String::new();
    let mut i: usize = 0;
    assert(cs@.skip(0) =~= cs@);
    while i < cs.len()
        invariant
            i <= cs.len(),
            cs@ == s@,
            ps@ == pat@,
            r@ + replace_all(cs@.skip(i as int), ps@, rep@) == replace_all(cs@, ps@, rep@),
        decreases cs.len() - i,
    {
        let ghost rest = cs@.skip(i as int);
        if ps.len() > 0 && ps.len() <= cs.len() - i && matches_at(&cs, i, &ps) {
            assert(rest.take(ps.len() as int) =~= cs@.subrange(i as int, i + ps.len()));
            assert(rest.skip(ps.len() as int) =~= cs@.skip(i + ps.len()));
            push_str(&mut r, rep.as_str());
            i += ps.len();
        } else {
            assert(rest.len() > 0);
            assert(ps.len() > 0 && ps.len() <= rest.len() ==> rest.take(ps.len() as int) =~= cs@.subrange(
                i as int,
                i + ps.len(),
            ));
            assert(rest.skip(1) =~= cs@.skip(i + 1));
            assert(seq![rest[0]] =~= seq![cs@[i as int]]);
            push_char(&mut r, cs[i]);
            i += 1;
        }
    }
    assert(cs@.skip(i as int) =~= Seq::<char>::empty());
    r
}

/// Whether `ps` occurs in `cs` at `i`.
fn matches_at(cs: &Vec<char>, i: usize, ps: &Vec<char>) -> (b: bool)
    requires
        i + ps.len() <= cs.len(),
    ensures
        b == (cs@.subrange(i as int, i + ps.len()) == ps@),
{
    let mut k: usize = 0;
    while k < ps.len()
        invariant
            k <= ps.len(),
            i + ps.len() <= cs.len(),
            forall|j: int| 0 <= j < k ==> cs@[i + j] == ps@[j],
        decreases ps.len() - k,
    {
        if cs[i + k] != ps[k] {
            assert(cs@.subrange(i as int, i + ps.len())[k as int] != ps@[k as int]);
            return false;
        }
        k += 1;
    }
    assert(cs@.subrange(i as int, i + ps.len()) =~= ps@);
    true
}

// ── Text builders ─────────────────────────────────────────────

fn put1(out: &mut String, m: &str, x: &str)
    ensures
        final(out)@ == old(out)@ + ins1(m@, x@),
{
    let ghost o = out@;
    push_str(out, "\t");
    push_str(out, m);
    push_str(out, "\t");
    push_str(out, x);
    push_str(out, "\n");
    assert(out@ =~= o + ins1(m@, x@));
}

fn put2(out: &mut String, m: &str, x: &str, y: &str)
    ensures
        final(out)@ == old(out)@ + ins2(m@, x@, y@),
{
    let ghost o = out@;
    push_str(out, "\t");
    push_str(out, m);
    push_str(out, "\t");
    push_str(out, x);
    push_str(out, ", ");
    push_str(out, y);
    push_str(out, "\n");
    assert(out@ =~= o + ins2(m@, x@, y@));
}

fn put3(out: &mut String, m: &str, x: &str, y: &str, z: &str)
    ensures
        final(out)@ == old(out)@ + ins3(m@, x@, y@, z@),
{
    let ghost o = out@;
    push_str(out, "\t");
    push_str(out, m);
    push_str(out, "\t");
    push_str(out, x);
    push_str(out, ", ");
    push_str(out, y);
    push_str(out, ", ");
    push_str(out, z);
    push_str(out, "\n");
    assert(out@ =~= o + ins3(m@, x@, y@, z@));
}

/// `move d, s` unless `d` is `s`.
fn put_mv(out: &mut String, d: &str, s: &str)
    ensures
        final(out)@ == old(out)@ + mv(d@, s@),
{
    if !is_lit(d, s) {
        put2(out, "move", d, s);
    } else {
        assert(out@ =~= old(out)@ + mv(d@, s@));
    }
}

fn push_block_ref(out: &mut String, f: &str, label: &str)
    ensures
        final(out)@ == old(out)@ + block_ref(f@, label@),
{
    let ghost o = out@;
    push_str(out, ".L");
    push_str(out, f);
    push_str(out, "_");
    push_str(out, label);
    assert(out@ =~= o + block_ref(f@, label@));
}

fn block_ref_of(f: &str, label: &str) -> (s: String)
    ensures
        s@ == block_ref(f@, label@),
{
    let mut s = String::new();
    push_block_ref(&mut s, f, label);
    assert(s@ =~= block_ref(f@, label@));
    s
}

fn num_str(n: usize) -> (s: String)
    ensures
        s@ == num(n),
{
    let mut s = String::new();
    push_usize(&mut s, n);
    assert(s@ =~= num(n));
    s
}

/// `-n`
fn minus(n: usize) -> (s: String)
    ensures
        s@ == "-"@ + num(n),
{
    let mut s = String::from_str("-");
    push_usize(&mut s, n);
    s
}

fn int_str(v: i64) -> (s: String)
    ensures
        s@ == dec_int(v as int),
{
    let mut s = String::new();
    push_i64(&mut s, v);
    assert(s@ =~= dec_int(v as int));
    s
}

/// `$t0` … `$t7`
fn temp_reg_name(i: usize) -> (s: String)
    ensures
        s@ == temp_reg(i as nat),
{
    let mut s = String::from_str("$t");
    push_usize(&mut s, i);
    s
}

/// `$a0` … `$a7`
fn arg_reg_name(i: usize) -> (s: String)
    ensures
        s@ == arg_reg(i as nat),
{
    let mut s = String::from_str("$a");
    push_usize(&mut s, i);
    s
}

} // verus!

//! Lowering a syntax tree into IR.
use vstd::prelude::*;
use vstd::string::StringExecFns;
use crate::token::Span;
use crate::ast::{
    Arg, BinOp, EnumDef, Expr, ExprKind, FieldInit, FnDef, Item, ItemKind, MatchArm,
    OwnershipMode, Pattern, ResultVariant, SourceFile, Stmt, StmtKind, Ty, TyKind, TypeDef, UnOp,
};
use crate::ir::{
    BasicBlock, EnumLayout, Instr, IrFunc, IrMode, IrModule, IrParam, IrTy, Op, StructLayout,
    Terminator, block_models, func_models, instr_models, ir_models, name_pairs, names, ParamV,
};
use crate::lower_spec::{
    LowV, binop_op, define, emit, enum_layouts, finish, fresh_label, fresh_name, lmode, low_args,
    low_arms, low_body, low_body_fn, low_e, low_es, low_fields, low_file, low_fn, low_items,
    low_or_zero, low_s, low_ss, lparams, lty, ltys, reset, start, struct_layouts, unop_op,
};
use crate::text::push_usize;

verus! {

/// Lowers an AST `SourceFile` into an `IrModule`.
pub struct Lowerer {
    /// Counter for generating unique SSA names.
    next_id: usize,
    /// Counter for generating unique block labels.
    next_block: usize,
    /// Instructions accumulated for the current basic block.
    instrs: Vec<Instr>,
    /// Completed basic blocks for the current function.
    blocks: Vec<BasicBlock>,
    /// Label of the current basic block.
    current_label: String,
    /// Targets of `continue` and `break` in the enclosing loops, innermost last.
    loops: Vec<(String, String)>,
}

impl Lowerer {
    /// The lowering state.
    pub closed spec fn state(&self) -> LowV {
        LowV {
            next_id: self.next_id,
            next_block: self.next_block,
            instrs: instr_models(self.instrs@),
            blocks: block_models(self.blocks@),
            label: self.current_label@,
            loops: name_pairs(self.loops@),
        }
    }

    pub fn new() -> (l: Self)
        ensures
            l.state() == (LowV {
                next_id: 0,
                next_block: 0,
                instrs: Seq::empty(),
                blocks: Seq::empty(),
                label: "entry"@,
                loops: Seq::empty(),
            }),
    {
        let l = Self {
            next_id: 0,
            next_block: 0,
            instrs: Vec::new(),
            blocks: Vec::new(),
            current_label: String::from_str("entry"),
            loops: Vec::new(),
        };
        assert(l.state().instrs =~= Seq::empty());
        assert(l.state().blocks =~= Seq::empty());
        assert(l.state().loops =~= Seq::empty());
        l
    }

    /// Lowers a full source file: one function per `fn` item, then `__main`
    /// for the algorithm zone; struct and enum items give the layouts.
    pub fn lower_file(&mut self, file: &SourceFile, module_name: &str) -> (m: IrModule)
        ensures
            m.name@ == module_name@,
            func_models(m.funcs@) == low_file(old(self).state(), *file).0,
            final(self).state() == low_file(old(self).state(), *file).1,
            m.structs@.map_values(|s: StructLayout| s.model()) == struct_layouts(file.def_zone@),
            m.enums@.map_values(|e: EnumLayout| e.model()) == enum_layouts(file.def_zone@),
    {
        let mut funcs: Vec<IrFunc> = Vec::new();
        let mut structs: Vec<StructLayout> = Vec::new();
        let mut enums: Vec<EnumLayout> = Vec::new();
        let ghost st0 = self.state();
        let mut i: usize = 0;
        while i < file.def_zone.len()
            invariant
                i <= file.def_zone.len(),
                (func_models(funcs@), self.state()) == low_items(st0, file.def_zone@.take(i as int)),
                structs@.map_values(|s: StructLayout| s.model()) == struct_layouts(file.def_zone@.take(i as int)),
                enums@.map_values(|e: EnumLayout| e.model()) == enum_layouts(file.def_zone@.take(i as int)),
            decreases file.def_zone.len() - i,
        {
            let item = &file.def_zone[i];
            proof {
                assert(file.def_zone@.take(i + 1).drop_last() =~= file.def_zone@.take(i as int));
            }
            let ghost fs0 = funcs@;
            let ghost ss0 = structs@;
            let ghost es0 = enums@;
            match self.lower_item(item) {
                Some(f) => {
                    funcs.push(f);
                    assert(func_models(funcs@) =~= func_models(fs0).push(funcs@.last().model()));
                },
                None => {},
            }
            match &item.kind {
                ItemKind::Type(td) => {
                    structs.push(struct_layout(td));
                    assert(structs@.map_values(|s: StructLayout| s.model()) =~= ss0.map_values(
                        |s: StructLayout| s.model(),
                    ).push(structs@.last().model()));
                },
                ItemKind::Enum(ed) => {
                    enums.push(enum_layout(ed));
                    assert(enums@.map_values(|e: EnumLayout| e.model()) =~= es0.map_values(
                        |e: EnumLayout| e.model(),
                    ).push(enums@.last().model()));
                },
                _ => {},
            }
            i += 1;
        }
        assert(file.def_zone@.take(i as int) =~= file.def_zone@);
        // Algorithm zone: wrap into an implicit `__main` function.
        if file.alg_zone.len() > 0 {
            let ghost fs0 = funcs@;
            let no_params: Vec<IrParam> = Vec::new();
            assert(no_params@.map_values(|p: IrParam| p.model()) =~= Seq::<ParamV>::empty());
            let f = self.lower_body_fn(String::from_str("__main"), no_params, IrTy::Void, &file.alg_zone);
            funcs.push(f);
            assert(func_models(funcs@) =~= func_models(fs0).push(funcs@.last().model()));
        }
        IrModule { name: module_name.to_string(), funcs, structs, enums }
    }

    // ── Items ─────────────────────────────────────────────────

    fn lower_item(&mut self, item: &Item) -> (r: Option<IrFunc>)
        ensures
            match item.kind {
                ItemKind::Fn(f) => r is Some && (r->0.model(), final(self).state()) == low_fn(
                    old(self).state(),
                    f,
                ),
                _ => r is None && final(self).state() == old(self).state(),
            },
    {
        match &item.kind {
            ItemKind::Fn(fn_def) => Some(self.lower_fn(fn_def)),
            _ => None,
        }
    }

    fn lower_fn(&mut self, fn_def: &FnDef) -> (f: IrFunc)
        ensures
            (f.model(), final(self).state()) == low_fn(old(self).state(), *fn_def),
    {
        let mut params: Vec<IrParam> = Vec::new();
        let mut k: usize = 0;
        while k < fn_def.params.len()
            invariant
                k <= fn_def.params.len(),
                params.len() == k,
                forall|j: int| 0 <= j < k ==> #[trigger] params@[j].model() == (ParamV {
                    name: fn_def.params@[j].name@,
                    ty: lty(fn_def.params@[j].ty),
                    mode: lmode(fn_def.params@[j].mode),
                }),
            decreases fn_def.params.len() - k,
        {
            let p = &fn_def.params[k];
            params.push(IrParam { name: p.name.clone(), ty: lower_ty(&p.ty), mode: lower_mode(&p.mode) });
            k += 1;
        }
        assert(params@.map_values(|p: IrParam| p.model()) =~= lparams(fn_def.params@));
        let ret = lower_ty(&fn_def.ret);
        self.lower_body_fn(fn_def.name.clone(), params, ret, &fn_def.body)
    }

    /// A function whose body is `body`, lowered from a fresh start.
    fn lower_body_fn(&mut self, name: String, params: Vec<IrParam>, ret: IrTy, body: &Vec<Stmt>) -> (f: IrFunc)
        ensures
            (f.model(), final(self).state()) == low_body_fn(
                old(self).state(),
                name@,
                params@.map_values(|p: IrParam| p.model()),
                ret.model(),
                body@,
            ),
    {
        self.reset_fn();
        self.lower_stmts(body);
        // Ensure every function ends with a terminator.
        self.finish_block(Terminator::Return(None));
        let mut blocks: Vec<BasicBlock> = Vec::new();
        std::mem::swap(&mut blocks, &mut self.blocks);
        assert(block_models(self.blocks@) =~= Seq::empty());
        IrFunc { name, params, ret, blocks }
    }

    // ── Statements ────────────────────────────────────────────

    fn lower_stmts(&mut self, stmts: &Vec<Stmt>)
        ensures
            final(self).state() == low_ss(old(self).state(), stmts@),
            final(self).state().loops == old(self).state().loops,
        decreases stmts, 0nat,
    {
        let ghost st0 = self.state();
        let mut i: usize = 0;
        while i < stmts.len()
            invariant
                i <= stmts.len(),
                self.state() == low_ss(st0, stmts@.take(i as int)),
                self.state().loops == st0.loops,
            decreases stmts.len() - i,
        {
            self.lower_stmt(&stmts[i]);
            assert(stmts@.take(i + 1).drop_last() =~= stmts@.take(i as int));
            i += 1;
        }
        assert(stmts@.take(i as int) =~= stmts@);
    }

    /// A loop body, with `cont` / `brk` as the targets of `continue` / `break`.
    fn lower_loop_body(&mut self, body: &Vec<Stmt>, cont: &String, brk: &String)
        ensures
            final(self).state() == low_body(old(self).state(), body@, cont@, brk@),
            final(self).state().loops == old(self).state().loops,
        decreases body, 1nat,
    {
        let ghost st0 = self.state();
        let ghost l0 = self.loops@;
        self.loops.push((cont.clone(), brk.clone()));
        assert(name_pairs(self.loops@) =~= name_pairs(l0).push((cont@, brk@)));
        assert(self.state() == (LowV { loops: st0.loops.push((cont@, brk@)), ..st0 }));
        self.lower_stmts(body);
        let ghost s = self.state();
        let ghost l1 = self.loops@;
        self.loops.pop();
        assert(self.loops@ =~= l1.drop_last());
        assert(name_pairs(self.loops@) =~= name_pairs(l1).drop_last());
        assert(st0.loops.push((cont@, brk@)).drop_last() =~= st0.loops);
        assert(self.state() == (LowV { loops: st0.loops, ..s }));
    }

    fn lower_stmt(&mut self, stmt: &Stmt)
        ensures
            final(self).state() == low_s(old(self).state(), *stmt),
            final(self).state().loops == old(self).state().loops,
        decreases stmt, 0nat,
    {
        let span = stmt.span;
        match &stmt.kind {
            StmtKind::Let { name, init, .. } => {
                let val = self.lower_expr(init);
                self.emit(Some(name.clone()), Op::Load(val), span);
            },
            StmtKind::Var { name, init, .. } => {
                let val = self.lower_expr(init);
                self.emit(Some(name.clone()), Op::Load(val), span);
            },
            StmtKind::Assign { target, value } => {
                let src = self.lower_expr(value);
                match &target.kind {
                    ExprKind::Ident(dest) => {
                        self.emit(None, Op::Store { dest: dest.clone(), src }, span);
                    },
                    _ => {},
                }
            },
            StmtKind::Return(expr) => {
                let val = match expr {
                    Some(e) => Some(self.lower_expr(e)),
                    None => None,
                };
                self.finish_block(Terminator::Return(val));
                // Start a dead block so subsequent stmts don't crash.
                let dead = self.fresh_label();
                self.start_block(dead);
            },
            StmtKind::Defer(expr) => {
                // Defer is modeled as a no-op at IR level for now;
                // a cleanup pass would hoist it to function exit.
                self.lower_expr(expr);
            },
            StmtKind::Expr(expr) => {
                self.lower_expr(expr);
            },
            StmtKind::For { binding, iter, body } => {
                let iter_val = self.lower_expr(iter);
                let loop_label = self.fresh_label();
                let body_label = self.fresh_label();
                let after_label = self.fresh_label();
                self.finish_block(Terminator::Jump(loop_label.clone()));
                self.start_block(loop_label.clone());
                // Simple: emit one body block per loop iteration (linear model).
                let cond = self.fresh_name();
                self.emit(Some(cond.clone()), Op::Load(iter_val), span);
                self.finish_block(
                    Terminator::Branch {
                        cond: cond.clone(),
                        then_block: body_label.clone(),
                        else_block: after_label.clone(),
                    },
                );
                self.start_block(body_label);
                self.emit(Some(binding.clone()), Op::Load(cond), span);
                self.lower_loop_body(body, &loop_label, &after_label);
                self.finish_block(Terminator::Jump(loop_label));
                self.start_block(after_label);
            },
            StmtKind::While { cond, body } => {
                let cond_label = self.fresh_label();
                let body_label = self.fresh_label();
                let after_label = self.fresh_label();
                self.finish_block(Terminator::Jump(cond_label.clone()));
                self.start_block(cond_label.clone());
                let cond_val = self.lower_expr(cond);
                self.finish_block(
                    Terminator::Branch {
                        cond: cond_val,
                        then_block: body_label.clone(),
                        else_block: after_label.clone(),
                    },
                );
                self.start_block(body_label);
                self.lower_loop_body(body, &cond_label, &after_label);
                self.finish_block(Terminator::Jump(cond_label));
                self.start_block(after_label);
            },
            StmtKind::Loop(body) => {
                let loop_label = self.fresh_label();
                let after_label = self.fresh_label();
                self.finish_block(Terminator::Jump(loop_label.clone()));
                self.start_block(loop_label.clone());
                self.lower_loop_body(body, &loop_label, &after_label);
                self.finish_block(Terminator::Jump(loop_label));
                self.start_block(after_label);
            },
            StmtKind::Break => {
                let n = self.loops.len();
                if n > 0 {
                    let target = self.loops[n - 1].1.clone();
                    self.finish_block(Terminator::Jump(target));
                    let dead = self.fresh_label();
                    self.start_block(dead);
                }
            },
            StmtKind::Continue => {
                let n = self.loops.len();
                if n > 0 {
                    let target = self.loops[n - 1].0.clone();
                    self.finish_block(Terminator::Jump(target));
                    let dead = self.fresh_label();
                    self.start_block(dead);
                }
            },
        }
    }

    // ── Expressions ───────────────────────────────────────────

    /// Lower an expression; returns the SSA name holding its result.
    fn lower_expr(&mut self, expr: &Expr) -> (n: String)
        ensures
            (n@, final(self).state()) == low_e(old(self).state(), *expr),
            final(self).state().loops == old(self).state().loops,
        decreases expr, 2nat,
    {
        let span = expr.span;
        match &expr.kind {
            ExprKind::Int(v) => self.define(Op::ConstInt(*v), span),
            ExprKind::Float(v) => self.define(Op::ConstFloat(v.clone()), span),
            ExprKind::Bool(v) => self.define(Op::ConstBool(*v), span),
            ExprKind::Str(s) => self.define(Op::ConstStr(s.clone()), span),
            ExprKind::Ident(name) => self.define(Op::Load(name.clone()), span),
            ExprKind::BinOp { op, left, right } => {
                let l = self.lower_expr(left);
                let r = self.lower_expr(right);
                self.define(lower_binop(*op, l, r), span)
            },
            ExprKind::UnOp { op, expr: inner } => {
                let v = self.lower_expr(inner);
                self.define(lower_unop(*op, v), span)
            },
            ExprKind::Call { .. } => self.lower_call(expr),
            ExprKind::Pipe { .. } => self.lower_pipe(expr),
            ExprKind::Field { base, field } => {
                let base_val = self.lower_expr(base);
                self.define(Op::Field { base: base_val, field: field.clone(), struct_ty: None }, span)
            },
            ExprKind::Index { base, index } => {
                let base_val = self.lower_expr(base);
                let index_val = self.lower_expr(index);
                self.define(Op::Index { base: base_val, index: index_val }, span)
            },
            ExprKind::Ref(inner) => {
                let v = self.lower_expr(inner);
                self.define(Op::Ref(v), span)
            },
            ExprKind::Deref(inner) => {
                let v = self.lower_expr(inner);
                self.define(Op::Deref(v), span)
            },
            ExprKind::OrReturn(_) | ExprKind::OrPanic(..) => self.lower_unwrap(expr),
            ExprKind::OrElse(..) => self.lower_or_else(expr),
            ExprKind::OrZero(inner) => self.lower_or_zero(inner, span),
            ExprKind::OrNil(inner) => self.lower_or_zero(inner, span),
            ExprKind::ResultCtor { variant, inner } => {
                let v = self.lower_expr(inner);
                let op = match variant {
                    ResultVariant::Success => Op::WrapOk(v),
                    ResultVariant::Failure => Op::WrapErr(v),
                };
                self.define(op, span)
            },
            ExprKind::Cast { expr: inner, ty } => {
                let v = self.lower_expr(inner);
                self.define(Op::Cast { val: v, ty: lower_ty(ty) }, span)
            },
            ExprKind::StructLit { name, fields } => {
                let field_vals = self.lower_fields(fields);
                self.define(Op::StructLit { ty: name.clone(), fields: field_vals }, span)
            },
            ExprKind::ArrayLit(elems) => {
                let vals = self.lower_exprs(elems);
                self.define(Op::ArrayLit(vals), span)
            },
            ExprKind::MatrixLit { elems, rows, cols } => {
                let vals = self.lower_exprs(elems);
                self.define(Op::MatrixLit { elems: vals, rows: *rows, cols: *cols }, span)
            },
            ExprKind::AllocCall { allocator, elem_ty, count } => {
                let a = self.lower_expr(allocator);
                let c = self.lower_expr(count);
                self.define(Op::AllocCall { allocator: a, elem_ty: lower_ty(elem_ty), count: c }, span)
            },
            ExprKind::Asm { template, args } => {
                let vals = self.lower_exprs(args);
                self.define(Op::Asm { template: template.clone(), args: vals }, span)
            },
            ExprKind::Block(stmts) => {
                self.lower_stmts(stmts);
                self.define(Op::Nop, span)
            },
            ExprKind::If { .. } => self.lower_if(expr),
            ExprKind::Match { .. } => self.lower_match(expr),
        }
    }

    /// A call; `obj.method(args)` is treated as `method(obj, args)`.
    fn lower_call(&mut self, expr: &Expr) -> (n: String)
        requires
            expr.kind is Call,
        ensures
            (n@, final(self).state()) == low_e(old(self).state(), *expr),
            final(self).state().loops == old(self).state().loops,
        decreases expr, 1nat,
    {
        let span = expr.span;
        let (callee, args) = match &expr.kind {
            ExprKind::Call { callee, args } => (callee, args),
            _ => unreached(),
        };
        match &callee.kind {
            ExprKind::Ident(n) => {
                let arg_vals = self.lower_args(args);
                self.define(Op::Call { func: n.clone(), args: arg_vals }, span)
            },
            ExprKind::Field { base, field } => {
                let base_val = self.lower_expr(base);
                let rest = self.lower_args(args);
                let arg_vals = prepend(base_val, rest);
                self.define(Op::Call { func: field.clone(), args: arg_vals }, span)
            },
            _ => {
                let arg_vals = self.lower_args(args);
                self.define(Op::Call { func: String::from_str("__unknown"), args: arg_vals }, span)
            },
        }
    }

    /// `left |> right(args)` is `right(left, args)`.
    fn lower_pipe(&mut self, expr: &Expr) -> (n: String)
        requires
            expr.kind is Pipe,
        ensures
            (n@, final(self).state()) == low_e(old(self).state(), *expr),
            final(self).state().loops == old(self).state().loops,
        decreases expr, 1nat,
    {
        let span = expr.span;
        let (left, right) = match &expr.kind {
            ExprKind::Pipe { left, right } => (left, right),
            _ => unreached(),
        };
        let left_val = self.lower_expr(left);
        match &right.kind {
            ExprKind::Call { callee, args } => {
                let func = match &callee.kind {
                    ExprKind::Ident(n) => n.clone(),
                    _ => String::from_str("__unknown"),
                };
                let rest = self.lower_args(args);
                let arg_vals = prepend(left_val, rest);
                self.define(Op::Call { func, args: arg_vals }, span)
            },
            ExprKind::Ident(name) => {
                let mut arg_vals: Vec<String> = Vec::new();
                arg_vals.push(left_val);
                assert(names(arg_vals@) =~= seq![arg_vals@[0]@]);
                self.define(Op::Call { func: name.clone(), args: arg_vals }, span)
            },
            _ => self.lower_expr(right),
        }
    }

    /// `or_return` / `or_panic`: unwrap, else leave with the error or trap.
    fn lower_unwrap(&mut self, expr: &Expr) -> (n: String)
        requires
            expr.kind is OrReturn || expr.kind is OrPanic,
        ensures
            (n@, final(self).state()) == low_e(old(self).state(), *expr),
            final(self).state().loops == old(self).state().loops,
        decreases expr, 1nat,
    {
        let span = expr.span;
        let (inner, propagate) = match &expr.kind {
            ExprKind::OrReturn(inner) => (inner, true),
            ExprKind::OrPanic(inner, _) => (inner, false),
            _ => unreached(),
        };
        let val = self.lower_expr(inner);
        let err_block = self.fresh_label();
        let ok_dest = self.fresh_name();
        self.emit(Some(ok_dest.clone()), Op::UnwrapOk { val, err_block: err_block.clone() }, span);
        let cont_block = self.fresh_label();
        self.finish_block(Terminator::Jump(cont_block.clone()));
        self.start_block(err_block);
        if propagate {
            // Propagate the error upward.
            self.finish_block(Terminator::Return(Some(String::from_str("__err"))));
        } else {
            self.finish_block(Terminator::Unreachable);
        }
        self.start_block(cont_block);
        ok_dest
    }

    /// `or_else(default)`: unwrap, else evaluate the default.
    fn lower_or_else(&mut self, expr: &Expr) -> (n: String)
        requires
            expr.kind is OrElse,
        ensures
            (n@, final(self).state()) == low_e(old(self).state(), *expr),
            final(self).state().loops == old(self).state().loops,
        decreases expr, 1nat,
    {
        let span = expr.span;
        let (inner, default) = match &expr.kind {
            ExprKind::OrElse(inner, default) => (inner, default),
            _ => unreached(),
        };
        let val = self.lower_expr(inner);
        let default_block = self.fresh_label();
        let ok_dest = self.fresh_name();
        self.emit(Some(ok_dest.clone()), Op::UnwrapOk { val, err_block: default_block.clone() }, span);
        let cont_block = self.fresh_label();
        self.finish_block(Terminator::Jump(cont_block.clone()));
        self.start_block(default_block);
        let def_val = self.lower_expr(default);
        self.emit(Some(ok_dest.clone()), Op::Load(def_val), span);
        self.finish_block(Terminator::Jump(cont_block.clone()));
        self.start_block(cont_block);
        ok_dest
    }

    /// `or_zero` / `or_nil`: unwrap, else take 0.
    fn lower_or_zero(&mut self, inner: &Expr, span: Span) -> (n: String)
        ensures
            (n@, final(self).state()) == low_or_zero(old(self).state(), *inner, span),
            final(self).state().loops == old(self).state().loops,
        decreases inner, 3nat,
    {
        let val = self.lower_expr(inner);
        let zero_block = self.fresh_label();
        let ok_dest = self.fresh_name();
        self.emit(Some(ok_dest.clone()), Op::UnwrapOk { val, err_block: zero_block.clone() }, span);
        let cont_block = self.fresh_label();
        self.finish_block(Terminator::Jump(cont_block.clone()));
        self.start_block(zero_block);
        self.emit(Some(ok_dest.clone()), Op::ConstInt(0), span);
        self.finish_block(Terminator::Jump(cont_block.clone()));
        self.start_block(cont_block);
        ok_dest
    }

    fn lower_if(&mut self, expr: &Expr) -> (n: String)
        requires
            expr.kind is If,
        ensures
            (n@, final(self).state()) == low_e(old(self).state(), *expr),
            final(self).state().loops == old(self).state().loops,
        decreases expr, 1nat,
    {
        let span = expr.span;
        let (cond, then, else_) = match &expr.kind {
            ExprKind::If { cond, then, else_ } => (cond, then, else_),
            _ => unreached(),
        };
        let cond_val = self.lower_expr(cond);
        let then_label = self.fresh_label();
        let else_label = self.fresh_label();
        let merge_label = self.fresh_label();
        self.finish_block(
            Terminator::Branch {
                cond: cond_val,
                then_block: then_label.clone(),
                else_block: else_label.clone(),
            },
        );
        self.start_block(then_label);
        let then_val = self.lower_expr(then);
        self.finish_block(Terminator::Jump(merge_label.clone()));
        self.start_block(else_label);
        match else_ {
            Some(e) => {
                self.lower_expr(e);
            },
            None => {},
        }
        self.finish_block(Terminator::Jump(merge_label.clone()));
        self.start_block(merge_label);
        // Phi-like: pick then_val (simplified — a real compiler would emit a phi).
        self.define(Op::Load(then_val), span)
    }

    fn lower_match(&mut self, expr: &Expr) -> (n: String)
        requires
            expr.kind is Match,
        ensures
            (n@, final(self).state()) == low_e(old(self).state(), *expr),
            final(self).state().loops == old(self).state().loops,
        decreases expr, 1nat,
    {
        let span = expr.span;
        let (subject, arms) = match &expr.kind {
            ExprKind::Match { subject, arms } => (subject, arms),
            _ => unreached(),
        };
        let subj = self.lower_expr(subject);
        let merge_label = self.fresh_label();
        let result_dest = self.fresh_name();
        self.lower_arms(arms, &subj, &merge_label, &result_dest, span);
        self.start_block(merge_label);
        result_dest
    }

    fn lower_arms(&mut self, arms: &Vec<MatchArm>, subj: &String, merge: &String, res: &String, span: Span)
        ensures
            final(self).state() == low_arms(old(self).state(), arms@, arms.len() as nat, subj@, merge@, res@, span),
            final(self).state().loops == old(self).state().loops,
        decreases arms, 0nat,
    {
        let ghost st0 = self.state();
        let n = arms.len();
        let mut i: usize = 0;
        while i < n
            invariant
                n == arms.len(),
                i <= n,
                self.state() == low_arms(st0, arms@.take(i as int), n as nat, subj@, merge@, res@, span),
                self.state().loops == st0.loops,
            decreases n - i,
        {
            let arm = &arms[i];
            proof {
                assert(arms@.take(i + 1).drop_last() =~= arms@.take(i as int));
            }
            let arm_label = self.fresh_label();
            let next_label = if i + 1 < n {
                self.fresh_label()
            } else {
                merge.clone()
            };
            let cond = self.fresh_name();
            // Pattern check: wildcard / else always matches.
            let always_match = match arm.pattern {
                Pattern::Wildcard => true,
                Pattern::Else => true,
                _ => false,
            };
            if always_match {
                self.emit(Some(cond.clone()), Op::ConstBool(true), span);
            } else {
                self.emit(Some(cond.clone()), Op::Load(subj.clone()), span);
            }
            self.finish_block(
                Terminator::Branch { cond, then_block: arm_label.clone(), else_block: next_label.clone() },
            );
            self.start_block(arm_label);
            let arm_val = self.lower_expr(&arm.body);
            self.emit(Some(res.clone()), Op::Load(arm_val), span);
            self.finish_block(Terminator::Jump(merge.clone()));
            if i + 1 < n {
                self.start_block(next_label);
            }
            i += 1;
        }
        assert(arms@.take(n as int) =~= arms@);
    }

    fn lower_args(&mut self, args: &Vec<Arg>) -> (vals: Vec<String>)
        ensures
            (names(vals@), final(self).state()) == low_args(old(self).state(), args@),
            final(self).state().loops == old(self).state().loops,
        decreases args, 0nat,
    {
        let ghost st0 = self.state();
        let mut vals: Vec<String> = Vec::new();
        let mut i: usize = 0;
        while i < args.len()
            invariant
                i <= args.len(),
                vals.len() == i,
                (names(vals@), self.state()) == low_args(st0, args@.take(i as int)),
                self.state().loops == st0.loops,
            decreases args.len() - i,
        {
            let ghost v0 = vals@;
            let v = self.lower_expr(&args[i].expr);
            vals.push(v);
            assert(args@.take(i + 1).drop_last() =~= args@.take(i as int));
            assert(names(vals@) =~= names(v0).push(vals@[i as int]@));
            i += 1;
        }
        assert(args@.take(i as int) =~= args@);
        vals
    }

    fn lower_exprs(&mut self, es: &Vec<Expr>) -> (vals: Vec<String>)
        ensures
            (names(vals@), final(self).state()) == low_es(old(self).state(), es@),
            final(self).state().loops == old(self).state().loops,
        decreases es, 0nat,
    {
        let ghost st0 = self.state();
        let mut vals: Vec<String> = Vec::new();
        let mut i: usize = 0;
        while i < es.len()
            invariant
                i <= es.len(),
                vals.len() == i,
                (names(vals@), self.state()) == low_es(st0, es@.take(i as int)),
                self.state().loops == st0.loops,
            decreases es.len() - i,
        {
            let ghost v0 = vals@;
            let v = self.lower_expr(&es[i]);
            vals.push(v);
            assert(es@.take(i + 1).drop_last() =~= es@.take(i as int));
            assert(names(vals@) =~= names(v0).push(vals@[i as int]@));
            i += 1;
        }
        assert(es@.take(i as int) =~= es@);
        vals
    }

    fn lower_fields(&mut self, fields: &Vec<FieldInit>) -> (vals: Vec<(String, String)>)
        ensures
            (name_pairs(vals@), final(self).state()) == low_fields(old(self).state(), fields@),
            final(self).state().loops == old(self).state().loops,
        decreases fields, 0nat,
    {
        let ghost st0 = self.state();
        let mut vals: Vec<(String, String)> = Vec::new();
        let mut i: usize = 0;
        while i < fields.len()
            invariant
                i <= fields.len(),
                vals.len() == i,
                (name_pairs(vals@), self.state()) == low_fields(st0, fields@.take(i as int)),
                self.state().loops == st0.loops,
            decreases fields.len() - i,
        {
            let ghost v0 = vals@;
            let v = self.lower_expr(&fields[i].expr);
            vals.push((fields[i].name.clone(), v));
            assert(fields@.take(i + 1).drop_last() =~= fields@.take(i as int));
            assert(name_pairs(vals@) =~= name_pairs(v0).push((vals@[i as int].0@, vals@[i as int].1@)));
            i += 1;
        }
        assert(fields@.take(i as int) =~= fields@);
        vals
    }

    // ── Builder helpers ───────────────────────────────────────

    /// A fresh SSA value defined by `op`.
    fn define(&mut self, op: Op, span: Span) -> (n: String)
        ensures
            (n@, final(self).state()) == define(old(self).state(), op.model(), span),
    {
        let dest = self.fresh_name();
        self.emit(Some(dest.clone()), op, span);
        dest
    }

    fn emit(&mut self, dest: Option<String>, op: Op, span: Span)
        ensures
            final(self).state() == emit(old(self).state(), dest.deep_view(), op.model(), span),
    {
        let ghost is0 = self.instrs@;
        self.instrs.push(Instr { dest, op, span });
        assert(instr_models(self.instrs@) =~= instr_models(is0).push(self.instrs@.last().model()));
    }

    fn finish_block(&mut self, term: Terminator)
        ensures
            final(self).state() == finish(old(self).state(), term.model()),
    {
        let mut instrs: Vec<Instr> = Vec::new();
        std::mem::swap(&mut instrs, &mut self.instrs);
        let ghost bs0 = self.blocks@;
        self.blocks.push(BasicBlock { label: self.current_label.clone(), instrs, term });
        assert(block_models(self.blocks@) =~= block_models(bs0).push(self.blocks@.last().model()));
        assert(instr_models(self.instrs@) =~= Seq::empty());
    }

    fn start_block(&mut self, label: String)
        ensures
            final(self).state() == start(old(self).state(), label@),
    {
        self.current_label = label;
    }

    fn fresh_name(&mut self) -> (n: String)
        ensures
            (n@, final(self).state()) == fresh_name(old(self).state()),
    {
        let id = self.next_id;
        self.next_id = if id < usize::MAX {
            id + 1
        } else {
            0
        };
        let mut s = String::from_str("%");
        push_usize(&mut s, id);
        s
    }

    fn fresh_label(&mut self) -> (l: String)
        ensures
            (l@, final(self).state()) == fresh_label(old(self).state()),
    {
        let id = self.next_block;
        self.next_block = if id < usize::MAX {
            id + 1
        } else {
            0
        };
        let mut s = String::from_str("bb");
        push_usize(&mut s, id);
        s
    }

    fn reset_fn(&mut self)
        ensures
            final(self).state() == reset(old(self).state()),
    {
        self.next_id = 0;
        self.next_block = 0;
        self.instrs.clear();
        self.blocks.clear();
        self.current_label = String::from_str("entry");
        assert(instr_models(self.instrs@) =~= Seq::empty());
        assert(block_models(self.blocks@) =~= Seq::empty());
    }
}

impl Default for Lowerer {
    fn default() -> (l: Self)
        ensures
            l.state() == (LowV {
                next_id: 0,
                next_block: 0,
                instrs: Seq::empty(),
                blocks: Seq::empty(),
                label: "entry"@,
                loops: Seq::empty(),
            }),
    {
        Self::new()
    }
}

/// `first` followed by `rest`.
fn prepend(first: String, rest: Vec<String>) -> (v: Vec<String>)
    ensures
        names(v@) == seq![first@] + names(rest@),
{
    let mut v: Vec<String> = Vec::new();
    v.push(first);
    let mut i: usize = 0;
    while i < rest.len()
        invariant
            i <= rest.len(),
            names(v@) == seq![first@] + names(rest@).take(i as int),
        decreases rest.len() - i,
    {
        let ghost v0 = v@;
        v.push(rest[i].clone());
        assert(names(v@) =~= names(v0).push(rest@[i as int]@));
        i += 1;
        assert(seq![first@] + names(rest@).take(i as int) =~= names(v0).push(rest@[i - 1]@));
    }
    assert(names(rest@).take(i as int) =~= names(rest@));
    v
}

fn lower_binop(op: BinOp, l: String, r: String) -> (o: Op)
    ensures
        o.model() == binop_op(op, l@, r@),
{
    match op {
        BinOp::Add => Op::Add(l, r),
        BinOp::Sub => Op::Sub(l, r),
        BinOp::Mul => Op::Mul(l, r),
        BinOp::Div => Op::Div(l, r),
        BinOp::Rem => Op::Rem(l, r),
        BinOp::Eq => Op::CmpEq(l, r),
        BinOp::NotEq => Op::CmpNeq(l, r),
        BinOp::Lt => Op::CmpLt(l, r),
        BinOp::LtEq => Op::CmpLe(l, r),
        BinOp::Gt => Op::CmpGt(l, r),
        BinOp::GtEq => Op::CmpGe(l, r),
        BinOp::And => Op::And(l, r),
        BinOp::Or => Op::Or(l, r),
        BinOp::Concat => {
            let mut args: Vec<String> = Vec::new();
            args.push(l);
            args.push(r);
            assert(names(args@) =~= seq![args@[0]@, args@[1]@]);
            Op::Call { func: String::from_str("__str_concat"), args }
        },
        BinOp::BitAnd => Op::BitAnd(l, r),
        BinOp::BitOr => Op::BitOr(l, r),
        BinOp::BitXor => Op::BitXor(l, r),
        BinOp::Shl => Op::Shl(l, r),
        BinOp::Shr => Op::Shr(l, r),
    }
}

fn lower_unop(op: UnOp, v: String) -> (o: Op)
    ensures
        o.model() == unop_op(op, v@),
{
    match op {
        UnOp::Not => Op::Not(v),
        UnOp::Neg => Op::Neg(v),
        UnOp::BitNot => Op::BitNot(v),
        UnOp::Deref => Op::Deref(v),
    }
}

fn struct_layout(td: &TypeDef) -> (l: StructLayout)
    ensures
        l.model() == (td.name@, td.fields@.map_values(|f: crate::ast::FieldDef| f.name@)),
{
    let mut fields: Vec<String> = Vec::new();
    let mut i: usize = 0;
    while i < td.fields.len()
        invariant
            i <= td.fields.len(),
            fields.len() == i,
            forall|j: int| 0 <= j < i ==> #[trigger] fields@[j]@ == td.fields@[j].name@,
        decreases td.fields.len() - i,
    {
        fields.push(td.fields[i].name.clone());
        i += 1;
    }
    assert(names(fields@) =~= td.fields@.map_values(|f: crate::ast::FieldDef| f.name@));
    StructLayout { name: td.name.clone(), fields }
}

fn enum_layout(ed: &EnumDef) -> (l: EnumLayout)
    ensures
        l.model() == (ed.name@, ed.variants@.map_values(|v: crate::ast::EnumVariant| v.name@)),
{
    let mut variants: Vec<String> = Vec::new();
    let mut i: usize = 0;
    while i < ed.variants.len()
        invariant
            i <= ed.variants.len(),
            variants.len() == i,
            forall|j: int| 0 <= j < i ==> #[trigger] variants@[j]@ == ed.variants@[j].name@,
        decreases ed.variants.len() - i,
    {
        variants.push(ed.variants[i].name.clone());
        i += 1;
    }
    assert(names(variants@) =~= ed.variants@.map_values(|v: crate::ast::EnumVariant| v.name@));
    EnumLayout { name: ed.name.clone(), variants }
}

// ── Type / mode helpers ───────────────────────────────────────

pub fn lower_ty(ty: &Ty) -> (r: IrTy)
    ensures
        r.model() == lty(*ty),
    decreases ty,
{
    match &ty.kind {
        TyKind::I8 => IrTy::I8,
        TyKind::I16 => IrTy::I16,
        TyKind::I32 => IrTy::I32,
        TyKind::I64 => IrTy::I64,
        TyKind::U8 => IrTy::U8,
        TyKind::U16 => IrTy::U16,
        TyKind::U32 => IrTy::U32,
        TyKind::U64 => IrTy::U64,
        TyKind::F32 => IrTy::F32,
        TyKind::F64 => IrTy::F64,
        TyKind::Bool => IrTy::Bool,
        TyKind::Usize => IrTy::Usize,
        TyKind::Str => IrTy::Str,
        TyKind::Void => IrTy::Void,
        TyKind::Allocator => IrTy::Allocator,
        TyKind::Named(n) => IrTy::Named(n.clone()),
        TyKind::Slice(t) => IrTy::Slice(Box::new(lower_ty(t))),
        TyKind::Ptr(t) => IrTy::Ptr(Box::new(lower_ty(t))),
        TyKind::PtrMut(t) => IrTy::PtrMut(Box::new(lower_ty(t))),
        TyKind::Result(ok, e) => IrTy::Result(Box::new(lower_ty(ok)), Box::new(lower_ty(e))),
        TyKind::Option(t) => IrTy::Option(Box::new(lower_ty(t))),
        TyKind::Array { size, elem } => IrTy::Array { size: *size, elem: Box::new(lower_ty(elem)) },
        TyKind::FnPtr { params, ret } => {
            let mut ps: Vec<IrTy> = Vec::new();
            let mut i: usize = 0;
            while i < params.len()
                invariant
                    i <= params.len(),
                    ty.kind is FnPtr,
                    ty.kind->params == *params,
                    ir_models(ps@) == ltys(params@.take(i as int)),
                decreases params.len() - i,
            {
                proof {
                    let ghost v: Vec<Ty> = ty.kind->params;
                    assert(decreases_to!(*ty => ty.kind));
                    assert(decreases_to!(ty.kind => v));
                    assert(decreases_to!(v => v@));
                    assert(decreases_to!(v@ => v@[i as int]));
                }
                let ghost ps0 = ps@;
                ps.push(lower_ty(&params[i]));
                proof {
                    assert(ps@.drop_last() =~= ps0);
                    assert(params@.take(i + 1).drop_last() =~= params@.take(i as int));
                }
                i += 1;
            }
            assert(params@.take(i as int) =~= params@);
            IrTy::FnPtr { params: ps, ret: Box::new(lower_ty(ret)) }
        },
    }
}

pub fn lower_mode(mode: &OwnershipMode) -> (m: IrMode)
    ensures
        m == lmode(*mode),
{
    match mode {
        OwnershipMode::Read => IrMode::Read,
        OwnershipMode::Mut => IrMode::Mut,
        OwnershipMode::Move => IrMode::Move,
        OwnershipMode::Inferred => IrMode::Read,
    }
}

} // verus!

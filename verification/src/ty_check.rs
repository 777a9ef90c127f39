//! Type checking and ownership analysis of a parsed file.
use vstd::prelude::*;
use vstd::string::StringExecFns;
use crate::token::Span;
use crate::ast::{
    Arg, Expr, ExprKind, FieldInit, FnDef, Item, ItemKind, MatchArm, OwnershipMode, ResultVariant,
    SourceFile, Stmt, StmtKind, Ty, TyKind, BinOp,
};
use crate::scope::{
    Binding, FieldTys, FnSig, RTy, ResolvedTy, Scope, field_models, lemma_models, models,
    param_models,
};
use crate::sema_error::{SemaError, SemaErrV};
use crate::ownership;
use crate::text::{is_lit, push_str};
use crate::sema_spec::{
    CkV, bind_params, call_args, callee_name, check_file, check_fn, check_item, check_items,
    check_stmt, check_stmts, compat, compat_all, err, field_sig, find_field, infer, infer_args,
    infer_arms, infer_exprs, infer_field_exprs, infer_piped, mode_name, param_sig, register,
    register_all, register_variants, resolve, resolve_list, struct_fields, wrap_mul,
};

verus! {

/// Models of a list of errors.
pub open spec fn errs_model(es: Seq<SemaError>) -> Seq<SemaErrV> {
    es.map_values(|e: SemaError| e@)
}

pub struct TyChecker {
    scope: Scope,
    errors: Vec<SemaError>,
}

impl TyChecker {
    /// Model of the checker: its scope and the errors collected so far.
    pub closed spec fn state(&self) -> CkV {
        CkV { sc: self.scope@, errs: errs_model(self.errors@) }
    }

    /// The scope always has a frame to bind names in.
    pub closed spec fn wf(&self) -> bool {
        self.scope@.frames.len() >= 1
    }

    pub fn new() -> (c: Self)
        ensures
            c.wf(),
            c.state().sc.frames == seq![Map::<Seq<char>, crate::scope::BindV>::empty()],
            c.state().sc.fns == Map::<Seq<char>, crate::scope::SigV>::empty(),
            c.state().sc.types == Map::<Seq<char>, Seq<(Seq<char>, RTy)>>::empty(),
            c.state().sc.enums == Set::<Seq<char>>::empty(),
            c.state().errs == Seq::<SemaErrV>::empty(),
    {
        let c = TyChecker { scope: Scope::new(), errors: Vec::new() };
        assert(errs_model(c.errors@) =~= Seq::<SemaErrV>::empty());
        c
    }

    /// Run semantic analysis on a parsed source file.
    /// Returns all collected errors (empty = success).
    pub fn check(&mut self, file: &SourceFile) -> (errs: Vec<SemaError>)
        requires
            old(self).wf(),
        ensures
            final(self).wf(),
            errs_model(errs@) == check_file(old(self).state(), *file).errs,
            final(self).state().sc == check_file(old(self).state(), *file).sc,
            final(self).state().errs == Seq::<SemaErrV>::empty(),
    {
        let ghost st0 = self.state();
        // Pass 1: register all top-level signatures so forward calls work.
        let mut i: usize = 0;
        while i < file.def_zone.len()
            invariant
                self.wf(),
                i <= file.def_zone.len(),
                self.state() == (CkV {
                    sc: register_all(st0.sc, file.def_zone@.take(i as int)),
                    errs: st0.errs,
                }),
            decreases file.def_zone.len() - i,
        {
            self.register_item(&file.def_zone[i]);
            assert(file.def_zone@.take(i + 1).drop_last() =~= file.def_zone@.take(i as int));
            i += 1;
        }
        assert(file.def_zone@.take(i as int) =~= file.def_zone@);
        let ghost st1 = self.state();
        // Pass 2: check all fn bodies.
        let mut j: usize = 0;
        while j < file.def_zone.len()
            invariant
                self.wf(),
                j <= file.def_zone.len(),
                self.state() == check_items(st1, file.def_zone@.take(j as int)),
            decreases file.def_zone.len() - j,
        {
            self.check_item(&file.def_zone[j]);
            assert(file.def_zone@.take(j + 1).drop_last() =~= file.def_zone@.take(j as int));
            j += 1;
        }
        assert(file.def_zone@.take(j as int) =~= file.def_zone@);
        // Pass 3: check algorithm zone statements.
        self.check_block(&file.alg_zone);
        let mut out: Vec<SemaError> = Vec::new();
        std::mem::swap(&mut out, &mut self.errors);
        assert(errs_model(self.errors@) =~= Seq::<SemaErrV>::empty());
        out
    }

    fn report(&mut self, e: SemaError)
        requires
            old(self).wf(),
        ensures
            final(self).wf(),
            final(self).state() == err(old(self).state(), e@),
    {
        let ghost es = self.errors@;
        self.errors.push(e);
        assert(errs_model(self.errors@) =~= errs_model(es).push(e@));
    }

    // ── Registration pass ─────────────────────────────────────

    fn register_item(&mut self, item: &Item)
        requires
            old(self).wf(),
        ensures
            final(self).wf(),
            final(self).state() == (CkV {
                sc: register(old(self).state().sc, *item),
                errs: old(self).state().errs,
            }),
    {
        match &item.kind {
            ItemKind::Fn(fn_def) => {
                let mut params: Vec<(String, OwnershipMode, ResolvedTy)> = Vec::new();
                let mut k: usize = 0;
                while k < fn_def.params.len()
                    invariant
                        k <= fn_def.params.len(),
                        params.len() == k,
                        param_models(params@) == param_sig(fn_def.params@.take(k as int)),
                    decreases fn_def.params.len() - k,
                {
                    let p = &fn_def.params[k];
                    let ghost before = params@;
                    let t = self.resolve_ty(&p.ty);
                    params.push((p.name.clone(), p.mode, t));
                    assert forall|m: int| 0 <= m < k + 1 implies #[trigger] param_models(params@)[m]
                        == param_sig(fn_def.params@.take(k + 1))[m] by {
                        if m < k {
                            assert(param_models(before)[m] == param_sig(fn_def.params@.take(k as int))[m]);
                        }
                    }
                    assert(param_models(params@) =~= param_sig(fn_def.params@.take(k + 1)));
                    k += 1;
                }
                assert(fn_def.params@.take(k as int) =~= fn_def.params@);
                let ret = self.resolve_ty(&fn_def.ret);
                let sig = FnSig { params, ret };
                self.scope.fns.insert(fn_def.name.clone(), sig);
            },
            ItemKind::Type(type_def) => {
                // Register struct field layout so field access can be typed.
                let mut fields: Vec<(String, ResolvedTy)> = Vec::new();
                let mut k: usize = 0;
                while k < type_def.fields.len()
                    invariant
                        k <= type_def.fields.len(),
                        fields.len() == k,
                        field_models(fields@) == field_sig(type_def.fields@.take(k as int)),
                    decreases type_def.fields.len() - k,
                {
                    let f = &type_def.fields[k];
                    let ghost before = fields@;
                    let t = self.resolve_ty(&f.ty);
                    fields.push((f.name.clone(), t));
                    assert forall|m: int| 0 <= m < k + 1 implies #[trigger] field_models(fields@)[m]
                        == field_sig(type_def.fields@.take(k + 1))[m] by {
                        if m < k {
                            assert(field_models(before)[m] == field_sig(type_def.fields@.take(k as int))[m]);
                        }
                    }
                    assert(field_models(fields@) =~= field_sig(type_def.fields@.take(k + 1)));
                    k += 1;
                }
                assert(type_def.fields@.take(k as int) =~= type_def.fields@);
                self.scope.types.insert(type_def.name.clone(), FieldTys(fields));
            },
            ItemKind::Enum(enum_def) => {
                self.scope.enums.insert(enum_def.name.clone());
                let ghost sc1 = self.scope@;
                // Each variant becomes a constructor with zero or one argument.
                let mut k: usize = 0;
                while k < enum_def.variants.len()
                    invariant
                        self.wf(),
                        k <= enum_def.variants.len(),
                        self.scope@ == register_variants(sc1, enum_def.name@, enum_def.variants@.take(k as int)),
                        self.errors@ == old(self).errors@,
                    decreases enum_def.variants.len() - k,
                {
                    let variant = &enum_def.variants[k];
                    let ret_ty = ResolvedTy::Named(enum_def.name.clone());
                    let mut params: Vec<(String, OwnershipMode, ResolvedTy)> = Vec::new();
                    match &variant.payload {
                        Some(payload_ty) => {
                            let t = self.resolve_ty(payload_ty);
                            params.push((String::from_str("value"), OwnershipMode::Move, t));
                        },
                        None => {},
                    }
                    let mut qualified = enum_def.name.clone();
                    push_str(&mut qualified, ".");
                    push_str(&mut qualified, variant.name.as_str());
                    let sig = FnSig { params, ret: ret_ty };
                    proof {
                        assert(enum_def.variants@.take(k + 1).drop_last() =~= enum_def.variants@.take(k as int));
                        if variant.payload is Some {
                            assert(param_models(sig.params@) =~= seq![("value"@, OwnershipMode::Move, resolve(variant.payload->0))]);
                        } else {
                            assert(param_models(sig.params@) =~= Seq::empty());
                        }
                    }
                    self.scope.fns.insert(qualified, sig);
                    k += 1;
                }
                assert(enum_def.variants@.take(k as int) =~= enum_def.variants@);
            },
            _ => {},
        }
    }

    // ── Item checking ─────────────────────────────────────────

    fn check_item(&mut self, item: &Item)
        requires
            old(self).wf(),
        ensures
            final(self).wf(),
            final(self).scope@.frames.len() == old(self).scope@.frames.len(),
            final(self).state() == check_item(old(self).state(), *item),
    {
        match &item.kind {
            ItemKind::Fn(fn_def) => self.check_fn(fn_def),
            _ => {},
        }
    }

    fn check_fn(&mut self, fn_def: &FnDef)
        requires
            old(self).wf(),
        ensures
            final(self).wf(),
            final(self).scope@.frames.len() == old(self).scope@.frames.len(),
            final(self).state() == check_fn(old(self).state(), *fn_def),
    {
        let ghost n0 = self.scope@.frames.len();
        self.scope.push();
        let ghost st1 = self.state();
        // Bind parameters into scope.
        let mut k: usize = 0;
        while k < fn_def.params.len()
            invariant
                self.wf(),
                self.scope@.frames.len() == n0 + 1,
                k <= fn_def.params.len(),
                self.state() == bind_params(st1, fn_def.params@.take(k as int)),
            decreases fn_def.params.len() - k,
        {
            let param = &fn_def.params[k];
            let ty = self.resolve_ty(&param.ty);
            self.scope.define(
                param.name.clone(),
                Binding {
                    ty,
                    mode: param.mode,
                    mutable: param.mode == OwnershipMode::Mut,
                    moved: false,
                    span: Span::new(0, 0),
                },
            );
            assert(fn_def.params@.take(k + 1).drop_last() =~= fn_def.params@.take(k as int));
            k += 1;
        }
        assert(fn_def.params@.take(k as int) =~= fn_def.params@);
        let ret_ty = self.resolve_ty(&fn_def.ret);
        self.check_block(&fn_def.body);
        // A final `return e` must produce the declared return type.
        if fn_def.body.len() > 0 {
            let last = &fn_def.body[fn_def.body.len() - 1];
            match &last.kind {
                StmtKind::Return(Some(expr)) => {
                    let expr_ty = self.infer_expr(expr);
                    if !self.ty_compatible(&expr_ty, &ret_ty) {
                        let expected = ret_ty.display();
                        let found = expr_ty.display();
                        self.report(SemaError::TypeMismatch { expected, found, span: expr.span });
                    }
                },
                _ => {},
            }
        }
        self.scope.pop();
    }

    // ── Statement checking ────────────────────────────────────

    fn check_block(&mut self, stmts: &Vec<Stmt>)
        requires
            old(self).wf(),
        ensures
            final(self).wf(),
            final(self).scope@.frames.len() == old(self).scope@.frames.len(),
            final(self).state() == check_stmts(old(self).state(), stmts@),
        decreases stmts, 0nat,
    {
        let ghost st0 = self.state();
        let ghost n0 = self.scope@.frames.len();
        let mut i: usize = 0;
        while i < stmts.len()
            invariant
                self.wf(),
                self.scope@.frames.len() == n0,
                i <= stmts.len(),
                self.state() == check_stmts(st0, stmts@.take(i as int)),
            decreases stmts.len() - i,
        {
            self.check_stmt(&stmts[i]);
            assert(stmts@.take(i + 1).drop_last() =~= stmts@.take(i as int));
            i += 1;
        }
        assert(stmts@.take(i as int) =~= stmts@);
    }

    fn check_stmt(&mut self, stmt: &Stmt)
        requires
            old(self).wf(),
        ensures
            final(self).wf(),
            final(self).scope@.frames.len() == old(self).scope@.frames.len(),
            final(self).state() == check_stmt(old(self).state(), *stmt),
        decreases stmt, 0nat,
    {
        match &stmt.kind {
            StmtKind::Let { name, ty, init } => {
                let init_ty = self.infer_expr(init);
                let declared_ty = match ty {
                    Some(t) => self.resolve_ty(t),
                    None => init_ty.copy(),
                };
                if !self.ty_compatible(&init_ty, &declared_ty) {
                    let expected = declared_ty.display();
                    let found = init_ty.display();
                    self.report(SemaError::TypeMismatch { expected, found, span: stmt.span });
                }
                self.scope.define(
                    name.clone(),
                    Binding {
                        ty: declared_ty,
                        mode: OwnershipMode::Read,
                        mutable: false,
                        moved: false,
                        span: stmt.span,
                    },
                );
            },
            StmtKind::Var { name, ty, init } => {
                let init_ty = self.infer_expr(init);
                let declared_ty = match ty {
                    Some(t) => self.resolve_ty(t),
                    None => init_ty.copy(),
                };
                if !self.ty_compatible(&init_ty, &declared_ty) {
                    let expected = declared_ty.display();
                    let found = init_ty.display();
                    self.report(SemaError::TypeMismatch { expected, found, span: stmt.span });
                }
                self.scope.define(
                    name.clone(),
                    Binding {
                        ty: declared_ty,
                        mode: OwnershipMode::Mut,
                        mutable: true,
                        moved: false,
                        span: stmt.span,
                    },
                );
            },
            StmtKind::Return(expr) => {
                match expr {
                    Some(e) => {
                        self.infer_expr(e);
                    },
                    None => {},
                }
            },
            StmtKind::Defer(expr) => {
                self.infer_expr(expr);
            },
            StmtKind::Assign { target, value } => {
                // The target must be a mutable binding.
                match &target.kind {
                    ExprKind::Ident(name) => {
                        match ownership::check_mutate(name.as_str(), &self.scope, target.span) {
                            Err(e) => self.report(e),
                            Ok(_) => {},
                        }
                    },
                    _ => {},
                }
                self.infer_expr(value);
            },
            StmtKind::For { binding, iter, body } => {
                let iter_ty = self.infer_expr(iter);
                let elem_ty = match &iter_ty {
                    ResolvedTy::Slice(inner) => inner.copy(),
                    _ => ResolvedTy::Unknown,
                };
                self.scope.push();
                self.scope.define(
                    binding.clone(),
                    Binding {
                        ty: elem_ty,
                        mode: OwnershipMode::Read,
                        mutable: false,
                        moved: false,
                        span: stmt.span,
                    },
                );
                self.check_block(body);
                self.scope.pop();
            },
            StmtKind::While { cond, body } => {
                self.infer_expr(cond);
                self.scope.push();
                self.check_block(body);
                self.scope.pop();
            },
            StmtKind::Loop(body) => {
                self.scope.push();
                self.check_block(body);
                self.scope.pop();
            },
            StmtKind::Expr(expr) => {
                self.infer_expr(expr);
            },
            StmtKind::Break => {},
            StmtKind::Continue => {},
        }
    }

    // ── Expression type inference ─────────────────────────────

    fn infer_expr(&mut self, expr: &Expr) -> (t: ResolvedTy)
        requires
            old(self).wf(),
        ensures
            final(self).wf(),
            final(self).scope@.frames.len() == old(self).scope@.frames.len(),
            (t.model(), final(self).state()) == infer(old(self).state(), *expr),
        decreases expr, 1nat,
    {
        match &expr.kind {
            ExprKind::Int(_) => ResolvedTy::I64,
            ExprKind::Float(_) => ResolvedTy::F64,
            ExprKind::Bool(_) => ResolvedTy::Bool,
            ExprKind::Str(_) => ResolvedTy::Str,
            ExprKind::Ident(_) => self.infer_ident(expr),
            ExprKind::Call { .. } => self.infer_call(expr),
            ExprKind::Pipe { .. } => self.infer_pipe(expr),
            ExprKind::Field { .. } => self.infer_field(expr),
            ExprKind::Index { .. } => self.infer_operand(expr),
            ExprKind::OrReturn(_) | ExprKind::OrPanic(..) | ExprKind::OrElse(..) | ExprKind::OrZero(_) | ExprKind::OrNil(_) => self.infer_unwrap(expr),
            ExprKind::ArrayLit(_) | ExprKind::MatrixLit { .. } | ExprKind::AllocCall { .. } | ExprKind::Asm { .. } => self.infer_list(expr),
            ExprKind::BinOp { .. } => self.infer_binop(expr),
            ExprKind::UnOp { .. } => self.infer_operand(expr),
            ExprKind::StructLit { .. } => self.infer_struct_lit(expr),
            ExprKind::ResultCtor { .. } | ExprKind::Cast { .. } | ExprKind::Ref(_) | ExprKind::Deref(_) => self.infer_operand(expr),
            ExprKind::Block(stmts) => {
                self.scope.push();
                self.check_block(stmts);
                self.scope.pop();
                ResolvedTy::Void
            },
            ExprKind::If { .. } => self.infer_if(expr),
            ExprKind::Match { subject, arms } => {
                self.infer_expr(subject);
                self.infer_arms(arms)
            },
        }
    }

    /// A pipe `left |> right`.
    fn infer_pipe(&mut self, expr: &Expr) -> (t: ResolvedTy)
        requires
            old(self).wf(),
            expr.kind is Pipe,
        ensures
            final(self).wf(),
            final(self).scope@.frames.len() == old(self).scope@.frames.len(),
            (t.model(), final(self).state()) == infer(old(self).state(), *expr),
        decreases expr, 0nat,
    {
        match &expr.kind {
            ExprKind::Pipe { left, right } => {
                match ownership::check_pipe(left, right, &self.scope, expr.span) {
                    Err(e) => self.report(e),
                    Ok(_) => {},
                }
                let left_ty = self.infer_expr(left);
                // `left` is the implicit first argument of the right side.
                self.infer_piped_call(right, &left_ty, expr.span)
            },
            _ => unreached(),
        }
    }

    /// The error-handling operators.
    fn infer_unwrap(&mut self, expr: &Expr) -> (t: ResolvedTy)
        requires
            old(self).wf(),
            expr.kind is OrReturn || expr.kind is OrPanic || expr.kind is OrElse || expr.kind is OrZero || expr.kind is OrNil,
        ensures
            final(self).wf(),
            final(self).scope@.frames.len() == old(self).scope@.frames.len(),
            (t.model(), final(self).state()) == infer(old(self).state(), *expr),
        decreases expr, 0nat,
    {
        match &expr.kind {
            // Error-handling operators — the inner value must be a Result.
            ExprKind::OrReturn(inner) => {
                let ty = self.infer_expr(inner);
                if !ty.is_result() && !matches!(ty, ResolvedTy::Unknown) {
                    self.report(SemaError::OrReturnNonResult { span: expr.span });
                }
                match ty {
                    ResolvedTy::Result(ok, _) => *ok,
                    _ => ResolvedTy::Unknown,
                }
            },
            ExprKind::OrPanic(inner, _) => {
                let ty = self.infer_expr(inner);
                unwrap_value_ty(ty)
            },
            ExprKind::OrElse(inner, default) => {
                let ty = self.infer_expr(inner);
                self.infer_expr(default);
                unwrap_value_ty(ty)
            },
            ExprKind::OrZero(inner) => {
                let ty = self.infer_expr(inner);
                unwrap_value_ty(ty)
            },
            ExprKind::OrNil(inner) => {
                let ty = self.infer_expr(inner);
                unwrap_value_ty(ty)
            },
            _ => unreached(),
        }
    }

    /// Literals of arrays and matrices, allocations and inline assembly.
    fn infer_list(&mut self, expr: &Expr) -> (t: ResolvedTy)
        requires
            old(self).wf(),
            expr.kind is ArrayLit || expr.kind is MatrixLit || expr.kind is AllocCall || expr.kind is Asm,
        ensures
            final(self).wf(),
            final(self).scope@.frames.len() == old(self).scope@.frames.len(),
            (t.model(), final(self).state()) == infer(old(self).state(), *expr),
        decreases expr, 0nat,
    {
        match &expr.kind {
            ExprKind::ArrayLit(elems) => {
                if elems.len() == 0 {
                    assert(ResolvedTy::Unknown.model() == RTy::Unknown);
                    ResolvedTy::Array { size: 0, elem: Box::new(ResolvedTy::Unknown) }
                } else {
                    let elem_ty = self.infer_expr(&elems[0]);
                    self.infer_exprs_from(elems, 1);
                    ResolvedTy::Array { size: elems.len(), elem: Box::new(elem_ty) }
                }
            },
            ExprKind::MatrixLit { elems, rows, cols } => {
                self.infer_exprs_from(elems, 0);
                assert(elems@.skip(0) =~= elems@);
                let size = rows.wrapping_mul(*cols);
                assert(size == wrap_mul(*rows, *cols));
                assert(ResolvedTy::I64.model() == RTy::I64);
                ResolvedTy::Array { size, elem: Box::new(ResolvedTy::I64) }
            },
            ExprKind::AllocCall { allocator, elem_ty, count } => {
                self.infer_expr(allocator);
                self.infer_expr(count);
                let inner = self.resolve_ty(elem_ty);
                ResolvedTy::Ptr(Box::new(inner))
            },
            ExprKind::Asm { args, .. } => {
                self.infer_exprs_from(args, 0);
                assert(args@.skip(0) =~= args@);
                ResolvedTy::Unknown
            },
            _ => unreached(),
        }
    }

    /// Expressions whose type follows from one operand.
    fn infer_operand(&mut self, expr: &Expr) -> (t: ResolvedTy)
        requires
            old(self).wf(),
            expr.kind is Index || expr.kind is UnOp || expr.kind is ResultCtor || expr.kind is Cast || expr.kind is Ref || expr.kind is Deref,
        ensures
            final(self).wf(),
            final(self).scope@.frames.len() == old(self).scope@.frames.len(),
            (t.model(), final(self).state()) == infer(old(self).state(), *expr),
        decreases expr, 0nat,
    {
        match &expr.kind {
            ExprKind::Index { base, index } => {
                let base_ty = self.infer_expr(base);
                self.infer_expr(index);
                match base_ty {
                    ResolvedTy::Slice(inner) => *inner,
                    _ => ResolvedTy::Unknown,
                }
            },
            ExprKind::UnOp { expr: inner, .. } => self.infer_expr(inner),
            ExprKind::ResultCtor { variant, inner } => {
                let inner_ty = self.infer_expr(inner);
                assert(ResolvedTy::Unknown.model() == RTy::Unknown);
                match variant {
                    ResultVariant::Success => ResolvedTy::Result(
                        Box::new(inner_ty),
                        Box::new(ResolvedTy::Unknown),
                    ),
                    ResultVariant::Failure => ResolvedTy::Result(
                        Box::new(ResolvedTy::Unknown),
                        Box::new(inner_ty),
                    ),
                }
            },
            ExprKind::Cast { expr: inner, ty } => {
                self.infer_expr(inner);
                self.resolve_ty(ty)
            },
            ExprKind::Ref(inner) => {
                let ty = self.infer_expr(inner);
                ResolvedTy::Ptr(Box::new(ty))
            },
            ExprKind::Deref(inner) => {
                let ty = self.infer_expr(inner);
                match ty {
                    ResolvedTy::Ptr(i) => *i,
                    ResolvedTy::PtrMut(i) => *i,
                    _ => ResolvedTy::Unknown,
                }
            },
            _ => unreached(),
        }
    }

    /// A name: a binding, or an enum used as the namespace of its variants.
    fn infer_ident(&mut self, expr: &Expr) -> (t: ResolvedTy)
        requires
            old(self).wf(),
            expr.kind is Ident,
        ensures
            final(self).wf(),
            final(self).scope@.frames.len() == old(self).scope@.frames.len(),
            (t.model(), final(self).state()) == infer(old(self).state(), *expr),
    {
        let name = match &expr.kind {
            ExprKind::Ident(name) => name,
            _ => unreached(),
        };
        // Enum type names used as a namespace (`Color` in `Color.Red`)
        // are not undefined.
        if self.scope.enums.contains(name.as_str()) {
            return ResolvedTy::Named(name.clone());
        }
        let found = match self.scope.lookup(name.as_str()) {
            Some(b) => Some((b.moved, b.ty.copy())),
            None => None,
        };
        match found {
            Some((was_moved, ty)) => {
                if was_moved {
                    self.report(SemaError::UseAfterMove { name: name.clone(), span: expr.span });
                }
                ty
            },
            None => {
                self.report(SemaError::Undefined { name: name.clone(), span: expr.span });
                ResolvedTy::Unknown
            },
        }
    }

    /// A call: the arguments are checked against the callee's signature.
    fn infer_call(&mut self, expr: &Expr) -> (t: ResolvedTy)
        requires
            old(self).wf(),
            expr.kind is Call,
        ensures
            final(self).wf(),
            final(self).scope@.frames.len() == old(self).scope@.frames.len(),
            (t.model(), final(self).state()) == infer(old(self).state(), *expr),
        decreases expr, 0nat,
    {
        let (callee, args) = match &expr.kind {
            ExprKind::Call { callee, args } => (callee, args),
            _ => unreached(),
        };
        let fn_name = callee_name_of(callee);
        let found = match self.scope.fns.get(fn_name.as_str()) {
            Some(sig) => Some(sig.copy()),
            None => None,
        };
        match found {
            Some(sig) => {
                if args.len() != sig.params.len() {
                    self.report(
                        SemaError::ArgCountMismatch {
                            name: fn_name.clone(),
                            expected: sig.params.len(),
                            found: args.len(),
                            span: expr.span,
                        },
                    );
                }
                self.check_call_args(args, &sig.params, expr.span);
                sig.ret
            },
            None => {
                // Unknown function — still infer the argument types.
                self.infer_arg_exprs(args);
                ResolvedTy::Unknown
            },
        }
    }

    /// `base.field`: an enum variant `Enum.Variant`, else a struct field.
    fn infer_field(&mut self, expr: &Expr) -> (t: ResolvedTy)
        requires
            old(self).wf(),
            expr.kind is Field,
        ensures
            final(self).wf(),
            final(self).scope@.frames.len() == old(self).scope@.frames.len(),
            (t.model(), final(self).state()) == infer(old(self).state(), *expr),
        decreases expr, 0nat,
    {
        let (base, field) = match &expr.kind {
            ExprKind::Field { base, field } => (base, field),
            _ => unreached(),
        };
        // `EnumName.Variant` before struct field access.
        match &base.kind {
            ExprKind::Ident(enum_name) => {
                let qualified = joined(enum_name, field);
                let found = match self.scope.fns.get(qualified.as_str()) {
                    Some(sig) => Some(sig.ret.copy()),
                    None => None,
                };
                match found {
                    Some(t) => {
                        return t;
                    },
                    None => {},
                }
            },
            _ => {},
        }
        let base_ty = self.infer_expr(base);
        match &base_ty {
            ResolvedTy::Named(n) => {
                let layout = match self.scope.types.get(n.as_str()) {
                    Some(l) => Some(l.copy()),
                    None => None,
                };
                match layout {
                    Some(fields) => match find_field_ty(&fields, field) {
                        Some(t) => t,
                        None => {
                            self.report(SemaError::Undefined { name: joined(n, field), span: expr.span });
                            ResolvedTy::Unknown
                        },
                    },
                    None => ResolvedTy::Unknown,
                }
            },
            _ => ResolvedTy::Unknown,
        }
    }

    /// A binary operation has the type of its left side; `++` needs strings.
    fn infer_binop(&mut self, expr: &Expr) -> (t: ResolvedTy)
        requires
            old(self).wf(),
            expr.kind is BinOp,
        ensures
            final(self).wf(),
            final(self).scope@.frames.len() == old(self).scope@.frames.len(),
            (t.model(), final(self).state()) == infer(old(self).state(), *expr),
        decreases expr, 0nat,
    {
        let (op, left, right) = match &expr.kind {
            ExprKind::BinOp { op, left, right } => (op, left, right),
            _ => unreached(),
        };
        let lt = self.infer_expr(left);
        self.infer_expr(right);
        if *op == BinOp::Concat {
            if !matches!(lt, ResolvedTy::Str) && !matches!(lt, ResolvedTy::Unknown) {
                let found = lt.display();
                self.report(
                    SemaError::TypeMismatch {
                        expected: String::from_str("str"),
                        found,
                        span: left.span,
                    },
                );
            }
            ResolvedTy::Str
        } else {
            lt
        }
    }

    /// A struct literal: each field is checked against the struct's layout.
    fn infer_struct_lit(&mut self, expr: &Expr) -> (t: ResolvedTy)
        requires
            old(self).wf(),
            expr.kind is StructLit,
        ensures
            final(self).wf(),
            final(self).scope@.frames.len() == old(self).scope@.frames.len(),
            (t.model(), final(self).state()) == infer(old(self).state(), *expr),
        decreases expr, 0nat,
    {
        let (name, fields) = match &expr.kind {
            ExprKind::StructLit { name, fields } => (name, fields),
            _ => unreached(),
        };
        let layout = match self.scope.types.get(name.as_str()) {
            Some(l) => Some(l.copy()),
            None => None,
        };
        match layout {
            Some(l) => self.check_struct_fields(name, &l, fields, expr.span),
            None => {
                // Unknown type — still infer the field expressions.
                self.infer_field_exprs(fields);
            },
        }
        ResolvedTy::Named(name.clone())
    }

    /// `if`: the condition must be a `bool`; the type is that of the branch taken first.
    fn infer_if(&mut self, expr: &Expr) -> (t: ResolvedTy)
        requires
            old(self).wf(),
            expr.kind is If,
        ensures
            final(self).wf(),
            final(self).scope@.frames.len() == old(self).scope@.frames.len(),
            (t.model(), final(self).state()) == infer(old(self).state(), *expr),
        decreases expr, 0nat,
    {
        let (cond, then, else_) = match &expr.kind {
            ExprKind::If { cond, then, else_ } => (cond, then, else_),
            _ => unreached(),
        };
        let cond_ty = self.infer_expr(cond);
        if !matches!(cond_ty, ResolvedTy::Bool) && !matches!(cond_ty, ResolvedTy::Unknown) {
            let found = cond_ty.display();
            self.report(
                SemaError::TypeMismatch {
                    expected: String::from_str("bool"),
                    found,
                    span: cond.span,
                },
            );
        }
        let then_ty = self.infer_expr(then);
        match else_ {
            Some(e) => {
                self.infer_expr(e);
            },
            None => {},
        }
        then_ty
    }

    /// The right side of a pipe, with `left_ty` as its implicit first argument
    /// (so a call takes one explicit argument fewer than its parameters).
    fn infer_piped_call(&mut self, right: &Expr, left_ty: &ResolvedTy, span: Span) -> (t: ResolvedTy)
        requires
            old(self).wf(),
        ensures
            final(self).wf(),
            final(self).scope@.frames.len() == old(self).scope@.frames.len(),
            (t.model(), final(self).state()) == infer_piped(old(self).state(), *right, span),
        decreases right, 2nat,
    {
        match &right.kind {
            ExprKind::Call { callee, args } => {
                let fn_name = callee_name_of(callee);
                let found = match self.scope.fns.get(fn_name.as_str()) {
                    Some(sig) => Some(sig.copy()),
                    None => None,
                };
                match found {
                    Some(sig) => {
                        let expected_explicit = if sig.params.len() > 0 {
                            sig.params.len() - 1
                        } else {
                            0
                        };
                        // The piped value fills the first parameter, so a
                        // function without parameters has no room for it.
                        if sig.params.len() == 0 || args.len() != expected_explicit {
                            self.report(
                                SemaError::ArgCountMismatch {
                                    name: fn_name.clone(),
                                    expected: expected_explicit,
                                    found: args.len(),
                                    span,
                                },
                            );
                        }
                        self.infer_arg_exprs(args);
                        sig.ret
                    },
                    None => {
                        self.infer_arg_exprs(args);
                        ResolvedTy::Unknown
                    },
                }
            },
            _ => self.infer_expr(right),
        }
    }

    fn check_call_args(&mut self, args: &Vec<Arg>, params: &Vec<(String, OwnershipMode, ResolvedTy)>, span: Span)
        requires
            old(self).wf(),
        ensures
            final(self).wf(),
            final(self).scope@.frames.len() == old(self).scope@.frames.len(),
            final(self).state() == call_args(
                old(self).state(),
                args@,
                param_models(params@),
                span,
                if args.len() <= params.len() { args.len() as int } else { params.len() as int },
            ),
    {
        let n = if args.len() <= params.len() {
            args.len()
        } else {
            params.len()
        };
        let ghost st0 = self.state();
        let mut i: usize = 0;
        while i < n
            invariant
                self.wf(),
                self.scope@.frames.len() == old(self).scope@.frames.len(),
                i <= n,
                n <= args.len(),
                n <= params.len(),
                self.state() == call_args(st0, args@, param_models(params@), span, i as int),
            decreases n - i,
        {
            let arg = &args[i];
            let pname = &params[i].0;
            let pmode = params[i].1;
            if arg.mode != OwnershipMode::Inferred && arg.mode != pmode {
                self.report(
                    SemaError::OwnershipModeMismatch {
                        param: pname.clone(),
                        expected: mode_debug(pmode),
                        found: mode_debug(arg.mode),
                        span,
                    },
                );
            }
            // A moved argument consumes the binding it names.
            if arg.mode == OwnershipMode::Move {
                match &arg.expr.kind {
                    ExprKind::Ident(n) => {
                        match ownership::check_move(n.as_str(), &self.scope, arg.expr.span) {
                            Err(e) => self.report(e),
                            Ok(_) => {},
                        }
                        self.scope.mark_moved(n.as_str());
                    },
                    _ => {},
                }
            }
            i += 1;
        }
    }

    fn infer_arg_exprs(&mut self, args: &Vec<Arg>)
        requires
            old(self).wf(),
        ensures
            final(self).wf(),
            final(self).scope@.frames.len() == old(self).scope@.frames.len(),
            final(self).state() == infer_args(old(self).state(), args@),
        decreases args, 0nat,
    {
        let ghost st0 = self.state();
        let mut i: usize = 0;
        while i < args.len()
            invariant
                self.wf(),
                self.scope@.frames.len() == old(self).scope@.frames.len(),
                i <= args.len(),
                self.state() == infer_args(st0, args@.take(i as int)),
            decreases args.len() - i,
        {
            self.infer_expr(&args[i].expr);
            assert(args@.take(i + 1).drop_last() =~= args@.take(i as int));
            i += 1;
        }
        assert(args@.take(i as int) =~= args@);
    }

    fn infer_exprs_from(&mut self, es: &Vec<Expr>, from: usize)
        requires
            old(self).wf(),
            from <= es.len(),
        ensures
            final(self).wf(),
            final(self).scope@.frames.len() == old(self).scope@.frames.len(),
            final(self).state() == infer_exprs(old(self).state(), es@.skip(from as int)),
        decreases es, 0nat,
    {
        let ghost st0 = self.state();
        let mut i: usize = from;
        assert(es@.subrange(from as int, from as int) =~= Seq::<Expr>::empty());
        while i < es.len()
            invariant
                self.wf(),
                self.scope@.frames.len() == old(self).scope@.frames.len(),
                from <= i <= es.len(),
                self.state() == infer_exprs(st0, es@.subrange(from as int, i as int)),
            decreases es.len() - i,
        {
            self.infer_expr(&es[i]);
            assert(es@.subrange(from as int, i + 1).drop_last() =~= es@.subrange(from as int, i as int));
            i += 1;
        }
        assert(es@.subrange(from as int, i as int) =~= es@.skip(from as int));
    }

    fn infer_field_exprs(&mut self, fields: &Vec<FieldInit>)
        requires
            old(self).wf(),
        ensures
            final(self).wf(),
            final(self).scope@.frames.len() == old(self).scope@.frames.len(),
            final(self).state() == infer_field_exprs(old(self).state(), fields@),
        decreases fields, 0nat,
    {
        let ghost st0 = self.state();
        let mut i: usize = 0;
        while i < fields.len()
            invariant
                self.wf(),
                self.scope@.frames.len() == old(self).scope@.frames.len(),
                i <= fields.len(),
                self.state() == infer_field_exprs(st0, fields@.take(i as int)),
            decreases fields.len() - i,
        {
            self.infer_expr(&fields[i].expr);
            assert(fields@.take(i + 1).drop_last() =~= fields@.take(i as int));
            i += 1;
        }
        assert(fields@.take(i as int) =~= fields@);
    }

    fn check_struct_fields(&mut self, name: &String, layout: &FieldTys, fields: &Vec<FieldInit>, span: Span)
        requires
            old(self).wf(),
        ensures
            final(self).wf(),
            final(self).scope@.frames.len() == old(self).scope@.frames.len(),
            final(self).state() == struct_fields(old(self).state(), name@, layout@, fields@, span),
        decreases fields, 0nat,
    {
        let ghost st0 = self.state();
        let mut i: usize = 0;
        while i < fields.len()
            invariant
                self.wf(),
                self.scope@.frames.len() == old(self).scope@.frames.len(),
                i <= fields.len(),
                self.state() == struct_fields(st0, name@, layout@, fields@.take(i as int), span),
            decreases fields.len() - i,
        {
            let f = &fields[i];
            let val_ty = self.infer_expr(&f.expr);
            match find_field_ty(layout, &f.name) {
                Some(expected_ty) => {
                    if !self.ty_compatible(&val_ty, &expected_ty) {
                        let expected = expected_ty.display();
                        let found = val_ty.display();
                        self.report(SemaError::TypeMismatch { expected, found, span });
                    }
                },
                None => {
                    self.report(SemaError::Undefined { name: joined(name, &f.name), span });
                },
            }
            assert(fields@.take(i + 1).drop_last() =~= fields@.take(i as int));
            i += 1;
        }
        assert(fields@.take(i as int) =~= fields@);
    }

    /// The arms of a match; the type is that of the last arm.
    fn infer_arms(&mut self, arms: &Vec<MatchArm>) -> (t: ResolvedTy)
        requires
            old(self).wf(),
        ensures
            final(self).wf(),
            final(self).scope@.frames.len() == old(self).scope@.frames.len(),
            (t.model(), final(self).state()) == infer_arms(old(self).state(), arms@),
        decreases arms, 0nat,
    {
        let ghost st0 = self.state();
        let mut arm_ty = ResolvedTy::Unknown;
        let mut i: usize = 0;
        while i < arms.len()
            invariant
                self.wf(),
                self.scope@.frames.len() == old(self).scope@.frames.len(),
                i <= arms.len(),
                (arm_ty.model(), self.state()) == infer_arms(st0, arms@.take(i as int)),
            decreases arms.len() - i,
        {
            arm_ty = self.infer_expr(&arms[i].body);
            assert(arms@.take(i + 1).drop_last() =~= arms@.take(i as int));
            i += 1;
        }
        assert(arms@.take(i as int) =~= arms@);
        arm_ty
    }

    // ── Type resolution ───────────────────────────────────────

    fn resolve_ty(&self, ty: &Ty) -> (r: ResolvedTy)
        ensures
            r.model() == resolve(*ty),
        decreases ty,
    {
        match &ty.kind {
            TyKind::I8 => ResolvedTy::I8,
            TyKind::I16 => ResolvedTy::I16,
            TyKind::I32 => ResolvedTy::I32,
            TyKind::I64 => ResolvedTy::I64,
            TyKind::U8 => ResolvedTy::U8,
            TyKind::U16 => ResolvedTy::U16,
            TyKind::U32 => ResolvedTy::U32,
            TyKind::U64 => ResolvedTy::U64,
            TyKind::F32 => ResolvedTy::F32,
            TyKind::F64 => ResolvedTy::F64,
            TyKind::Bool => ResolvedTy::Bool,
            TyKind::Usize => ResolvedTy::Usize,
            TyKind::Str => ResolvedTy::Str,
            TyKind::Void => ResolvedTy::Void,
            TyKind::Allocator => ResolvedTy::Allocator,
            TyKind::Named(n) => ResolvedTy::Named(n.clone()),
            TyKind::Slice(t) => ResolvedTy::Slice(Box::new(self.resolve_ty(t))),
            TyKind::Ptr(t) => ResolvedTy::Ptr(Box::new(self.resolve_ty(t))),
            TyKind::PtrMut(t) => ResolvedTy::PtrMut(Box::new(self.resolve_ty(t))),
            TyKind::Result(ok, err) => ResolvedTy::Result(
                Box::new(self.resolve_ty(ok)),
                Box::new(self.resolve_ty(err)),
            ),
            TyKind::Option(t) => ResolvedTy::Option(Box::new(self.resolve_ty(t))),
            TyKind::Array { size, elem } => ResolvedTy::Array {
                size: *size,
                elem: Box::new(self.resolve_ty(elem)),
            },
            TyKind::FnPtr { params, ret } => {
                let ps = self.resolve_tys(params);
                ResolvedTy::FnPtr { params: ps, ret: Box::new(self.resolve_ty(ret)) }
            },
        }
    }

    fn resolve_tys(&self, ts: &Vec<Ty>) -> (r: Vec<ResolvedTy>)
        ensures
            models(r@) == resolve_list(ts@),
        decreases ts,
    {
        let mut r: Vec<ResolvedTy> = Vec::new();
        let mut i: usize = 0;
        while i < ts.len()
            invariant
                i <= ts.len(),
                models(r@) == resolve_list(ts@.take(i as int)),
            decreases ts.len() - i,
        {
            let t = self.resolve_ty(&ts[i]);
            let ghost r0 = r@;
            r.push(t);
            assert(r@.drop_last() =~= r0);
            assert(ts@.take(i + 1).drop_last() =~= ts@.take(i as int));
            i += 1;
        }
        assert(ts@.take(i as int) =~= ts@);
        r
    }

    /// Permissive compatibility: `Unknown` matches anything, and structural
    /// types are checked part by part, so partially inferred types such as
    /// `Result(i64, Unknown)` are accepted where a concrete wrapper is expected.
    fn ty_compatible(&self, found: &ResolvedTy, expected: &ResolvedTy) -> (b: bool)
        ensures
            b == compat(found.model(), expected.model()),
        decreases found,
    {
        if matches!(found, ResolvedTy::Unknown) || matches!(expected, ResolvedTy::Unknown) {
            return true;
        }
        match found {
            ResolvedTy::Result(fo, fe) => match expected {
                ResolvedTy::Result(eo, ee) => self.ty_compatible(fo, eo) && self.ty_compatible(fe, ee),
                _ => false,
            },
            ResolvedTy::Option(f) => match expected {
                ResolvedTy::Option(e) => self.ty_compatible(f, e),
                _ => false,
            },
            ResolvedTy::Slice(f) => match expected {
                ResolvedTy::Slice(e) => self.ty_compatible(f, e),
                _ => false,
            },
            ResolvedTy::Ptr(f) => match expected {
                ResolvedTy::Ptr(e) => self.ty_compatible(f, e),
                _ => false,
            },
            ResolvedTy::PtrMut(f) => match expected {
                ResolvedTy::PtrMut(e) => self.ty_compatible(f, e),
                _ => false,
            },
            ResolvedTy::Array { size: fs, elem: fe } => match expected {
                ResolvedTy::Array { size: es, elem: ee } => *fs == *es && self.ty_compatible(fe, ee),
                _ => false,
            },
            ResolvedTy::FnPtr { params: fp, ret: fr } => match expected {
                ResolvedTy::FnPtr { params: ep, ret: er } => {
                    proof {
                        lemma_models(fp@);
                        lemma_models(ep@);
                    }
                    fp.len() == ep.len() && self.all_compatible(fp, ep) && self.ty_compatible(fr, er)
                },
                _ => false,
            },
            _ => ty_eq(found, expected),
        }
    }

    fn all_compatible(&self, fs: &Vec<ResolvedTy>, es: &Vec<ResolvedTy>) -> (b: bool)
        requires
            fs.len() == es.len(),
        ensures
            b == compat_all(models(fs@), models(es@)),
        decreases fs,
    {
        let mut i: usize = 0;
        proof {
            assert(models(fs@.take(0)) =~= Seq::<RTy>::empty());
            assert(models(es@.take(0)) =~= Seq::<RTy>::empty());
        }
        while i < fs.len()
            invariant
                fs.len() == es.len(),
                i <= fs.len(),
                compat_all(models(fs@.take(i as int)), models(es@.take(i as int))),
            decreases fs.len() - i,
        {
            let ok = self.ty_compatible(&fs[i], &es[i]);
            proof {
                assert(fs@.take(i + 1).drop_last() =~= fs@.take(i as int));
                assert(es@.take(i + 1).drop_last() =~= es@.take(i as int));
                let ft = models(fs@.take(i + 1));
                let et = models(es@.take(i + 1));
                assert(ft == models(fs@.take(i as int)).push(fs@[i as int].model()));
                assert(et == models(es@.take(i as int)).push(es@[i as int].model()));
                assert(ft.drop_last() =~= models(fs@.take(i as int)));
                assert(et.drop_last() =~= models(es@.take(i as int)));
            }
            if !ok {
                proof {
                    lemma_compat_all_prefix(fs@, es@, i as int + 1);
                }
                return false;
            }
            i += 1;
        }
        assert(fs@.take(i as int) =~= fs@);
        assert(es@.take(i as int) =~= es@);
        true
    }
}

/// Pairwise compatibility of two lists implies it of their prefixes.
proof fn lemma_compat_all_prefix(fs: Seq<ResolvedTy>, es: Seq<ResolvedTy>, k: int)
    requires
        fs.len() == es.len(),
        0 <= k <= fs.len(),
    ensures
        compat_all(models(fs), models(es)) ==> compat_all(models(fs.take(k)), models(es.take(k))),
    decreases fs.len(),
{
    if fs.len() > k {
        assert(models(fs).drop_last() =~= models(fs.drop_last()));
        assert(models(es).drop_last() =~= models(es.drop_last()));
        assert(fs.drop_last().take(k) =~= fs.take(k));
        assert(es.drop_last().take(k) =~= es.take(k));
        lemma_compat_all_prefix(fs.drop_last(), es.drop_last(), k);
    } else {
        assert(fs.take(k) =~= fs);
        assert(es.take(k) =~= es);
    }
}

/// Structural equality of two resolved types.
fn ty_eq(a: &ResolvedTy, b: &ResolvedTy) -> (r: bool)
    ensures
        r == (a.model() == b.model()),
    decreases a,
{
    match a {
        ResolvedTy::I8 => matches!(b, ResolvedTy::I8),
        ResolvedTy::I16 => matches!(b, ResolvedTy::I16),
        ResolvedTy::I32 => matches!(b, ResolvedTy::I32),
        ResolvedTy::I64 => matches!(b, ResolvedTy::I64),
        ResolvedTy::U8 => matches!(b, ResolvedTy::U8),
        ResolvedTy::U16 => matches!(b, ResolvedTy::U16),
        ResolvedTy::U32 => matches!(b, ResolvedTy::U32),
        ResolvedTy::U64 => matches!(b, ResolvedTy::U64),
        ResolvedTy::F32 => matches!(b, ResolvedTy::F32),
        ResolvedTy::F64 => matches!(b, ResolvedTy::F64),
        ResolvedTy::Bool => matches!(b, ResolvedTy::Bool),
        ResolvedTy::Usize => matches!(b, ResolvedTy::Usize),
        ResolvedTy::Str => matches!(b, ResolvedTy::Str),
        ResolvedTy::Void => matches!(b, ResolvedTy::Void),
        ResolvedTy::Allocator => matches!(b, ResolvedTy::Allocator),
        ResolvedTy::Unknown => matches!(b, ResolvedTy::Unknown),
        ResolvedTy::Slice(x) => match b {
            ResolvedTy::Slice(y) => ty_eq(x, y),
            _ => false,
        },
        ResolvedTy::Ptr(x) => match b {
            ResolvedTy::Ptr(y) => ty_eq(x, y),
            _ => false,
        },
        ResolvedTy::PtrMut(x) => match b {
            ResolvedTy::PtrMut(y) => ty_eq(x, y),
            _ => false,
        },
        ResolvedTy::Option(x) => match b {
            ResolvedTy::Option(y) => ty_eq(x, y),
            _ => false,
        },
        ResolvedTy::Result(x1, x2) => match b {
            ResolvedTy::Result(y1, y2) => ty_eq(x1, y1) && ty_eq(x2, y2),
            _ => false,
        },
        ResolvedTy::Array { size: s1, elem: e1 } => match b {
            ResolvedTy::Array { size: s2, elem: e2 } => *s1 == *s2 && ty_eq(e1, e2),
            _ => false,
        },
        ResolvedTy::Named(n1) => match b {
            ResolvedTy::Named(n2) => is_lit(n1.as_str(), n2.as_str()),
            _ => false,
        },
        ResolvedTy::FnPtr { params: p1, ret: r1 } => match b {
            ResolvedTy::FnPtr { params: p2, ret: r2 } => {
                proof {
                    lemma_models(p1@);
                    lemma_models(p2@);
                }
                if p1.len() != p2.len() {
                    return false;
                }
                let same = tys_eq(p1, p2);
                proof {
                    if same {
                        assert(models(p1@) =~= models(p2@));
                    } else {
                        let k = choose|k: int| 0 <= k < p1.len() && #[trigger] p1@[k].model() != p2@[k].model();
                        assert(models(p1@)[k] != models(p2@)[k]);
                    }
                }
                same && ty_eq(r1, r2)
            },
            _ => false,
        },
    }
}

fn tys_eq(xs: &Vec<ResolvedTy>, ys: &Vec<ResolvedTy>) -> (r: bool)
    requires
        xs.len() == ys.len(),
    ensures
        r == (forall|i: int| 0 <= i < xs.len() ==> #[trigger] xs@[i].model() == ys@[i].model()),
    decreases xs,
{
    let mut i: usize = 0;
    while i < xs.len()
        invariant
            xs.len() == ys.len(),
            i <= xs.len(),
            forall|j: int| 0 <= j < i ==> #[trigger] xs@[j].model() == ys@[j].model(),
        decreases xs.len() - i,
    {
        if !ty_eq(&xs[i], &ys[i]) {
            return false;
        }
        i += 1;
    }
    true
}

/// The value type inside `Result` / `Option`; other types are unchanged.
fn unwrap_value_ty(t: ResolvedTy) -> (r: ResolvedTy)
    ensures
        r.model() == crate::sema_spec::unwrap_ty(t.model()),
{
    match t {
        ResolvedTy::Result(ok, _) => *ok,
        ResolvedTy::Option(ok) => *ok,
        other => other,
    }
}

/// The type of the first field of `layout` called `name`.
fn find_field_ty(layout: &FieldTys, name: &String) -> (r: Option<ResolvedTy>)
    ensures
        match r {
            Some(t) => find_field(layout@, name@) == Some(t.model()),
            None => find_field(layout@, name@) is None,
        },
{
    let mut i: usize = 0;
    assert(layout@.skip(0) =~= layout@);
    while i < layout.0.len()
        invariant
            i <= layout.0.len(),
            find_field(layout@, name@) == find_field(layout@.skip(i as int), name@),
        decreases layout.0.len() - i,
    {
        assert(layout@.skip(i as int).drop_first() =~= layout@.skip(i + 1));
        if is_lit(layout.0[i].0.as_str(), name.as_str()) {
            return Some(layout.0[i].1.copy());
        }
        i += 1;
    }
    None
}

/// `a.b`
fn joined(a: &String, b: &String) -> (s: String)
    ensures
        s@ == a@ + "."@ + b@,
{
    let mut s = a.clone();
    push_str(&mut s, ".");
    push_str(&mut s, b.as_str());
    s
}

/// The name a call refers to.
fn callee_name_of(c: &Expr) -> (s: String)
    ensures
        s@ == callee_name(*c),
{
    match &c.kind {
        ExprKind::Ident(n) => n.clone(),
        ExprKind::Field { field, .. } => field.clone(),
        _ => String::new(),
    }
}

/// How an ownership mode is written in messages.
fn mode_debug(m: OwnershipMode) -> (s: String)
    ensures
        s@ == mode_name(m),
{
    match m {
        OwnershipMode::Read => String::from_str("Read"),
        OwnershipMode::Mut => String::from_str("Mut"),
        OwnershipMode::Move => String::from_str("Move"),
        OwnershipMode::Inferred => String::from_str("Inferred"),
    }
}

impl Default for TyChecker {
    fn default() -> (c: Self)
        ensures
            c.wf(),
            c.state().errs == Seq::<SemaErrV>::empty(),
    {
        Self::new()
    }
}

} // verus!

//! Ownership rules: moves, mutation, and ownership flow through `|>`.
use vstd::prelude::*;
use vstd::string::StringExecFns;
use crate::token::Span;
use crate::ast::{Expr, ExprKind, OwnershipMode};
use crate::scope::{Scope, ScopeV, lookup_in};
use crate::sema_error::{SemaError, SemaErrV};

verus! {

/// The error that moving out of `name` raises, if any: a moved value cannot
/// be moved again, and a `read` binding cannot be moved at all.
pub open spec fn move_check(sc: ScopeV, name: Seq<char>, span: Span) -> Option<SemaErrV> {
    match lookup_in(sc.frames, name) {
        Some(b) => if b.moved {
            Some(SemaErrV::UseAfterMove { name, span })
        } else if b.mode == OwnershipMode::Read {
            Some(SemaErrV::MoveOfReadBinding { name, span })
        } else {
            None
        },
        None => None,
    }
}

/// The error that assigning to `name` raises, if any: only mutable bindings
/// may be assigned.
pub open spec fn mutate_check(sc: ScopeV, name: Seq<char>, span: Span) -> Option<SemaErrV> {
    match lookup_in(sc.frames, name) {
        Some(b) => if !b.mutable {
            Some(SemaErrV::MutateImmutable { name, span })
        } else {
            None
        },
        None => None,
    }
}

/// Whether some argument is passed with `move`.
pub open spec fn some_arg_moves(args: Seq<crate::ast::Arg>) -> bool {
    exists|i: int| 0 <= i < args.len() && (#[trigger] args[i]).mode == OwnershipMode::Move
}

/// The ownership mode with which an expression hands on its value.
pub open spec fn expr_mode(e: Expr, sc: ScopeV) -> OwnershipMode {
    match e.kind {
        ExprKind::Ident(name) => match lookup_in(sc.frames, name@) {
            Some(b) => b.mode,
            None => OwnershipMode::Inferred,
        },
        // A call that moves one of its arguments hands on a moved value.
        ExprKind::Call { args, .. } => if some_arg_moves(args@) {
            OwnershipMode::Move
        } else {
            OwnershipMode::Read
        },
        _ => OwnershipMode::Read,
    }
}

/// The function that the right side of a pipe calls: the callee of a call,
/// or a bare function name.
pub open spec fn piped_fn(e: Expr) -> Option<Seq<char>> {
    match e.kind {
        ExprKind::Call { callee, .. } => match callee.kind {
            ExprKind::Ident(n) => Some(n@),
            ExprKind::Field { field, .. } => Some(field@),
            _ => None,
        },
        ExprKind::Ident(n) => Some(n@),
        _ => None,
    }
}

/// The declared mode of the first parameter of the function that the right
/// side of a pipe calls: the parameter that the piped value fills.
pub open spec fn first_param_mode(e: Expr, sc: ScopeV) -> OwnershipMode {
    match piped_fn(e) {
        Some(f) => if sc.fns.contains_key(f) && sc.fns[f].params.len() > 0 {
            sc.fns[f].params[0].1
        } else {
            OwnershipMode::Inferred
        },
        None => OwnershipMode::Inferred,
    }
}

/// The error of a pipe `left |> right`, if any: a value moved in from the
/// left must be received by a first parameter that declares `move`.
pub open spec fn pipe_check(left: Expr, right: Expr, sc: ScopeV, span: Span) -> Option<SemaErrV> {
    if expr_mode(left, sc) == OwnershipMode::Move && first_param_mode(right, sc) != OwnershipMode::Move {
        Some(SemaErrV::PipeOwnershipConflict { span })
    } else {
        None
    }
}

/// `Ok` when `check` is `None`, else the error it gives.
pub open spec fn matches_check(r: Result<(), SemaError>, check: Option<SemaErrV>) -> bool {
    match r {
        Ok(_) => check is None,
        Err(e) => check == Some(e@),
    }
}

/// Verify ownership rules for a pipe chain.
///
/// Rule: if the left side of a `|>` transfers ownership (`move`), the first
/// parameter of the right side must declare `move`.
pub fn check_pipe(left: &Expr, right: &Expr, scope: &Scope, span: Span) -> (r: Result<(), SemaError>)
    ensures
        matches_check(r, pipe_check(*left, *right, scope@, span)),
{
    let left_mode = infer_expr_mode(left, scope);
    let right_first_mode = right_first_param_mode(right, scope);
    if left_mode == OwnershipMode::Move && right_first_mode != OwnershipMode::Move {
        return Err(SemaError::PipeOwnershipConflict { span });
    }
    Ok(())
}

/// Verify that a `move` expression does not use an already-moved binding.
pub fn check_move(name: &str, scope: &Scope, span: Span) -> (r: Result<(), SemaError>)
    ensures
        matches_check(r, move_check(scope@, name@, span)),
{
    if let Some(b) = scope.lookup(name) {
        if b.moved {
            return Err(SemaError::UseAfterMove { name: String::from_str(name), span });
        }
        if b.mode == OwnershipMode::Read {
            return Err(SemaError::MoveOfReadBinding { name: String::from_str(name), span });
        }
    }
    Ok(())
}

/// Verify that a mutation target is a mutable binding.
pub fn check_mutate(name: &str, scope: &Scope, span: Span) -> (r: Result<(), SemaError>)
    ensures
        matches_check(r, mutate_check(scope@, name@, span)),
{
    if let Some(b) = scope.lookup(name) {
        if !b.mutable {
            return Err(SemaError::MutateImmutable { name: String::from_str(name), span });
        }
    }
    Ok(())
}

fn infer_expr_mode(expr: &Expr, scope: &Scope) -> (m: OwnershipMode)
    ensures
        m == expr_mode(*expr, scope@),
{
    match &expr.kind {
        ExprKind::Ident(name) => match scope.lookup(name.as_str()) {
            Some(b) => b.mode,
            None => OwnershipMode::Inferred,
        },
        ExprKind::Call { args, .. } => if any_moves(args) {
            OwnershipMode::Move
        } else {
            OwnershipMode::Read
        },
        _ => OwnershipMode::Read,
    }
}

fn any_moves(args: &Vec<crate::ast::Arg>) -> (b: bool)
    ensures
        b == some_arg_moves(args@),
{
    let mut i: usize = 0;
    while i < args.len()
        invariant
            i <= args.len(),
            forall|j: int| 0 <= j < i ==> (#[trigger] args@[j]).mode != OwnershipMode::Move,
        decreases args.len() - i,
    {
        if args[i].mode == OwnershipMode::Move {
            return true;
        }
        i += 1;
    }
    false
}

fn right_first_param_mode(expr: &Expr, scope: &Scope) -> (m: OwnershipMode)
    ensures
        m == first_param_mode(*expr, scope@),
{
    let name = match &expr.kind {
        ExprKind::Call { callee, .. } => match &callee.kind {
            ExprKind::Ident(n) => n,
            ExprKind::Field { field, .. } => field,
            _ => {
                return OwnershipMode::Inferred;
            },
        },
        ExprKind::Ident(n) => n,
        _ => {
            return OwnershipMode::Inferred;
        },
    };
    match scope.fns.get(name.as_str()) {
        Some(sig) => if sig.params.len() > 0 {
            sig.params[0].1
        } else {
            OwnershipMode::Inferred
        },
        None => OwnershipMode::Inferred,
    }
}

} // verus!

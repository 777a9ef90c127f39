use vstd::prelude::*;
use crate::token::Span;

verus! {

/// Semantic errors.
#[derive(Debug)]
pub enum SemaError {
    /// `undefined name '{name}'`
    Undefined { name: String, span: Span },
    /// `type mismatch: expected '{expected}', found '{found}'`
    TypeMismatch { expected: String, found: String, span: Span },
    /// `ownership conflict: {msg}`
    OwnershipConflict { msg: String, span: Span },
    /// `cannot move '{name}' — it was declared with 'read'`
    MoveOfReadBinding { name: String, span: Span },
    /// `cannot mutate '{name}' — it was declared with '定' (immutable)`
    MutateImmutable { name: String, span: Span },
    /// `use of moved value '{name}'`
    UseAfterMove { name: String, span: Span },
    /// `function '{name}' expects {expected} arguments, got {found}`
    ArgCountMismatch { name: String, expected: usize, found: usize, span: Span },
    /// `parameter '{param}' expects ownership mode '{expected}', got '{found}'`
    OwnershipModeMismatch { param: String, expected: String, found: String, span: Span },
    /// `pipe left side transfers ownership but right side does not declare 'move'`
    PipeOwnershipConflict { span: Span },
    /// `Result type required for 'or_return'`
    OrReturnNonResult { span: Span },
    /// `allocator parameter missing in function '{name}' that allocates`
    MissingAllocator { name: String, span: Span },
}

/// Model of a semantic error: texts are character sequences.
pub enum SemaErrV {
    Undefined { name: Seq<char>, span: Span },
    TypeMismatch { expected: Seq<char>, found: Seq<char>, span: Span },
    OwnershipConflict { msg: Seq<char>, span: Span },
    MoveOfReadBinding { name: Seq<char>, span: Span },
    MutateImmutable { name: Seq<char>, span: Span },
    UseAfterMove { name: Seq<char>, span: Span },
    ArgCountMismatch { name: Seq<char>, expected: usize, found: usize, span: Span },
    OwnershipModeMismatch { param: Seq<char>, expected: Seq<char>, found: Seq<char>, span: Span },
    PipeOwnershipConflict { span: Span },
    OrReturnNonResult { span: Span },
    MissingAllocator { name: Seq<char>, span: Span },
}

impl View for SemaError {
    type V = SemaErrV;

    open spec fn view(&self) -> SemaErrV {
        match self {
            SemaError::Undefined { name, span } => SemaErrV::Undefined { name: name@, span: *span },
            SemaError::TypeMismatch { expected, found, span } => SemaErrV::TypeMismatch {
                expected: expected@,
                found: found@,
                span: *span,
            },
            SemaError::OwnershipConflict { msg, span } => SemaErrV::OwnershipConflict {
                msg: msg@,
                span: *span,
            },
            SemaError::MoveOfReadBinding { name, span } => SemaErrV::MoveOfReadBinding {
                name: name@,
                span: *span,
            },
            SemaError::MutateImmutable { name, span } => SemaErrV::MutateImmutable {
                name: name@,
                span: *span,
            },
            SemaError::UseAfterMove { name, span } => SemaErrV::UseAfterMove { name: name@, span: *span },
            SemaError::ArgCountMismatch { name, expected, found, span } => SemaErrV::ArgCountMismatch {
                name: name@,
                expected: *expected,
                found: *found,
                span: *span,
            },
            SemaError::OwnershipModeMismatch { param, expected, found, span } =>
                SemaErrV::OwnershipModeMismatch {
                param: param@,
                expected: expected@,
                found: found@,
                span: *span,
            },
            SemaError::PipeOwnershipConflict { span } => SemaErrV::PipeOwnershipConflict { span: *span },
            SemaError::OrReturnNonResult { span } => SemaErrV::OrReturnNonResult { span: *span },
            SemaError::MissingAllocator { name, span } => SemaErrV::MissingAllocator {
                name: name@,
                span: *span,
            },
        }
    }
}

/// The span an error model points at.
pub open spec fn err_span(e: SemaErrV) -> Span {
    match e {
        SemaErrV::Undefined { span, .. } => span,
        SemaErrV::TypeMismatch { span, .. } => span,
        SemaErrV::OwnershipConflict { span, .. } => span,
        SemaErrV::MoveOfReadBinding { span, .. } => span,
        SemaErrV::MutateImmutable { span, .. } => span,
        SemaErrV::UseAfterMove { span, .. } => span,
        SemaErrV::ArgCountMismatch { span, .. } => span,
        SemaErrV::OwnershipModeMismatch { span, .. } => span,
        SemaErrV::PipeOwnershipConflict { span } => span,
        SemaErrV::OrReturnNonResult { span } => span,
        SemaErrV::MissingAllocator { span, .. } => span,
    }
}

impl SemaError {
    /// Where in the source the error lies.
    pub fn span(&self) -> (s: Span)
        ensures
            s == err_span(self@),
    {
        match self {
            SemaError::Undefined { span, .. } => *span,
            SemaError::TypeMismatch { span, .. } => *span,
            SemaError::OwnershipConflict { span, .. } => *span,
            SemaError::MoveOfReadBinding { span, .. } => *span,
            SemaError::MutateImmutable { span, .. } => *span,
            SemaError::UseAfterMove { span, .. } => *span,
            SemaError::ArgCountMismatch { span, .. } => *span,
            SemaError::OwnershipModeMismatch { span, .. } => *span,
            SemaError::PipeOwnershipConflict { span } => *span,
            SemaError::OrReturnNonResult { span } => *span,
            SemaError::MissingAllocator { span, .. } => *span,
        }
    }
}

} // verus!

//! The intermediate representation: functions of basic blocks of
//! three-address instructions over named SSA values.
use vstd::prelude::*;
use crate::token::Span;
use crate::text::{dec_nat, is_lit, push_str, push_usize};
use vstd::string::StringExecFns;

verus! {

/// A complete IR program — one module per source file.
#[derive(Debug, Clone)]
pub struct IrModule {
    pub name: String,
    pub funcs: Vec<IrFunc>,
    /// Struct type layouts: type name → ordered field names.
    pub structs: Vec<StructLayout>,
    /// Enum variant layouts: enum name → ordered variant names.
    pub enums: Vec<EnumLayout>,
}

/// Layout of a struct type used for field-offset calculation.
#[derive(Debug, Clone)]
pub struct StructLayout {
    pub name: String,
    pub fields: Vec<String>,
}

/// Enum variant layout: variant name → tag index.
#[derive(Debug, Clone)]
pub struct EnumLayout {
    pub name: String,
    /// Ordered variant names; index == tag value.
    pub variants: Vec<String>,
}

impl EnumLayout {
    /// The tag of `variant`: the index of its first occurrence.
    pub fn tag_of(&self, variant: &str) -> (r: Option<usize>)
        ensures
            match r {
                Some(i) => i < self.variants.len() && self.variants@[i as int]@ == variant@
                    && forall|j: int| 0 <= j < i ==> #[trigger] self.variants@[j]@ != variant@,
                None => forall|j: int| 0 <= j < self.variants.len() ==> #[trigger] self.variants@[j]@ != variant@,
            },
    {
        let mut i: usize = 0;
        while i < self.variants.len()
            invariant
                i <= self.variants.len(),
                forall|j: int| 0 <= j < i ==> #[trigger] self.variants@[j]@ != variant@,
            decreases self.variants.len() - i,
        {
            if is_lit(self.variants[i].as_str(), variant) {
                return Some(i);
            }
            i += 1;
        }
        None
    }
}

/// A function in IR form.
#[derive(Debug, Clone)]
pub struct IrFunc {
    pub name: String,
    pub params: Vec<IrParam>,
    pub ret: IrTy,
    pub blocks: Vec<BasicBlock>,
}

/// A function parameter.
#[derive(Debug, Clone)]
pub struct IrParam {
    pub name: String,
    pub ty: IrTy,
    pub mode: IrMode,
}

/// Ownership mode in IR.
#[derive(Debug, Clone, Copy, PartialEq, Eq, Structural)]
pub enum IrMode {
    Read,
    Mut,
    Move,
}

/// A basic block: linear sequence of instructions with a terminator.
#[derive(Debug, Clone)]
pub struct BasicBlock {
    pub label: String,
    pub instrs: Vec<Instr>,
    pub term: Terminator,
}

/// An IR instruction (three-address code style).
#[derive(Debug, Clone)]
pub struct Instr {
    /// Optional SSA destination name.
    pub dest: Option<String>,
    pub op: Op,
    pub span: Span,
}

/// IR operations.
#[derive(Debug, Clone)]
pub enum Op {
    // ── Literals ─────────────────────────────────────────────
    ConstInt(i64),
    /// A floating-point constant, as its decimal text.
    ConstFloat(String),
    ConstBool(bool),
    ConstStr(String),
    // ── Arithmetic ───────────────────────────────────────────
    Add(String, String),
    Sub(String, String),
    Mul(String, String),
    Div(String, String),
    Rem(String, String),
    // ── Comparison ───────────────────────────────────────────
    CmpEq(String, String),
    CmpNeq(String, String),
    CmpLt(String, String),
    CmpLe(String, String),
    CmpGt(String, String),
    CmpGe(String, String),
    // ── Logical ──────────────────────────────────────────────
    And(String, String),
    Or(String, String),
    Not(String),
    Neg(String),
    // ── Bitwise ──────────────────────────────────────────────
    BitAnd(String, String),
    BitOr(String, String),
    BitXor(String, String),
    Shl(String, String),
    Shr(String, String),
    BitNot(String),
    // ── Memory ───────────────────────────────────────────────
    /// Load a named SSA value.
    Load(String),
    /// Store `src` into mutable slot `dest`.
    Store { dest: String, src: String },
    /// Address-of: `&x`
    Ref(String),
    /// Dereference pointer: `*x`
    Deref(String),
    /// Field access: `base.field` — `struct_ty` is the resolved struct type name.
    Field { base: String, field: String, struct_ty: Option<String> },
    /// Slice index: `base[index]`
    Index { base: String, index: String },
    /// Number of elements in a slice: `base.len`
    SliceLen(String),
    /// Raw data pointer of a slice: `base.ptr`
    SlicePtr(String),
    /// Byte length of a str (via strlen): `base.len`
    StrLen(String),
    // ── Calls ─────────────────────────────────────────────────
    Call { func: String, args: Vec<String> },
    /// Indirect call through a function pointer variable.
    CallIndirect { fp: String, args: Vec<String> },
    // ── Enum / tagged-union construction ─────────────────────
    /// Build an enum value: `{ tag, payload }` where tag is the variant index.
    MakeVariant { tag: usize, payload: String },
    /// Extract the tag index from an enum value.
    GetTag(String),
    /// Extract the payload from an enum value.
    GetPayload(String),
    // ── Result / error handling ───────────────────────────────
    /// Wrap a value as Ok (tag=0).
    WrapOk(String),
    /// Wrap a value as Err (tag=1).
    WrapErr(String),
    /// Extract Ok value or jump to `err_block` on Err.
    UnwrapOk { val: String, err_block: String },
    // ── Type cast ─────────────────────────────────────────────
    Cast { val: String, ty: IrTy },
    // ── Struct construction ────────────────────────────────────
    StructLit { ty: String, fields: Vec<(String, String)> },
    // ── Array / matrix construction ────────────────────────────
    /// Stack array literal: `[a, b, c]` — elems are SSA names.
    ArrayLit(Vec<String>),
    /// Matrix literal (row-major): `[1,2;3,4]`.
    MatrixLit { elems: Vec<String>, rows: usize, cols: usize },
    // ── Allocator ──────────────────────────────────────────────
    /// `alloc.alloc(T, count)` — returns pointer to heap memory.
    AllocCall { allocator: String, elem_ty: IrTy, count: String },
    /// Inline assembly: `asm!("template", arg0, arg1, ...)` — base ring only.
    /// `{0}`, `{1}`, … in the template are replaced by the corresponding arg SSA names.
    Asm { template: String, args: Vec<String> },
    Nop,
}

/// Terminator — exactly one per basic block.
#[derive(Debug, Clone)]
pub enum Terminator {
    Jump(String),
    Branch { cond: String, then_block: String, else_block: String },
    Return(Option<String>),
    Unreachable,
}

/// IR type system.
#[derive(Debug, PartialEq, Eq)]
pub enum IrTy {
    I8,
    I16,
    I32,
    I64,
    U8,
    U16,
    U32,
    U64,
    F32,
    F64,
    Bool,
    Usize,
    Str,
    Void,
    Ptr(Box<IrTy>),
    PtrMut(Box<IrTy>),
    Slice(Box<IrTy>),
    Result(Box<IrTy>, Box<IrTy>),
    Option(Box<IrTy>),
    Named(String),
    Allocator,
    Array { size: usize, elem: Box<IrTy> },
    /// Function pointer — represented as uintptr_t at IR level.
    FnPtr { params: Vec<IrTy>, ret: Box<IrTy> },
}

// ── Mathematical models ───────────────────────────────────────

/// An IR type with names as character sequences.
pub enum IrTyV {
    I8,
    I16,
    I32,
    I64,
    U8,
    U16,
    U32,
    U64,
    F32,
    F64,
    Bool,
    Usize,
    Str,
    Void,
    Ptr(Box<IrTyV>),
    PtrMut(Box<IrTyV>),
    Slice(Box<IrTyV>),
    Result(Box<IrTyV>, Box<IrTyV>),
    Option(Box<IrTyV>),
    Named(Seq<char>),
    Allocator,
    Array { size: usize, elem: Box<IrTyV> },
    FnPtr { params: Seq<IrTyV>, ret: Box<IrTyV> },
}

impl IrTy {
    pub open spec fn model(&self) -> IrTyV
        decreases self,
    {
        match self {
            IrTy::I8 => IrTyV::I8,
            IrTy::I16 => IrTyV::I16,
            IrTy::I32 => IrTyV::I32,
            IrTy::I64 => IrTyV::I64,
            IrTy::U8 => IrTyV::U8,
            IrTy::U16 => IrTyV::U16,
            IrTy::U32 => IrTyV::U32,
            IrTy::U64 => IrTyV::U64,
            IrTy::F32 => IrTyV::F32,
            IrTy::F64 => IrTyV::F64,
            IrTy::Bool => IrTyV::Bool,
            IrTy::Usize => IrTyV::Usize,
            IrTy::Str => IrTyV::Str,
            IrTy::Void => IrTyV::Void,
            IrTy::Ptr(t) => IrTyV::Ptr(Box::new(t.model())),
            IrTy::PtrMut(t) => IrTyV::PtrMut(Box::new(t.model())),
            IrTy::Slice(t) => IrTyV::Slice(Box::new(t.model())),
            IrTy::Result(a, b) => IrTyV::Result(Box::new(a.model()), Box::new(b.model())),
            IrTy::Option(t) => IrTyV::Option(Box::new(t.model())),
            IrTy::Named(n) => IrTyV::Named(n@),
            IrTy::Allocator => IrTyV::Allocator,
            IrTy::Array { size, elem } => IrTyV::Array { size: *size, elem: Box::new(elem.model()) },
            IrTy::FnPtr { params, ret } => IrTyV::FnPtr {
                params: ir_models(params@),
                ret: Box::new(ret.model()),
            },
        }
    }
}

impl IrTy {
    /// A copy of this type.
    pub fn copy(&self) -> (r: Self)
        ensures
            r.model() == self.model(),
        decreases self,
    {
        match self {
            IrTy::I8 => IrTy::I8,
            IrTy::I16 => IrTy::I16,
            IrTy::I32 => IrTy::I32,
            IrTy::I64 => IrTy::I64,
            IrTy::U8 => IrTy::U8,
            IrTy::U16 => IrTy::U16,
            IrTy::U32 => IrTy::U32,
            IrTy::U64 => IrTy::U64,
            IrTy::F32 => IrTy::F32,
            IrTy::F64 => IrTy::F64,
            IrTy::Bool => IrTy::Bool,
            IrTy::Usize => IrTy::Usize,
            IrTy::Str => IrTy::Str,
            IrTy::Void => IrTy::Void,
            IrTy::Ptr(t) => IrTy::Ptr(Box::new(t.copy())),
            IrTy::PtrMut(t) => IrTy::PtrMut(Box::new(t.copy())),
            IrTy::Slice(t) => IrTy::Slice(Box::new(t.copy())),
            IrTy::Result(a, b) => IrTy::Result(Box::new(a.copy()), Box::new(b.copy())),
            IrTy::Option(t) => IrTy::Option(Box::new(t.copy())),
            IrTy::Named(n) => IrTy::Named(n.clone()),
            IrTy::Allocator => IrTy::Allocator,
            IrTy::Array { size, elem } => IrTy::Array { size: *size, elem: Box::new(elem.copy()) },
            IrTy::FnPtr { params, ret } => {
                let mut ps: Vec<IrTy> = Vec::new();
                let mut i: usize = 0;
                while i < params.len()
                    invariant
                        i <= params.len(),
                        self is FnPtr,
                        self->params == *params,
                        ir_models(ps@) == ir_models(params@.take(i as int)),
                    decreases params.len() - i,
                {
                    let ghost ps0 = ps@;
                    proof {
                        let ghost ps: Vec<IrTy> = self->params;
                        assert(decreases_to!(*self => self->params));
                        assert(decreases_to!(ps => ps@));
                        assert(decreases_to!(ps@ => ps@[i as int]));
                        assert(decreases_to!(*self => ps@[i as int]));
                    }
                    ps.push(params[i].copy());
                    assert(ps@.drop_last() =~= ps0);
                    assert(params@.take(i + 1).drop_last() =~= params@.take(i as int));
                    i += 1;
                }
                assert(params@.take(params.len() as int) =~= params@);
                IrTy::FnPtr { params: ps, ret: Box::new(ret.copy()) }
            },
        }
    }
}

impl Clone for IrTy {
    fn clone(&self) -> (r: Self)
        ensures
            r.model() == self.model(),
    {
        self.copy()
    }
}

/// Models of a list of IR types.
pub open spec fn ir_models(ts: Seq<IrTy>) -> Seq<IrTyV>
    decreases ts,
{
    if ts.len() == 0 {
        Seq::empty()
    } else {
        ir_models(ts.drop_last()).push(ts.last().model())
    }
}

pub proof fn lemma_ir_models(ts: Seq<IrTy>)
    ensures
        ir_models(ts).len() == ts.len(),
        forall|i: int| 0 <= i < ts.len() ==> #[trigger] ir_models(ts)[i] == ts[i].model(),
    decreases ts.len(),
{
    if ts.len() > 0 {
        lemma_ir_models(ts.drop_last());
    }
}

/// How an IR type is written.
pub open spec fn ir_disp(t: IrTyV) -> Seq<char>
    decreases t,
{
    match t {
        IrTyV::I8 => "i8"@,
        IrTyV::I16 => "i16"@,
        IrTyV::I32 => "i32"@,
        IrTyV::I64 => "i64"@,
        IrTyV::U8 => "u8"@,
        IrTyV::U16 => "u16"@,
        IrTyV::U32 => "u32"@,
        IrTyV::U64 => "u64"@,
        IrTyV::F32 => "f32"@,
        IrTyV::F64 => "f64"@,
        IrTyV::Bool => "bool"@,
        IrTyV::Usize => "usize"@,
        IrTyV::Str => "str"@,
        IrTyV::Void => "void"@,
        IrTyV::Allocator => "Allocator"@,
        IrTyV::Named(n) => n,
        IrTyV::Ptr(t) => "*"@ + ir_disp(*t),
        IrTyV::PtrMut(t) => "*mut "@ + ir_disp(*t),
        IrTyV::Slice(t) => "[]"@ + ir_disp(*t),
        IrTyV::Result(ok, e) => "Result("@ + ir_disp(*ok) + ", "@ + ir_disp(*e) + ")"@,
        IrTyV::Option(t) => "Option("@ + ir_disp(*t) + ")"@,
        IrTyV::Array { size, elem } => "["@ + dec_nat(size as nat) + "]"@ + ir_disp(*elem),
        IrTyV::FnPtr { params, ret } => "fn("@ + ir_disp_list(params) + ") -> "@ + ir_disp(*ret),
    }
}

/// The types of `ts`, written one after another with `, ` between them.
pub open spec fn ir_disp_list(ts: Seq<IrTyV>) -> Seq<char>
    decreases ts,
{
    if ts.len() == 0 {
        Seq::empty()
    } else if ts.len() == 1 {
        ir_disp(ts[0])
    } else {
        ir_disp_list(ts.drop_last()) + ", "@ + ir_disp(ts.last())
    }
}

impl IrTy {
    /// How the type is written.
    pub fn display(&self) -> (s: String)
        ensures
            s@ == ir_disp(self.model()),
    {
        let mut s = String::new();
        self.write_to(&mut s);
        s
    }

    pub(crate) fn write_to(&self, s: &mut String)
        ensures
            final(s)@ == old(s)@ + ir_disp(self.model()),
        decreases self,
    {
        let ghost s0 = s@;
        match self {
            IrTy::I8 => push_str(s, "i8"),
            IrTy::I16 => push_str(s, "i16"),
            IrTy::I32 => push_str(s, "i32"),
            IrTy::I64 => push_str(s, "i64"),
            IrTy::U8 => push_str(s, "u8"),
            IrTy::U16 => push_str(s, "u16"),
            IrTy::U32 => push_str(s, "u32"),
            IrTy::U64 => push_str(s, "u64"),
            IrTy::F32 => push_str(s, "f32"),
            IrTy::F64 => push_str(s, "f64"),
            IrTy::Bool => push_str(s, "bool"),
            IrTy::Usize => push_str(s, "usize"),
            IrTy::Str => push_str(s, "str"),
            IrTy::Void => push_str(s, "void"),
            IrTy::Allocator => push_str(s, "Allocator"),
            IrTy::Named(n) => push_str(s, n.as_str()),
            IrTy::Ptr(t) => {
                push_str(s, "*");
                t.write_to(s);
                assert(s@ =~= s0 + ir_disp(self.model()));
            },
            IrTy::PtrMut(t) => {
                push_str(s, "*mut ");
                t.write_to(s);
                assert(s@ =~= s0 + ir_disp(self.model()));
            },
            IrTy::Slice(t) => {
                push_str(s, "[]");
                t.write_to(s);
                assert(s@ =~= s0 + ir_disp(self.model()));
            },
            IrTy::Result(ok, e) => {
                push_str(s, "Result(");
                ok.write_to(s);
                push_str(s, ", ");
                e.write_to(s);
                push_str(s, ")");
                assert(s@ =~= s0 + ir_disp(self.model()));
            },
            IrTy::Option(t) => {
                push_str(s, "Option(");
                t.write_to(s);
                push_str(s, ")");
                assert(s@ =~= s0 + ir_disp(self.model()));
            },
            IrTy::Array { size, elem } => {
                push_str(s, "[");
                push_usize(s, *size);
                push_str(s, "]");
                elem.write_to(s);
                assert(s@ =~= s0 + ir_disp(self.model()));
            },
            IrTy::FnPtr { params, ret } => {
                push_str(s, "fn(");
                let ghost s1 = s@;
                let mut i: usize = 0;
                proof {
                    lemma_ir_models(params@);
                    assert(params@.take(0) =~= Seq::<IrTy>::empty());
                }
                while i < params.len()
                    invariant
                        i <= params.len(),
                        self is FnPtr,
                        self->params == *params,
                        s@ == s1 + ir_disp_list(ir_models(params@.take(i as int))),
                    decreases params.len() - i,
                {
                    proof {
                        assert(params@.take(i + 1).drop_last() =~= params@.take(i as int));
                        lemma_ir_models(params@.take(i + 1));
                    }
                    if i > 0 {
                        push_str(s, ", ");
                    }
                    proof {
                        let ghost ps: Vec<IrTy> = self->params;
                        assert(decreases_to!(*self => self->params));
                        assert(decreases_to!(ps => ps@));
                        assert(decreases_to!(ps@ => ps@[i as int]));
                        assert(decreases_to!(*self => ps@[i as int]));
                    }
                    params[i].write_to(s);
                    i += 1;
                    proof {
                        let ms = ir_models(params@.take(i as int));
                        if i > 1 {
                            assert(ms.drop_last() == ir_models(params@.take(i - 1)));
                        } else {
                            assert(ms.len() == 1);
                        }
                        assert(s@ =~= s1 + ir_disp_list(ms));
                    }
                }
                assert(params@.take(params.len() as int) =~= params@);
                push_str(s, ") -> ");
                ret.write_to(s);
                assert(s@ =~= s0 + ir_disp(self.model()));
            },
        }
    }
}

/// An IR operation with names as character sequences.
pub enum OpV {
    ConstInt(i64),
    ConstFloat(Seq<char>),
    ConstBool(bool),
    ConstStr(Seq<char>),
    Add(Seq<char>, Seq<char>),
    Sub(Seq<char>, Seq<char>),
    Mul(Seq<char>, Seq<char>),
    Div(Seq<char>, Seq<char>),
    Rem(Seq<char>, Seq<char>),
    CmpEq(Seq<char>, Seq<char>),
    CmpNeq(Seq<char>, Seq<char>),
    CmpLt(Seq<char>, Seq<char>),
    CmpLe(Seq<char>, Seq<char>),
    CmpGt(Seq<char>, Seq<char>),
    CmpGe(Seq<char>, Seq<char>),
    And(Seq<char>, Seq<char>),
    Or(Seq<char>, Seq<char>),
    Not(Seq<char>),
    Neg(Seq<char>),
    BitAnd(Seq<char>, Seq<char>),
    BitOr(Seq<char>, Seq<char>),
    BitXor(Seq<char>, Seq<char>),
    Shl(Seq<char>, Seq<char>),
    Shr(Seq<char>, Seq<char>),
    BitNot(Seq<char>),
    Load(Seq<char>),
    Store { dest: Seq<char>, src: Seq<char> },
    Ref(Seq<char>),
    Deref(Seq<char>),
    Field { base: Seq<char>, field: Seq<char>, struct_ty: Option<Seq<char>> },
    Index { base: Seq<char>, index: Seq<char> },
    SliceLen(Seq<char>),
    SlicePtr(Seq<char>),
    StrLen(Seq<char>),
    Call { func: Seq<char>, args: Seq<Seq<char>> },
    CallIndirect { fp: Seq<char>, args: Seq<Seq<char>> },
    MakeVariant { tag: usize, payload: Seq<char> },
    GetTag(Seq<char>),
    GetPayload(Seq<char>),
    WrapOk(Seq<char>),
    WrapErr(Seq<char>),
    UnwrapOk { val: Seq<char>, err_block: Seq<char> },
    Cast { val: Seq<char>, ty: IrTyV },
    StructLit { ty: Seq<char>, fields: Seq<(Seq<char>, Seq<char>)> },
    ArrayLit(Seq<Seq<char>>),
    MatrixLit { elems: Seq<Seq<char>>, rows: usize, cols: usize },
    AllocCall { allocator: Seq<char>, elem_ty: IrTyV, count: Seq<char> },
    Asm { template: Seq<char>, args: Seq<Seq<char>> },
    Nop,
}

impl Op {
    pub open spec fn model(&self) -> OpV {
        match self {
            Op::ConstInt(x0) => OpV::ConstInt(*x0),
            Op::ConstFloat(x0) => OpV::ConstFloat(x0@),
            Op::ConstBool(x0) => OpV::ConstBool(*x0),
            Op::ConstStr(x0) => OpV::ConstStr(x0@),
            Op::Add(x0, x1) => OpV::Add(x0@, x1@),
            Op::Sub(x0, x1) => OpV::Sub(x0@, x1@),
            Op::Mul(x0, x1) => OpV::Mul(x0@, x1@),
            Op::Div(x0, x1) => OpV::Div(x0@, x1@),
            Op::Rem(x0, x1) => OpV::Rem(x0@, x1@),
            Op::CmpEq(x0, x1) => OpV::CmpEq(x0@, x1@),
            Op::CmpNeq(x0, x1) => OpV::CmpNeq(x0@, x1@),
            Op::CmpLt(x0, x1) => OpV::CmpLt(x0@, x1@),
            Op::CmpLe(x0, x1) => OpV::CmpLe(x0@, x1@),
            Op::CmpGt(x0, x1) => OpV::CmpGt(x0@, x1@),
            Op::CmpGe(x0, x1) => OpV::CmpGe(x0@, x1@),
            Op::And(x0, x1) => OpV::And(x0@, x1@),
            Op::Or(x0, x1) => OpV::Or(x0@, x1@),
            Op::Not(x0) => OpV::Not(x0@),
            Op::Neg(x0) => OpV::Neg(x0@),
            Op::BitAnd(x0, x1) => OpV::BitAnd(x0@, x1@),
            Op::BitOr(x0, x1) => OpV::BitOr(x0@, x1@),
            Op::BitXor(x0, x1) => OpV::BitXor(x0@, x1@),
            Op::Shl(x0, x1) => OpV::Shl(x0@, x1@),
            Op::Shr(x0, x1) => OpV::Shr(x0@, x1@),
            Op::BitNot(x0) => OpV::BitNot(x0@),
            Op::Load(x0) => OpV::Load(x0@),
            Op::Store { dest, src } => OpV::Store { dest: dest@, src: src@ },
            Op::Ref(x0) => OpV::Ref(x0@),
            Op::Deref(x0) => OpV::Deref(x0@),
            Op::Field { base, field, struct_ty } => OpV::Field { base: base@, field: field@, struct_ty: struct_ty.deep_view() },
            Op::Index { base, index } => OpV::Index { base: base@, index: index@ },
            Op::SliceLen(x0) => OpV::SliceLen(x0@),
            Op::SlicePtr(x0) => OpV::SlicePtr(x0@),
            Op::StrLen(x0) => OpV::StrLen(x0@),
            Op::Call { func, args } => OpV::Call { func: func@, args: names(args@) },
            Op::CallIndirect { fp, args } => OpV::CallIndirect { fp: fp@, args: names(args@) },
            Op::MakeVariant { tag, payload } => OpV::MakeVariant { tag: *tag, payload: payload@ },
            Op::GetTag(x0) => OpV::GetTag(x0@),
            Op::GetPayload(x0) => OpV::GetPayload(x0@),
            Op::WrapOk(x0) => OpV::WrapOk(x0@),
            Op::WrapErr(x0) => OpV::WrapErr(x0@),
            Op::UnwrapOk { val, err_block } => OpV::UnwrapOk { val: val@, err_block: err_block@ },
            Op::Cast { val, ty } => OpV::Cast { val: val@, ty: ty.model() },
            Op::StructLit { ty, fields } => OpV::StructLit { ty: ty@, fields: name_pairs(fields@) },
            Op::ArrayLit(x0) => OpV::ArrayLit(names(x0@)),
            Op::MatrixLit { elems, rows, cols } => OpV::MatrixLit { elems: names(elems@), rows: *rows, cols: *cols },
            Op::AllocCall { allocator, elem_ty, count } => OpV::AllocCall { allocator: allocator@, elem_ty: elem_ty.model(), count: count@ },
            Op::Asm { template, args } => OpV::Asm { template: template@, args: names(args@) },
            Op::Nop => OpV::Nop,
        }
    }
}

/// The characters of each string.
pub open spec fn names(v: Seq<String>) -> Seq<Seq<char>> {
    v.map_values(|s: String| s@)
}

/// The characters of both strings of each pair.
pub open spec fn name_pairs(v: Seq<(String, String)>) -> Seq<(Seq<char>, Seq<char>)> {
    v.map_values(|p: (String, String)| (p.0@, p.1@))
}

/// An instruction with names as character sequences.
pub struct InstrV {
    pub dest: Option<Seq<char>>,
    pub op: OpV,
    pub span: Span,
}

/// A terminator with names as character sequences.
pub enum TermV {
    Jump(Seq<char>),
    Branch { cond: Seq<char>, then_block: Seq<char>, else_block: Seq<char> },
    Return(Option<Seq<char>>),
    Unreachable,
}

/// A basic block with names as character sequences.
pub struct BlockV {
    pub label: Seq<char>,
    pub instrs: Seq<InstrV>,
    pub term: TermV,
}

impl Instr {
    pub open spec fn model(&self) -> InstrV {
        InstrV { dest: self.dest.deep_view(), op: self.op.model(), span: self.span }
    }
}

impl Terminator {
    pub open spec fn model(&self) -> TermV {
        match self {
            Terminator::Jump(l) => TermV::Jump(l@),
            Terminator::Branch { cond, then_block, else_block } => TermV::Branch {
                cond: cond@,
                then_block: then_block@,
                else_block: else_block@,
            },
            Terminator::Return(v) => TermV::Return(v.deep_view()),
            Terminator::Unreachable => TermV::Unreachable,
        }
    }
}

/// Models of a list of instructions.
pub open spec fn instr_models(is: Seq<Instr>) -> Seq<InstrV> {
    is.map_values(|i: Instr| i.model())
}

impl BasicBlock {
    pub open spec fn model(&self) -> BlockV {
        BlockV { label: self.label@, instrs: instr_models(self.instrs@), term: self.term.model() }
    }
}

/// Models of a list of blocks.
pub open spec fn block_models(bs: Seq<BasicBlock>) -> Seq<BlockV> {
    bs.map_values(|b: BasicBlock| b.model())
}

/// A parameter with its name as a character sequence.
pub struct ParamV {
    pub name: Seq<char>,
    pub ty: IrTyV,
    pub mode: IrMode,
}

/// A function with names as character sequences.
pub struct FuncV {
    pub name: Seq<char>,
    pub params: Seq<ParamV>,
    pub ret: IrTyV,
    pub blocks: Seq<BlockV>,
}

impl IrParam {
    pub open spec fn model(&self) -> ParamV {
        ParamV { name: self.name@, ty: self.ty.model(), mode: self.mode }
    }
}

impl IrFunc {
    pub open spec fn model(&self) -> FuncV {
        FuncV {
            name: self.name@,
            params: self.params@.map_values(|p: IrParam| p.model()),
            ret: self.ret.model(),
            blocks: block_models(self.blocks@),
        }
    }
}

/// Models of a list of functions.
pub open spec fn func_models(fs: Seq<IrFunc>) -> Seq<FuncV> {
    fs.map_values(|f: IrFunc| f.model())
}

impl StructLayout {
    /// The type's name and its field names in order.
    pub open spec fn model(&self) -> (Seq<char>, Seq<Seq<char>>) {
        (self.name@, names(self.fields@))
    }
}

impl EnumLayout {
    /// The type's name and its variant names in order.
    pub open spec fn model(&self) -> (Seq<char>, Seq<Seq<char>>) {
        (self.name@, names(self.variants@))
    }
}

} // verus!

//! Resolved types, bindings and the lexical scope stack of semantic analysis.
use vstd::prelude::*;
use crate::token::Span;
use crate::ast::OwnershipMode;
use crate::names::NameMap;
use crate::names::NameSet;
use crate::text::{dec_nat, push_str, push_usize};
use vstd::string::StringExecFns;

verus! {

/// Resolved type — a simplified representation used during sema.
#[derive(Debug, PartialEq)]
pub enum ResolvedTy {
    I8,
    I16,
    I32,
    I64,
    U8,
    U16,
    U32,
    U64,
    F32,
    F64,
    Bool,
    Usize,
    Str,
    Void,
    Slice(Box<ResolvedTy>),
    Ptr(Box<ResolvedTy>),
    PtrMut(Box<ResolvedTy>),
    Result(Box<ResolvedTy>, Box<ResolvedTy>),
    Option(Box<ResolvedTy>),
    Allocator,
    /// Fixed-size stack array: `[4]i32`
    Array { size: usize, elem: Box<ResolvedTy> },
    /// User-defined named type.
    Named(String),
    /// Function pointer: `fn(T, U) -> R`
    FnPtr { params: Vec<ResolvedTy>, ret: Box<ResolvedTy> },
    /// Not yet resolved — used as a placeholder before inference.
    Unknown,
}

/// Mathematical model of a resolved type.
pub enum RTy {
    I8,
    I16,
    I32,
    I64,
    U8,
    U16,
    U32,
    U64,
    F32,
    F64,
    Bool,
    Usize,
    Str,
    Void,
    Slice(Box<RTy>),
    Ptr(Box<RTy>),
    PtrMut(Box<RTy>),
    Result(Box<RTy>, Box<RTy>),
    Option(Box<RTy>),
    Allocator,
    Array { size: usize, elem: Box<RTy> },
    Named(Seq<char>),
    FnPtr { params: Seq<RTy>, ret: Box<RTy> },
    Unknown,
}

impl ResolvedTy {
    pub open spec fn model(&self) -> RTy
        decreases self,
    {
        match self {
            ResolvedTy::I8 => RTy::I8,
            ResolvedTy::I16 => RTy::I16,
            ResolvedTy::I32 => RTy::I32,
            ResolvedTy::I64 => RTy::I64,
            ResolvedTy::U8 => RTy::U8,
            ResolvedTy::U16 => RTy::U16,
            ResolvedTy::U32 => RTy::U32,
            ResolvedTy::U64 => RTy::U64,
            ResolvedTy::F32 => RTy::F32,
            ResolvedTy::F64 => RTy::F64,
            ResolvedTy::Bool => RTy::Bool,
            ResolvedTy::Usize => RTy::Usize,
            ResolvedTy::Str => RTy::Str,
            ResolvedTy::Void => RTy::Void,
            ResolvedTy::Slice(t) => RTy::Slice(Box::new(t.model())),
            ResolvedTy::Ptr(t) => RTy::Ptr(Box::new(t.model())),
            ResolvedTy::PtrMut(t) => RTy::PtrMut(Box::new(t.model())),
            ResolvedTy::Result(a, b) => RTy::Result(Box::new(a.model()), Box::new(b.model())),
            ResolvedTy::Option(t) => RTy::Option(Box::new(t.model())),
            ResolvedTy::Allocator => RTy::Allocator,
            ResolvedTy::Array { size, elem } => RTy::Array { size: *size, elem: Box::new(elem.model()) },
            ResolvedTy::Named(n) => RTy::Named(n@),
            ResolvedTy::FnPtr { params, ret } => RTy::FnPtr {
                params: models(params@),
                ret: Box::new(ret.model()),
            },
            ResolvedTy::Unknown => RTy::Unknown,
        }
    }
}

/// Models of a list of resolved types.
pub open spec fn models(ts: Seq<ResolvedTy>) -> Seq<RTy>
    decreases ts,
{
    if ts.len() == 0 {
        Seq::empty()
    } else {
        models(ts.drop_last()).push(ts.last().model())
    }
}

pub proof fn lemma_models(ts: Seq<ResolvedTy>)
    ensures
        models(ts).len() == ts.len(),
        forall|i: int| 0 <= i < ts.len() ==> #[trigger] models(ts)[i] == ts[i].model(),
    decreases ts.len(),
{
    if ts.len() > 0 {
        lemma_models(ts.drop_last());
    }
}

/// How a type is written in messages.
pub open spec fn disp(t: RTy) -> Seq<char>
    decreases t,
{
    match t {
        RTy::I8 => "i8"@,
        RTy::I16 => "i16"@,
        RTy::I32 => "i32"@,
        RTy::I64 => "i64"@,
        RTy::U8 => "u8"@,
        RTy::U16 => "u16"@,
        RTy::U32 => "u32"@,
        RTy::U64 => "u64"@,
        RTy::F32 => "f32"@,
        RTy::F64 => "f64"@,
        RTy::Bool => "bool"@,
        RTy::Usize => "usize"@,
        RTy::Str => "str"@,
        RTy::Void => "void"@,
        RTy::Allocator => "Allocator"@,
        RTy::Array { size, elem } => "["@ + dec_nat(size as nat) + "]"@ + disp(*elem),
        RTy::Named(n) => n,
        RTy::Slice(t) => "[]"@ + disp(*t),
        RTy::Ptr(t) => "*"@ + disp(*t),
        RTy::PtrMut(t) => "*mut "@ + disp(*t),
        RTy::Result(ok, err) => "Result("@ + disp(*ok) + ", "@ + disp(*err) + ")"@,
        RTy::Option(t) => "Option("@ + disp(*t) + ")"@,
        RTy::FnPtr { params, ret } => "fn("@ + disp_list(params) + ") -> "@ + disp(*ret),
        RTy::Unknown => "<unknown>"@,
    }
}

/// The types of `ts`, written one after another with `, ` between them.
pub open spec fn disp_list(ts: Seq<RTy>) -> Seq<char>
    decreases ts,
{
    if ts.len() == 0 {
        Seq::empty()
    } else if ts.len() == 1 {
        disp(ts[0])
    } else {
        disp_list(ts.drop_last()) + ", "@ + disp(ts.last())
    }
}

impl ResolvedTy {
    pub fn is_result(&self) -> (b: bool)
        ensures
            b == (self.model() is Result),
    {
        matches!(self, ResolvedTy::Result(_, _))
    }

    /// How the type is written in messages.
    pub fn display(&self) -> (s: String)
        ensures
            s@ == disp(self.model()),
        decreases self,
    {
        let mut s = String::new();
        self.write_to(&mut s);
        s
    }

    fn write_to(&self, s: &mut String)
        ensures
            final(s)@ == old(s)@ + disp(self.model()),
        decreases self,
    {
        let ghost s0 = s@;
        match self {
            ResolvedTy::I8 => push_str(s, "i8"),
            ResolvedTy::I16 => push_str(s, "i16"),
            ResolvedTy::I32 => push_str(s, "i32"),
            ResolvedTy::I64 => push_str(s, "i64"),
            ResolvedTy::U8 => push_str(s, "u8"),
            ResolvedTy::U16 => push_str(s, "u16"),
            ResolvedTy::U32 => push_str(s, "u32"),
            ResolvedTy::U64 => push_str(s, "u64"),
            ResolvedTy::F32 => push_str(s, "f32"),
            ResolvedTy::F64 => push_str(s, "f64"),
            ResolvedTy::Bool => push_str(s, "bool"),
            ResolvedTy::Usize => push_str(s, "usize"),
            ResolvedTy::Str => push_str(s, "str"),
            ResolvedTy::Void => push_str(s, "void"),
            ResolvedTy::Allocator => push_str(s, "Allocator"),
            ResolvedTy::Array { size, elem } => {
                push_str(s, "[");
                push_usize(s, *size);
                push_str(s, "]");
                elem.write_to(s);
                assert(s@ =~= s0 + disp(self.model()));
            },
            ResolvedTy::Named(n) => push_str(s, n.as_str()),
            ResolvedTy::Slice(t) => {
                push_str(s, "[]");
                t.write_to(s);
                assert(s@ =~= s0 + disp(self.model()));
            },
            ResolvedTy::Ptr(t) => {
                push_str(s, "*");
                t.write_to(s);
                assert(s@ =~= s0 + disp(self.model()));
            },
            ResolvedTy::PtrMut(t) => {
                push_str(s, "*mut ");
                t.write_to(s);
                assert(s@ =~= s0 + disp(self.model()));
            },
            ResolvedTy::Result(ok, err) => {
                push_str(s, "Result(");
                ok.write_to(s);
                push_str(s, ", ");
                err.write_to(s);
                push_str(s, ")");
                assert(s@ =~= s0 + disp(self.model()));
            },
            ResolvedTy::Option(t) => {
                push_str(s, "Option(");
                t.write_to(s);
                push_str(s, ")");
                assert(s@ =~= s0 + disp(self.model()));
            },
            ResolvedTy::FnPtr { params, ret } => {
                push_str(s, "fn(");
                let ghost s1 = s@;
                let mut i: usize = 0;
                proof {
                    lemma_models(params@);
                    assert(params@.take(0) =~= Seq::<ResolvedTy>::empty());
                }
                while i < params.len()
                    invariant
                        i <= params.len(),
                        self is FnPtr,
                        self->params == *params,
                        s@ == s1 + disp_list(models(params@.take(i as int))),
                    decreases params.len() - i,
                {
                    proof {
                        assert(params@.take(i + 1).drop_last() =~= params@.take(i as int));
                        lemma_models(params@.take(i + 1));
                    }
                    if i > 0 {
                        push_str(s, ", ");
                    }
                    proof {
                        let ghost ps: Vec<ResolvedTy> = self->params;
                        assert(decreases_to!(*self => self->params));
                        assert(decreases_to!(ps => ps@));
                        assert(decreases_to!(ps@ => ps@[i as int]));
                        assert(decreases_to!(*self => ps@[i as int]));
                    }
                    params[i].write_to(s);
                    i += 1;
                    proof {
                        let ms = models(params@.take(i as int));
                        if i > 1 {
                            assert(ms.drop_last() == models(params@.take(i - 1)));
                        } else {
                            assert(ms.len() == 1);
                        }
                        assert(s@ =~= s1 + disp_list(ms));
                    }
                }
                assert(params@.take(params.len() as int) =~= params@);
                push_str(s, ") -> ");
                ret.write_to(s);
                assert(s@ =~= s0 + disp(self.model()));
            },
            ResolvedTy::Unknown => push_str(s, "<unknown>"),
        }
    }

    /// A copy of this type.
    pub fn copy(&self) -> (r: Self)
        ensures
            r.model() == self.model(),
        decreases self,
    {
        match self {
            ResolvedTy::I8 => ResolvedTy::I8,
            ResolvedTy::I16 => ResolvedTy::I16,
            ResolvedTy::I32 => ResolvedTy::I32,
            ResolvedTy::I64 => ResolvedTy::I64,
            ResolvedTy::U8 => ResolvedTy::U8,
            ResolvedTy::U16 => ResolvedTy::U16,
            ResolvedTy::U32 => ResolvedTy::U32,
            ResolvedTy::U64 => ResolvedTy::U64,
            ResolvedTy::F32 => ResolvedTy::F32,
            ResolvedTy::F64 => ResolvedTy::F64,
            ResolvedTy::Bool => ResolvedTy::Bool,
            ResolvedTy::Usize => ResolvedTy::Usize,
            ResolvedTy::Str => ResolvedTy::Str,
            ResolvedTy::Void => ResolvedTy::Void,
            ResolvedTy::Slice(t) => ResolvedTy::Slice(Box::new(t.copy())),
            ResolvedTy::Ptr(t) => ResolvedTy::Ptr(Box::new(t.copy())),
            ResolvedTy::PtrMut(t) => ResolvedTy::PtrMut(Box::new(t.copy())),
            ResolvedTy::Result(a, b) => ResolvedTy::Result(Box::new(a.copy()), Box::new(b.copy())),
            ResolvedTy::Option(t) => ResolvedTy::Option(Box::new(t.copy())),
            ResolvedTy::Allocator => ResolvedTy::Allocator,
            ResolvedTy::Array { size, elem } => ResolvedTy::Array { size: *size, elem: Box::new(elem.copy()) },
            ResolvedTy::Named(n) => ResolvedTy::Named(n.clone()),
            ResolvedTy::FnPtr { params, ret } => {
                let mut ps: Vec<ResolvedTy> = Vec::new();
                let mut i: usize = 0;
                while i < params.len()
                    invariant
                        i <= params.len(),
                        self is FnPtr,
                        self->params == *params,
                        models(ps@) == models(params@.take(i as int)),
                    decreases params.len() - i,
                {
                    let ghost ps0 = ps@;
                    proof {
                        let ghost ps: Vec<ResolvedTy> = self->params;
                        assert(decreases_to!(*self => self->params));
                        assert(decreases_to!(ps => ps@));
                        assert(decreases_to!(ps@ => ps@[i as int]));
                        assert(decreases_to!(*self => ps@[i as int]));
                    }
                    ps.push(params[i].copy());
                    assert(ps@.drop_last() =~= ps0);
                    assert(params@.take(i + 1).drop_last() =~= params@.take(i as int));
                    i += 1;
                }
                assert(params@.take(params.len() as int) =~= params@);
                ResolvedTy::FnPtr { params: ps, ret: Box::new(ret.copy()) }
            },
            ResolvedTy::Unknown => ResolvedTy::Unknown,
        }
    }
}

impl Clone for ResolvedTy {
    fn clone(&self) -> (r: Self)
        ensures
            r.model() == self.model(),
    {
        self.copy()
    }
}

/// A binding in the current scope.
#[derive(Debug, Clone)]
pub struct Binding {
    pub ty: ResolvedTy,
    pub mode: OwnershipMode,
    /// Whether the binding is mutable (declared with `设`).
    pub mutable: bool,
    /// Whether the value has been moved out.
    pub moved: bool,
    pub span: Span,
}

/// Model of a binding.
pub struct BindV {
    pub ty: RTy,
    pub mode: OwnershipMode,
    pub mutable: bool,
    pub moved: bool,
    pub span: Span,
}

impl View for Binding {
    type V = BindV;

    open spec fn view(&self) -> BindV {
        BindV {
            ty: self.ty.model(),
            mode: self.mode,
            mutable: self.mutable,
            moved: self.moved,
            span: self.span,
        }
    }
}

impl FnSig {
    pub fn copy(&self) -> (r: Self)
        ensures
            r@ == self@,
    {
        let mut ps: Vec<(String, OwnershipMode, ResolvedTy)> = Vec::new();
        let mut i: usize = 0;
        while i < self.params.len()
            invariant
                i <= self.params.len(),
                ps.len() == i,
                param_models(ps@) == param_models(self.params@.take(i as int)),
            decreases self.params.len() - i,
        {
            let p = &self.params[i];
            let ghost before = ps@;
            let name = p.0.clone();
            let ty = p.2.copy();
            ps.push((name, p.1, ty));
            assert forall|j: int| 0 <= j < i + 1 implies #[trigger] param_models(ps@)[j]
                == param_models(self.params@.take(i + 1))[j] by {
                if j < i {
                    assert(param_models(before)[j] == param_models(self.params@.take(i as int))[j]);
                }
            }
            assert(param_models(ps@) =~= param_models(self.params@.take(i + 1)));
            i += 1;
        }
        assert(self.params@.take(self.params.len() as int) =~= self.params@);
        FnSig { params: ps, ret: self.ret.copy() }
    }
}

impl FieldTys {
    pub fn copy(&self) -> (r: Self)
        ensures
            r@ == self@,
    {
        let mut fs: Vec<(String, ResolvedTy)> = Vec::new();
        let mut i: usize = 0;
        while i < self.0.len()
            invariant
                i <= self.0.len(),
                fs.len() == i,
                field_models(fs@) == field_models(self.0@.take(i as int)),
            decreases self.0.len() - i,
        {
            let f = &self.0[i];
            let ghost before = fs@;
            let name = f.0.clone();
            let ty = f.1.copy();
            fs.push((name, ty));
            assert forall|j: int| 0 <= j < i + 1 implies #[trigger] field_models(fs@)[j]
                == field_models(self.0@.take(i + 1))[j] by {
                if j < i {
                    assert(field_models(before)[j] == field_models(self.0@.take(i as int))[j]);
                }
            }
            assert(field_models(fs@) =~= field_models(self.0@.take(i + 1)));
            i += 1;
        }
        assert(self.0@.take(self.0.len() as int) =~= self.0@);
        FieldTys(fs)
    }
}

impl Binding {
    pub fn copy(&self) -> (r: Self)
        ensures
            r@ == self@,
    {
        Binding {
            ty: self.ty.copy(),
            mode: self.mode,
            mutable: self.mutable,
            moved: self.moved,
            span: self.span,
        }
    }
}

/// A function signature stored in the function table.
#[derive(Debug, Clone)]
pub struct FnSig {
    pub params: Vec<(String, OwnershipMode, ResolvedTy)>,
    pub ret: ResolvedTy,
}

/// Model of a signature.
pub struct SigV {
    pub params: Seq<(Seq<char>, OwnershipMode, RTy)>,
    pub ret: RTy,
}

impl View for FnSig {
    type V = SigV;

    open spec fn view(&self) -> SigV {
        SigV { params: param_models(self.params@), ret: self.ret.model() }
    }
}

pub open spec fn param_models(ps: Seq<(String, OwnershipMode, ResolvedTy)>) -> Seq<
    (Seq<char>, OwnershipMode, RTy),
> {
    Seq::new(ps.len(), |i: int| (ps[i].0@, ps[i].1, ps[i].2.model()))
}

/// The field list of a user-defined type: field name and type, in order.
#[derive(Debug)]
pub struct FieldTys(pub Vec<(String, ResolvedTy)>);

impl View for FieldTys {
    type V = Seq<(Seq<char>, RTy)>;

    open spec fn view(&self) -> Seq<(Seq<char>, RTy)> {
        field_models(self.0@)
    }
}

pub open spec fn field_models(fs: Seq<(String, ResolvedTy)>) -> Seq<(Seq<char>, RTy)> {
    Seq::new(fs.len(), |i: int| (fs[i].0@, fs[i].1.model()))
}

/// Model of the scope stack.
pub struct ScopeV {
    pub frames: Seq<Map<Seq<char>, BindV>>,
    pub fns: Map<Seq<char>, SigV>,
    pub types: Map<Seq<char>, Seq<(Seq<char>, RTy)>>,
    pub enums: Set<Seq<char>>,
}

/// The binding that `k` names: the innermost frame that binds it decides.
pub open spec fn lookup_in(frames: Seq<Map<Seq<char>, BindV>>, k: Seq<char>) -> Option<BindV>
    decreases frames.len(),
{
    if frames.len() == 0 {
        None
    } else if frames.last().contains_key(k) {
        Some(frames.last()[k])
    } else {
        lookup_in(frames.drop_last(), k)
    }
}

/// Index of the innermost frame that binds `k`.
pub open spec fn decider(frames: Seq<Map<Seq<char>, BindV>>, k: Seq<char>) -> Option<int>
    decreases frames.len(),
{
    if frames.len() == 0 {
        None
    } else if frames.last().contains_key(k) {
        Some(frames.len() - 1)
    } else {
        decider(frames.drop_last(), k)
    }
}

/// `frames` with the binding that `k` names marked as moved.
pub open spec fn with_moved(frames: Seq<Map<Seq<char>, BindV>>, k: Seq<char>) -> Seq<Map<Seq<char>, BindV>> {
    match decider(frames, k) {
        Some(f) => frames.update(f, frames[f].insert(k, BindV { moved: true, ..frames[f][k] })),
        None => frames,
    }
}

pub proof fn lemma_decider(frames: Seq<Map<Seq<char>, BindV>>, k: Seq<char>)
    ensures
        match decider(frames, k) {
            Some(f) => 0 <= f < frames.len() && frames[f].contains_key(k) && lookup_in(frames, k)
                == Some(frames[f][k]) && forall|g: int|
                f < g < frames.len() ==> !(#[trigger] frames[g]).contains_key(k),
            None => lookup_in(frames, k) is None,
        },
    decreases frames.len(),
{
    if frames.len() > 0 && !frames.last().contains_key(k) {
        let d = frames.drop_last();
        lemma_decider(d, k);
        if let Some(f) = decider(d, k) {
            assert(frames[f] == d[f]);
            assert forall|g: int| f < g < frames.len() implies !(#[trigger] frames[g]).contains_key(k) by {
                if g < frames.len() - 1 {
                    assert(frames[g] == d[g]);
                }
            }
        }
    }
}

/// The scope with a new, empty innermost frame.
pub open spec fn push_v(sc: ScopeV) -> ScopeV {
    ScopeV { frames: sc.frames.push(Map::empty()), ..sc }
}

/// The scope without its innermost frame (unchanged when it has none).
pub open spec fn pop_v(sc: ScopeV) -> ScopeV {
    ScopeV {
        frames: if sc.frames.len() > 0 {
            sc.frames.drop_last()
        } else {
            sc.frames
        },
        ..sc
    }
}

/// The scope with `k` bound to `b` in its innermost frame.
pub open spec fn define_v(sc: ScopeV, k: Seq<char>, b: BindV) -> ScopeV {
    ScopeV {
        frames: if sc.frames.len() > 0 {
            sc.frames.update(sc.frames.len() - 1, sc.frames.last().insert(k, b))
        } else {
            sc.frames
        },
        ..sc
    }
}

/// The scope after the definitions `ds`, in order.
pub open spec fn defines_v(sc: ScopeV, ds: Seq<(Seq<char>, BindV)>) -> ScopeV
    decreases ds.len(),
{
    if ds.len() == 0 {
        sc
    } else {
        define_v(defines_v(sc, ds.drop_last()), ds.last().0, ds.last().1)
    }
}

/// Lexical scope stack.
pub struct Scope {
    /// Stack of binding maps; innermost last.
    pub frames: Vec<NameMap<Binding>>,
    /// Global function signatures.
    pub fns: NameMap<FnSig>,
    /// User-defined type field maps.
    pub types: NameMap<FieldTys>,
    /// Names of enum types (used to recognize `EnumName.Variant` expressions).
    pub enums: NameSet,
}

impl View for Scope {
    type V = ScopeV;

    open spec fn view(&self) -> ScopeV {
        ScopeV {
            frames: Seq::new(self.frames.len() as nat, |i: int| self.frames@[i]@),
            fns: self.fns@,
            types: self.types@,
            enums: self.enums@,
        }
    }
}

impl Scope {
    pub fn new() -> (s: Self)
        ensures
            s@.frames == seq![Map::<Seq<char>, BindV>::empty()],
            s@.fns == Map::<Seq<char>, SigV>::empty(),
            s@.types == Map::<Seq<char>, Seq<(Seq<char>, RTy)>>::empty(),
            s@.enums == Set::<Seq<char>>::empty(),
    {
        let mut frames = Vec::new();
        frames.push(NameMap::new());
        let s = Scope { frames, fns: NameMap::new(), types: NameMap::new(), enums: NameSet::new() };
        assert(s@.frames =~= seq![Map::<Seq<char>, BindV>::empty()]);
        s
    }

    /// Opens a new innermost frame.
    pub fn push(&mut self)
        ensures
            final(self)@.frames == old(self)@.frames.push(Map::empty()),
            final(self)@.fns == old(self)@.fns,
            final(self)@.types == old(self)@.types,
            final(self)@.enums == old(self)@.enums,
            final(self)@ == push_v(old(self)@),
    {
        self.frames.push(NameMap::new());
        assert(self@.frames =~= old(self)@.frames.push(Map::empty()));
    }

    /// Closes the innermost frame, if any.
    pub fn pop(&mut self)
        ensures
            final(self)@.frames == (if old(self)@.frames.len() > 0 {
                old(self)@.frames.drop_last()
            } else {
                old(self)@.frames
            }),
            final(self)@.fns == old(self)@.fns,
            final(self)@.types == old(self)@.types,
            final(self)@.enums == old(self)@.enums,
            final(self)@ == pop_v(old(self)@),
    {
        self.frames.pop();
        assert(self@.frames =~= (if old(self)@.frames.len() > 0 {
            old(self)@.frames.drop_last()
        } else {
            old(self)@.frames
        }));
    }

    /// Binds `name` in the innermost frame.
    pub fn define(&mut self, name: String, binding: Binding)
        requires
            old(self)@.frames.len() > 0,
        ensures
            final(self)@.frames == old(self)@.frames.update(
                old(self)@.frames.len() - 1,
                old(self)@.frames.last().insert(name@, binding@),
            ),
            final(self)@.fns == old(self)@.fns,
            final(self)@.types == old(self)@.types,
            final(self)@.enums == old(self)@.enums,
            final(self)@ == define_v(old(self)@, name@, binding@),
    {
        let last = self.frames.len() - 1;
        let mut frame = self.frames.pop().unwrap();
        frame.insert(name, binding);
        self.frames.push(frame);
        assert(self@.frames =~= old(self)@.frames.update(
            old(self)@.frames.len() - 1,
            old(self)@.frames.last().insert(name@, binding@),
        ));
        let _ = last;
    }

    /// Index of the innermost frame that binds `name`.
    fn frame_of(&self, name: &str) -> (r: Option<usize>)
        ensures
            r is Some ==> decider(self@.frames, name@) == Some(r->0 as int),
            r is None ==> decider(self@.frames, name@) is None,
            match r {
                Some(f) => f < self@.frames.len() && self@.frames[f as int].contains_key(name@)
                    && lookup_in(self@.frames, name@) == Some(self@.frames[f as int][name@])
                    && forall|g: int| f < g < self@.frames.len() ==> !(#[trigger] self@.frames[g]).contains_key(name@),
                None => lookup_in(self@.frames, name@) is None,
            },
    {
        let mut i = self.frames.len();
        proof {
            assert(self@.frames.take(i as int) =~= self@.frames);
        }
        while i > 0
            invariant
                i <= self.frames.len(),
                lookup_in(self@.frames, name@) == lookup_in(self@.frames.take(i as int), name@),
                decider(self@.frames, name@) == decider(self@.frames.take(i as int), name@),
                forall|g: int| i <= g < self@.frames.len() ==> !(#[trigger] self@.frames[g]).contains_key(name@),
            decreases i,
        {
            let ghost fr = self@.frames.take(i as int);
            assert(fr.last() == self@.frames[i - 1]);
            if self.frames[i - 1].contains_key(name) {
                proof {
                    lemma_decider(self@.frames, name@);
                }
                return Some(i - 1);
            }
            assert(fr.drop_last() =~= self@.frames.take(i - 1));
            i -= 1;
        }
        None
    }

    /// The binding that `name` refers to.
    pub fn lookup(&self, name: &str) -> (r: Option<&Binding>)
        ensures
            match r {
                Some(b) => lookup_in(self@.frames, name@) == Some(b@),
                None => lookup_in(self@.frames, name@) is None,
            },
    {
        match self.frame_of(name) {
            Some(f) => self.frames[f].get(name),
            None => None,
        }
    }

    /// The binding that `name` names, to be changed in place.
    pub fn lookup_mut(&mut self, name: &str) -> (r: Option<&mut Binding>)
        ensures
            final(self)@.fns == old(self)@.fns,
            final(self)@.types == old(self)@.types,
            final(self)@.enums == old(self)@.enums,
            match r {
                Some(b) => decider(old(self)@.frames, name@) is Some && lookup_in(old(self)@.frames, name@)
                    == Some(b@) && final(self)@.frames == old(self)@.frames.update(
                    decider(old(self)@.frames, name@)->0,
                    old(self)@.frames[decider(old(self)@.frames, name@)->0].insert(name@, final(b)@),
                ),
                None => lookup_in(old(self)@.frames, name@) is None && final(self)@.frames == old(
                    self,
                )@.frames,
            },
    {
        match self.frame_of(name) {
            Some(f) => self.frames[f].get_mut(name),
            None => None,
        }
    }

    /// Mark a binding as moved — further uses are a compile error.
    pub fn mark_moved(&mut self, name: &str)
        ensures
            final(self)@.frames == with_moved(old(self)@.frames, name@),
            final(self)@.fns == old(self)@.fns,
            final(self)@.types == old(self)@.types,
            final(self)@.enums == old(self)@.enums,
            final(self)@.frames.len() == old(self)@.frames.len(),
            forall|k: Seq<char>| #![trigger lookup_in(final(self)@.frames, k)]
                lookup_in(final(self)@.frames, k) == if k == name@ {
                    match lookup_in(old(self)@.frames, k) {
                        Some(b) => Some(BindV { moved: true, ..b }),
                        None => None,
                    }
                } else {
                    lookup_in(old(self)@.frames, k)
                },
    {
        let ghost old_frames = self@.frames;
        proof {
            lemma_decider(old_frames, name@);
        }
        match self.lookup_mut(name) {
            Some(b) => {
                b.moved = true;
            },
            None => {},
        }
        proof {
            match decider(old_frames, name@) {
                Some(f) => {
                    let nb = BindV { moved: true, ..old_frames[f][name@] };
                    assert(self@.frames =~= old_frames.update(f, old_frames[f].insert(name@, nb)));
                    lemma_lookup_update(old_frames, f, name@, nb);
                },
                None => {},
            }
        }
    }
}

/// Rebinding `k` in the frame that decides it changes what `k` names and nothing else.
pub proof fn lemma_lookup_update(frames: Seq<Map<Seq<char>, BindV>>, f: int, k: Seq<char>, b: BindV)
    requires
        0 <= f < frames.len(),
        frames[f].contains_key(k),
        lookup_in(frames, k) == Some(frames[f][k]),
        forall|g: int| f < g < frames.len() ==> !(#[trigger] frames[g]).contains_key(k),
    ensures
        forall|x: Seq<char>| #![trigger lookup_in(frames.update(f, frames[f].insert(k, b)), x)]
            lookup_in(frames.update(f, frames[f].insert(k, b)), x) == if x == k {
                Some(b)
            } else {
                lookup_in(frames, x)
            },
    decreases frames.len(),
{
    let nf = frames.update(f, frames[f].insert(k, b));
    assert forall|x: Seq<char>| #![trigger lookup_in(nf, x)] lookup_in(nf, x) == if x == k {
        Some(b)
    } else {
        lookup_in(frames, x)
    } by {
        lemma_lookup_update_at(frames, f, k, b, x);
    }
}

proof fn lemma_lookup_update_at(frames: Seq<Map<Seq<char>, BindV>>, f: int, k: Seq<char>, b: BindV, x: Seq<char>)
    requires
        0 <= f < frames.len(),
        forall|g: int| f < g < frames.len() ==> !(#[trigger] frames[g]).contains_key(k),
    ensures
        lookup_in(frames.update(f, frames[f].insert(k, b)), x) == if x == k {
            Some(b)
        } else {
            lookup_in(frames, x)
        },
    decreases frames.len(),
{
    let nf = frames.update(f, frames[f].insert(k, b));
    if f == frames.len() - 1 {
        assert(nf.drop_last() =~= frames.drop_last());
    } else {
        assert(nf.drop_last() =~= frames.drop_last().update(f, frames[f].insert(k, b)));
        assert(nf.last() == frames.last());
        lemma_lookup_update_at(frames.drop_last(), f, k, b, x);
    }
}

impl Default for Scope {
    fn default() -> (s: Self)
        ensures
            s@.frames == seq![Map::<Seq<char>, BindV>::empty()],
            s@.fns == Map::<Seq<char>, SigV>::empty(),
            s@.types == Map::<Seq<char>, Seq<(Seq<char>, RTy)>>::empty(),
            s@.enums == Set::<Seq<char>>::empty(),
    {
        Self::new()
    }
}

} // verus!

use vstd::prelude::*;

use crate::error::Error;
use crate::text::{chars_eq, clone_chars, push_str, push_u8_decimal, spec_u8_decimal};

verus! {

/// A type of a Tanuki value.
#[derive(Debug)]
pub enum TanukiType {
    CompileTimeInt,
    CompileTimeFloat,
    CompileTimeChar,
    CompileTimeString,
    Type,
    Any,
    Void,
    U(u8),
    I(u8),
    F(u8),
    Bool,
    Pointer(Box<TanukiType>),
    FunctionPointer(FunctionPointerType),
    FunctionPointerEnum(Vec<FunctionPointerType>),
    /// Named members are kept ordered by name with no name twice.
    Struct { ordered_members: Vec<TanukiType>, named_members: Vec<(Vec<char>, TanukiType)> },
    TypeEnum(Vec<TanukiType>),
}

/// The type of a pointer to a function.
#[derive(Debug)]
pub struct FunctionPointerType {
    pub return_type: Box<TanukiType>,
    pub parameter_types: Vec<TanukiType>,
}

/// The mathematical value of a `TanukiType`: the same tree with sequences in place of vectors.
pub enum TypeModel {
    CompileTimeInt,
    CompileTimeFloat,
    CompileTimeChar,
    CompileTimeString,
    Type,
    Any,
    Void,
    U(u8),
    I(u8),
    F(u8),
    Bool,
    Pointer(Box<TypeModel>),
    FunctionPointer(FunctionPointerModel),
    FunctionPointerEnum(Seq<FunctionPointerModel>),
    Struct { ordered_members: Seq<TypeModel>, named_members: Seq<(Seq<char>, TypeModel)> },
    TypeEnum(Seq<TypeModel>),
}

pub struct FunctionPointerModel {
    pub return_type: Box<TypeModel>,
    pub parameter_types: Seq<TypeModel>,
}

impl TanukiType {
    pub open spec fn model(&self) -> TypeModel
        decreases self,
    {
        match self {
            TanukiType::CompileTimeInt => TypeModel::CompileTimeInt,
            TanukiType::CompileTimeFloat => TypeModel::CompileTimeFloat,
            TanukiType::CompileTimeChar => TypeModel::CompileTimeChar,
            TanukiType::CompileTimeString => TypeModel::CompileTimeString,
            TanukiType::Type => TypeModel::Type,
            TanukiType::Any => TypeModel::Any,
            TanukiType::Void => TypeModel::Void,
            TanukiType::U(w) => TypeModel::U(*w),
            TanukiType::I(w) => TypeModel::I(*w),
            TanukiType::F(w) => TypeModel::F(*w),
            TanukiType::Bool => TypeModel::Bool,
            TanukiType::Pointer(p) => TypeModel::Pointer(Box::new(p.model())),
            TanukiType::FunctionPointer(f) => TypeModel::FunctionPointer(
                FunctionPointerModel { return_type: Box::new(f.return_type.model()), parameter_types: types_model(f.parameter_types@) },
            ),
            TanukiType::FunctionPointerEnum(fs) => TypeModel::FunctionPointerEnum(function_pointers_model(fs@)),
            TanukiType::Struct { ordered_members, named_members } => TypeModel::Struct {
                ordered_members: types_model(ordered_members@),
                named_members: named_types_model(named_members@),
            },
            TanukiType::TypeEnum(ts) => TypeModel::TypeEnum(types_model(ts@)),
        }
    }
}

impl FunctionPointerType {
    pub open spec fn model(&self) -> FunctionPointerModel {
        FunctionPointerModel { return_type: Box::new(self.return_type.model()), parameter_types: types_model(self.parameter_types@) }
    }
}

/// The models of a sequence of types.
pub open spec fn types_model(ts: Seq<TanukiType>) -> Seq<TypeModel>
    decreases ts,
{
    Seq::new(ts.len(), |i: int| if 0 <= i < ts.len() { ts[i].model() } else { TypeModel::Void })
}

pub proof fn lemma_types_model(ts: Seq<TanukiType>)
    ensures
        types_model(ts).len() == ts.len(),
        forall|j: int| 0 <= j < ts.len() ==> #[trigger] types_model(ts)[j] == ts[j].model(),
{
}

/// The models of a sequence of function pointer types.
pub open spec fn function_pointers_model(fs: Seq<FunctionPointerType>) -> Seq<FunctionPointerModel>
    decreases fs,
{
    Seq::new(
        fs.len(),
        |i: int|
            if 0 <= i < fs.len() {
                FunctionPointerModel { return_type: Box::new(fs[i].return_type.model()), parameter_types: types_model(fs[i].parameter_types@) }
            } else {
                FunctionPointerModel { return_type: Box::new(TypeModel::Void), parameter_types: Seq::empty() }
            },
    )
}

pub proof fn lemma_function_pointers_model(fs: Seq<FunctionPointerType>)
    ensures
        function_pointers_model(fs).len() == fs.len(),
        forall|j: int| 0 <= j < fs.len() ==> #[trigger] function_pointers_model(fs)[j] == fs[j].model(),
{
}

/// The models of named member types.
pub open spec fn named_types_model(ns: Seq<(Vec<char>, TanukiType)>) -> Seq<(Seq<char>, TypeModel)>
    decreases ns,
{
    Seq::new(ns.len(), |i: int| if 0 <= i < ns.len() { (ns[i].0@, ns[i].1.model()) } else { (Seq::empty(), TypeModel::Void) })
}

impl TypeModel {
    /// The text printed for a type.
    pub open spec fn spec_print_name(self) -> Seq<char> {
        match self {
            TypeModel::CompileTimeInt => "Compile Time Integer"@,
            TypeModel::CompileTimeFloat => "Compile Time Float"@,
            TypeModel::CompileTimeChar => "Compile Time Char"@,
            TypeModel::CompileTimeString => "Compile Time String"@,
            TypeModel::Void => "Void"@,
            TypeModel::U(w) => seq!['U'] + spec_u8_decimal(w),
            TypeModel::I(w) => seq!['I'] + spec_u8_decimal(w),
            TypeModel::F(w) => seq!['F'] + spec_u8_decimal(w),
            TypeModel::Bool => "Bool"@,
            TypeModel::Any => "Any"@,
            TypeModel::Type => "Type"@,
            TypeModel::Pointer(_) => "Pointer"@,
            TypeModel::FunctionPointer(_) => "Function Pointer"@,
            TypeModel::FunctionPointerEnum(_) => "Function Pointer Enum"@,
            TypeModel::Struct { .. } => "Struct"@,
            TypeModel::TypeEnum(_) => "Type Enum"@,
        }
    }

    /// Whether this is an integer type: the compile time integer or a fixed width one.
    pub open spec fn is_integer(self) -> bool {
        self is CompileTimeInt || self is U || self is I
    }

    /// The type a value of type `self` has after a cast to `to`, or `None` when such a cast is not implemented.
    pub open spec fn spec_cast_to(self, to: TypeModel) -> Option<TypeModel> {
        if self is Struct && to is Type {
            Some(self)
        } else if to is Any {
            Some(self)
        } else if self.is_integer() && to.is_integer() {
            Some(to)
        } else if (self is CompileTimeFloat || self is F) && to.is_integer() {
            Some(to)
        } else if self is Any {
            Some(to)
        } else if self == to {
            Some(self)
        } else {
            None
        }
    }
}

/// The message of the error for a cast that is not implemented.
pub open spec fn cast_error_message(from: Seq<char>, to: Seq<char>) -> Seq<char> {
    "Casting value "@ + from + " to type "@ + to
}

impl TanukiType {
    /// A copy of the type.
    #[verifier::loop_isolation(false)]
    pub fn deep_clone(&self) -> (r: Self)
        ensures
            r.model() == self.model(),
        decreases self,
    {
        match self {
            TanukiType::CompileTimeInt => TanukiType::CompileTimeInt,
            TanukiType::CompileTimeFloat => TanukiType::CompileTimeFloat,
            TanukiType::CompileTimeChar => TanukiType::CompileTimeChar,
            TanukiType::CompileTimeString => TanukiType::CompileTimeString,
            TanukiType::Type => TanukiType::Type,
            TanukiType::Any => TanukiType::Any,
            TanukiType::Void => TanukiType::Void,
            TanukiType::U(w) => TanukiType::U(*w),
            TanukiType::I(w) => TanukiType::I(*w),
            TanukiType::F(w) => TanukiType::F(*w),
            TanukiType::Bool => TanukiType::Bool,
            TanukiType::Pointer(p) => {
                let q = p.deep_clone();
                TanukiType::Pointer(Box::new(q))
            },
            TanukiType::FunctionPointer(f) => {
                let rt = f.return_type.deep_clone();
                let ps = clone_types(&f.parameter_types);
                TanukiType::FunctionPointer(FunctionPointerType { return_type: Box::new(rt), parameter_types: ps })
            },
            TanukiType::FunctionPointerEnum(fs) => {
                let mut out: Vec<FunctionPointerType> = Vec::new();
                let mut i: usize = 0;
                while i < fs.len()
                    invariant
                        i <= fs@.len(),
                        out@.len() == i,
                        forall|j: int| 0 <= j < i ==> #[trigger] out@[j].return_type.model() == fs@[j].return_type.model()
                            && types_model(out@[j].parameter_types@) == types_model(fs@[j].parameter_types@),
                    decreases fs@.len() - i,
                {
                    proof {
                        vstd::std_specs::vec::axiom_vec_index_decreases(*fs, i as int);
                    }
                    let rt = fs[i].return_type.deep_clone();
                    let ps = clone_types(&fs[i].parameter_types);
                    out.push(FunctionPointerType { return_type: Box::new(rt), parameter_types: ps });
                    i = i + 1;
                }
                proof {
                    lemma_function_pointers_model(out@);
                    lemma_function_pointers_model(fs@);
                    assert(function_pointers_model(out@) =~= function_pointers_model(fs@));
                }
                TanukiType::FunctionPointerEnum(out)
            },
            TanukiType::Struct { ordered_members, named_members } => {
                let o = clone_types(ordered_members);
                let mut n: Vec<(Vec<char>, TanukiType)> = Vec::new();
                let mut i: usize = 0;
                while i < named_members.len()
                    invariant
                        i <= named_members@.len(),
                        n@.len() == i,
                        forall|j: int| 0 <= j < i ==> (#[trigger] n@[j]).0@ == named_members@[j].0@
                            && n@[j].1.model() == named_members@[j].1.model(),
                    decreases named_members@.len() - i,
                {
                    proof {
                        vstd::std_specs::vec::axiom_vec_index_decreases(*named_members, i as int);
                    }
                    let name = clone_chars(&named_members[i].0);
                    let t = named_members[i].1.deep_clone();
                    n.push((name, t));
                    i = i + 1;
                }
                proof {
                    assert(named_types_model(n@) =~= named_types_model(named_members@));
                }
                TanukiType::Struct { ordered_members: o, named_members: n }
            },
            TanukiType::TypeEnum(ts) => {
                let o = clone_types(ts);
                TanukiType::TypeEnum(o)
            },
        }
    }

    /// Whether two types are the same type.
    #[verifier::loop_isolation(false)]
    pub fn same_as(&self, other: &TanukiType) -> (r: bool)
        ensures
            r == (self.model() == other.model()),
        decreases self,
    {
        match (self, other) {
            (TanukiType::CompileTimeInt, TanukiType::CompileTimeInt) => true,
            (TanukiType::CompileTimeFloat, TanukiType::CompileTimeFloat) => true,
            (TanukiType::CompileTimeChar, TanukiType::CompileTimeChar) => true,
            (TanukiType::CompileTimeString, TanukiType::CompileTimeString) => true,
            (TanukiType::Type, TanukiType::Type) => true,
            (TanukiType::Any, TanukiType::Any) => true,
            (TanukiType::Void, TanukiType::Void) => true,
            (TanukiType::U(a), TanukiType::U(b)) => *a == *b,
            (TanukiType::I(a), TanukiType::I(b)) => *a == *b,
            (TanukiType::F(a), TanukiType::F(b)) => *a == *b,
            (TanukiType::Bool, TanukiType::Bool) => true,
            (TanukiType::Pointer(a), TanukiType::Pointer(b)) => {
                let r = a.same_as(b);
                proof {
                    if !r {
                        assert(self.model()->Pointer_0 != other.model()->Pointer_0);
                    }
                }
                r
            },
            (TanukiType::FunctionPointer(a), TanukiType::FunctionPointer(b)) => {
                let r1 = a.return_type.same_as(&b.return_type);
                if !r1 {
                    proof {
                        assert(self.model()->FunctionPointer_0.return_type != other.model()->FunctionPointer_0.return_type);
                    }
                    return false;
                }
                let r2 = same_types(&a.parameter_types, &b.parameter_types);
                proof {
                    if !r2 {
                        assert(self.model()->FunctionPointer_0.parameter_types != other.model()->FunctionPointer_0.parameter_types);
                    }
                }
                r2
            },
            (TanukiType::FunctionPointerEnum(a), TanukiType::FunctionPointerEnum(b)) => {
                if a.len() != b.len() {
                    proof {
                        assert(function_pointers_model(a@).len() != function_pointers_model(b@).len());
                    }
                    return false;
                }
                let mut i: usize = 0;
                while i < a.len()
                    invariant
                        a@.len() == b@.len(),
                        i <= a@.len(),
                        forall|j: int| 0 <= j < i ==> #[trigger] function_pointers_model(a@)[j] == function_pointers_model(b@)[j],
                    decreases a@.len() - i,
                {
                    proof {
                        vstd::std_specs::vec::axiom_vec_index_decreases(*a, i as int);
                    }
                    let r1 = a[i].return_type.same_as(&b[i].return_type);
                    let r2 = r1 && same_types(&a[i].parameter_types, &b[i].parameter_types);
                    if !r2 {
                        proof {
                            assert(function_pointers_model(a@)[i as int] != function_pointers_model(b@)[i as int]);
                        }
                        return false;
                    }
                    i = i + 1;
                }
                proof {
                    assert(function_pointers_model(a@) =~= function_pointers_model(b@));
                }
                true
            },
            (
                TanukiType::Struct { ordered_members: ao, named_members: an },
                TanukiType::Struct { ordered_members: bo, named_members: bn },
            ) => {
                let same_ordered = same_types(ao, bo);
                if !same_ordered {
                    return false;
                }
                if an.len() != bn.len() {
                    proof {
                        assert(named_types_model(an@).len() != named_types_model(bn@).len());
                    }
                    return false;
                }
                let mut i: usize = 0;
                while i < an.len()
                    invariant
                        an@.len() == bn@.len(),
                        i <= an@.len(),
                        forall|j: int| 0 <= j < i ==> #[trigger] named_types_model(an@)[j] == named_types_model(bn@)[j],
                    decreases an@.len() - i,
                {
                    proof {
                        vstd::std_specs::vec::axiom_vec_index_decreases(*an, i as int);
                    }
                    let r1 = chars_eq(an[i].0.as_slice(), bn[i].0.as_slice());
                    let r2 = r1 && an[i].1.same_as(&bn[i].1);
                    if !r2 {
                        proof {
                            assert(named_types_model(an@)[i as int] != named_types_model(bn@)[i as int]);
                        }
                        return false;
                    }
                    i = i + 1;
                }
                proof {
                    assert(named_types_model(an@) =~= named_types_model(bn@));
                }
                true
            },
            (TanukiType::TypeEnum(a), TanukiType::TypeEnum(b)) => same_types(a, b),
            _ => false,
        }
    }

    /// Writes the name of the type.
    pub fn print_name(&self, out: &mut Vec<char>)
        ensures
            final(out)@ == old(out)@ + self.model().spec_print_name(),
    {
        match self {
            TanukiType::CompileTimeInt => push_str(out, "Compile Time Integer"),
            TanukiType::CompileTimeFloat => push_str(out, "Compile Time Float"),
            TanukiType::CompileTimeChar => push_str(out, "Compile Time Char"),
            TanukiType::CompileTimeString => push_str(out, "Compile Time String"),
            TanukiType::Void => push_str(out, "Void"),
            TanukiType::U(w) => {
                out.push('U');
                push_u8_decimal(out, *w);
                proof { assert(final(out)@ =~= old(out)@ + self.model().spec_print_name()); }
            },
            TanukiType::I(w) => {
                out.push('I');
                push_u8_decimal(out, *w);
                proof { assert(final(out)@ =~= old(out)@ + self.model().spec_print_name()); }
            },
            TanukiType::F(w) => {
                out.push('F');
                push_u8_decimal(out, *w);
                proof { assert(final(out)@ =~= old(out)@ + self.model().spec_print_name()); }
            },
            TanukiType::Bool => push_str(out, "Bool"),
            TanukiType::Any => push_str(out, "Any"),
            TanukiType::Type => push_str(out, "Type"),
            TanukiType::Pointer(_) => push_str(out, "Pointer"),
            TanukiType::FunctionPointer(_) => push_str(out, "Function Pointer"),
            TanukiType::FunctionPointerEnum(_) => push_str(out, "Function Pointer Enum"),
            TanukiType::Struct { .. } => push_str(out, "Struct"),
            TanukiType::TypeEnum(_) => push_str(out, "Type Enum"),
        }
    }

    /// Gives the type of a value of this type after it has been cast to another type.
    pub fn cast_to(&self, type_to: &TanukiType) -> (r: Result<TanukiType, Error>)
        ensures
            match self.model().spec_cast_to(type_to.model()) {
                Some(t) => r matches Ok(rt) && rt.model() == t,
                None => r matches Err(Error::NotYetImplemented(m))
                    && m@ == cast_error_message(self.model().spec_print_name(), type_to.model().spec_print_name()),
            },
    {
        let self_is_integer = matches!(self, TanukiType::CompileTimeInt | TanukiType::U(_) | TanukiType::I(_));
        let to_is_integer = matches!(type_to, TanukiType::CompileTimeInt | TanukiType::U(_) | TanukiType::I(_));
        if matches!(self, TanukiType::Struct { .. }) && matches!(type_to, TanukiType::Type) {
            Ok(self.deep_clone())
        } else if matches!(type_to, TanukiType::Any) {
            Ok(self.deep_clone())
        } else if self_is_integer && to_is_integer {
            Ok(type_to.deep_clone())
        } else if matches!(self, TanukiType::CompileTimeFloat | TanukiType::F(_)) && to_is_integer {
            Ok(type_to.deep_clone())
        } else if matches!(self, TanukiType::Any) {
            Ok(type_to.deep_clone())
        } else if self.same_as(type_to) {
            Ok(self.deep_clone())
        } else {
            let mut m: Vec<char> = Vec::new();
            push_str(&mut m, "Casting value ");
            self.print_name(&mut m);
            push_str(&mut m, " to type ");
            type_to.print_name(&mut m);
            proof {
                assert(m@ =~= cast_error_message(self.model().spec_print_name(), type_to.model().spec_print_name()));
            }
            Err(Error::NotYetImplemented(m))
        }
    }
}

/// Copies a vector of types.
pub fn clone_types(ts: &Vec<TanukiType>) -> (r: Vec<TanukiType>)
    ensures
        types_model(r@) == types_model(ts@),
    decreases ts,
{
    let mut out: Vec<TanukiType> = Vec::new();
    let mut i: usize = 0;
    while i < ts.len()
        invariant
            i <= ts@.len(),
            out@.len() == i,
            forall|j: int| 0 <= j < i ==> #[trigger] out@[j].model() == ts@[j].model(),
        decreases ts@.len() - i,
    {
        proof {
            vstd::std_specs::vec::axiom_vec_index_decreases(*ts, i as int);
        }
        out.push(ts[i].deep_clone());
        i = i + 1;
    }
    proof {
        lemma_types_model(out@);
        lemma_types_model(ts@);
        assert(types_model(out@) =~= types_model(ts@));
    }
    out
}

/// Whether two vectors hold the same types in the same order.
pub fn same_types(a: &Vec<TanukiType>, b: &Vec<TanukiType>) -> (r: bool)
    ensures
        r == (types_model(a@) == types_model(b@)),
    decreases a,
{
    if a.len() != b.len() {
        proof {
            assert(types_model(a@).len() != types_model(b@).len());
        }
        return false;
    }
    let mut i: usize = 0;
    while i < a.len()
        invariant
            a@.len() == b@.len(),
            i <= a@.len(),
            forall|j: int| 0 <= j < i ==> #[trigger] a@[j].model() == b@[j].model(),
        decreases a@.len() - i,
    {
        proof {
            vstd::std_specs::vec::axiom_vec_index_decreases(*a, i as int);
        }
        if !a[i].same_as(&b[i]) {
            proof {
                assert(types_model(a@)[i as int] != types_model(b@)[i as int]);
            }
            return false;
        }
        i = i + 1;
    }
    proof {
        lemma_types_model(a@);
        lemma_types_model(b@);
        assert(types_model(a@) =~= types_model(b@));
    }
    true
}

} // verus!

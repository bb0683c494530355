//! From a signature to the definitions a harness is made of.
//!
//! [`classify`] decides whether a signature can be fuzzed at all. For one that
//! can, [`fuzz_struct`] lists the fields of the aggregate that holds one value
//! per input, [`fuzz_function`] describes the call that unpacks the aggregate,
//! and [`fuzz_harness`] writes the entry point that a fuzzing engine drives.

use vstd::prelude::*;
use vstd::string::*;
use crate::signature::{
    type_view, FnArg, FnArgView, ParameterShape, Passing, Pattern, PatternView, Signature,
    SignatureView, Type, TypeView,
};
use crate::text::{spec_terminated, terminated, texts};

verus! {

/// Why no harness is generated for a signature.
#[derive(Clone, Copy, Debug, PartialEq, Eq)]
pub enum GenerateError {
    /// The callable is `unsafe`: a crash on arbitrary input would be no bug.
    Unsafe,
    /// The callable is `async`: the harness has nothing to await it with.
    Async,
    /// The callable takes no input: there is nothing to randomize.
    Empty,
    /// The input at this position has a type that is neither a named type
    /// nor a reference to one.
    ComplexArg(usize),
    /// The callable takes `self` and its `impl` block is for no type, or for
    /// one that is not a single bare identifier.
    ComplexSelfType,
    /// A receiver stands after the first position.
    MultipleRes,
    /// The callable is an associated function without `self`, and its `impl`
    /// block is for a type that is not a single bare identifier.
    ComplexMethodCall,
    /// The input at this position is bound by a pattern, not an identifier.
    ComplexVariable(usize),
}

impl FnArgView {
    /// Whether a harness can supply this input: a receiver, or an identifier
    /// bound to a supported shape.
    pub open spec fn supported(self) -> bool {
        match self {
            FnArgView::Receiver(_) => true,
            FnArgView::Typed { pat, ty } => pat is Ident && !(ty.shape() is Unsupported),
        }
    }
}

/// The position of the first input that no harness can supply.
pub open spec fn first_unsupported(inputs: Seq<FnArgView>) -> Option<int>
    decreases inputs.len(),
{
    if inputs.len() == 0 {
        None
    } else {
        match first_unsupported(inputs.drop_last()) {
            Some(i) => Some(i),
            None => if inputs.last().supported() {
                None
            } else {
                Some(inputs.len() - 1)
            },
        }
    }
}

/// Whether the callable takes `self` as its first input.
pub open spec fn takes_self(inputs: Seq<FnArgView>) -> bool {
    inputs.len() > 0 && inputs[0] is Receiver
}

/// Whether a receiver stands after the first position.
pub open spec fn stray_receiver(inputs: Seq<FnArgView>) -> bool {
    exists|i: int| 0 < i < inputs.len() && #[trigger] inputs[i] is Receiver
}

/// The name of the owner type when it is a single bare identifier.
pub open spec fn owner_name(owner: Option<TypeView>) -> Option<Seq<char>> {
    match owner {
        Some(ty) => ty.simple_name(),
        None => None,
    }
}

/// The outcome of classifying `sig`, found in an `impl` block for `owner` or,
/// with no owner, as a free function. The checks are made in this order and
/// the first that fails decides the error.
pub open spec fn spec_classify(sig: SignatureView, owner: Option<TypeView>) -> Result<
    (),
    GenerateError,
> {
    if sig.is_unsafe {
        Err(GenerateError::Unsafe)
    } else if sig.is_async {
        Err(GenerateError::Async)
    } else if sig.inputs.len() == 0 {
        Err(GenerateError::Empty)
    } else if let Some(i) = first_unsupported(sig.inputs) {
        if sig.inputs[i] matches FnArgView::Typed { pat: PatternView::Other, .. } {
            Err(GenerateError::ComplexVariable(i as usize))
        } else {
            Err(GenerateError::ComplexArg(i as usize))
        }
    } else if takes_self(sig.inputs) && owner_name(owner) is None {
        Err(GenerateError::ComplexSelfType)
    } else if owner is Some && owner_name(owner) is None {
        Err(GenerateError::ComplexMethodCall)
    } else if stray_receiver(sig.inputs) {
        Err(GenerateError::MultipleRes)
    } else {
        Ok(())
    }
}

/// `first_unsupported` names an unsupported input with only supported ones
/// before it, and is `None` only where every input is supported.
pub proof fn lemma_first_unsupported(inputs: Seq<FnArgView>)
    ensures
        match first_unsupported(inputs) {
            Some(i) => {
                &&& 0 <= i < inputs.len()
                &&& !inputs[i].supported()
                &&& forall|j: int| 0 <= j < i ==> (#[trigger] inputs[j]).supported()
            },
            None => forall|j: int| 0 <= j < inputs.len() ==> (#[trigger] inputs[j]).supported(),
        },
    decreases inputs.len(),
{
    if inputs.len() > 0 {
        let front = inputs.drop_last();
        lemma_first_unsupported(front);
        assert forall|j: int| 0 <= j < front.len() implies front[j] == inputs[j] by {}
        match first_unsupported(front) {
            Some(i) => {
                assert forall|j: int| 0 <= j < i implies (#[trigger] inputs[j]).supported() by {
                    assert(front[j].supported());
                }
            },
            None => {
                assert forall|j: int| 0 <= j < front.len() implies (
                #[trigger] inputs[j]).supported() by {
                    assert(front[j].supported());
                }
            },
        }
    }
}

/// Whether a harness can be generated for `sig`: it is neither `unsafe` nor
/// `async`, takes at least one input, every input is supported, a receiver
/// stands in the first position only, and an owner, which a receiver needs,
/// is a single bare identifier.
pub open spec fn accepted(sig: SignatureView, owner: Option<TypeView>) -> bool {
    &&& !sig.is_unsafe
    &&& !sig.is_async
    &&& sig.inputs.len() > 0
    &&& forall|i: int| 0 <= i < sig.inputs.len() ==> (#[trigger] sig.inputs[i]).supported()
    &&& forall|i: int| 0 < i < sig.inputs.len() ==> !(#[trigger] sig.inputs[i] is Receiver)
    &&& takes_self(sig.inputs) || owner is Some ==> owner_name(owner) is Some
}

/// Whether `error` is the first reason, in the order of the checks, for
/// which no harness can be generated for `sig`.
pub open spec fn refused_for(sig: SignatureView, owner: Option<TypeView>, error: GenerateError) -> bool {
    let checked = !sig.is_unsafe && !sig.is_async && sig.inputs.len() > 0;
    let supported = forall|i: int|
        0 <= i < sig.inputs.len() ==> (#[trigger] sig.inputs[i]).supported();
    match error {
        GenerateError::Unsafe => sig.is_unsafe,
        GenerateError::Async => !sig.is_unsafe && sig.is_async,
        GenerateError::Empty => !sig.is_unsafe && !sig.is_async && sig.inputs.len() == 0,
        GenerateError::ComplexVariable(at) => {
            &&& checked
            &&& at < sig.inputs.len()
            &&& forall|i: int| 0 <= i < at ==> (#[trigger] sig.inputs[i]).supported()
            &&& sig.inputs[at as int] matches FnArgView::Typed { pat: PatternView::Other, .. }
        },
        GenerateError::ComplexArg(at) => {
            &&& checked
            &&& at < sig.inputs.len()
            &&& forall|i: int| 0 <= i < at ==> (#[trigger] sig.inputs[i]).supported()
            &&& sig.inputs[at as int] matches FnArgView::Typed { pat: PatternView::Ident(_), ty }
            &&& ty.shape() is Unsupported
        },
        GenerateError::ComplexSelfType => {
            &&& checked
            &&& supported
            &&& takes_self(sig.inputs)
            &&& owner_name(owner) is None
        },
        GenerateError::ComplexMethodCall => {
            &&& checked
            &&& supported
            &&& !takes_self(sig.inputs)
            &&& owner is Some
            &&& owner_name(owner) is None
        },
        GenerateError::MultipleRes => {
            &&& checked
            &&& supported
            &&& takes_self(sig.inputs) || owner is Some ==> owner_name(owner) is Some
            &&& stray_receiver(sig.inputs)
        },
    }
}

/// Every signature has exactly one outcome. It is accepted exactly where
/// nothing stands against it, and it is refused with an error exactly where
/// that error is the first reason against it; no signature whose inputs fit
/// in memory is refused for two reasons.
pub proof fn classification_is_total(sig: SignatureView, owner: Option<TypeView>)
    requires
        sig.inputs.len() <= usize::MAX,
    ensures
        spec_classify(sig, owner) is Ok <==> accepted(sig, owner),
        forall|error: GenerateError|
            spec_classify(sig, owner) == Err::<(), GenerateError>(error) <==> refused_for(
                sig,
                owner,
                error,
            ),
{
    lemma_first_unsupported(sig.inputs);
    let outcome = spec_classify(sig, owner);
    if accepted(sig, owner) {
        assert(first_unsupported(sig.inputs) is None);
        assert(!stray_receiver(sig.inputs));
    }
    assert forall|error: GenerateError| outcome == Err::<(), GenerateError>(error) <==> refused_for(
        sig,
        owner,
        error,
    ) by {
        match error {
            GenerateError::ComplexVariable(at) => {
                if refused_for(sig, owner, error) {
                    assert(!sig.inputs[at as int].supported());
                    assert(first_unsupported(sig.inputs) == Some(at as int));
                }
            },
            GenerateError::ComplexArg(at) => {
                if refused_for(sig, owner, error) {
                    assert(!sig.inputs[at as int].supported());
                    assert(first_unsupported(sig.inputs) == Some(at as int));
                }
            },
            _ => {},
        }
    }
}

/// Finds the first input that no harness can supply.
fn find_unsupported(signature: &Signature) -> (found: Option<usize>)
    ensures
        match found {
            Some(i) => first_unsupported(signature@.inputs) == Some(i as int),
            None => first_unsupported(signature@.inputs) is None,
        },
{
    let mut i: usize = 0;
    while i < signature.inputs.len()
        invariant
            i <= signature.inputs.len(),
            first_unsupported(signature@.inputs.take(i as int)) is None,
        decreases signature.inputs.len() - i,
    {
        proof {
            let next = signature@.inputs.take(i + 1);
            assert(next.drop_last() == signature@.inputs.take(i as int));
            assert(next.last() == signature.inputs@[i as int]@);
        }
        let supported = match &signature.inputs[i] {
            FnArg::Receiver(_) => true,
            FnArg::Typed { pat, ty } => {
                let named = match pat {
                    Pattern::Ident(_) => true,
                    Pattern::Other => false,
                };
                let shaped = match ty.shape() {
                    ParameterShape::Unsupported => false,
                    _ => true,
                };
                named && shaped
            },
        };
        if !supported {
            proof {
                lemma_first_unsupported_prefix(signature@.inputs, i + 1);
            }
            return Some(i);
        }
        i = i + 1;
    }
    proof {
        assert(signature@.inputs.take(i as int) == signature@.inputs);
    }
    None
}

/// What `first_unsupported` finds in a prefix, it finds in the whole.
proof fn lemma_first_unsupported_prefix(inputs: Seq<FnArgView>, n: int)
    requires
        0 <= n <= inputs.len(),
        first_unsupported(inputs.take(n)) is Some,
    ensures
        first_unsupported(inputs) == first_unsupported(inputs.take(n)),
    decreases inputs.len() - n,
{
    if n < inputs.len() {
        let next = inputs.take(n + 1);
        assert(next.drop_last() == inputs.take(n));
        lemma_first_unsupported_prefix(inputs, n + 1);
    } else {
        assert(inputs.take(n) == inputs);
    }
}

/// Looks for a receiver after the first position.
fn has_stray_receiver(signature: &Signature) -> (found: bool)
    ensures
        found == stray_receiver(signature@.inputs),
{
    let mut i: usize = 1;
    while i < signature.inputs.len()
        invariant
            1 <= i,
            forall|j: int| 0 < j < i && j < signature@.inputs.len() ==> !(
            #[trigger] signature@.inputs[j] is Receiver),
        decreases signature.inputs.len() - i,
    {
        match &signature.inputs[i] {
            FnArg::Receiver(_) => {
                assert(signature@.inputs[i as int] is Receiver);
                return true;
            },
            FnArg::Typed { .. } => {},
        }
        i = i + 1;
    }
    false
}

/// Decides whether a harness can be generated for `signature`, declared in an
/// `impl` block for `impl_type` or, with `None`, as a free function.
///
/// Gives the signature back when it can, and otherwise the one error that
/// [`spec_classify`] names: every signature has exactly one outcome.
pub fn classify<'a>(signature: &'a Signature, impl_type: Option<&Type>) -> (outcome: Result<
    &'a Signature,
    GenerateError,
>)
    ensures
        match outcome {
            Ok(accepted) => accepted == signature && spec_classify(
                signature@,
                type_view(impl_type),
            ) is Ok,
            Err(error) => spec_classify(signature@, type_view(impl_type)) == Err::<
                (),
                GenerateError,
            >(error),
        },
{
    if signature.is_unsafe {
        return Err(GenerateError::Unsafe);
    }
    if signature.is_async {
        return Err(GenerateError::Async);
    }
    if signature.inputs.len() == 0 {
        return Err(GenerateError::Empty);
    }
    if let Some(i) = find_unsupported(signature) {
        proof {
            lemma_first_unsupported(signature@.inputs);
        }
        return match &signature.inputs[i] {
            FnArg::Typed { pat: Pattern::Other, .. } => Err(GenerateError::ComplexVariable(i)),
            _ => Err(GenerateError::ComplexArg(i)),
        };
    }
    let owner = match impl_type {
        Some(ty) => ty.simple_name(),
        None => None,
    };
    let method = match &signature.inputs[0] {
        FnArg::Receiver(_) => true,
        FnArg::Typed { .. } => false,
    };
    if method && owner.is_none() {
        return Err(GenerateError::ComplexSelfType);
    }
    if impl_type.is_some() && owner.is_none() {
        return Err(GenerateError::ComplexMethodCall);
    }
    if has_stray_receiver(signature) {
        return Err(GenerateError::MultipleRes);
    }
    Ok(signature)
}


/// One field of the aggregate: a name and the type of the value it holds.
#[derive(Clone, Debug, PartialEq, Eq)]
pub struct Field {
    /// The name of the field.
    pub name: String,
    /// The named type of the input the field stands for.
    pub ty: String,
    /// Whether the field holds the value in a `Box`. An input passed by
    /// reference is decoded as an owned, boxed value and borrowed at the call.
    pub boxed: bool,
}

/// The aggregate of a callable: one field per input, in declaration order.
#[derive(Clone, Debug, PartialEq, Eq)]
pub struct FuzzStruct {
    /// The name of the aggregate type.
    pub ident: String,
    /// The fields in the order of the inputs they stand for.
    pub fields: Vec<Field>,
}

/// View of [`Field`].
pub struct FieldView {
    pub name: Seq<char>,
    pub ty: Seq<char>,
    pub boxed: bool,
}

/// View of [`FuzzStruct`].
pub struct FuzzStructView {
    pub ident: Seq<char>,
    pub fields: Seq<FieldView>,
}

impl View for Field {
    type V = FieldView;

    open spec fn view(&self) -> FieldView {
        FieldView { name: self.name@, ty: self.ty@, boxed: self.boxed }
    }
}

impl View for FuzzStruct {
    type V = FuzzStructView;

    open spec fn view(&self) -> FuzzStructView {
        FuzzStructView {
            ident: self.ident@,
            fields: self.fields@.map_values(|field: Field| field@),
        }
    }
}

/// The name of the aggregate type of the callable `name`.
pub open spec fn spec_struct_ident(name: Seq<char>) -> Seq<char> {
    "__fuzz_struct_"@ + name
}

/// The name of the wrapper function of the callable `name`.
pub open spec fn spec_function_ident(name: Seq<char>) -> Seq<char> {
    "__fuzz_"@ + name
}

/// The text of an optional name, empty where there is none.
pub open spec fn name_or_empty(name: Option<Seq<char>>) -> Seq<char> {
    match name {
        Some(name) => name,
        None => Seq::empty(),
    }
}

/// The field that stands for one supported input. A receiver becomes the
/// field `slf` of the owner type; a typed input keeps its own name and takes
/// the named type of its shape. Either is boxed unless passed by value.
pub open spec fn spec_field(arg: FnArgView, owner: Option<Seq<char>>) -> FieldView {
    match arg {
        FnArgView::Receiver(passing) => FieldView {
            name: "slf"@,
            ty: name_or_empty(owner),
            boxed: passing != Passing::Value,
        },
        FnArgView::Typed { pat, ty } => FieldView {
            name: match pat {
                PatternView::Ident(name) => name,
                PatternView::Other => Seq::empty(),
            },
            ty: name_or_empty(ty.shape().named_type()),
            boxed: ty.shape().passing() != Some(Passing::Value),
        },
    }
}

/// The aggregate of an accepted signature.
pub open spec fn spec_fuzz_struct(sig: SignatureView, owner: Option<TypeView>) -> FuzzStructView {
    FuzzStructView {
        ident: spec_struct_ident(sig.ident),
        fields: sig.inputs.map_values(|arg: FnArgView| spec_field(arg, owner_name(owner))),
    }
}

/// Writes `prefix` followed by `name`.
fn prefixed(prefix: &str, name: &str) -> (out: String)
    ensures
        out@ == prefix@ + name@,
{
    let mut out = String::new();
    out.append(prefix);
    out.append(name);
    out
}

/// Builds the field that stands for `arg`.
fn field_of(arg: &FnArg, owner: &Option<String>) -> (field: Field)
    requires
        arg@.supported(),
    ensures
        field@ == spec_field(
            arg@,
            match owner {
                Some(name) => Some(name@),
                None => None,
            },
        ),
{
    match arg {
        FnArg::Receiver(passing) => {
            let ty = match owner {
                Some(name) => name.clone(),
                None => String::new(),
            };
            let boxed = match passing {
                Passing::Value => false,
                _ => true,
            };
            Field { name: "slf".to_owned(), ty, boxed }
        },
        FnArg::Typed { pat, ty } => {
            let name = match pat {
                Pattern::Ident(name) => name.clone(),
                Pattern::Other => String::new(),
            };
            match ty.shape() {
                ParameterShape::Value(ty) => Field { name, ty, boxed: false },
                ParameterShape::ImmutableRef(ty) => Field { name, ty, boxed: true },
                ParameterShape::MutableRef(ty) => Field { name, ty, boxed: true },
                ParameterShape::Unsupported => Field { name, ty: String::new(), boxed: true },
            }
        },
    }
}

/// Derives the aggregate of `signature`: for each input, in declaration
/// order, one field that can hold an owned value for it.
///
/// Fails exactly where [`classify`] does, and with the same error.
pub fn fuzz_struct(signature: &Signature, impl_type: Option<&Type>) -> (outcome: Result<
    FuzzStruct,
    GenerateError,
>)
    ensures
        match outcome {
            Ok(aggregate) => spec_classify(signature@, type_view(impl_type)) is Ok && aggregate@
                == spec_fuzz_struct(signature@, type_view(impl_type)),
            Err(error) => spec_classify(signature@, type_view(impl_type)) == Err::<
                (),
                GenerateError,
            >(error),
        },
{
    match classify(signature, impl_type) {
        Err(error) => Err(error),
        Ok(_) => {
            let owner = match impl_type {
                Some(ty) => ty.simple_name(),
                None => None,
            };
            let ghost name = owner_name(type_view(impl_type));
            let ghost wanted = spec_fuzz_struct(signature@, type_view(impl_type)).fields;
            proof {
                lemma_first_unsupported(signature@.inputs);
            }
            let mut fields: Vec<Field> = Vec::new();
            let mut i: usize = 0;
            while i < signature.inputs.len()
                invariant
                    i <= signature.inputs.len(),
                    forall|j: int|
                        0 <= j < signature@.inputs.len() ==> (
                        #[trigger] signature@.inputs[j]).supported(),
                    name == match owner {
                        Some(name) => Some(name@),
                        None => None,
                    },
                    wanted == signature@.inputs.map_values(
                        |arg: FnArgView| spec_field(arg, name),
                    ),
                    fields@.map_values(|field: Field| field@) == wanted.take(i as int),
                decreases signature.inputs.len() - i,
            {
                assert(signature@.inputs[i as int].supported());
                let field = field_of(&signature.inputs[i], &owner);
                proof {
                    let before = fields@.map_values(|field: Field| field@);
                    assert(fields@.push(field).map_values(|field: Field| field@) == before.push(
                        field@,
                    ));
                    assert(wanted.take(i + 1) == wanted.take(i as int).push(wanted[i as int]));
                }
                fields.push(field);
                i = i + 1;
            }
            proof {
                assert(wanted.take(i as int) == wanted);
            }
            Ok(FuzzStruct { ident: prefixed("__fuzz_struct_", signature.ident.as_str()), fields })
        },
    }
}


/// What the wrapper calls.
#[derive(Clone, Debug, PartialEq, Eq)]
pub enum Callee {
    /// A free function, called by its name.
    Function(String),
    /// An associated function without `self`, called as `Owner::name`.
    Associated { owner: String, name: String },
    /// A method, called on the field `slf` of the aggregate. `target` says
    /// whether the field is moved into the call or borrowed for it.
    Method { target: Passing, name: String },
}

/// One argument of the call: a field of the aggregate and how it is passed.
#[derive(Clone, Debug, PartialEq, Eq)]
pub struct Argument {
    /// The field of the aggregate that holds the value.
    pub field: String,
    /// Whether the value is moved out of the field or borrowed through it.
    pub passing: Passing,
}

/// The wrapper of a callable: a function of one input, the aggregate, whose
/// body is one call of the callable. The result of the call is dropped.
#[derive(Clone, Debug, PartialEq, Eq)]
pub struct FuzzFunction {
    /// The name of the wrapper.
    pub ident: String,
    /// The name of the aggregate type the wrapper takes.
    pub input: String,
    /// What is called.
    pub callee: Callee,
    /// The arguments in the order of the inputs they stand for; a receiver
    /// is the target of the call and no argument.
    pub args: Vec<Argument>,
}

/// View of [`Callee`].
pub enum CalleeView {
    Function(Seq<char>),
    Associated { owner: Seq<char>, name: Seq<char> },
    Method { target: Passing, name: Seq<char> },
}

/// View of [`Argument`].
pub struct ArgumentView {
    pub field: Seq<char>,
    pub passing: Passing,
}

/// View of [`FuzzFunction`].
pub struct FuzzFunctionView {
    pub ident: Seq<char>,
    pub input: Seq<char>,
    pub callee: CalleeView,
    pub args: Seq<ArgumentView>,
}

impl View for Callee {
    type V = CalleeView;

    open spec fn view(&self) -> CalleeView {
        match self {
            Callee::Function(name) => CalleeView::Function(name@),
            Callee::Associated { owner, name } => CalleeView::Associated {
                owner: owner@,
                name: name@,
            },
            Callee::Method { target, name } => CalleeView::Method { target: *target, name: name@ },
        }
    }
}

impl View for Argument {
    type V = ArgumentView;

    open spec fn view(&self) -> ArgumentView {
        ArgumentView { field: self.field@, passing: self.passing }
    }
}

impl View for FuzzFunction {
    type V = FuzzFunctionView;

    open spec fn view(&self) -> FuzzFunctionView {
        FuzzFunctionView {
            ident: self.ident@,
            input: self.input@,
            callee: self.callee@,
            args: self.args@.map_values(|arg: Argument| arg@),
        }
    }
}

/// The argument that stands for one supported typed input: the field of the
/// same name, passed as the shape of the input says.
pub open spec fn spec_argument(arg: FnArgView) -> ArgumentView {
    match arg {
        FnArgView::Receiver(passing) => ArgumentView { field: "slf"@, passing },
        FnArgView::Typed { pat, ty } => ArgumentView {
            field: match pat {
                PatternView::Ident(name) => name,
                PatternView::Other => Seq::empty(),
            },
            passing: match ty.shape().passing() {
                Some(passing) => passing,
                None => Passing::Value,
            },
        },
    }
}

/// What the wrapper of an accepted signature calls: a method where the first
/// input is a receiver, else an associated function where there is an owner,
/// else a free function.
pub open spec fn spec_callee(sig: SignatureView, owner: Option<TypeView>) -> CalleeView {
    if takes_self(sig.inputs) {
        CalleeView::Method {
            target: match sig.inputs[0] {
                FnArgView::Receiver(passing) => passing,
                _ => Passing::Value,
            },
            name: sig.ident,
        }
    } else {
        match owner_name(owner) {
            Some(owner) => CalleeView::Associated { owner, name: sig.ident },
            None => CalleeView::Function(sig.ident),
        }
    }
}

/// The inputs that become arguments: all but a leading receiver.
pub open spec fn spec_passed(inputs: Seq<FnArgView>) -> Seq<FnArgView> {
    if takes_self(inputs) {
        inputs.skip(1)
    } else {
        inputs
    }
}

/// The wrapper of an accepted signature.
pub open spec fn spec_fuzz_function(sig: SignatureView, owner: Option<TypeView>) -> FuzzFunctionView {
    FuzzFunctionView {
        ident: spec_function_ident(sig.ident),
        input: spec_struct_ident(sig.ident),
        callee: spec_callee(sig, owner),
        args: spec_passed(sig.inputs).map_values(|arg: FnArgView| spec_argument(arg)),
    }
}

/// Builds the argument that stands for `arg`.
fn argument_of(arg: &FnArg) -> (argument: Argument)
    ensures
        argument@ == spec_argument(arg@),
{
    match arg {
        FnArg::Receiver(passing) => Argument { field: "slf".to_owned(), passing: *passing },
        FnArg::Typed { pat, ty } => {
            let field = match pat {
                Pattern::Ident(name) => name.clone(),
                Pattern::Other => String::new(),
            };
            let passing = match ty.shape() {
                ParameterShape::Value(_) => Passing::Value,
                ParameterShape::ImmutableRef(_) => Passing::Ref,
                ParameterShape::MutableRef(_) => Passing::RefMut,
                ParameterShape::Unsupported => Passing::Value,
            };
            Argument { field, passing }
        },
    }
}

/// Derives the wrapper of `signature`: the call of the callable on the fields
/// of the aggregate, each passed by value or borrowed as its input asks.
///
/// Fails exactly where [`classify`] does, and with the same error.
pub fn fuzz_function(signature: &Signature, impl_type: Option<&Type>) -> (outcome: Result<
    FuzzFunction,
    GenerateError,
>)
    ensures
        match outcome {
            Ok(wrapper) => spec_classify(signature@, type_view(impl_type)) is Ok && wrapper@
                == spec_fuzz_function(signature@, type_view(impl_type)),
            Err(error) => spec_classify(signature@, type_view(impl_type)) == Err::<
                (),
                GenerateError,
            >(error),
        },
{
    match classify(signature, impl_type) {
        Err(error) => Err(error),
        Ok(_) => {
            let owner = match impl_type {
                Some(ty) => ty.simple_name(),
                None => None,
            };
            let (callee, first) = match &signature.inputs[0] {
                FnArg::Receiver(passing) => (
                    Callee::Method { target: *passing, name: signature.ident.clone() },
                    1usize,
                ),
                FnArg::Typed { .. } => match owner {
                    Some(owner) => (
                        Callee::Associated { owner, name: signature.ident.clone() },
                        0usize,
                    ),
                    None => (Callee::Function(signature.ident.clone()), 0usize),
                },
            };
            let ghost passed = spec_passed(signature@.inputs);
            let ghost wanted = passed.map_values(|arg: FnArgView| spec_argument(arg));
            let mut args: Vec<Argument> = Vec::new();
            let mut i: usize = first;
            while i < signature.inputs.len()
                invariant
                    first <= i <= signature.inputs.len(),
                    passed == signature@.inputs.skip(first as int),
                    wanted == passed.map_values(|arg: FnArgView| spec_argument(arg)),
                    args@.map_values(|arg: Argument| arg@) == wanted.take(i - first),
                decreases signature.inputs.len() - i,
            {
                let argument = argument_of(&signature.inputs[i]);
                proof {
                    let before = args@.map_values(|arg: Argument| arg@);
                    assert(args@.push(argument).map_values(|arg: Argument| arg@) == before.push(
                        argument@,
                    ));
                    assert(passed[i - first] == signature@.inputs[i as int]);
                    assert(wanted.take(i + 1 - first) == wanted.take(i - first).push(
                        wanted[i - first],
                    ));
                }
                args.push(argument);
                i = i + 1;
            }
            proof {
                assert(wanted.take(i - first) == wanted);
            }
            Ok(
                FuzzFunction {
                    ident: prefixed("__fuzz_", signature.ident.as_str()),
                    input: prefixed("__fuzz_struct_", signature.ident.as_str()),
                    callee,
                    args,
                },
            )
        },
    }
}


/// The path under which the harness reaches the generated definitions: the
/// crate, then each module, every one followed by `::`.
pub open spec fn spec_access_path(crate_ident: Seq<char>, modules: Seq<Seq<char>>) -> Seq<char> {
    crate_ident + "::"@ + spec_terminated(modules, "::"@)
}

/// The source text of the harness for the callable `name` of the crate
/// `crate_ident`, declared in the modules `modules`, outermost first.
pub open spec fn spec_fuzz_harness(
    name: Seq<char>,
    crate_ident: Seq<char>,
    modules: Seq<Seq<char>>,
) -> Seq<char> {
    "#![no_main]\nuse libfuzzer_sys::fuzz_target;\nextern crate "@ + crate_ident
        + ";\n\nfuzz_target!(|input: "@ + spec_access_path(crate_ident, modules)
        + spec_struct_ident(name) + "| {\n    "@ + spec_access_path(crate_ident, modules)
        + spec_function_ident(name) + "(input);\n});\n"@
}

/// Writes the harness of `signature`: an entry point that has the engine's
/// bytes decoded into the aggregate and hands the aggregate to the wrapper,
/// and does nothing else.
///
/// The text depends on the name of the callable, the crate and the module
/// path alone.
pub fn fuzz_harness(signature: &Signature, crate_ident: &str, modules: &Vec<String>) -> (out:
    String)
    ensures
        out@ == spec_fuzz_harness(signature@.ident, crate_ident@, texts(modules@)),
{
    let mut path = String::new();
    path.append(crate_ident);
    path.append("::");
    path.append(terminated(modules, "::").as_str());
    let mut out = String::new();
    out.append("#![no_main]\nuse libfuzzer_sys::fuzz_target;\nextern crate ");
    out.append(crate_ident);
    out.append(";\n\nfuzz_target!(|input: ");
    out.append(path.as_str());
    out.append("__fuzz_struct_");
    out.append(signature.ident.as_str());
    out.append("| {\n    ");
    out.append(path.as_str());
    out.append("__fuzz_");
    out.append(signature.ident.as_str());
    out.append("(input);\n});\n");
    proof {
        let p = spec_access_path(crate_ident@, texts(modules@));
        assert(path@ == p);
        assert(out@ == spec_fuzz_harness(signature@.ident, crate_ident@, texts(modules@)));
    }
    out
}

impl GenerateError {
    /// The sentence that tells a user why the callable was passed over.
    pub open spec fn spec_message(self) -> Seq<char> {
        match self {
            GenerateError::Async => "Can not fuzz async functions."@,
            GenerateError::Unsafe => "unsafe functions can not be fuzzed automatically."@,
            GenerateError::Empty => "It is useless to fuzz function without input parameters."@,
            GenerateError::ComplexArg(_) =>
                "Type of the function must be either standalone, or borrowed standalone (like `&Type`, but not like `&(u32, String)`)"@,
            GenerateError::ComplexSelfType =>
                "Only implementations for simple (like `MyType`) types are supported"@,
            GenerateError::MultipleRes => "Muptiple Self values in function args."@,
            GenerateError::ComplexMethodCall =>
                "Complex method calls are not currently supported."@,
            GenerateError::ComplexVariable(_) =>
                "Complex variables (like `&mut *a`) are not supported"@,
        }
    }

    /// The position of the input that was refused, where one input was.
    pub open spec fn spec_position(self) -> Option<usize> {
        match self {
            GenerateError::ComplexArg(i) => Some(i),
            GenerateError::ComplexVariable(i) => Some(i),
            _ => None,
        }
    }

    /// Gives the sentence that tells a user why the callable was passed over.
    pub fn message(&self) -> (out: String)
        ensures
            out@ == self.spec_message(),
    {
        match self {
            GenerateError::Async => "Can not fuzz async functions.".to_owned(),
            GenerateError::Unsafe => "unsafe functions can not be fuzzed automatically.".to_owned(),
            GenerateError::Empty =>
                "It is useless to fuzz function without input parameters.".to_owned(),
            GenerateError::ComplexArg(_) =>
                "Type of the function must be either standalone, or borrowed standalone (like `&Type`, but not like `&(u32, String)`)".to_owned(),
            GenerateError::ComplexSelfType =>
                "Only implementations for simple (like `MyType`) types are supported".to_owned(),
            GenerateError::MultipleRes => "Muptiple Self values in function args.".to_owned(),
            GenerateError::ComplexMethodCall =>
                "Complex method calls are not currently supported.".to_owned(),
            GenerateError::ComplexVariable(_) =>
                "Complex variables (like `&mut *a`) are not supported".to_owned(),
        }
    }

    /// Gives the position of the input that was refused, where one input was.
    pub fn position(&self) -> (at: Option<usize>)
        ensures
            at == self.spec_position(),
    {
        match self {
            GenerateError::ComplexArg(i) => Some(*i),
            GenerateError::ComplexVariable(i) => Some(*i),
            _ => None,
        }
    }
}

} // verus!

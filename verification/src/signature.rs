//! The shape of a callable, as far as harness synthesis reads it.
//!
//! A [`Signature`] mirrors the declaration of a function or method: its name,
//! its inputs in declaration order, and whether it is `unsafe` or `async`.
//! Names and types are held as text. Each type has a view in which the texts
//! are `Seq<char>`, and all specifications are stated over those views.

use vstd::prelude::*;
use vstd::string::*;
use crate::text::{join, spec_join, texts};

verus! {

/// How a value reaches the callable: moved in, or borrowed.
#[derive(Clone, Copy, Debug, PartialEq, Eq)]
pub enum Passing {
    /// Passed by value.
    Value,
    /// Passed as `&T`.
    Ref,
    /// Passed as `&mut T`.
    RefMut,
}

/// The binding of a typed input.
#[derive(Clone, Debug, PartialEq, Eq)]
pub enum Pattern {
    /// A plain identifier, `name: T`.
    Ident(String),
    /// Anything else: a tuple or struct pattern, a wildcard, a binding with a
    /// sub-pattern.
    Other,
}

/// A type written as a path, such as `u64` or `std::string::String`.
#[derive(Clone, Debug, PartialEq, Eq)]
pub struct TypePath {
    /// The identifiers of the segments, first to last.
    pub segments: Vec<String>,
    /// Whether the path starts with `::`.
    pub leading_colon: bool,
    /// Whether the path is qualified, as in `<T as Trait>::Item`.
    pub qualified: bool,
    /// Whether some segment carries arguments, as in `Vec<u8>`.
    pub arguments: bool,
}

/// The declared type of an input, or the type an `impl` block is for.
#[derive(Clone, Debug, PartialEq, Eq)]
pub enum Type {
    /// A path type.
    Path(TypePath),
    /// `&T` or `&mut T`. `elem` is `Some` when `T` is itself written as a
    /// path and `None` for every other referent (a slice, a tuple, another
    /// reference).
    Reference { mutable: bool, elem: Option<TypePath> },
    /// Any other type: tuple, slice, array, pointer, function, `impl Trait`.
    Other,
}

/// One input of a callable.
#[derive(Clone, Debug, PartialEq, Eq)]
pub enum FnArg {
    /// `self`, `&self` or `&mut self`.
    Receiver(Passing),
    /// `pat: ty`.
    Typed { pat: Pattern, ty: Type },
}

/// The declaration of a function or method.
#[derive(Clone, Debug, PartialEq, Eq)]
pub struct Signature {
    /// The name of the callable.
    pub ident: String,
    /// The inputs in declaration order.
    pub inputs: Vec<FnArg>,
    /// Whether the callable is declared `unsafe`.
    pub is_unsafe: bool,
    /// Whether the callable is declared `async`.
    pub is_async: bool,
}

/// What a typed input asks of the value that is passed for it.
#[derive(Clone, Debug, PartialEq, Eq)]
pub enum ParameterShape {
    /// A value of the named type.
    Value(String),
    /// A shared reference to a value of the named type.
    ImmutableRef(String),
    /// A mutable reference to a value of the named type.
    MutableRef(String),
    /// Nothing a harness can construct from bytes.
    Unsupported,
}

/// View of [`Pattern`].
pub enum PatternView {
    Ident(Seq<char>),
    Other,
}

/// View of [`TypePath`].
pub struct TypePathView {
    pub segments: Seq<Seq<char>>,
    pub leading_colon: bool,
    pub qualified: bool,
    pub arguments: bool,
}

/// View of [`Type`].
pub enum TypeView {
    Path(TypePathView),
    Reference { mutable: bool, elem: Option<TypePathView> },
    Other,
}

/// View of [`FnArg`].
pub enum FnArgView {
    Receiver(Passing),
    Typed { pat: PatternView, ty: TypeView },
}

/// View of [`Signature`].
pub struct SignatureView {
    pub ident: Seq<char>,
    pub inputs: Seq<FnArgView>,
    pub is_unsafe: bool,
    pub is_async: bool,
}

/// View of [`ParameterShape`].
pub enum ShapeView {
    Value(Seq<char>),
    ImmutableRef(Seq<char>),
    MutableRef(Seq<char>),
    Unsupported,
}

impl View for Pattern {
    type V = PatternView;

    open spec fn view(&self) -> PatternView {
        match self {
            Pattern::Ident(name) => PatternView::Ident(name@),
            Pattern::Other => PatternView::Other,
        }
    }
}

impl View for TypePath {
    type V = TypePathView;

    open spec fn view(&self) -> TypePathView {
        TypePathView {
            segments: texts(self.segments@),
            leading_colon: self.leading_colon,
            qualified: self.qualified,
            arguments: self.arguments,
        }
    }
}

impl View for Type {
    type V = TypeView;

    open spec fn view(&self) -> TypeView {
        match self {
            Type::Path(path) => TypeView::Path(path@),
            Type::Reference { mutable, elem: Some(path) } => TypeView::Reference {
                mutable: *mutable,
                elem: Some(path@),
            },
            Type::Reference { mutable, elem: None } => TypeView::Reference {
                mutable: *mutable,
                elem: None,
            },
            Type::Other => TypeView::Other,
        }
    }
}

impl View for FnArg {
    type V = FnArgView;

    open spec fn view(&self) -> FnArgView {
        match self {
            FnArg::Receiver(passing) => FnArgView::Receiver(*passing),
            FnArg::Typed { pat, ty } => FnArgView::Typed { pat: pat@, ty: ty@ },
        }
    }
}

impl View for Signature {
    type V = SignatureView;

    open spec fn view(&self) -> SignatureView {
        SignatureView {
            ident: self.ident@,
            inputs: self.inputs@.map_values(|arg: FnArg| arg@),
            is_unsafe: self.is_unsafe,
            is_async: self.is_async,
        }
    }
}

impl View for ParameterShape {
    type V = ShapeView;

    open spec fn view(&self) -> ShapeView {
        match self {
            ParameterShape::Value(name) => ShapeView::Value(name@),
            ParameterShape::ImmutableRef(name) => ShapeView::ImmutableRef(name@),
            ParameterShape::MutableRef(name) => ShapeView::MutableRef(name@),
            ParameterShape::Unsupported => ShapeView::Unsupported,
        }
    }
}

/// The view of an optional type.
pub open spec fn type_view(ty: Option<&Type>) -> Option<TypeView> {
    match ty {
        Some(ty) => Some(ty@),
        None => None,
    }
}

impl TypePathView {
    /// Whether the path names a type outright: at least one segment, no
    /// qualification and no arguments.
    pub open spec fn is_named(self) -> bool {
        self.segments.len() > 0 && !self.qualified && !self.arguments
    }

    /// Whether the path is a single bare identifier.
    pub open spec fn is_simple(self) -> bool {
        self.segments.len() == 1 && !self.leading_colon && !self.qualified && !self.arguments
    }

    /// The path as it is written in source text.
    pub open spec fn text(self) -> Seq<char> {
        if self.leading_colon {
            "::"@ + spec_join(self.segments, "::"@)
        } else {
            spec_join(self.segments, "::"@)
        }
    }
}

impl TypeView {
    /// The shape a typed input of this type has.
    pub open spec fn shape(self) -> ShapeView {
        match self {
            TypeView::Path(path) => if path.is_named() {
                ShapeView::Value(path.text())
            } else {
                ShapeView::Unsupported
            },
            TypeView::Reference { mutable, elem: Some(path) } => if !path.is_named() {
                ShapeView::Unsupported
            } else if mutable {
                ShapeView::MutableRef(path.text())
            } else {
                ShapeView::ImmutableRef(path.text())
            },
            _ => ShapeView::Unsupported,
        }
    }

    /// The name of the type when it is a single bare identifier.
    pub open spec fn simple_name(self) -> Option<Seq<char>> {
        match self {
            TypeView::Path(path) => if path.is_simple() {
                Some(path.segments[0])
            } else {
                None
            },
            _ => None,
        }
    }
}

impl ShapeView {
    /// How a value of this shape is passed; `None` for an unsupported shape.
    pub open spec fn passing(self) -> Option<Passing> {
        match self {
            ShapeView::Value(_) => Some(Passing::Value),
            ShapeView::ImmutableRef(_) => Some(Passing::Ref),
            ShapeView::MutableRef(_) => Some(Passing::RefMut),
            ShapeView::Unsupported => None,
        }
    }

    /// The named type behind the shape; `None` for an unsupported shape.
    pub open spec fn named_type(self) -> Option<Seq<char>> {
        match self {
            ShapeView::Value(name) => Some(name),
            ShapeView::ImmutableRef(name) => Some(name),
            ShapeView::MutableRef(name) => Some(name),
            ShapeView::Unsupported => None,
        }
    }
}

impl TypePath {
    /// Whether the path names a type outright.
    pub fn is_named(&self) -> (named: bool)
        ensures
            named == self@.is_named(),
    {
        self.segments.len() > 0 && !self.qualified && !self.arguments
    }

    /// Whether the path is a single bare identifier.
    pub fn is_simple(&self) -> (simple: bool)
        ensures
            simple == self@.is_simple(),
    {
        self.segments.len() == 1 && !self.leading_colon && !self.qualified && !self.arguments
    }

    /// The path as it is written in source text.
    pub fn text(&self) -> (out: String)
        ensures
            out@ == self@.text(),
    {
        let joined = join(&self.segments, "::");
        if self.leading_colon {
            let mut out = String::new();
            out.append("::");
            out.append(joined.as_str());
            out
        } else {
            joined
        }
    }
}

impl Type {
    /// Decides the shape of a typed input from its declared type.
    ///
    /// A path that names a type is passed by value. A reference to such a
    /// path is passed by reference, shared or mutable as declared. Every
    /// other type is unsupported.
    pub fn shape(&self) -> (shape: ParameterShape)
        ensures
            shape@ == self@.shape(),
    {
        match self {
            Type::Path(path) => {
                if path.is_named() {
                    ParameterShape::Value(path.text())
                } else {
                    ParameterShape::Unsupported
                }
            },
            Type::Reference { mutable, elem: Some(path) } => {
                if !path.is_named() {
                    ParameterShape::Unsupported
                } else if *mutable {
                    ParameterShape::MutableRef(path.text())
                } else {
                    ParameterShape::ImmutableRef(path.text())
                }
            },
            _ => ParameterShape::Unsupported,
        }
    }

    /// The name of the type when it is a single bare identifier.
    pub fn simple_name(&self) -> (name: Option<String>)
        ensures
            match name {
                Some(name) => self@.simple_name() == Some(name@),
                None => self@.simple_name() is None,
            },
    {
        match self {
            Type::Path(path) => {
                if path.is_simple() {
                    Some(path.segments[0].clone())
                } else {
                    None
                }
            },
            _ => None,
        }
    }
}

} // verus!

//! The schema model: type expressions as the schema source hands them over,
//! raw fields, type declarations, and the generation-time error type.

use vstd::prelude::*;
use vstd::string::StringExecFns;

verus! {

/// One angle-bracketed generic argument of a path segment.
#[derive(Debug)]
pub enum GenericArg {
    /// a type argument
    TypeArg(Box<TypeExpr>),
    /// a lifetime or const argument; the unwrapper only needs to know that
    /// it is not a type
    NonTypeArg,
}

/// What classification reads of a type expression's outermost layer:
/// whether the expression is a path, the first path segment's name, and
/// that segment's angle-bracketed arguments, if any.
#[derive(Debug)]
pub enum TypeHead {
    /// the expression is not a path type
    NonPath,
    /// a path type: the first segment's name, and its angle-bracketed
    /// arguments (`None` when the segment carries no angle brackets)
    PathHead(String, Option<Vec<GenericArg>>),
}

/// A type expression of the host language, as the schema source supplies
/// it: the outer structure that classification reads (`head`) together
/// with the expression's full source text (`text`), which emission splices
/// into the generated artifact.
///
/// Optionality is decided nominally: a type whose first path segment is
/// literally named `Option` counts as the optional wrapper, even if it is
/// an unrelated type sharing that name. This is a deliberate, documented
/// limitation, not semantic type resolution.
#[derive(Debug)]
pub struct TypeExpr {
    pub head: TypeHead,
    pub text: String,
}

impl TypeExpr {
    /// The head symbol is literally named `Option`.
    pub open spec fn is_option_spec(self) -> bool {
        self.head matches TypeHead::PathHead(name, _) && name@ == "Option"@
    }

    /// The expression is a well-formed optional wrapper: an `Option` head
    /// whose angle brackets hold a type as their first argument.
    pub open spec fn unwrappable(self) -> bool {
        &&& self.head matches TypeHead::PathHead(name, args)
        &&& name@ == "Option"@
        &&& args matches Some(a)
        &&& a.len() > 0
        &&& a[0] is TypeArg
    }

    /// The wrapped inner type of a well-formed optional wrapper.
    pub open spec fn inner(self) -> TypeExpr
        recommends
            self.unwrappable(),
    {
        match self.head {
            TypeHead::PathHead(_, args) => match args {
                Some(a) => match a[0] {
                    GenericArg::TypeArg(t) => *t,
                    GenericArg::NonTypeArg => vstd::pervasive::arbitrary(),
                },
                None => vstd::pervasive::arbitrary(),
            },
            TypeHead::NonPath => vstd::pervasive::arbitrary(),
        }
    }

    /// The text a builder stores and accepts for a field of this declared
    /// type: the wrapped type's text when the expression is an optional
    /// wrapper, the expression's own text otherwise.
    pub open spec fn logical_text(self) -> Seq<char> {
        if self.is_option_spec() {
            self.inner().text@
        } else {
            self.text@
        }
    }

    /// Classification accepts the expression: either it is not nominally
    /// optional, or it is a well-formed optional wrapper.
    pub open spec fn classifiable(self) -> bool {
        !self.is_option_spec() || self.unwrappable()
    }
}

impl Clone for TypeExpr {
    /// The copy keeps the source text; the head is copied as well, though
    /// nothing is claimed of it.
    fn clone(&self) -> (r: Self)
        ensures
            r.text == self.text,
        decreases *self,
    {
        TypeExpr { head: clone_type_head(&self.head), text: self.text.clone() }
    }
}

fn clone_type_head(h: &TypeHead) -> (r: TypeHead)
    decreases *h,
{
    match h {
        TypeHead::NonPath => TypeHead::NonPath,
        TypeHead::PathHead(name, args) => TypeHead::PathHead(
            name.clone(),
            match args {
                Some(a) => Some(clone_generic_args(a)),
                None => None,
            },
        ),
    }
}

fn clone_generic_args(args: &Vec<GenericArg>) -> (r: Vec<GenericArg>)
    decreases args@,
{
    let mut out: Vec<GenericArg> = Vec::new();
    let mut i: usize = 0;
    while i < args.len()
        invariant
            i <= args@.len(),
        decreases args@.len() - i,
    {
        out.push(clone_generic_arg(&args[i]));
        i = i + 1;
    }
    out
}

fn clone_generic_arg(g: &GenericArg) -> (r: GenericArg)
    decreases *g,
{
    match g {
        GenericArg::TypeArg(t) => GenericArg::TypeArg(Box::new((**t).clone())),
        GenericArg::NonTypeArg => GenericArg::NonTypeArg,
    }
}

/// A field as the schema source hands it over: its name and the type
/// expression declared for it.
#[derive(Debug)]
pub struct RawField {
    pub name: String,
    pub ty: TypeExpr,
}

/// The shape of a declared type, as far as this engine tells shapes apart.
#[derive(Debug)]
pub enum TypeShape {
    /// a product type with named fields, in declaration order
    NamedFields(Vec<RawField>),
    /// a product type with positional, unnamed fields
    UnnamedFields,
    /// a field-less type
    UnitShape,
    /// a sum type
    SumShape,
    /// a union shape
    UnionShape,
}

/// A product type declaration: the type's name and its shape.
#[derive(Debug)]
pub struct TypeDecl {
    pub name: String,
    pub shape: TypeShape,
}

/// Why a generation request was refused. Every one of these aborts the
/// request before any artifact text is produced.
#[derive(Clone, Copy, PartialEq, Eq, Structural, Debug)]
pub enum GenError {
    /// the declared type has no fields
    UnsupportedUnit,
    /// the declared type is a sum or union shape
    UnsupportedSum,
    /// the declared fields are positional, without names
    UnsupportedUnnamed,
    /// the head symbol of a type believed optional is not named `Option`
    NotOption,
    /// the `Option` head carries no angle-bracketed argument list
    NoAngleBrackets,
    /// the angle brackets hold no type argument in first position
    NoTypeArgument,
}

impl GenError {
    /// The diagnostic text of each error.
    pub open spec fn message_spec(self) -> Seq<char> {
        match self {
            GenError::UnsupportedUnit => "unit-shaped types are not supported"@,
            GenError::UnsupportedSum => "sum/union-shaped types are not supported"@,
            GenError::UnsupportedUnnamed => "types with unnamed fields are not supported"@,
            GenError::NotOption => "the type's first path segment is not named Option"@,
            GenError::NoAngleBrackets => "the Option type carries no angle-bracketed arguments"@,
            GenError::NoTypeArgument => "the Option type carries no generic type argument"@,
        }
    }

    /// A description of the error, suitable for the schema's author.
    pub fn message(&self) -> (r: String)
        ensures
            r@ == self.message_spec(),
    {
        match self {
            GenError::UnsupportedUnit => String::from_str("unit-shaped types are not supported"),
            GenError::UnsupportedSum => String::from_str(
                "sum/union-shaped types are not supported",
            ),
            GenError::UnsupportedUnnamed => String::from_str(
                "types with unnamed fields are not supported",
            ),
            GenError::NotOption => String::from_str(
                "the type's first path segment is not named Option",
            ),
            GenError::NoAngleBrackets => String::from_str(
                "the Option type carries no angle-bracketed arguments",
            ),
            GenError::NoTypeArgument => String::from_str(
                "the Option type carries no generic type argument",
            ),
        }
    }
}

} // verus!

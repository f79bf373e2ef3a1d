//! Extraction of the wrapped inner type from an optional wrapper.

use vstd::prelude::*;
use vstd::string::StringExecFns;

use crate::types::{GenError, GenericArg, TypeExpr, TypeHead};

verus! {

/// The error with which unwrapping a non-conforming expression fails:
/// the head is not named `Option`, or the `Option` head lacks an
/// angle-bracketed argument list, or that list holds no type argument
/// in first position.
pub open spec fn unwrap_error(ty: TypeExpr) -> GenError
    recommends
        !ty.unwrappable(),
{
    match ty.head {
        TypeHead::NonPath => GenError::NotOption,
        TypeHead::PathHead(name, args) => if name@ != "Option"@ {
            GenError::NotOption
        } else {
            match args {
                None => GenError::NoAngleBrackets,
                Some(a) => GenError::NoTypeArgument,
            }
        },
    }
}

/// Extracts the single wrapped type from an expression whose head symbol
/// is nominally named `Option`: for `Option<T>` it returns `T`, unchanged.
/// Any other shape is refused, and which condition failed is reported.
pub fn get_non_optional_type<'a>(ty: &'a TypeExpr) -> (r: Result<&'a TypeExpr, GenError>)
    ensures
        match r {
            Ok(t) => ty.unwrappable() && *t == ty.inner(),
            Err(e) => !ty.unwrappable() && e == unwrap_error(*ty),
        },
{
    let option_name = String::from_str("Option");
    match &ty.head {
        TypeHead::NonPath => Err(GenError::NotOption),
        TypeHead::PathHead(name, args) => {
            if *name == option_name {
                match args {
                    None => Err(GenError::NoAngleBrackets),
                    Some(a) => {
                        if a.len() > 0 {
                            match &a[0] {
                                GenericArg::TypeArg(t) => Ok(&**t),
                                GenericArg::NonTypeArg => Err(GenError::NoTypeArgument),
                            }
                        } else {
                            Err(GenError::NoTypeArgument)
                        }
                    },
                }
            } else {
                Err(GenError::NotOption)
            }
        },
    }
}

/// Decides, nominally, whether a type expression is the optional wrapper:
/// true exactly when the expression is a path whose first segment is
/// literally named `Option`.
pub fn is_option(ty: &TypeExpr) -> (r: bool)
    ensures
        r == ty.is_option_spec(),
{
    let option_name = String::from_str("Option");
    match &ty.head {
        TypeHead::NonPath => false,
        TypeHead::PathHead(name, _) => *name == option_name,
    }
}

} // verus!

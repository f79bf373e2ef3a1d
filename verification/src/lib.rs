//! Generation of fluent builders for product types with named fields.
//!
//! Given a declaration describing a product type — its name and an ordered
//! list of named fields, each with a type expression — the library
//! classifies every field as optional or required, derives each field's
//! logical (unwrapped) type, and emits the source text of a companion
//! builder type: one storage slot per field, a factory method, chainable
//! setters, and a fallible `build` method that reports the first missing
//! required field. Unsupported declaration shapes and malformed optional
//! wrappers abort generation with a descriptive error, and no partial
//! artifact is produced.

use vstd::prelude::*;

pub mod builder;
pub mod semantics;
pub mod templates;
pub mod types;
pub mod util;

use crate::builder::{
    builder_emit_text, classify_failure, raw_model, shape_error, shape_refused, BuilderEmitter,
};
use crate::types::{GenError, RawField, TypeDecl, TypeShape};

verus! {

/// Generates the complete builder companion for one product-type
/// declaration: exactly the artifact text for the declaration's name and
/// classified fields, in declaration order. A field-less, positional, sum
/// or union shape, or a nominally optional field type that is not a
/// well-formed wrapper, aborts the request with its error, and no partial
/// artifact is produced.
pub fn derive(decl: TypeDecl) -> (r: Result<String, GenError>)
    ensures
        match r {
            Ok(text) => {
                &&& decl.shape matches TypeShape::NamedFields(raw)
                &&& raw@.len() > 0
                &&& forall|i: int| 0 <= i < raw@.len() ==> (#[trigger] raw@[i].ty).classifiable()
                &&& text@ == builder_emit_text(
                    decl.name@,
                    decl.name@ + "Builder"@,
                    raw@.map(|i: int, rf: RawField| raw_model(rf)),
                )
            },
            Err(e) => {
                ||| shape_refused(decl.shape) && e == shape_error(decl.shape)
                ||| {
                    &&& decl.shape matches TypeShape::NamedFields(raw)
                    &&& raw@.len() > 0
                    &&& exists|i: int| classify_failure(raw@, e, i)
                }
            },
        },
{
    let emitter = match BuilderEmitter::from_decl(decl) {
        Ok(em) => em,
        Err(e) => {
            return Err(e);
        },
    };
    Ok(emitter.builder_emit_tokens())
}

} // verus!

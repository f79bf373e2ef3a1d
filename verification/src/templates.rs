//! Per-field emission templates: pure transforms from one classified field
//! to a fragment of the generated source text.

use vstd::prelude::*;
use vstd::string::StringExecFns;

use crate::builder::{BuilderField, FieldModel};

verus! {

/// The text of a field's setter method: named after the field, taking one
/// parameter of the field's logical type, storing it as present in the slot
/// and returning a chainable `&mut Self` — the same shape whether the field
/// is optional or required.
pub open spec fn setter_text(f: FieldModel) -> Seq<char> {
    "    fn "@ + f.name + "(&mut self, value: "@ + f.logical
        + ") -> &mut Self {\n        self."@ + f.name
        + " = Some(value);\n        self\n    }\n"@
}

/// The text of a field's contribution to the build method: the slot's value
/// is taken, leaving the slot absent; an optional field uses the taken value
/// as it is, while a required field fails the build with an error naming the
/// field when the taken value is absent.
pub open spec fn build_field_text(f: FieldModel) -> Seq<char> {
    if f.optional {
        "            "@ + f.name + ": self."@ + f.name + ".take(),\n"@
    } else {
        "            "@ + f.name + ": self."@ + f.name + ".take().ok_or(\"field "@ + f.name
            + " is required\")?,\n"@
    }
}

/// Emits the setter method for one classified field.
pub fn emit_setter(field: &BuilderField) -> (r: String)
    ensures
        r@ == setter_text(field@),
{
    let mut out = String::from_str("    fn ");
    out.append(field.name.as_str());
    out.append("(&mut self, value: ");
    out.append(field.logical_ty.text.as_str());
    out.append(") -> &mut Self {\n        self.");
    out.append(field.name.as_str());
    out.append(" = Some(value);\n        self\n    }\n");
    proof {
        assert(out@ =~= setter_text(field@));
    }
    out
}

/// Emits one field's line of the build method's product-type literal.
pub fn emit_build_field(field: &BuilderField) -> (r: String)
    ensures
        r@ == build_field_text(field@),
{
    let mut out = String::from_str("            ");
    out.append(field.name.as_str());
    out.append(": self.");
    out.append(field.name.as_str());
    if field.optional {
        out.append(".take(),\n");
    } else {
        out.append(".take().ok_or(\"field ");
        out.append(field.name.as_str());
        out.append(" is required\")?,\n");
    }
    proof {
        assert(out@ =~= build_field_text(field@));
    }
    out
}

} // verus!

//! Field classification and the emission of the builder artifact.

use vstd::prelude::*;
use vstd::string::StringExecFns;

use crate::templates;
use crate::templates::{build_field_text, setter_text};
use crate::types::{GenError, RawField, TypeDecl, TypeExpr, TypeShape};
use crate::util;
use crate::util::unwrap_error;

verus! {

/// What emission reads of a classified field: its name, the text of its
/// logical type, and whether it is optional.
pub ghost struct FieldModel {
    pub name: Seq<char>,
    pub logical: Seq<char>,
    pub optional: bool,
}

/// The model a raw field classifies to.
pub open spec fn raw_model(rf: RawField) -> FieldModel {
    FieldModel {
        name: rf.name@,
        logical: rf.ty.logical_text(),
        optional: rf.ty.is_option_spec(),
    }
}

/// A classified field: its name, the type as declared, whether the
/// declared type is an optional wrapper, and the logical (unwrapped) type.
pub struct BuilderField {
    pub name: String,
    pub ty: TypeExpr,
    pub optional: bool,
    pub logical_ty: TypeExpr,
}

impl View for BuilderField {
    type V = FieldModel;

    open spec fn view(&self) -> FieldModel {
        FieldModel { name: self.name@, logical: self.logical_ty.text@, optional: self.optional }
    }
}

impl BuilderField {
    /// The classification invariant: optionality is the nominal test on the
    /// declared type, and the logical type's text is the declared type's
    /// text with exactly one optional layer stripped when optional.
    pub open spec fn wf(self) -> bool {
        &&& self.optional == self.ty.is_option_spec()
        &&& self.ty.classifiable()
        &&& self.logical_ty.text@ == self.ty.logical_text()
    }

    /// Classifies one raw field: decides optionality by the nominal head
    /// test and derives the logical type; a nominally optional type that is
    /// not a well-formed wrapper is refused with the unwrapper's error.
    pub fn new(field: RawField) -> (r: Result<BuilderField, GenError>)
        ensures
            match r {
                Ok(f) => {
                    &&& field.ty.classifiable()
                    &&& f.wf()
                    &&& f.ty == field.ty
                    &&& f.name == field.name
                    &&& f@ == raw_model(field)
                },
                Err(e) => !field.ty.classifiable() && e == unwrap_error(field.ty),
            },
    {
        let optional = util::is_option(&field.ty);
        if optional {
            let inner = match util::get_non_optional_type(&field.ty) {
                Ok(t) => t.clone(),
                Err(e) => {
                    return Err(e);
                },
            };
            Ok(BuilderField { name: field.name, ty: field.ty, optional: true, logical_ty: inner })
        } else {
            let logical = field.ty.clone();
            Ok(BuilderField { name: field.name, ty: field.ty, optional: false, logical_ty: logical })
        }
    }

    /// Emits this field's storage slot of the builder type, typed
    /// optional-of-logical-type whether or not the field is optional.
    pub fn to_tokens_with_optional_type(&self) -> (r: String)
        ensures
            r@ == slot_decl_text(self@),
    {
        let mut out = String::from_str("    ");
        out.append(self.name.as_str());
        out.append(": Option<");
        out.append(self.logical_ty.text.as_str());
        out.append(">,\n");
        proof {
            assert(out@ =~= slot_decl_text(self@));
        }
        out
    }

    /// Emits this field's absent-slot initializer of the factory method.
    pub fn default_optional_field_tokens(&self) -> (r: String)
        ensures
            r@ == init_slot_text(self@),
    {
        let mut out = String::from_str("            ");
        out.append(self.name.as_str());
        out.append(": None,\n");
        proof {
            assert(out@ =~= init_slot_text(self@));
        }
        out
    }
}

/// At index `i` stands the first raw field whose type classification
/// refuses, every earlier field classifying cleanly, and `e` is that
/// field's error.
pub open spec fn classify_failure(raw: Seq<RawField>, e: GenError, i: int) -> bool {
    &&& 0 <= i < raw.len()
    &&& !raw[i].ty.classifiable()
    &&& forall|j: int| 0 <= j < i ==> (#[trigger] raw[j].ty).classifiable()
    &&& e == unwrap_error(raw[i].ty)
}

/// The ordered, classified fields of one schema.
pub struct BuilderFields {
    pub fields: Vec<BuilderField>,
}

impl View for BuilderFields {
    type V = Seq<FieldModel>;

    open spec fn view(&self) -> Seq<FieldModel> {
        self.fields@.map(|i: int, f: BuilderField| f@)
    }
}

impl BuilderFields {
    pub open spec fn wf(self) -> bool {
        forall|i: int| 0 <= i < self.fields@.len() ==> (#[trigger] self.fields@[i]).wf()
    }

    /// Classifies every raw field, keeping declaration order; the first
    /// field whose type is refused aborts construction with that error.
    pub fn new(raw: Vec<RawField>) -> (r: Result<BuilderFields, GenError>)
        ensures
            match r {
                Ok(bf) => {
                    &&& bf.wf()
                    &&& forall|i: int|
                        0 <= i < raw@.len() ==> (#[trigger] raw@[i].ty).classifiable()
                    &&& bf.fields@.len() == raw@.len()
                    &&& bf@ =~= raw@.map(|i: int, rf: RawField| raw_model(rf))
                    &&& forall|i: int|
                        0 <= i < raw@.len() ==> (#[trigger] bf.fields@[i]).ty == raw@[i].ty
                            && bf.fields@[i].name == raw@[i].name
                },
                Err(e) => exists|i: int| classify_failure(raw@, e, i),
            },
    {
        let ghost orig = raw@;
        let mut rest = raw;
        let mut fields: Vec<BuilderField> = Vec::new();
        while rest.len() > 0
            invariant
                orig == raw@,
                orig.len() == fields@.len() + rest@.len(),
                rest@ =~= orig.skip(fields@.len() as int),
                forall|j: int| 0 <= j < fields@.len() ==> (#[trigger] fields@[j]).wf(),
                forall|j: int| 0 <= j < fields@.len() ==> (#[trigger] orig[j].ty).classifiable(),
                forall|j: int|
                    0 <= j < fields@.len() ==> (#[trigger] fields@[j])@ == raw_model(orig[j]),
                forall|j: int|
                    0 <= j < fields@.len() ==> (#[trigger] fields@[j]).ty == orig[j].ty
                        && fields@[j].name == orig[j].name,
            decreases rest@.len(),
        {
            let ghost k = fields@.len() as int;
            let rf = rest.remove(0);
            proof {
                assert(rf == orig[k]);
                assert(rest@ =~= orig.skip(k + 1));
            }
            match BuilderField::new(rf) {
                Ok(f) => fields.push(f),
                Err(e) => {
                    proof {
                        assert(classify_failure(orig, e, k));
                        assert(exists|i: int| classify_failure(orig, e, i));
                    }
                    return Err(e);
                },
            }
        }
        proof {
            assert(fields@.len() == orig.len());
            assert(fields@.map(|i: int, f: BuilderField| f@) =~= orig.map(
                |i: int, rf: RawField| raw_model(rf),
            ));
        }
        Ok(BuilderFields { fields })
    }
}

/// A declaration shape this engine refuses: anything but named fields,
/// and a named-field list with no fields at all.
pub open spec fn shape_refused(shape: TypeShape) -> bool {
    match shape {
        TypeShape::NamedFields(raw) => raw@.len() == 0,
        TypeShape::UnnamedFields => true,
        TypeShape::UnitShape => true,
        TypeShape::SumShape => true,
        TypeShape::UnionShape => true,
    }
}

/// The error each refused shape is reported with.
pub open spec fn shape_error(shape: TypeShape) -> GenError
    recommends
        shape_refused(shape),
{
    match shape {
        TypeShape::NamedFields(_) => GenError::UnsupportedUnit,
        TypeShape::UnitShape => GenError::UnsupportedUnit,
        TypeShape::UnnamedFields => GenError::UnsupportedUnnamed,
        TypeShape::SumShape => GenError::UnsupportedSum,
        TypeShape::UnionShape => GenError::UnsupportedSum,
    }
}

/// The raw fields of a supported declaration: a product type with at least
/// one named field. Field-less, positional, sum and union shapes are each
/// refused before any field is read.
pub fn extract_fields(shape: TypeShape) -> (r: Result<Vec<RawField>, GenError>)
    ensures
        match r {
            Ok(fs) => {
                &&& shape matches TypeShape::NamedFields(raw)
                &&& fs == raw
                &&& fs@.len() > 0
            },
            Err(e) => shape_refused(shape) && e == shape_error(shape),
        },
{
    match shape {
        TypeShape::NamedFields(raw) => {
            if raw.len() > 0 {
                Ok(raw)
            } else {
                Err(GenError::UnsupportedUnit)
            }
        },
        TypeShape::UnitShape => Err(GenError::UnsupportedUnit),
        TypeShape::UnnamedFields => Err(GenError::UnsupportedUnnamed),
        TypeShape::SumShape => Err(GenError::UnsupportedSum),
        TypeShape::UnionShape => Err(GenError::UnsupportedSum),
    }
}

/// One storage slot of the builder type: named after the field and typed
/// optional-of-logical-type — a required field's `T` becomes `Option<T>`,
/// an optional field's `Option<T>` also becomes `Option<T>`, never
/// double-wrapped.
pub open spec fn slot_decl_text(f: FieldModel) -> Seq<char> {
    "    "@ + f.name + ": Option<"@ + f.logical + ">,\n"@
}

/// The slot declarations, one per field, in declaration order.
pub open spec fn slot_decls_text(fs: Seq<FieldModel>) -> Seq<char>
    decreases fs.len(),
{
    if fs.len() == 0 {
        Seq::empty()
    } else {
        slot_decls_text(fs.drop_last()) + slot_decl_text(fs.last())
    }
}

/// One absent-slot initializer of the factory method.
pub open spec fn init_slot_text(f: FieldModel) -> Seq<char> {
    "            "@ + f.name + ": None,\n"@
}

/// The absent-slot initializers, one per field, in declaration order.
pub open spec fn init_slots_text(fs: Seq<FieldModel>) -> Seq<char>
    decreases fs.len(),
{
    if fs.len() == 0 {
        Seq::empty()
    } else {
        init_slots_text(fs.drop_last()) + init_slot_text(fs.last())
    }
}

/// The setter methods, one per field, in declaration order.
pub open spec fn setters_text(fs: Seq<FieldModel>) -> Seq<char>
    decreases fs.len(),
{
    if fs.len() == 0 {
        Seq::empty()
    } else {
        setters_text(fs.drop_last()) + setter_text(fs.last())
    }
}

/// The build method's product-type literal lines, one per field, in
/// declaration order.
pub open spec fn build_fields_text(fs: Seq<FieldModel>) -> Seq<char>
    decreases fs.len(),
{
    if fs.len() == 0 {
        Seq::empty()
    } else {
        build_fields_text(fs.drop_last()) + build_field_text(fs.last())
    }
}

/// The builder type's definition.
pub open spec fn builder_definition_text(builder_name: Seq<char>, fs: Seq<FieldModel>) -> Seq<
    char,
> {
    "pub struct "@ + builder_name + " {\n"@ + slot_decls_text(fs) + "}\n"@
}

/// The factory: an associated `builder` function on the product type,
/// returning a builder whose every slot is absent.
pub open spec fn init_builder_text(
    name: Seq<char>,
    builder_name: Seq<char>,
    fs: Seq<FieldModel>,
) -> Seq<char> {
    "impl "@ + name + " {\n    pub fn builder() -> "@ + builder_name + " {\n        "@
        + builder_name + " {\n"@ + init_slots_text(fs) + "        }\n    }\n}\n"@
}

/// The fallible build method: takes every slot in declaration order and
/// either constructs the product type or fails on the first missing
/// required field.
pub open spec fn build_fn_text(name: Seq<char>, fs: Seq<FieldModel>) -> Seq<char> {
    "    pub fn build(&mut self) -> Result<"@ + name
        + ", Box<dyn ::std::error::Error>> {\n        Ok("@ + name + " {\n"@ + build_fields_text(
        fs,
    ) + "        })\n    }\n"@
}

/// The complete artifact: builder type, factory, and an impl holding the
/// setters and the build method.
pub open spec fn builder_emit_text(
    name: Seq<char>,
    builder_name: Seq<char>,
    fs: Seq<FieldModel>,
) -> Seq<char> {
    builder_definition_text(builder_name, fs) + "\n"@ + init_builder_text(name, builder_name, fs)
        + "\n"@ + "impl "@ + builder_name + " {\n"@ + setters_text(fs) + "\n"@ + build_fn_text(
        name,
        fs,
    ) + "}\n"@
}

/// The emitted slot block is the concatenation, in declaration order, of
/// exactly one slot declaration per field: the builder's slot order equals
/// the schema's field declaration order.
pub proof fn lemma_slot_order(fs: Seq<FieldModel>)
    ensures
        slot_decls_text(fs) == fs.map(|i: int, f: FieldModel| slot_decl_text(f)).flatten_alt(),
        fs.map(|i: int, f: FieldModel| slot_decl_text(f)).len() == fs.len(),
        forall|i: int|
            0 <= i < fs.len() ==> fs.map(|j: int, f: FieldModel| slot_decl_text(f))[i]
                == slot_decl_text(fs[i]),
    decreases fs.len(),
{
    let decls = fs.map(|i: int, f: FieldModel| slot_decl_text(f));
    if fs.len() == 0 {
        assert(slot_decls_text(fs) =~= decls.flatten_alt());
    } else {
        lemma_slot_order(fs.drop_last());
        assert(decls.drop_last() =~= fs.drop_last().map(|i: int, f: FieldModel| slot_decl_text(f)));
        assert(decls.flatten_alt() == decls.drop_last().flatten_alt() + decls.last());
        assert(slot_decls_text(fs) =~= decls.flatten_alt());
    }
}

/// Orchestrates classification and the per-field templates into the
/// emitted artifact for one product type.
pub struct BuilderEmitter {
    pub name: String,
    pub builder_name: String,
    pub fields: BuilderFields,
}

impl BuilderEmitter {
    /// The fields are classified soundly and the builder type's name is the
    /// product type's name with `Builder` appended.
    pub open spec fn wf(self) -> bool {
        &&& self.fields.wf()
        &&& self.builder_name@ == self.name@ + "Builder"@
    }

    /// Prepares emission for one schema: keeps the product type's name and
    /// its classified fields, and derives the builder type's name.
    pub fn new(name: String, fields: BuilderFields) -> (r: BuilderEmitter)
        ensures
            r.name == name,
            r.fields == fields,
            r.builder_name@ == name@ + "Builder"@,
    {
        let mut builder_name = name.clone();
        builder_name.append("Builder");
        BuilderEmitter { name, builder_name, fields }
    }

    /// Classifies a full declaration into an emitter. The declaration must
    /// be a product type with at least one named field, and every field's
    /// type must classify; the first offending condition aborts with its
    /// error, and nothing is emitted.
    pub fn from_decl(decl: TypeDecl) -> (r: Result<BuilderEmitter, GenError>)
        ensures
            match r {
                Ok(em) => {
                    &&& em.wf()
                    &&& decl.shape matches TypeShape::NamedFields(raw)
                    &&& raw@.len() > 0
                    &&& forall|i: int|
                        0 <= i < raw@.len() ==> (#[trigger] raw@[i].ty).classifiable()
                    &&& em.name == decl.name
                    &&& em.builder_name@ == decl.name@ + "Builder"@
                    &&& em.fields@ == raw@.map(|i: int, rf: RawField| raw_model(rf))
                },
                Err(e) => {
                    ||| shape_refused(decl.shape) && e == shape_error(decl.shape)
                    ||| {
                        &&& decl.shape matches TypeShape::NamedFields(raw)
                        &&& raw@.len() > 0
                        &&& exists|i: int| classify_failure(raw@, e, i)
                    }
                },
            },
    {
        let raw = match extract_fields(decl.shape) {
            Ok(fs) => fs,
            Err(e) => {
                return Err(e);
            },
        };
        let fields = match BuilderFields::new(raw) {
            Ok(bf) => bf,
            Err(e) => {
                return Err(e);
            },
        };
        Ok(BuilderEmitter::new(decl.name, fields))
    }

    /// Emits the factory: an impl on the product type whose `builder`
    /// function returns a builder with every slot absent.
    pub fn init_builder_tokens(&self) -> (r: String)
        ensures
            r@ == init_builder_text(self.name@, self.builder_name@, self.fields@),
    {
        let mut out = String::from_str("impl ");
        out.append(self.name.as_str());
        out.append(" {\n    pub fn builder() -> ");
        out.append(self.builder_name.as_str());
        out.append(" {\n        ");
        out.append(self.builder_name.as_str());
        out.append(" {\n");
        let ghost prefix = out@;
        let n = self.fields.fields.len();
        let mut i: usize = 0;
        while i < n
            invariant
                n == self.fields.fields@.len(),
                i <= n,
                out@ =~= prefix + init_slots_text(self.fields@.take(i as int)),
            decreases n - i,
        {
            let line = self.fields.fields[i].default_optional_field_tokens();
            out.append(line.as_str());
            proof {
                assert(self.fields@.take(i + 1).drop_last() =~= self.fields@.take(i as int));
                assert(self.fields@.take(i + 1).last() == self.fields@[i as int]);
                assert(out@ =~= prefix + init_slots_text(self.fields@.take(i + 1)));
            }
            i = i + 1;
        }
        out.append("        }\n    }\n}\n");
        proof {
            assert(self.fields@.take(n as int) =~= self.fields@);
            assert(out@ =~= init_builder_text(self.name@, self.builder_name@, self.fields@));
        }
        out
    }

    /// Emits the builder type's definition: one slot per field, in
    /// declaration order, each typed optional-of-logical-type.
    pub fn builder_definition_tokens(&self) -> (r: String)
        ensures
            r@ == builder_definition_text(self.builder_name@, self.fields@),
    {
        let mut out = String::from_str("pub struct ");
        out.append(self.builder_name.as_str());
        out.append(" {\n");
        let ghost prefix = out@;
        let n = self.fields.fields.len();
        let mut i: usize = 0;
        while i < n
            invariant
                n == self.fields.fields@.len(),
                i <= n,
                out@ =~= prefix + slot_decls_text(self.fields@.take(i as int)),
            decreases n - i,
        {
            let line = self.fields.fields[i].to_tokens_with_optional_type();
            out.append(line.as_str());
            proof {
                assert(self.fields@.take(i + 1).drop_last() =~= self.fields@.take(i as int));
                assert(self.fields@.take(i + 1).last() == self.fields@[i as int]);
                assert(out@ =~= prefix + slot_decls_text(self.fields@.take(i + 1)));
            }
            i = i + 1;
        }
        out.append("}\n");
        proof {
            assert(self.fields@.take(n as int) =~= self.fields@);
            assert(out@ =~= builder_definition_text(self.builder_name@, self.fields@));
        }
        out
    }

    /// Emits every field's setter, in declaration order.
    pub fn emit_setters(&self) -> (r: String)
        ensures
            r@ == setters_text(self.fields@),
    {
        let mut out = String::new();
        let n = self.fields.fields.len();
        let mut i: usize = 0;
        while i < n
            invariant
                n == self.fields.fields@.len(),
                i <= n,
                out@ =~= setters_text(self.fields@.take(i as int)),
            decreases n - i,
        {
            let setter = templates::emit_setter(&self.fields.fields[i]);
            out.append(setter.as_str());
            proof {
                assert(self.fields@.take(i + 1).drop_last() =~= self.fields@.take(i as int));
                assert(self.fields@.take(i + 1).last() == self.fields@[i as int]);
                assert(out@ =~= setters_text(self.fields@.take(i + 1)));
            }
            i = i + 1;
        }
        proof {
            assert(self.fields@.take(n as int) =~= self.fields@);
        }
        out
    }

    /// Emits the fallible build method: every slot is taken in declaration
    /// order, and the first missing required field fails the build with an
    /// error naming that field.
    pub fn emit_build_fn(&self) -> (r: String)
        ensures
            r@ == build_fn_text(self.name@, self.fields@),
    {
        let mut out = String::from_str("    pub fn build(&mut self) -> Result<");
        out.append(self.name.as_str());
        out.append(", Box<dyn ::std::error::Error>> {\n        Ok(");
        out.append(self.name.as_str());
        out.append(" {\n");
        let ghost prefix = out@;
        let n = self.fields.fields.len();
        let mut i: usize = 0;
        while i < n
            invariant
                n == self.fields.fields@.len(),
                i <= n,
                out@ =~= prefix + build_fields_text(self.fields@.take(i as int)),
            decreases n - i,
        {
            let line = templates::emit_build_field(&self.fields.fields[i]);
            out.append(line.as_str());
            proof {
                assert(self.fields@.take(i + 1).drop_last() =~= self.fields@.take(i as int));
                assert(self.fields@.take(i + 1).last() == self.fields@[i as int]);
                assert(out@ =~= prefix + build_fields_text(self.fields@.take(i + 1)));
            }
            i = i + 1;
        }
        out.append("        })\n    }\n");
        proof {
            assert(self.fields@.take(n as int) =~= self.fields@);
            assert(out@ =~= build_fn_text(self.name@, self.fields@));
        }
        out
    }

    /// Emits the complete artifact: the builder type's definition, the
    /// factory on the product type, and an impl on the builder holding the
    /// setters and the build method.
    pub fn builder_emit_tokens(&self) -> (r: String)
        ensures
            r@ == builder_emit_text(self.name@, self.builder_name@, self.fields@),
    {
        let builder_struct = self.builder_definition_tokens();
        let builder_fn = self.init_builder_tokens();
        let emitted_field_setters = self.emit_setters();
        let emitted_build_fn = self.emit_build_fn();
        let mut out = builder_struct;
        out.append("\n");
        out.append(builder_fn.as_str());
        out.append("\n");
        out.append("impl ");
        out.append(self.builder_name.as_str());
        out.append(" {\n");
        out.append(emitted_field_setters.as_str());
        out.append("\n");
        out.append(emitted_build_fn.as_str());
        out.append("}\n");
        proof {
            assert(out@ =~= builder_emit_text(self.name@, self.builder_name@, self.fields@));
        }
        out
    }
}

} // verus!

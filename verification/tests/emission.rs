use builder::builder::{BuilderEmitter, BuilderFields, BuilderField, extract_fields};
use builder::types::{GenError, GenericArg, RawField, TypeDecl, TypeExpr, TypeHead, TypeShape};
use builder::util::{get_non_optional_type, is_option};

fn simple_type(name: &str) -> TypeExpr {
    TypeExpr {
        head: TypeHead::PathHead(name.to_string(), None),
        text: name.to_string(),
    }
}

fn option_of(inner: TypeExpr) -> TypeExpr {
    let text = format!("Option<{}>", inner.text);
    TypeExpr {
        head: TypeHead::PathHead(
            "Option".to_string(),
            Some(vec![GenericArg::TypeArg(Box::new(inner))]),
        ),
        text,
    }
}

fn raw_field(name: &str, ty: TypeExpr) -> RawField {
    RawField { name: name.to_string(), ty }
}

/// The concrete scenario schema: `executable: String` (required) and
/// `args: Option<List<String>>` (optional) on a type named `Command`.
fn command_decl() -> TypeDecl {
    TypeDecl {
        name: "Command".to_string(),
        shape: TypeShape::NamedFields(vec![
            raw_field("executable", simple_type("String")),
            raw_field("args", option_of(simple_type("List<String>"))),
        ]),
    }
}

fn command_emitter() -> BuilderEmitter {
    BuilderEmitter::from_decl(command_decl()).unwrap()
}

#[test]
fn full_artifact_for_command_schema() {
    let artifact = builder::derive(command_decl()).unwrap();
    let expected = "pub struct CommandBuilder {\n    executable: Option<String>,\n    args: Option<List<String>>,\n}\n\nimpl Command {\n    pub fn builder() -> CommandBuilder {\n        CommandBuilder {\n            executable: None,\n            args: None,\n        }\n    }\n}\n\nimpl CommandBuilder {\n    fn executable(&mut self, value: String) -> &mut Self {\n        self.executable = Some(value);\n        self\n    }\n    fn args(&mut self, value: List<String>) -> &mut Self {\n        self.args = Some(value);\n        self\n    }\n\n    pub fn build(&mut self) -> Result<Command, Box<dyn ::std::error::Error>> {\n        Ok(Command {\n            executable: self.executable.take().ok_or(\"field executable is required\")?,\n            args: self.args.take(),\n        })\n    }\n}\n";
    assert_eq!(artifact, expected);
}

#[test]
fn setter_parameter_is_unwrapped_type_for_optional_field() {
    let em = command_emitter();
    let setters = em.emit_setters();
    // the optional field's setter takes the inner type, not Option<...>
    assert!(setters.contains("fn args(&mut self, value: List<String>) -> &mut Self"));
    assert!(!setters.contains("value: Option<List<String>>"));
}

#[test]
fn setter_parameter_is_declared_type_for_required_field() {
    let em = command_emitter();
    let setters = em.emit_setters();
    assert!(setters.contains("fn executable(&mut self, value: String) -> &mut Self"));
}

#[test]
fn slot_order_equals_declaration_order() {
    let decl = TypeDecl {
        name: "Triple".to_string(),
        shape: TypeShape::NamedFields(vec![
            raw_field("first", simple_type("u32")),
            raw_field("second", option_of(simple_type("bool"))),
            raw_field("third", simple_type("String")),
        ]),
    };
    let em = BuilderEmitter::from_decl(decl).unwrap();
    let definition = em.builder_definition_tokens();
    let expected = "pub struct TripleBuilder {\n    first: Option<u32>,\n    second: Option<bool>,\n    third: Option<String>,\n}\n";
    assert_eq!(definition, expected);
}

#[test]
fn factory_initializes_every_slot_absent() {
    let em = command_emitter();
    let factory = em.init_builder_tokens();
    let expected = "impl Command {\n    pub fn builder() -> CommandBuilder {\n        CommandBuilder {\n            executable: None,\n            args: None,\n        }\n    }\n}\n";
    assert_eq!(factory, expected);
}

#[test]
fn build_fn_guards_required_fields_only() {
    let em = command_emitter();
    let build_fn = em.emit_build_fn();
    assert!(build_fn.contains(
        "executable: self.executable.take().ok_or(\"field executable is required\")?,"
    ));
    assert!(build_fn.contains("args: self.args.take(),"));
    assert!(!build_fn.contains("args: self.args.take()."));
}

#[test]
fn builder_name_appends_builder() {
    let fields = BuilderFields::new(vec![raw_field("x", simple_type("u8"))]).unwrap();
    let em = BuilderEmitter::new("Point".to_string(), fields);
    assert_eq!(em.builder_name, "Point".to_string() + "Builder");
}

#[test]
fn classification_records_optionality_and_logical_type() {
    let f = BuilderField::new(raw_field("args", option_of(simple_type("List<String>")))).unwrap();
    assert!(f.optional);
    assert_eq!(f.logical_ty.text, "List<String>");
    assert_eq!(f.ty.text, "Option<List<String>>");
    let g = BuilderField::new(raw_field("executable", simple_type("String"))).unwrap();
    assert!(!g.optional);
    assert_eq!(g.logical_ty.text, "String");
}

#[test]
fn slot_is_never_double_wrapped() {
    let optional = BuilderField::new(raw_field("args", option_of(simple_type("List<String>"))))
        .unwrap();
    // the optional field's declared Option<...> stays a single Option
    assert_eq!(optional.to_tokens_with_optional_type(), "    args: Option<List<String>>,\n");
    assert_eq!(optional.default_optional_field_tokens(), "            args: None,\n");
    let required = BuilderField::new(raw_field("executable", simple_type("String"))).unwrap();
    assert_eq!(
        required.to_tokens_with_optional_type(),
        "    executable: Option<String>,\n"
    );
}

#[test]
fn unwrap_returns_inner_type_unchanged() {
    let ty = option_of(simple_type("String"));
    let inner = get_non_optional_type(&ty).unwrap();
    assert_eq!(inner.text, "String");
}

#[test]
fn unwrap_refuses_other_head_symbols() {
    let ty = TypeExpr {
        head: TypeHead::PathHead(
            "Vec".to_string(),
            Some(vec![GenericArg::TypeArg(Box::new(simple_type("u8")))]),
        ),
        text: "Vec<u8>".to_string(),
    };
    assert_eq!(get_non_optional_type(&ty).unwrap_err(), GenError::NotOption);
}

#[test]
fn unwrap_refuses_bare_option() {
    let ty = simple_type("Option");
    assert_eq!(get_non_optional_type(&ty).unwrap_err(), GenError::NoAngleBrackets);
}

#[test]
fn unwrap_refuses_missing_type_argument() {
    let empty = TypeExpr {
        head: TypeHead::PathHead("Option".to_string(), Some(vec![])),
        text: "Option<>".to_string(),
    };
    assert_eq!(get_non_optional_type(&empty).unwrap_err(), GenError::NoTypeArgument);
    let lifetime_only = TypeExpr {
        head: TypeHead::PathHead("Option".to_string(), Some(vec![GenericArg::NonTypeArg])),
        text: "Option<'a>".to_string(),
    };
    assert_eq!(get_non_optional_type(&lifetime_only).unwrap_err(), GenError::NoTypeArgument);
}

#[test]
fn optionality_is_nominal_on_the_first_segment() {
    assert!(is_option(&option_of(simple_type("String"))));
    assert!(is_option(&simple_type("Option")));
    // a fully qualified path starts with `std`, so it is not recognized —
    // the documented nominal-matching limitation
    let qualified = TypeExpr {
        head: TypeHead::PathHead("std".to_string(), None),
        text: "std::option::Option<String>".to_string(),
    };
    assert!(!is_option(&qualified));
    // a non-path type is never optional
    let tuple = TypeExpr {
        head: TypeHead::NonPath,
        text: "(u8, u8)".to_string(),
    };
    assert!(!is_option(&tuple));
}

#[test]
fn zero_field_schema_aborts_generation() {
    let decl = TypeDecl {
        name: "Empty".to_string(),
        shape: TypeShape::NamedFields(vec![]),
    };
    assert_eq!(builder::derive(decl).unwrap_err(), GenError::UnsupportedUnit);
}

#[test]
fn unit_shape_aborts_generation() {
    let decl = TypeDecl { name: "Unit".to_string(), shape: TypeShape::UnitShape };
    assert_eq!(builder::derive(decl).unwrap_err(), GenError::UnsupportedUnit);
}

#[test]
fn sum_and_union_shapes_abort_generation() {
    let sum = TypeDecl { name: "Either".to_string(), shape: TypeShape::SumShape };
    assert_eq!(builder::derive(sum).unwrap_err(), GenError::UnsupportedSum);
    let union_like = TypeDecl { name: "Raw".to_string(), shape: TypeShape::UnionShape };
    assert_eq!(builder::derive(union_like).unwrap_err(), GenError::UnsupportedSum);
}

#[test]
fn unnamed_fields_abort_generation() {
    let decl = TypeDecl { name: "Pair".to_string(), shape: TypeShape::UnnamedFields };
    assert_eq!(builder::derive(decl).unwrap_err(), GenError::UnsupportedUnnamed);
    assert_eq!(extract_fields(TypeShape::UnnamedFields).unwrap_err(), GenError::UnsupportedUnnamed);
}

#[test]
fn malformed_optional_wrapper_aborts_generation() {
    let decl = TypeDecl {
        name: "Broken".to_string(),
        shape: TypeShape::NamedFields(vec![
            raw_field("ok", simple_type("u8")),
            raw_field("bad", simple_type("Option")),
        ]),
    };
    assert_eq!(builder::derive(decl).unwrap_err(), GenError::NoAngleBrackets);
}

#[test]
fn error_messages_are_descriptive() {
    assert_eq!(
        GenError::UnsupportedUnit.message(),
        "unit-shaped types are not supported"
    );
    assert_eq!(
        GenError::UnsupportedSum.message(),
        "sum/union-shaped types are not supported"
    );
    assert_eq!(
        GenError::UnsupportedUnnamed.message(),
        "types with unnamed fields are not supported"
    );
    assert_eq!(
        GenError::NoAngleBrackets.message(),
        "the Option type carries no angle-bracketed arguments"
    );
}

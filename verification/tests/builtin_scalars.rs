use relay_docblock::builtin_scalars::{
    add_built_in_scalars, builtin_scalar_set, remove_built_in_scalars,
};
use relay_docblock::schema_set::{SchemaSet, SetComposite, SetScalar, SetType};

// An empty set is what taking the built-in scalars out of a schema relies
// on.
#[test]
fn test_schema_set_new_is_empty() {
    let set = SchemaSet::new();
    assert!(set.root_schema.query_type.is_none());
    assert!(set.root_schema.mutation_type.is_none());
    assert!(set.root_schema.subscription_type.is_none());
    assert!(set.directives.is_empty());
    assert!(set.types.is_empty());
}

#[test]
fn test_builtin_scalar_set_contains_only_scalars() {
    let set = builtin_scalar_set();
    assert!(set.types.contains_key("String"));
    assert!(set.types.contains_key("Int"));
    assert!(set.types.contains_key("Float"));
    assert!(set.types.contains_key("Boolean"));
    assert!(set.types.contains_key("ID"));
    assert_eq!(set.types.len(), 5);

    assert!(set.root_schema.query_type.is_none());
    assert!(set.root_schema.mutation_type.is_none());
    assert!(set.root_schema.subscription_type.is_none());

    assert!(set.directives.is_empty());
}

#[test]
fn test_add_built_in_scalars() {
    let mut schema_set = SchemaSet::new();
    assert!(!schema_set.types.contains_key("String"));

    add_built_in_scalars(&mut schema_set);

    assert!(schema_set.types.contains_key("String"));
    assert!(schema_set.types.contains_key("Int"));
    assert!(schema_set.types.contains_key("Float"));
    assert!(schema_set.types.contains_key("Boolean"));
    assert!(schema_set.types.contains_key("ID"));
}

fn scalar(name: &str, directives: Vec<String>) -> SetType {
    SetType::Scalar(SetScalar {
        name: name.to_string(),
        directives,
        definition: None,
    })
}

#[test]
fn add_built_in_scalars_keeps_what_is_there() {
    let mut schema_set = SchemaSet::new();
    schema_set.add_type(scalar("String", vec!["custom".to_string()]));
    add_built_in_scalars(&mut schema_set);
    assert_eq!(schema_set.types.len(), 5);
    match schema_set.types.get("String").unwrap() {
        SetType::Scalar(found) => assert_eq!(found.directives, vec!["custom".to_string()]),
        _ => panic!("expected a scalar"),
    }
    assert_eq!(schema_set.types.at(0).name(), "String");
    assert_eq!(schema_set.types.at(1).name(), "Int");
}

// A schema with the built-in scalars and an empty `Query` type: a type
// without fields that is not a built-in scalar must stay.
#[test]
fn test_remove_built_in_scalars_from_parsed_schema() {
    let mut schema_set = SchemaSet::new();
    for name in ["String", "Int", "Float", "Boolean", "ID"] {
        schema_set.add_type(scalar(name, vec![]));
    }
    schema_set.add_type(SetType::Object(SetComposite {
        name: "Query".to_string(),
        directives: vec![],
        definition: None,
    }));
    assert_eq!(schema_set.types.len(), 6); // 5 scalars + Query

    let without_builtins = remove_built_in_scalars(&schema_set);

    assert_eq!(without_builtins.types.len(), 1);
    assert!(without_builtins.types.contains_key("Query"));
    assert!(!without_builtins.types.contains_key("String"));
    assert!(!without_builtins.types.contains_key("Int"));
    assert!(!without_builtins.types.contains_key("Float"));
    assert!(!without_builtins.types.contains_key("Boolean"));
    assert!(!without_builtins.types.contains_key("ID"));

    let sdl = without_builtins.to_sdl_definition();
    assert!(sdl.contains("type Query"), "SDL should contain Query");
    assert!(
        !sdl.contains("scalar String"),
        "SDL should not contain scalar String"
    );
    assert_eq!(sdl, "type Query\n");
    assert_eq!(
        schema_set.to_sdl_definition(),
        "scalar String\nscalar Int\nscalar Float\nscalar Boolean\nscalar ID\ntype Query\n"
    );
}

#[test]
fn remove_built_in_scalars_keeps_a_scalar_with_directives() {
    let mut schema_set = SchemaSet::new();
    schema_set.add_type(scalar("ID", vec!["custom".to_string()]));
    schema_set.add_type(scalar("Int", vec![]));
    schema_set.add_type(scalar("Date", vec![]));
    let without_builtins = remove_built_in_scalars(&schema_set);
    assert_eq!(without_builtins.types.len(), 2);
    assert!(without_builtins.types.contains_key("ID"));
    assert!(without_builtins.types.contains_key("Date"));
}

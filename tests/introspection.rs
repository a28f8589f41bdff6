use graphql_introspection::ast::{get_field_type, get_named_type, get_root_query_type, get_type_name};
use graphql_introspection::describe::{type_definition_object, type_object};
use graphql_introspection::error::IntrospectionError;
use graphql_introspection::introspection::{
    introspection_field, resolve_object_value, resolve_object_values, IntrospectionField, ResolutionContext,
};
use graphql_introspection::schema::{
    Definition, DirectiveDefinition, DirectiveLocation, Document, EnumType, EnumValue, Field, InputObjectType,
    InputValue, InterfaceType, ObjectType, ScalarType, TypeDefinition, TypeRef, UnionType,
};
use graphql_introspection::value::Value;

fn named(n: &str) -> TypeRef {
    TypeRef::Named(n.to_string())
}

fn list(t: TypeRef) -> TypeRef {
    TypeRef::List(Box::new(t))
}

fn non_null(t: TypeRef) -> TypeRef {
    TypeRef::NonNull(Box::new(t))
}

fn field(name: &str, ty: TypeRef) -> Field {
    Field { name: name.to_string(), description: None, arguments: vec![], field_type: ty }
}

fn scalar(name: &str) -> Definition {
    Definition::Type(TypeDefinition::Scalar(ScalarType { name: name.to_string(), description: None }))
}

fn object(name: &str, interfaces: &[&str], fields: Vec<Field>) -> Definition {
    Definition::Type(TypeDefinition::Object(ObjectType {
        name: name.to_string(),
        description: None,
        implements_interfaces: interfaces.iter().map(|s| s.to_string()).collect(),
        fields,
    }))
}

fn interface(name: &str, fields: Vec<Field>) -> Definition {
    Definition::Type(TypeDefinition::Interface(InterfaceType { name: name.to_string(), description: None, fields }))
}

fn enumeration(name: &str, values: &[&str]) -> Definition {
    Definition::Type(TypeDefinition::Enum(EnumType {
        name: name.to_string(),
        description: None,
        values: values.iter().map(|v| EnumValue { name: v.to_string(), description: None }).collect(),
    }))
}

fn union(name: &str, members: &[&str]) -> Definition {
    Definition::Type(TypeDefinition::Union(UnionType {
        name: name.to_string(),
        description: None,
        types: members.iter().map(|s| s.to_string()).collect(),
    }))
}

fn input_object(name: &str, fields: Vec<InputValue>) -> Definition {
    Definition::Type(TypeDefinition::InputObject(InputObjectType { name: name.to_string(), description: None, fields }))
}

fn arg(name: &str, ty: TypeRef, default: Option<&str>) -> InputValue {
    InputValue {
        name: name.to_string(),
        description: None,
        value_type: ty,
        default_value: default.map(|d| d.to_string()),
    }
}

fn builtin_scalars() -> Vec<Definition> {
    vec![scalar("Boolean"), scalar("Int"), scalar("ID"), scalar("String")]
}

fn doc(mut defs: Vec<Definition>) -> Document {
    let mut all = builtin_scalars();
    all.append(&mut defs);
    Document { definitions: all }
}

fn get<'a>(v: &'a Value, key: &str) -> &'a Value {
    match v {
        Value::Object(entries) => {
            &entries.iter().find(|(k, _)| k == key).unwrap_or_else(|| panic!("no key {}", key)).1
        },
        _ => panic!("not an object: {:?}", v),
    }
}

fn keys(v: &Value) -> Vec<&str> {
    match v {
        Value::Object(entries) => entries.iter().map(|(k, _)| k.as_str()).collect(),
        _ => panic!("not an object: {:?}", v),
    }
}

fn items(v: &Value) -> &Vec<Value> {
    match v {
        Value::List(items) => items,
        _ => panic!("not a list: {:?}", v),
    }
}

fn s(x: &str) -> Value {
    Value::String(x.to_string())
}

fn e(x: &str) -> Value {
    Value::Enum(x.to_string())
}

fn type_ctx(name: &str) -> ResolutionContext {
    ResolutionContext::Type(named(name))
}

fn type_by_name(schema: &Document, name: &str) -> Result<Value, IntrospectionError> {
    let args = vec![("name".to_string(), s(name))];
    resolve_object_value(schema, &ResolutionContext::Root, "__type", "__Type", &args)
}

fn values(schema: &Document, ctx: &ResolutionContext, field_name: &str, object_name: &str) -> Vec<Value> {
    match resolve_object_values(schema, ctx, field_name, object_name).unwrap() {
        Value::List(items) => items,
        other => panic!("not a list: {:?}", other),
    }
}

#[test]
fn root_query_type_is_found() {
    let schema = doc(vec![object("Query", &[], vec![field("id", non_null(named("ID")))])]);
    let t = get_root_query_type(&schema).expect("a Query type");
    assert_eq!(t.name, "Query");
    let q = resolve_object_value(&schema, &ResolutionContext::Root, "queryType", "__Type", &vec![]).unwrap();
    assert_eq!(get(&q, "name"), &s("Query"));
    assert_eq!(get(&q, "kind"), &e("OBJECT"));
}

#[test]
fn root_query_type_absent_is_none() {
    let schema = doc(vec![object("Widget", &[], vec![])]);
    assert!(get_root_query_type(&schema).is_none());
    let q = resolve_object_value(&schema, &ResolutionContext::Root, "queryType", "__Type", &vec![]).unwrap();
    assert_eq!(q, Value::Null);
}

#[test]
fn root_query_type_skips_non_objects() {
    let schema = doc(vec![scalar("Query"), object("Query", &[], vec![field("x", named("Int"))])]);
    let t = get_root_query_type(&schema).expect("a Query object");
    assert_eq!(t.fields.len(), 1);
}

#[test]
fn mutation_type_is_null_without_mutation_root() {
    let schema = doc(vec![object("Query", &[], vec![])]);
    let m = resolve_object_value(&schema, &ResolutionContext::Root, "mutationType", "__Type", &vec![]).unwrap();
    assert_eq!(m, Value::Null);
}

#[test]
fn mutation_type_is_found() {
    let schema = doc(vec![object("Query", &[], vec![]), object("Mutation", &[], vec![])]);
    let m = resolve_object_value(&schema, &ResolutionContext::Root, "mutationType", "__Type", &vec![]).unwrap();
    assert_eq!(get(&m, "name"), &s("Mutation"));
}

#[test]
fn schema_object_has_placeholders() {
    let schema = doc(vec![]);
    let v = resolve_object_value(&schema, &ResolutionContext::Root, "__schema", "__Schema", &vec![]).unwrap();
    let expected = Value::Object(vec![
        ("queryType".to_string(), Value::Null),
        ("mutationType".to_string(), Value::Null),
        ("types".to_string(), Value::Null),
        ("directives".to_string(), Value::Null),
    ]);
    assert_eq!(v, expected);
}

#[test]
fn widget_listed_among_types_with_its_field() {
    let schema = doc(vec![object("Widget", &[], vec![field("id", non_null(named("ID")))])]);
    let types = values(&schema, &ResolutionContext::Root, "types", "__Type");
    assert_eq!(types.len(), 5);
    let widget = types.iter().find(|t| get(t, "name") == &s("Widget")).expect("Widget listed");
    assert_eq!(get(widget, "kind"), &e("OBJECT"));
    let fields = values(&schema, &type_ctx("Widget"), "fields", "__Field");
    assert_eq!(fields.len(), 1);
    assert_eq!(get(&fields[0], "name"), &s("id"));
    let ty = get(&fields[0], "type");
    assert_eq!(get(ty, "kind"), &e("NON_NULL"));
    assert_eq!(keys(ty), vec!["kind", "ofType"]);
    let inner = get(ty, "ofType");
    assert_eq!(get(inner, "kind"), &e("SCALAR"));
    assert_eq!(get(inner, "name"), &s("ID"));
}

#[test]
fn kind_matches_each_category() {
    let schema = doc(vec![
        object("O", &["I"], vec![field("a", named("Int"))]),
        interface("I", vec![field("a", named("Int"))]),
        union("U", &["O"]),
        enumeration("E", &["X"]),
        input_object("In", vec![arg("a", named("Int"), None)]),
    ]);
    for (name, kind) in [
        ("O", "OBJECT"),
        ("I", "INTERFACE"),
        ("U", "UNION"),
        ("E", "ENUM"),
        ("Int", "SCALAR"),
        ("In", "INPUT_OBJECT"),
    ] {
        let t = type_by_name(&schema, name).unwrap();
        assert_eq!(get(&t, "kind"), &e(kind));
        assert_eq!(get(&t, "name"), &s(name));
    }
}

#[test]
fn unknown_type_name_is_null() {
    let schema = doc(vec![object("Query", &[], vec![])]);
    assert_eq!(type_by_name(&schema, "DoesNotExist"), Ok(Value::Null));
}

#[test]
fn type_without_name_argument_is_null() {
    let schema = doc(vec![object("Query", &[], vec![])]);
    let r = resolve_object_value(&schema, &ResolutionContext::Root, "__type", "__Type", &vec![]).unwrap();
    assert_eq!(r, Value::Null);
}

#[test]
fn fields_keep_declaration_order() {
    let schema = doc(vec![object(
        "T",
        &[],
        vec![field("a", named("Int")), field("b", named("String")), field("c", named("ID"))],
    )]);
    let fields = values(&schema, &type_ctx("T"), "fields", "__Field");
    let names: Vec<&Value> = fields.iter().map(|f| get(f, "name")).collect();
    assert_eq!(names, vec![&s("a"), &s("b"), &s("c")]);
    assert_eq!(get(&fields[0], "isDeprecated"), &Value::Boolean(false));
    assert_eq!(get(&fields[0], "deprecationReason"), &Value::Null);
    assert_eq!(get(&fields[0], "args"), &Value::Null);
}

#[test]
fn interface_fields_are_listed() {
    let schema = doc(vec![interface("I", vec![field("x", named("Int")), field("y", named("Int"))])]);
    let fields = values(&schema, &type_ctx("I"), "fields", "__Field");
    assert_eq!(fields.len(), 2);
    assert_eq!(get(&fields[1], "name"), &s("y"));
}

#[test]
fn wrappers_render_outermost_first() {
    let schema = doc(vec![]);
    let t = type_object(&schema, &non_null(list(non_null(named("String"))))).unwrap();
    assert_eq!(get(&t, "kind"), &e("NON_NULL"));
    assert_eq!(keys(&t), vec!["kind", "ofType"]);
    let l = get(&t, "ofType");
    assert_eq!(get(l, "kind"), &e("LIST"));
    assert_eq!(keys(l), vec!["kind", "ofType"]);
    let nn = get(l, "ofType");
    assert_eq!(get(nn, "kind"), &e("NON_NULL"));
    assert_eq!(keys(nn), vec!["kind", "ofType"]);
    let leaf = get(nn, "ofType");
    assert_eq!(get(leaf, "kind"), &e("SCALAR"));
    assert_eq!(get(leaf, "name"), &s("String"));
    assert_eq!(get(leaf, "ofType"), &Value::Null);
}

#[test]
fn of_type_continues_from_context() {
    let schema = doc(vec![]);
    let ctx = ResolutionContext::Type(list(named("Int")));
    let v = resolve_object_value(&schema, &ctx, "ofType", "__Type", &vec![]).unwrap();
    assert_eq!(get(&v, "name"), &s("Int"));
    let named_ctx = type_ctx("Int");
    let v = resolve_object_value(&schema, &named_ctx, "ofType", "__Type", &vec![]).unwrap();
    assert_eq!(v, Value::Null);
}

#[test]
fn possible_types_of_interface_are_its_implementors() {
    let schema = doc(vec![
        interface("Node", vec![field("id", named("ID"))]),
        object("A", &["Node"], vec![field("id", named("ID"))]),
        object("B", &[], vec![]),
        object("C", &["Other", "Node"], vec![field("id", named("ID"))]),
    ]);
    let types = values(&schema, &type_ctx("Node"), "possibleTypes", "__Type");
    let names: Vec<&Value> = types.iter().map(|t| get(t, "name")).collect();
    assert_eq!(names, vec![&s("A"), &s("C")]);
    assert_eq!(get(&types[0], "interfaces"), &Value::Null);
}

#[test]
fn possible_types_of_union_are_its_members() {
    let schema = doc(vec![object("A", &[], vec![]), object("B", &[], vec![]), union("U", &["B", "A"])]);
    let types = values(&schema, &type_ctx("U"), "possibleTypes", "__Type");
    let names: Vec<&Value> = types.iter().map(|t| get(t, "name")).collect();
    assert_eq!(names, vec![&s("B"), &s("A")]);
}

#[test]
fn interfaces_of_object_in_order() {
    let schema = doc(vec![
        interface("X", vec![]),
        interface("Y", vec![]),
        object("A", &["Y", "X"], vec![]),
    ]);
    let types = values(&schema, &type_ctx("A"), "interfaces", "__Type");
    let names: Vec<&Value> = types.iter().map(|t| get(t, "name")).collect();
    assert_eq!(names, vec![&s("Y"), &s("X")]);
    assert_eq!(get(&types[0], "kind"), &e("INTERFACE"));
}

#[test]
fn enum_values_keep_order_and_are_not_deprecated() {
    let schema = doc(vec![enumeration("Color", &["RED", "GREEN", "BLUE"])]);
    let vals = values(&schema, &type_ctx("Color"), "enumValues", "__EnumValue");
    let names: Vec<&Value> = vals.iter().map(|v| get(v, "name")).collect();
    assert_eq!(names, vec![&s("RED"), &s("GREEN"), &s("BLUE")]);
    for v in &vals {
        assert_eq!(get(v, "isDeprecated"), &Value::Boolean(false));
        assert_eq!(get(v, "deprecationReason"), &Value::Null);
    }
}

#[test]
fn input_fields_render_default_values() {
    let schema = doc(vec![input_object(
        "Filter",
        vec![arg("first", named("Int"), Some("100")), arg("skip", non_null(named("Int")), None)],
    )]);
    let vals = values(&schema, &type_ctx("Filter"), "inputFields", "__InputValue");
    assert_eq!(vals.len(), 2);
    assert_eq!(get(&vals[0], "defaultValue"), &s("100"));
    assert_eq!(get(&vals[1], "defaultValue"), &Value::Null);
    assert_eq!(get(get(&vals[1], "type"), "kind"), &e("NON_NULL"));
}

#[test]
fn args_found_through_field_context() {
    let mut f = field("items", list(named("String")));
    f.arguments = vec![arg("first", named("Int"), Some("10")), arg("where", named("String"), None)];
    let schema = doc(vec![object("Query", &[], vec![f])]);
    let ctx = ResolutionContext::Field { parent_type: "Query".to_string(), field_name: "items".to_string() };
    let args = values(&schema, &ctx, "args", "__InputValue");
    let names: Vec<&Value> = args.iter().map(|a| get(a, "name")).collect();
    assert_eq!(names, vec![&s("first"), &s("where")]);
    let missing = ResolutionContext::Field { parent_type: "Query".to_string(), field_name: "nope".to_string() };
    assert_eq!(resolve_object_values(&schema, &missing, "args", "__InputValue"), Ok(Value::Null));
}

#[test]
fn list_fields_on_other_kinds_are_null() {
    let schema = doc(vec![enumeration("E", &["A"])]);
    assert_eq!(resolve_object_values(&schema, &type_ctx("E"), "fields", "__Field"), Ok(Value::Null));
    assert_eq!(resolve_object_values(&schema, &ResolutionContext::Root, "fields", "__Field"), Ok(Value::Null));
    let wrapped = ResolutionContext::Type(list(named("E")));
    assert_eq!(resolve_object_values(&schema, &wrapped, "enumValues", "__EnumValue"), Ok(Value::Null));
}

#[test]
fn directives_render_locations_and_args() {
    let schema = doc(vec![Definition::Directive(DirectiveDefinition {
        name: "skip".to_string(),
        description: Some("Skips a field".to_string()),
        arguments: vec![arg("if", non_null(named("Boolean")), None)],
        locations: vec![DirectiveLocation::Field, DirectiveLocation::InlineFragment],
    })]);
    let ds = values(&schema, &ResolutionContext::Root, "directives", "__Directive");
    assert_eq!(ds.len(), 1);
    assert_eq!(get(&ds[0], "name"), &s("skip"));
    assert_eq!(get(&ds[0], "description"), &s("Skips a field"));
    assert_eq!(get(&ds[0], "locations"), &Value::List(vec![e("FIELD"), e("INLINE_FRAGMENT")]));
    let args = items(get(&ds[0], "args"));
    assert_eq!(get(&args[0], "name"), &s("if"));
}

#[test]
fn directive_location_spelling() {
    assert_eq!(DirectiveLocation::FragmentDefinition.as_str(), "FRAGMENT_DEFINITION");
    assert_eq!(DirectiveLocation::InputFieldDefinition.as_str(), "INPUT_FIELD_DEFINITION");
}

#[test]
fn undefined_field_type_is_schema_inconsistency() {
    let schema = doc(vec![object("T", &[], vec![field("a", named("Int")), field("b", list(named("Missing")))])]);
    let r = resolve_object_values(&schema, &type_ctx("T"), "fields", "__Field");
    assert_eq!(r, Err(IntrospectionError::SchemaInconsistency("Missing".to_string())));
}

#[test]
fn undefined_context_type_is_schema_inconsistency() {
    let schema = doc(vec![]);
    let r = resolve_object_values(&schema, &type_ctx("Gone"), "fields", "__Field");
    assert_eq!(r, Err(IntrospectionError::SchemaInconsistency("Gone".to_string())));
}

#[test]
fn unknown_pair_is_unhandled_field() {
    let schema = doc(vec![]);
    let r = resolve_object_value(&schema, &ResolutionContext::Root, "bogus", "__Type", &vec![]);
    assert_eq!(
        r,
        Err(IntrospectionError::UnhandledIntrospectionField {
            field_name: "bogus".to_string(),
            object_name: "__Type".to_string()
        })
    );
    assert!(r.unwrap_err().is_internal());
}

#[test]
fn list_field_asked_as_single_value_is_unhandled() {
    let schema = doc(vec![]);
    let r = resolve_object_value(&schema, &ResolutionContext::Root, "types", "__Type", &vec![]);
    assert!(matches!(r, Err(IntrospectionError::UnhandledIntrospectionField { .. })));
    let r = resolve_object_values(&schema, &ResolutionContext::Root, "queryType", "__Type");
    assert!(matches!(r, Err(IntrospectionError::UnhandledIntrospectionField { .. })));
}

#[test]
fn field_pairs_map_to_fields() {
    assert_eq!(introspection_field("possibleTypes", "__Type"), Ok(IntrospectionField::PossibleTypes));
    assert_eq!(introspection_field("args", "__InputValue"), Ok(IntrospectionField::Args));
    assert!(introspection_field("args", "__Type").is_err());
    assert!(IntrospectionField::Fields.is_plural());
    assert!(!IntrospectionField::OfType.is_plural());
}

#[test]
fn resolution_twice_gives_identical_trees() {
    let schema = doc(vec![
        object("Query", &["Node"], vec![field("id", non_null(named("ID")))]),
        interface("Node", vec![field("id", non_null(named("ID")))]),
    ]);
    let a = values(&schema, &ResolutionContext::Root, "types", "__Type");
    let b = values(&schema, &ResolutionContext::Root, "types", "__Type");
    assert_eq!(a, b);
    let f1 = values(&schema, &type_ctx("Query"), "fields", "__Field");
    let f2 = values(&schema, &type_ctx("Query"), "fields", "__Field");
    assert_eq!(f1, f2);
}

#[test]
fn lookups_by_name() {
    let schema = doc(vec![object("A", &[], vec![field("x", named("Int")), field("x", named("String"))])]);
    let a = get_named_type(&schema, &"A".to_string()).expect("A");
    assert_eq!(get_type_name(a), "A");
    assert!(get_named_type(&schema, &"B".to_string()).is_none());
    match a {
        TypeDefinition::Object(ot) => {
            let f = get_field_type(ot, &"x".to_string()).expect("x");
            assert_eq!(f.field_type, named("Int"));
            assert!(get_field_type(ot, &"y".to_string()).is_none());
        },
        _ => panic!("not an object"),
    }
}

#[test]
fn first_definition_wins_for_duplicate_names() {
    let schema = doc(vec![scalar("Dup"), object("Dup", &[], vec![])]);
    let t = type_definition_object(get_named_type(&schema, &"Dup".to_string()).unwrap());
    assert_eq!(get(&t, "kind"), &e("SCALAR"));
}

#[test]
fn description_is_rendered() {
    let schema = Document {
        definitions: vec![Definition::Type(TypeDefinition::Scalar(ScalarType {
            name: "Date".to_string(),
            description: Some("A calendar day".to_string()),
        }))],
    };
    let t = type_by_name(&schema, "Date").unwrap();
    assert_eq!(get(&t, "description"), &s("A calendar day"));
}

#[test]
fn types_hold_meta_types_only_when_merged() {
    let plain = doc(vec![object("Query", &[], vec![])]);
    let types = values(&plain, &ResolutionContext::Root, "types", "__Type");
    assert!(types.iter().all(|t| get(t, "name") != &s("__Type")));
    let merged = doc(vec![
        object("Query", &[], vec![]),
        object("__Type", &[], vec![field("name", named("String"))]),
    ]);
    let types = values(&merged, &ResolutionContext::Root, "types", "__Type");
    assert_eq!(get(types.last().unwrap(), "name"), &s("__Type"));
}

fn lookup_type(schema: &Document, name: &str) -> Result<Value, IntrospectionError> {
    let args = vec![("name".to_string(), s(name))];
    resolve_object_value(schema, &ResolutionContext::Root, "type", "__Type", &args)
}

#[test]
fn type_lookup_answers_to_type_field_name() {
    let schema = doc(vec![object("Query", &[], vec![field("id", non_null(named("ID")))])]);
    let t = lookup_type(&schema, "Query").unwrap();
    assert_eq!(get(&t, "kind"), &e("OBJECT"));
    assert_eq!(get(&t, "name"), &s("Query"));
    assert_eq!(lookup_type(&schema, "DoesNotExist"), Ok(Value::Null));
    assert_eq!(introspection_field("type", "__Type"), Ok(IntrospectionField::Type));
}

#[test]
fn named_type_keeps_all_type_keys() {
    let schema = doc(vec![]);
    let t = type_object(&schema, &named("Int")).unwrap();
    assert_eq!(
        keys(&t),
        vec!["kind", "name", "description", "fields", "interfaces", "possibleTypes", "enumValues", "inputFields", "ofType"]
    );
}

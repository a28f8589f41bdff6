//! The introspection resolver: given the field an executor asks for and the
//! context of the enclosing introspection object, renders the field's value.
use vstd::prelude::*;
use crate::ast::{field_named, first_index, lemma_first_index_found, lemma_first_index_none, find_field, get_named_type, get_root_mutation_type,
    get_root_query_type, named_type, root_object_type};
use crate::describe::{
    definition_view, enum_value_entries, enum_values, field_entries, field_objects,
    implementor_entries, input_value_entries, input_values, named_type_entries,
    named_type_objects, object_interfaces, object_type_object, possible_types_for_interface,
    schema_directives, schema_types, type_definition_object, type_entries, type_object,
    type_ref_spec, directive_entries,
};
use crate::error::{IntrospectionError, VError};
use crate::schema::{Document, TypeDefinition, TypeRef};
use crate::value::{collect_list, push_entry, view_result, VValue, Value};

verus! {

/// The fields of the introspection types that the resolver answers.
#[derive(Debug, PartialEq, Eq, Structural, Clone, Copy)]
pub enum IntrospectionField {
    Schema,
    Type,
    QueryType,
    MutationType,
    OfType,
    Types,
    Directives,
    Fields,
    Interfaces,
    PossibleTypes,
    EnumValues,
    InputFields,
    Args,
}

/// What the resolver needs to know of the introspection object whose field
/// it resolves. It travels beside the value tree, never inside it.
#[derive(Debug, PartialEq)]
pub enum ResolutionContext {
    /// No enclosing object: a root field, or a `__Schema` object.
    Root,
    /// A `__Type` object rendered from this type reference.
    Type(TypeRef),
    /// A `__Field` object: the type that declares it, and its name.
    Field { parent_type: String, field_name: String },
}

/// The field that a (field name, introspection type name) pair asks for.
pub open spec fn field_of(field_name: Seq<char>, object_name: Seq<char>) -> Option<IntrospectionField> {
    if field_name == "__schema"@ && object_name == "__Schema"@ {
        Some(IntrospectionField::Schema)
    } else if (field_name == "__type"@ || field_name == "type"@) && object_name == "__Type"@ {
        Some(IntrospectionField::Type)
    } else if field_name == "queryType"@ && object_name == "__Type"@ {
        Some(IntrospectionField::QueryType)
    } else if field_name == "mutationType"@ && object_name == "__Type"@ {
        Some(IntrospectionField::MutationType)
    } else if field_name == "ofType"@ && object_name == "__Type"@ {
        Some(IntrospectionField::OfType)
    } else if field_name == "types"@ && object_name == "__Type"@ {
        Some(IntrospectionField::Types)
    } else if field_name == "directives"@ && object_name == "__Directive"@ {
        Some(IntrospectionField::Directives)
    } else if field_name == "fields"@ && object_name == "__Field"@ {
        Some(IntrospectionField::Fields)
    } else if field_name == "interfaces"@ && object_name == "__Type"@ {
        Some(IntrospectionField::Interfaces)
    } else if field_name == "possibleTypes"@ && object_name == "__Type"@ {
        Some(IntrospectionField::PossibleTypes)
    } else if field_name == "enumValues"@ && object_name == "__EnumValue"@ {
        Some(IntrospectionField::EnumValues)
    } else if field_name == "inputFields"@ && object_name == "__InputValue"@ {
        Some(IntrospectionField::InputFields)
    } else if field_name == "args"@ && object_name == "__InputValue"@ {
        Some(IntrospectionField::Args)
    } else {
        None
    }
}

impl IntrospectionField {
    /// Whether the field's value is a list.
    pub open spec fn plural(self) -> bool {
        !(self is Schema || self is Type || self is QueryType || self is MutationType || self is OfType)
    }

    /// Whether the field's value is a list.
    pub fn is_plural(&self) -> (r: bool)
        ensures
            r == self.plural(),
    {
        match self {
            IntrospectionField::Schema | IntrospectionField::Type | IntrospectionField::QueryType
            | IntrospectionField::MutationType | IntrospectionField::OfType => false,
            _ => true,
        }
    }
}

/// The `__Schema` object. Its parts are resolved by later calls.
pub open spec fn schema_view() -> VValue {
    VValue::Object(
        Seq::empty()
            .push(("queryType"@, VValue::Null))
            .push(("mutationType"@, VValue::Null))
            .push(("types"@, VValue::Null))
            .push(("directives"@, VValue::Null)),
    )
}

/// An argument called `name`.
pub open spec fn is_name_key() -> spec_fn((String, Value)) -> bool {
    |a: (String, Value)| a.0@ == "name"@
}

/// The text of the first argument called `name`, where it is a string.
pub open spec fn name_argument(args: Seq<(String, Value)>) -> Option<Seq<char>> {
    match first_index(args, is_name_key()) {
        Some(i) => match args[i].1 {
            Value::String(s) => Some(s@),
            _ => None,
        },
        None => None,
    }
}

/// The root object type called `name`, as a `__Type` object, or null.
pub open spec fn root_type_spec(doc: Document, name: Seq<char>) -> VValue {
    match root_object_type(doc, name) {
        Some(ot) => definition_view(TypeDefinition::Object(ot)),
        None => VValue::Null,
    }
}

/// The value of a field whose value is not a list.
pub open spec fn singular_spec(
    doc: Document,
    ctx: ResolutionContext,
    f: IntrospectionField,
    name_arg: Option<Seq<char>>,
) -> Result<VValue, VError> {
    match f {
        IntrospectionField::Schema => Ok(schema_view()),
        IntrospectionField::Type => match name_arg {
            Some(n) => match named_type(doc, n) {
                Some(td) => Ok(definition_view(td)),
                None => Ok(VValue::Null),
            },
            None => Ok(VValue::Null),
        },
        IntrospectionField::QueryType => Ok(root_type_spec(doc, "Query"@)),
        IntrospectionField::MutationType => Ok(root_type_spec(doc, "Mutation"@)),
        _ => match ctx {
            ResolutionContext::Type(TypeRef::List(inner)) => type_ref_spec(doc, *inner),
            ResolutionContext::Type(TypeRef::NonNull(inner)) => type_ref_spec(doc, *inner),
            _ => Ok(VValue::Null),
        },
    }
}

/// The definition of the named type that a `__Type` context was rendered
/// from; none for a wrapper or another context.
pub open spec fn context_definition(doc: Document, ctx: ResolutionContext) -> Result<Option<TypeDefinition>, VError> {
    match ctx {
        ResolutionContext::Type(TypeRef::Named(n)) => match named_type(doc, n@) {
            Some(td) => Ok(Some(td)),
            None => Err(VError::SchemaInconsistency(n@)),
        },
        _ => Ok(None),
    }
}

/// The arguments of the field a `__Field` context was rendered from.
pub open spec fn args_spec(doc: Document, parent_type: Seq<char>, field_name: Seq<char>) -> Result<VValue, VError> {
    match named_type(doc, parent_type) {
        None => Err(VError::SchemaInconsistency(parent_type)),
        Some(TypeDefinition::Object(ot)) => match field_named(ot.fields@, field_name) {
            Some(fd) => collect_list(input_value_entries(doc, fd.arguments@)),
            None => Ok(VValue::Null),
        },
        Some(TypeDefinition::Interface(it)) => match field_named(it.fields@, field_name) {
            Some(fd) => collect_list(input_value_entries(doc, fd.arguments@)),
            None => Ok(VValue::Null),
        },
        Some(_) => Ok(VValue::Null),
    }
}

/// The value of a field whose value is a list, or null where the enclosing
/// object has no such list.
pub open spec fn plural_spec(doc: Document, ctx: ResolutionContext, f: IntrospectionField) -> Result<VValue, VError> {
    match f {
        IntrospectionField::Types => collect_list(type_entries(doc.definitions@)),
        IntrospectionField::Directives => collect_list(directive_entries(doc, doc.definitions@)),
        IntrospectionField::Args => match ctx {
            ResolutionContext::Field { parent_type, field_name } => args_spec(doc, parent_type@, field_name@),
            _ => Ok(VValue::Null),
        },
        _ => match context_definition(doc, ctx) {
            Err(e) => Err(e),
            Ok(None) => Ok(VValue::Null),
            Ok(Some(td)) => match (f, td) {
                (IntrospectionField::Fields, TypeDefinition::Object(ot)) =>
                    collect_list(field_entries(doc, ot.fields@)),
                (IntrospectionField::Fields, TypeDefinition::Interface(it)) =>
                    collect_list(field_entries(doc, it.fields@)),
                (IntrospectionField::Interfaces, TypeDefinition::Object(ot)) =>
                    collect_list(named_type_entries(doc, ot.implements_interfaces@)),
                (IntrospectionField::PossibleTypes, TypeDefinition::Interface(it)) =>
                    collect_list(implementor_entries(doc.definitions@, it.name@)),
                (IntrospectionField::PossibleTypes, TypeDefinition::Union(ut)) =>
                    collect_list(named_type_entries(doc, ut.types@)),
                (IntrospectionField::EnumValues, TypeDefinition::Enum(et)) =>
                    collect_list(enum_value_entries(et.values@)),
                (IntrospectionField::InputFields, TypeDefinition::InputObject(io)) =>
                    collect_list(input_value_entries(doc, io.fields@)),
                _ => Ok(VValue::Null),
            },
        },
    }
}

/// What `resolve_object_value` gives.
pub open spec fn resolve_value_spec(
    doc: Document,
    ctx: ResolutionContext,
    field_name: Seq<char>,
    object_name: Seq<char>,
    args: Seq<(String, Value)>,
) -> Result<VValue, VError> {
    match field_of(field_name, object_name) {
        Some(f) => if f.plural() {
            Err(VError::UnhandledIntrospectionField(field_name, object_name))
        } else {
            singular_spec(doc, ctx, f, name_argument(args))
        },
        None => Err(VError::UnhandledIntrospectionField(field_name, object_name)),
    }
}

/// What `resolve_object_values` gives.
pub open spec fn resolve_values_spec(
    doc: Document,
    ctx: ResolutionContext,
    field_name: Seq<char>,
    object_name: Seq<char>,
) -> Result<VValue, VError> {
    match field_of(field_name, object_name) {
        Some(f) => if f.plural() {
            plural_spec(doc, ctx, f)
        } else {
            Err(VError::UnhandledIntrospectionField(field_name, object_name))
        },
        None => Err(VError::UnhandledIntrospectionField(field_name, object_name)),
    }
}

fn same_text(a: &str, b: &str) -> (r: bool)
    ensures
        r == (a@ == b@),
{
    a.to_owned() == b.to_owned()
}

/// Maps a (field name, introspection type name) pair to the field it asks
/// for; an unknown pair is an error that names it.
pub fn introspection_field(field_name: &str, object_name: &str) -> (r: Result<IntrospectionField, IntrospectionError>)
    ensures
        match field_of(field_name@, object_name@) {
            Some(f) => r is Ok && r->Ok_0 == f,
            None => r is Err && r->Err_0@ == VError::UnhandledIntrospectionField(field_name@, object_name@),
        },
{
    let on_type = same_text(object_name, "__Type");
    if same_text(field_name, "__schema") && same_text(object_name, "__Schema") {
        Ok(IntrospectionField::Schema)
    } else if (same_text(field_name, "__type") || same_text(field_name, "type")) && on_type {
        Ok(IntrospectionField::Type)
    } else if same_text(field_name, "queryType") && on_type {
        Ok(IntrospectionField::QueryType)
    } else if same_text(field_name, "mutationType") && on_type {
        Ok(IntrospectionField::MutationType)
    } else if same_text(field_name, "ofType") && on_type {
        Ok(IntrospectionField::OfType)
    } else if same_text(field_name, "types") && on_type {
        Ok(IntrospectionField::Types)
    } else if same_text(field_name, "directives") && same_text(object_name, "__Directive") {
        Ok(IntrospectionField::Directives)
    } else if same_text(field_name, "fields") && same_text(object_name, "__Field") {
        Ok(IntrospectionField::Fields)
    } else if same_text(field_name, "interfaces") && on_type {
        Ok(IntrospectionField::Interfaces)
    } else if same_text(field_name, "possibleTypes") && on_type {
        Ok(IntrospectionField::PossibleTypes)
    } else if same_text(field_name, "enumValues") && same_text(object_name, "__EnumValue") {
        Ok(IntrospectionField::EnumValues)
    } else if same_text(field_name, "inputFields") && same_text(object_name, "__InputValue") {
        Ok(IntrospectionField::InputFields)
    } else if same_text(field_name, "args") && same_text(object_name, "__InputValue") {
        Ok(IntrospectionField::Args)
    } else {
        Err(
            IntrospectionError::UnhandledIntrospectionField {
                field_name: field_name.to_owned(),
                object_name: object_name.to_owned(),
            },
        )
    }
}

/// The text of the first argument called `name`, where it is a string.
fn find_name_argument(arguments: &Vec<(String, Value)>) -> (r: Option<&String>)
    ensures
        match r {
            Some(s) => name_argument(arguments@) == Some(s@),
            None => name_argument(arguments@) is None,
        },
{
    let ghost p = is_name_key();
    let mut i: usize = 0;
    while i < arguments.len()
        invariant
            i <= arguments@.len(),
            p == is_name_key(),
            forall|j: int| 0 <= j < i ==> !p(#[trigger] arguments@[j]),
        decreases arguments@.len() - i,
    {
        if same_text(arguments[i].0.as_str(), "name") {
            proof {
                lemma_first_index_found(arguments@, p, i as int);
            }
            return match &arguments[i].1 {
                Value::String(s) => Some(s),
                _ => None,
            };
        }
        i += 1;
    }
    proof {
        lemma_first_index_none(arguments@, p);
    }
    None
}

/// Renders the `__Schema` object; its parts are resolved by later calls.
pub fn schema_object() -> (r: Value)
    ensures
        r@ == schema_view(),
{
    let mut e: Vec<(String, Value)> = Vec::new();
    push_entry(&mut e, "queryType", Value::Null);
    push_entry(&mut e, "mutationType", Value::Null);
    push_entry(&mut e, "types", Value::Null);
    push_entry(&mut e, "directives", Value::Null);
    Value::Object(e)
}

/// Renders the root query type, or null where the schema has none.
pub fn query_type(schema: &Document) -> (r: Value)
    ensures
        r@ == root_type_spec(*schema, "Query"@),
{
    match get_root_query_type(schema) {
        Some(t) => object_type_object(t),
        None => Value::Null,
    }
}

/// Renders the root mutation type, or null where the schema has none.
pub fn mutation_type(schema: &Document) -> (r: Value)
    ensures
        r@ == root_type_spec(*schema, "Mutation"@),
{
    match get_root_mutation_type(schema) {
        Some(t) => object_type_object(t),
        None => Value::Null,
    }
}

/// The definition of the named type that a `__Type` context was rendered
/// from.
fn find_context_definition<'a>(schema: &'a Document, context: &ResolutionContext) -> (r: Result<Option<&'a TypeDefinition>, IntrospectionError>)
    ensures
        match r {
            Ok(Some(td)) => context_definition(*schema, *context) == Ok::<Option<TypeDefinition>, VError>(Some(*td)),
            Ok(None) => context_definition(*schema, *context) == Ok::<Option<TypeDefinition>, VError>(None),
            Err(e) => context_definition(*schema, *context) == Err::<Option<TypeDefinition>, VError>(e@),
        },
{
    match context {
        ResolutionContext::Type(TypeRef::Named(n)) => match get_named_type(schema, n) {
            Some(td) => Ok(Some(td)),
            None => Err(IntrospectionError::SchemaInconsistency(n.clone())),
        },
        _ => Ok(None),
    }
}

fn resolve_singular(
    schema: &Document,
    context: &ResolutionContext,
    field: IntrospectionField,
    arguments: &Vec<(String, Value)>,
) -> (r: Result<Value, IntrospectionError>)
    requires
        !field.plural(),
    ensures
        view_result(r) == singular_spec(*schema, *context, field, name_argument(arguments@)),
{
    match field {
        IntrospectionField::Schema => Ok(schema_object()),
        IntrospectionField::Type => match find_name_argument(arguments) {
            Some(name) => match get_named_type(schema, name) {
                Some(td) => Ok(type_definition_object(td)),
                None => Ok(Value::Null),
            },
            None => Ok(Value::Null),
        },
        IntrospectionField::QueryType => Ok(query_type(schema)),
        IntrospectionField::MutationType => Ok(mutation_type(schema)),
        _ => match context {
            ResolutionContext::Type(TypeRef::List(inner)) => type_object(schema, inner),
            ResolutionContext::Type(TypeRef::NonNull(inner)) => type_object(schema, inner),
            _ => Ok(Value::Null),
        },
    }
}

/// The arguments of the field a `__Field` context was rendered from.
fn field_arguments(schema: &Document, parent_type: &String, field_name: &String) -> (r: Result<Value, IntrospectionError>)
    ensures
        view_result(r) == args_spec(*schema, parent_type@, field_name@),
{
    match get_named_type(schema, parent_type) {
        None => Err(IntrospectionError::SchemaInconsistency(parent_type.clone())),
        Some(TypeDefinition::Object(ot)) => match find_field(&ot.fields, field_name) {
            Some(fd) => input_values(schema, &fd.arguments),
            None => Ok(Value::Null),
        },
        Some(TypeDefinition::Interface(it)) => match find_field(&it.fields, field_name) {
            Some(fd) => input_values(schema, &fd.arguments),
            None => Ok(Value::Null),
        },
        Some(_) => Ok(Value::Null),
    }
}

fn resolve_plural(schema: &Document, context: &ResolutionContext, field: IntrospectionField) -> (r: Result<Value, IntrospectionError>)
    requires
        field.plural(),
    ensures
        view_result(r) == plural_spec(*schema, *context, field),
{
    match field {
        IntrospectionField::Types => Ok(schema_types(schema)),
        IntrospectionField::Directives => schema_directives(schema),
        IntrospectionField::Args => match context {
            ResolutionContext::Field { parent_type, field_name } => field_arguments(schema, parent_type, field_name),
            _ => Ok(Value::Null),
        },
        _ => match find_context_definition(schema, context) {
            Err(e) => Err(e),
            Ok(None) => Ok(Value::Null),
            Ok(Some(td)) => match (field, td) {
                (IntrospectionField::Fields, TypeDefinition::Object(ot)) => field_objects(schema, &ot.fields),
                (IntrospectionField::Fields, TypeDefinition::Interface(it)) => field_objects(schema, &it.fields),
                (IntrospectionField::Interfaces, TypeDefinition::Object(ot)) => object_interfaces(schema, ot),
                (IntrospectionField::PossibleTypes, TypeDefinition::Interface(it)) =>
                    Ok(possible_types_for_interface(schema, it)),
                (IntrospectionField::PossibleTypes, TypeDefinition::Union(ut)) =>
                    named_type_objects(schema, &ut.types),
                (IntrospectionField::EnumValues, TypeDefinition::Enum(et)) => Ok(enum_values(&et.values)),
                (IntrospectionField::InputFields, TypeDefinition::InputObject(io)) =>
                    input_values(schema, &io.fields),
                _ => Ok(Value::Null),
            },
        },
    }
}

/// Resolves an introspection field whose value is not a list: `__schema`,
/// `__type(name:)`, `queryType`, `mutationType` and `ofType`. An unknown
/// type name, or an absent root type, gives null.
pub fn resolve_object_value(
    schema: &Document,
    context: &ResolutionContext,
    field_name: &str,
    object_name: &str,
    arguments: &Vec<(String, Value)>,
) -> (r: Result<Value, IntrospectionError>)
    ensures
        view_result(r) == resolve_value_spec(*schema, *context, field_name@, object_name@, arguments@),
{
    let field = match introspection_field(field_name, object_name) {
        Ok(f) => f,
        Err(e) => return Err(e),
    };
    if field.is_plural() {
        return Err(
            IntrospectionError::UnhandledIntrospectionField {
                field_name: field_name.to_owned(),
                object_name: object_name.to_owned(),
            },
        );
    }
    resolve_singular(schema, context, field, arguments)
}

/// Resolves an introspection field whose value is a list: `types`,
/// `directives`, `fields`, `interfaces`, `possibleTypes`, `enumValues`,
/// `inputFields` and `args`. Where the enclosing object has no such list the
/// value is null.
pub fn resolve_object_values(
    schema: &Document,
    context: &ResolutionContext,
    field_name: &str,
    object_name: &str,
) -> (r: Result<Value, IntrospectionError>)
    ensures
        view_result(r) == resolve_values_spec(*schema, *context, field_name@, object_name@),
{
    let field = match introspection_field(field_name, object_name) {
        Ok(f) => f,
        Err(e) => return Err(e),
    };
    if !field.is_plural() {
        return Err(
            IntrospectionError::UnhandledIntrospectionField {
                field_name: field_name.to_owned(),
                object_name: object_name.to_owned(),
            },
        );
    }
    resolve_plural(schema, context, field)
}

} // verus!

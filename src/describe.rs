//! Renders type references, type definitions and their members as
//! introspection objects. Each call renders one layer: the list-shaped parts
//! of a type (`fields`, `interfaces`, `possibleTypes`, `enumValues`,
//! `inputFields`) are left null, to be resolved by a later call.
use vstd::prelude::*;
use crate::ast::{get_named_type, get_type_name, named_type};
use crate::error::{IntrospectionError, VError};
use crate::schema::{
    def_description, def_kind, def_name, location_name, Definition, DirectiveDefinition, Document,
    EnumValue, Field, InputValue, InterfaceType, ObjectType, TypeDefinition, TypeRef,
};
use crate::value::{
    collect, collect_list, lemma_collect_all_ok, lemma_collect_prefix_err, lemma_collect_step, opt_text, opt_text_value,
    push_entry, push_item, view_items, view_result, VValue, Value,
};

verus! {

/// An introspection `__Type` object of a named type.
pub open spec fn type_view(kind: Seq<char>, name: VValue, description: VValue) -> VValue {
    VValue::Object(
        Seq::empty()
            .push(("kind"@, VValue::Enum(kind)))
            .push(("name"@, name))
            .push(("description"@, description))
            .push(("fields"@, VValue::Null))
            .push(("interfaces"@, VValue::Null))
            .push(("possibleTypes"@, VValue::Null))
            .push(("enumValues"@, VValue::Null))
            .push(("inputFields"@, VValue::Null))
            .push(("ofType"@, VValue::Null)),
    )
}

/// The `__Type` object of a type definition.
pub open spec fn definition_view(td: TypeDefinition) -> VValue {
    type_view(def_kind(td), VValue::String(def_name(td)), opt_text(def_description(td)))
}

/// The `__Type` object of a list or non-null wrapper: its kind and the
/// object of the type it wraps, with no name and no description.
pub open spec fn wrapper_view(kind: Seq<char>, of_type: VValue) -> VValue {
    VValue::Object(Seq::empty().push(("kind"@, VValue::Enum(kind))).push(("ofType"@, of_type)))
}

/// The `__Type` object of the type called `name`; an undefined name is an
/// inconsistency of the schema.
pub open spec fn named_type_spec(doc: Document, name: Seq<char>) -> Result<VValue, VError> {
    match named_type(doc, name) {
        Some(td) => Ok(definition_view(td)),
        None => Err(VError::SchemaInconsistency(name)),
    }
}

/// The `__Type` object of a type reference, outermost wrapper first.
pub open spec fn type_ref_spec(doc: Document, t: TypeRef) -> Result<VValue, VError>
    decreases t,
{
    match t {
        TypeRef::Named(n) => named_type_spec(doc, n@),
        TypeRef::List(inner) => match type_ref_spec(doc, *inner) {
            Ok(v) => Ok(wrapper_view("LIST"@, v)),
            Err(e) => Err(e),
        },
        TypeRef::NonNull(inner) => match type_ref_spec(doc, *inner) {
            Ok(v) => Ok(wrapper_view("NON_NULL"@, v)),
            Err(e) => Err(e),
        },
    }
}

/// An introspection `__Field` object, given the object of its type.
pub open spec fn field_view(f: Field, ty: VValue) -> VValue {
    VValue::Object(
        Seq::empty()
            .push(("name"@, VValue::String(f.name@)))
            .push(("description"@, opt_text(f.description)))
            .push(("args"@, VValue::Null))
            .push(("type"@, ty))
            .push(("isDeprecated"@, VValue::Boolean(false)))
            .push(("deprecationReason"@, VValue::Null)),
    )
}

pub open spec fn field_spec(doc: Document, f: Field) -> Result<VValue, VError> {
    match type_ref_spec(doc, f.field_type) {
        Ok(ty) => Ok(field_view(f, ty)),
        Err(e) => Err(e),
    }
}

/// An introspection `__InputValue` object, given the object of its type.
pub open spec fn input_value_view(v: InputValue, ty: VValue) -> VValue {
    VValue::Object(
        Seq::empty()
            .push(("name"@, VValue::String(v.name@)))
            .push(("description"@, opt_text(v.description)))
            .push(("type"@, ty))
            .push(("defaultValue"@, opt_text(v.default_value))),
    )
}

pub open spec fn input_value_spec(doc: Document, v: InputValue) -> Result<VValue, VError> {
    match type_ref_spec(doc, v.value_type) {
        Ok(ty) => Ok(input_value_view(v, ty)),
        Err(e) => Err(e),
    }
}

/// An introspection `__EnumValue` object. The schema carries no deprecation
/// data, so no value is deprecated.
pub open spec fn enum_value_view(v: EnumValue) -> VValue {
    VValue::Object(
        Seq::empty()
            .push(("name"@, VValue::String(v.name@)))
            .push(("description"@, opt_text(v.description)))
            .push(("isDeprecated"@, VValue::Boolean(false)))
            .push(("deprecationReason"@, VValue::Null)),
    )
}

pub open spec fn field_entries(doc: Document, fields: Seq<Field>) -> Seq<Option<Result<VValue, VError>>> {
    fields.map_values(|f: Field| Some(field_spec(doc, f)))
}

pub open spec fn input_value_entries(doc: Document, vs: Seq<InputValue>) -> Seq<Option<Result<VValue, VError>>> {
    vs.map_values(|v: InputValue| Some(input_value_spec(doc, v)))
}

pub open spec fn named_type_entries(doc: Document, names: Seq<String>) -> Seq<Option<Result<VValue, VError>>> {
    names.map_values(|n: String| Some(named_type_spec(doc, n@)))
}

pub open spec fn enum_value_entries(vs: Seq<EnumValue>) -> Seq<Option<Result<VValue, VError>>> {
    vs.map_values(|v: EnumValue| Some(Ok::<VValue, VError>(enum_value_view(v))))
}

/// The `__Type` object of each type definition of the document, in order.
pub open spec fn type_entries(defs: Seq<Definition>) -> Seq<Option<Result<VValue, VError>>> {
    defs.map_values(
        |d: Definition|
            match d {
                Definition::Type(td) => Some(Ok::<VValue, VError>(definition_view(td))),
                _ => None,
            },
    )
}

/// An object type whose implements-list holds `name`.
pub open spec fn implements(ot: ObjectType, name: Seq<char>) -> bool {
    exists|k: int| 0 <= k < ot.implements_interfaces@.len() && #[trigger] ot.implements_interfaces@[k]@ == name
}

/// The `__Type` object of each object type that implements `name`, in order.
pub open spec fn implementor_entries(defs: Seq<Definition>, name: Seq<char>) -> Seq<Option<Result<VValue, VError>>> {
    defs.map_values(
        |d: Definition|
            match d {
                Definition::Type(TypeDefinition::Object(ot)) => if implements(ot, name) {
                    Some(Ok::<VValue, VError>(definition_view(TypeDefinition::Object(ot))))
                } else {
                    None
                },
                _ => None,
            },
    )
}

/// An introspection `__Directive` object, given the list of its arguments.
pub open spec fn directive_view(d: DirectiveDefinition, args: VValue) -> VValue {
    VValue::Object(
        Seq::empty()
            .push(("name"@, VValue::String(d.name@)))
            .push(("description"@, opt_text(d.description)))
            .push(("locations"@, VValue::List(d.locations@.map_values(|l| VValue::Enum(location_name(l))))))
            .push(("args"@, args)),
    )
}

pub open spec fn directive_spec(doc: Document, d: DirectiveDefinition) -> Result<VValue, VError> {
    match collect_list(input_value_entries(doc, d.arguments@)) {
        Ok(args) => Ok(directive_view(d, args)),
        Err(e) => Err(e),
    }
}

pub open spec fn directive_entries(doc: Document, defs: Seq<Definition>) -> Seq<Option<Result<VValue, VError>>> {
    defs.map_values(
        |d: Definition|
            match d {
                Definition::Directive(dd) => Some(directive_spec(doc, dd)),
                _ => None,
            },
    )
}

fn type_value(kind: &str, name: Value, description: Value) -> (r: Value)
    ensures
        r@ == type_view(kind@, name@, description@),
{
    let mut e: Vec<(String, Value)> = Vec::new();
    push_entry(&mut e, "kind", Value::Enum(kind.to_owned()));
    push_entry(&mut e, "name", name);
    push_entry(&mut e, "description", description);
    push_entry(&mut e, "fields", Value::Null);
    push_entry(&mut e, "interfaces", Value::Null);
    push_entry(&mut e, "possibleTypes", Value::Null);
    push_entry(&mut e, "enumValues", Value::Null);
    push_entry(&mut e, "inputFields", Value::Null);
    push_entry(&mut e, "ofType", Value::Null);
    Value::Object(e)
}

fn wrapper_value(kind: &str, of_type: Value) -> (r: Value)
    ensures
        r@ == wrapper_view(kind@, of_type@),
{
    let mut e: Vec<(String, Value)> = Vec::new();
    push_entry(&mut e, "kind", Value::Enum(kind.to_owned()));
    push_entry(&mut e, "ofType", of_type);
    Value::Object(e)
}

/// Renders a type definition as a `__Type` object.
pub fn type_definition_object(td: &TypeDefinition) -> (r: Value)
    ensures
        r@ == definition_view(*td),
{
    let (kind, description) = match td {
        TypeDefinition::Scalar(t) => ("SCALAR", &t.description),
        TypeDefinition::Object(t) => ("OBJECT", &t.description),
        TypeDefinition::Interface(t) => ("INTERFACE", &t.description),
        TypeDefinition::Union(t) => ("UNION", &t.description),
        TypeDefinition::Enum(t) => ("ENUM", &t.description),
        TypeDefinition::InputObject(t) => ("INPUT_OBJECT", &t.description),
    };
    let name = get_type_name(td).clone();
    type_value(kind, Value::String(name), opt_text_value(description))
}

/// Renders an object type as a `__Type` object.
pub fn object_type_object(object_type: &ObjectType) -> (r: Value)
    ensures
        r@ == definition_view(TypeDefinition::Object(*object_type)),
{
    type_value(
        "OBJECT",
        Value::String(object_type.name.clone()),
        opt_text_value(&object_type.description),
    )
}

/// Renders the type called `name` as a `__Type` object.
pub fn named_type_object(schema: &Document, name: &String) -> (r: Result<Value, IntrospectionError>)
    ensures
        view_result(r) == named_type_spec(*schema, name@),
{
    match get_named_type(schema, name) {
        Some(td) => Ok(type_definition_object(td)),
        None => Err(IntrospectionError::SchemaInconsistency(name.clone())),
    }
}

/// Renders a type reference as a `__Type` object, through its wrappers down
/// to the named type, which is rendered one layer deep.
pub fn type_object(schema: &Document, t: &TypeRef) -> (r: Result<Value, IntrospectionError>)
    ensures
        view_result(r) == type_ref_spec(*schema, *t),
    decreases t,
{
    match t {
        TypeRef::Named(n) => named_type_object(schema, n),
        TypeRef::List(inner) => match type_object(schema, inner) {
            Ok(v) => Ok(wrapper_value("LIST", v)),
            Err(e) => Err(e),
        },
        TypeRef::NonNull(inner) => match type_object(schema, inner) {
            Ok(v) => Ok(wrapper_value("NON_NULL", v)),
            Err(e) => Err(e),
        },
    }
}

/// Renders a field as a `__Field` object; its arguments are resolved by a
/// later call.
pub fn field_object(schema: &Document, field: &Field) -> (r: Result<Value, IntrospectionError>)
    ensures
        view_result(r) == field_spec(*schema, *field),
{
    let ty = match type_object(schema, &field.field_type) {
        Ok(v) => v,
        Err(e) => return Err(e),
    };
    let mut e: Vec<(String, Value)> = Vec::new();
    push_entry(&mut e, "name", Value::String(field.name.clone()));
    push_entry(&mut e, "description", opt_text_value(&field.description));
    push_entry(&mut e, "args", Value::Null);
    push_entry(&mut e, "type", ty);
    push_entry(&mut e, "isDeprecated", Value::Boolean(false));
    push_entry(&mut e, "deprecationReason", Value::Null);
    Ok(Value::Object(e))
}

/// Renders an argument or input field as an `__InputValue` object.
pub fn input_value(schema: &Document, value: &InputValue) -> (r: Result<Value, IntrospectionError>)
    ensures
        view_result(r) == input_value_spec(*schema, *value),
{
    let ty = match type_object(schema, &value.value_type) {
        Ok(v) => v,
        Err(e) => return Err(e),
    };
    let mut e: Vec<(String, Value)> = Vec::new();
    push_entry(&mut e, "name", Value::String(value.name.clone()));
    push_entry(&mut e, "description", opt_text_value(&value.description));
    push_entry(&mut e, "type", ty);
    push_entry(&mut e, "defaultValue", opt_text_value(&value.default_value));
    Ok(Value::Object(e))
}

/// Renders an enum value as an `__EnumValue` object.
pub fn enum_value(value: &EnumValue) -> (r: Value)
    ensures
        r@ == enum_value_view(*value),
{
    let mut e: Vec<(String, Value)> = Vec::new();
    push_entry(&mut e, "name", Value::String(value.name.clone()));
    push_entry(&mut e, "description", opt_text_value(&value.description));
    push_entry(&mut e, "isDeprecated", Value::Boolean(false));
    push_entry(&mut e, "deprecationReason", Value::Null);
    Value::Object(e)
}

/// Renders fields as a list of `__Field` objects, in declaration order.
pub fn field_objects(schema: &Document, fields: &Vec<Field>) -> (r: Result<Value, IntrospectionError>)
    ensures
        view_result(r) == collect_list(field_entries(*schema, fields@)),
        (forall|i: int| 0 <= i < fields@.len() ==> (#[trigger] type_ref_spec(*schema, fields@[i].field_type)) is Ok)
            ==> (r matches Ok(v) && v@ matches VValue::List(vs) && vs.len() == fields@.len() && forall|i: int|
            0 <= i < vs.len() ==> #[trigger] vs[i] == field_spec(*schema, fields@[i])->Ok_0),
{
    proof {
        let es = field_entries(*schema, fields@);
        if forall|i: int| 0 <= i < fields@.len() ==> (#[trigger] type_ref_spec(*schema, fields@[i].field_type)) is Ok {
            assert forall|i: int| 0 <= i < es.len() implies (#[trigger] es[i] matches Some(Ok(_))) by {
                assert(type_ref_spec(*schema, fields@[i].field_type) is Ok);
            }
            lemma_collect_all_ok(es);
        }
    }
    let ghost rs = field_entries(*schema, fields@);
    let mut out: Vec<Value> = Vec::new();
    let mut i: usize = 0;
    while i < fields.len()
        invariant
            i <= fields@.len(),
            rs == field_entries(*schema, fields@),
            collect(rs.take(i as int)) == Ok::<Seq<VValue>, VError>(view_items(out@)),
        decreases fields@.len() - i,
    {
        let r = field_object(schema, &fields[i]);
        proof {
            lemma_collect_step(rs, i as int);
        }
        match r {
            Ok(v) => push_item(&mut out, v),
            Err(e) => {
                proof {
                    lemma_collect_prefix_err(rs, i + 1);
                }
                return Err(e);
            },
        }
        i += 1;
    }
    assert(rs.take(i as int) =~= rs);
    Ok(Value::List(out))
}

/// Renders arguments or input fields as a list of `__InputValue` objects, in
/// declaration order.
pub fn input_values(schema: &Document, values: &Vec<InputValue>) -> (r: Result<Value, IntrospectionError>)
    ensures
        view_result(r) == collect_list(input_value_entries(*schema, values@)),
{
    let ghost rs = input_value_entries(*schema, values@);
    let mut out: Vec<Value> = Vec::new();
    let mut i: usize = 0;
    while i < values.len()
        invariant
            i <= values@.len(),
            rs == input_value_entries(*schema, values@),
            collect(rs.take(i as int)) == Ok::<Seq<VValue>, VError>(view_items(out@)),
        decreases values@.len() - i,
    {
        let r = input_value(schema, &values[i]);
        proof {
            lemma_collect_step(rs, i as int);
        }
        match r {
            Ok(v) => push_item(&mut out, v),
            Err(e) => {
                proof {
                    lemma_collect_prefix_err(rs, i + 1);
                }
                return Err(e);
            },
        }
        i += 1;
    }
    assert(rs.take(i as int) =~= rs);
    Ok(Value::List(out))
}

/// Renders the types called `names` as a list of `__Type` objects, in order.
pub fn named_type_objects(schema: &Document, names: &Vec<String>) -> (r: Result<Value, IntrospectionError>)
    ensures
        view_result(r) == collect_list(named_type_entries(*schema, names@)),
{
    let ghost rs = named_type_entries(*schema, names@);
    let mut out: Vec<Value> = Vec::new();
    let mut i: usize = 0;
    while i < names.len()
        invariant
            i <= names@.len(),
            rs == named_type_entries(*schema, names@),
            collect(rs.take(i as int)) == Ok::<Seq<VValue>, VError>(view_items(out@)),
        decreases names@.len() - i,
    {
        let r = named_type_object(schema, &names[i]);
        proof {
            lemma_collect_step(rs, i as int);
        }
        match r {
            Ok(v) => push_item(&mut out, v),
            Err(e) => {
                proof {
                    lemma_collect_prefix_err(rs, i + 1);
                }
                return Err(e);
            },
        }
        i += 1;
    }
    assert(rs.take(i as int) =~= rs);
    Ok(Value::List(out))
}

/// Renders the interfaces an object type implements, in declaration order.
pub fn object_interfaces(schema: &Document, object_type: &ObjectType) -> (r: Result<Value, IntrospectionError>)
    ensures
        view_result(r) == collect_list(named_type_entries(*schema, object_type.implements_interfaces@)),
{
    named_type_objects(schema, &object_type.implements_interfaces)
}

/// Renders enum values as a list of `__EnumValue` objects, in declaration
/// order.
pub fn enum_values(values: &Vec<EnumValue>) -> (r: Value)
    ensures
        Ok::<VValue, VError>(r@) == collect_list(enum_value_entries(values@)),
{
    let ghost rs = enum_value_entries(values@);
    let mut out: Vec<Value> = Vec::new();
    let mut i: usize = 0;
    while i < values.len()
        invariant
            i <= values@.len(),
            rs == enum_value_entries(values@),
            collect(rs.take(i as int)) == Ok::<Seq<VValue>, VError>(view_items(out@)),
        decreases values@.len() - i,
    {
        proof {
            lemma_collect_step(rs, i as int);
        }
        push_item(&mut out, enum_value(&values[i]));
        i += 1;
    }
    assert(rs.take(i as int) =~= rs);
    Value::List(out)
}

/// Renders every type definition of the schema as a `__Type` object, in
/// declaration order. The list holds exactly the document's own definitions:
/// the introspection types appear in it where the document was merged with
/// the meta-schema, and not otherwise.
pub fn schema_types(schema: &Document) -> (r: Value)
    ensures
        Ok::<VValue, VError>(r@) == collect_list(type_entries(schema.definitions@)),
{
    let ghost rs = type_entries(schema.definitions@);
    let mut out: Vec<Value> = Vec::new();
    let mut i: usize = 0;
    while i < schema.definitions.len()
        invariant
            i <= schema.definitions@.len(),
            rs == type_entries(schema.definitions@),
            collect(rs.take(i as int)) == Ok::<Seq<VValue>, VError>(view_items(out@)),
        decreases schema.definitions@.len() - i,
    {
        proof {
            lemma_collect_step(rs, i as int);
        }
        match &schema.definitions[i] {
            Definition::Type(td) => push_item(&mut out, type_definition_object(td)),
            _ => {},
        }
        i += 1;
    }
    assert(rs.take(i as int) =~= rs);
    Value::List(out)
}

/// Whether an object type's implements-list holds `name`.
pub fn implements_interface(object_type: &ObjectType, name: &String) -> (r: bool)
    ensures
        r == implements(*object_type, name@),
{
    let mut i: usize = 0;
    while i < object_type.implements_interfaces.len()
        invariant
            i <= object_type.implements_interfaces@.len(),
            forall|k: int| 0 <= k < i ==> #[trigger] object_type.implements_interfaces@[k]@ != name@,
        decreases object_type.implements_interfaces@.len() - i,
    {
        if object_type.implements_interfaces[i] == *name {
            return true;
        }
        i += 1;
    }
    false
}

/// Renders, as `__Type` objects, the object types of the schema that
/// implement an interface, in declaration order.
pub fn possible_types_for_interface(schema: &Document, interface_type: &InterfaceType) -> (r: Value)
    ensures
        Ok::<VValue, VError>(r@) == collect_list(implementor_entries(schema.definitions@, interface_type.name@)),
{
    let ghost rs = implementor_entries(schema.definitions@, interface_type.name@);
    let mut out: Vec<Value> = Vec::new();
    let mut i: usize = 0;
    while i < schema.definitions.len()
        invariant
            i <= schema.definitions@.len(),
            rs == implementor_entries(schema.definitions@, interface_type.name@),
            collect(rs.take(i as int)) == Ok::<Seq<VValue>, VError>(view_items(out@)),
        decreases schema.definitions@.len() - i,
    {
        proof {
            lemma_collect_step(rs, i as int);
        }
        match &schema.definitions[i] {
            Definition::Type(td) => match td {
                TypeDefinition::Object(ot) => {
                    if implements_interface(ot, &interface_type.name) {
                        push_item(&mut out, type_definition_object(td));
                    }
                },
                _ => {},
            },
            _ => {},
        }
        i += 1;
    }
    assert(rs.take(i as int) =~= rs);
    Value::List(out)
}

/// Renders the locations of a directive as `__DirectiveLocation` tags.
pub fn directive_locations(directive: &DirectiveDefinition) -> (r: Value)
    ensures
        r@ == VValue::List(directive.locations@.map_values(|l| VValue::Enum(location_name(l)))),
{
    let ghost target = directive.locations@.map_values(|l| VValue::Enum(location_name(l)));
    let mut out: Vec<Value> = Vec::new();
    let mut i: usize = 0;
    while i < directive.locations.len()
        invariant
            i <= directive.locations@.len(),
            target == directive.locations@.map_values(|l| VValue::Enum(location_name(l))),
            view_items(out@) == target.take(i as int),
        decreases directive.locations@.len() - i,
    {
        let tag = directive.locations[i].as_str();
        push_item(&mut out, Value::Enum(tag.to_owned()));
        assert(target.take(i + 1) =~= target.take(i as int).push(target[i as int]));
        i += 1;
    }
    assert(target.take(i as int) =~= target);
    Value::List(out)
}

/// Renders a directive definition as a `__Directive` object.
pub fn directive_object(schema: &Document, directive: &DirectiveDefinition) -> (r: Result<Value, IntrospectionError>)
    ensures
        view_result(r) == directive_spec(*schema, *directive),
{
    let args = match input_values(schema, &directive.arguments) {
        Ok(v) => v,
        Err(e) => return Err(e),
    };
    let mut e: Vec<(String, Value)> = Vec::new();
    push_entry(&mut e, "name", Value::String(directive.name.clone()));
    push_entry(&mut e, "description", opt_text_value(&directive.description));
    push_entry(&mut e, "locations", directive_locations(directive));
    push_entry(&mut e, "args", args);
    Ok(Value::Object(e))
}

/// Renders every directive definition of the schema, in declaration order.
pub fn schema_directives(schema: &Document) -> (r: Result<Value, IntrospectionError>)
    ensures
        view_result(r) == collect_list(directive_entries(*schema, schema.definitions@)),
{
    let ghost rs = directive_entries(*schema, schema.definitions@);
    let mut out: Vec<Value> = Vec::new();
    let mut i: usize = 0;
    while i < schema.definitions.len()
        invariant
            i <= schema.definitions@.len(),
            rs == directive_entries(*schema, schema.definitions@),
            collect(rs.take(i as int)) == Ok::<Seq<VValue>, VError>(view_items(out@)),
        decreases schema.definitions@.len() - i,
    {
        proof {
            lemma_collect_step(rs, i as int);
        }
        match &schema.definitions[i] {
            Definition::Directive(dd) => match directive_object(schema, dd) {
                Ok(v) => push_item(&mut out, v),
                Err(e) => {
                    proof {
                        lemma_collect_prefix_err(rs, i + 1);
                    }
                    return Err(e);
                },
            },
            _ => {},
        }
        i += 1;
    }
    assert(rs.take(i as int) =~= rs);
    Ok(Value::List(out))
}

} // verus!

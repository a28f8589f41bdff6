//! Properties of introspection that hold for every schema.
use vstd::prelude::*;
use crate::ast::{defines_type, first_index, is_first, named_type};
use crate::describe::{definition_view, enum_value_entries, enum_value_view, field_entries,
    field_view, implementor_entries, implements, type_ref_spec};
use crate::error::{IntrospectionError, VError};
use crate::introspection::{field_of, name_argument, resolve_value_spec, resolve_values_spec,
    IntrospectionField, ResolutionContext};
use crate::schema::{def_kind, def_name, Definition, Document, EnumType, Field, InterfaceType, TypeDefinition, TypeRef};
use crate::value::{lemma_collect_all_ok, lemma_collect_pairwise, lemma_collect_members, lemma_collect_no_err, view_result, VValue, Value};

verus! {

/// The by-name lookup answers to `type` and to `__type`.
pub open spec fn is_type_lookup(field_name: Seq<char>) -> bool {
    field_name == "type"@ || field_name == "__type"@
}

proof fn lemma_type_field(field_name: Seq<char>)
    requires
        is_type_lookup(field_name),
    ensures
        field_of(field_name, "__Type"@) == Some(IntrospectionField::Type),
{
    reveal_strlit("__type");
    reveal_strlit("type");
    reveal_strlit("__schema");
    assert("__type"@[2] != "__schema"@[2]);
    assert("type"@.len() != "__schema"@.len());
}

/// The type that a name lookup finds carries that name.
proof fn lemma_named_type_has_name(doc: Document, name: Seq<char>)
    requires
        named_type(doc, name) is Some,
    ensures
        def_name(named_type(doc, name)->Some_0) == name,
{
    let p = defines_type(name);
    let i = first_index(doc.definitions@, p)->Some_0;
    assert(is_first(doc.definitions@, p, i));
}

proof fn lemma_fields_field()
    ensures
        field_of("fields"@, "__Field"@) == Some(IntrospectionField::Fields),
{
    reveal_strlit("fields");
    reveal_strlit("__schema");
    reveal_strlit("__type");
    reveal_strlit("queryType");
    reveal_strlit("mutationType");
    reveal_strlit("ofType");
    reveal_strlit("types");
    reveal_strlit("directives");
    assert("fields"@.len() != "__schema"@.len());
    assert("fields"@[0] != "__type"@[0]);
    reveal_strlit("type");
    assert("fields"@.len() != "type"@.len());
    assert("fields"@.len() != "queryType"@.len());
    assert("fields"@.len() != "mutationType"@.len());
    assert("fields"@[0] != "ofType"@[0]);
    assert("fields"@.len() != "types"@.len());
    assert("fields"@.len() != "directives"@.len());
}

proof fn lemma_possible_types_field()
    ensures
        field_of("possibleTypes"@, "__Type"@) == Some(IntrospectionField::PossibleTypes),
{
    reveal_strlit("possibleTypes");
    reveal_strlit("__schema");
    reveal_strlit("__type");
    reveal_strlit("queryType");
    reveal_strlit("mutationType");
    reveal_strlit("ofType");
    reveal_strlit("types");
    reveal_strlit("directives");
    reveal_strlit("fields");
    reveal_strlit("interfaces");
    assert("possibleTypes"@.len() != "__schema"@.len());
    assert("possibleTypes"@.len() != "__type"@.len());
    reveal_strlit("type");
    assert("possibleTypes"@.len() != "type"@.len());
    assert("possibleTypes"@.len() != "queryType"@.len());
    assert("possibleTypes"@.len() != "mutationType"@.len());
    assert("possibleTypes"@.len() != "ofType"@.len());
    assert("possibleTypes"@.len() != "types"@.len());
    assert("possibleTypes"@.len() != "directives"@.len());
    assert("possibleTypes"@.len() != "fields"@.len());
    assert("possibleTypes"@.len() != "interfaces"@.len());
}

proof fn lemma_enum_values_field()
    ensures
        field_of("enumValues"@, "__EnumValue"@) == Some(IntrospectionField::EnumValues),
{
    reveal_strlit("enumValues");
    reveal_strlit("__EnumValue");
    reveal_strlit("__Schema");
    reveal_strlit("__Type");
    reveal_strlit("__Directive");
    reveal_strlit("__Field");
    assert("__EnumValue"@.len() != "__Schema"@.len());
    assert("__EnumValue"@.len() != "__Type"@.len());
    assert("__EnumValue"@[2] != "__Directive"@[2]);
    assert("__EnumValue"@.len() != "__Field"@.len());
}

/// `type(name: "T")` reports, for a defined type `T`, the kind and the name
/// of its definition.
pub proof fn lemma_type_kind_matches_definition(
    doc: Document,
    ctx: ResolutionContext,
    field_name: Seq<char>,
    args: Seq<(String, Value)>,
    name: Seq<char>,
)
    requires
        is_type_lookup(field_name),
        name_argument(args) == Some(name),
        named_type(doc, name) is Some,
    ensures
        resolve_value_spec(doc, ctx, field_name, "__Type"@, args) matches Ok(VValue::Object(entries))
            && entries[0] == ("kind"@, VValue::Enum(def_kind(named_type(doc, name)->Some_0)))
            && entries[1] == ("name"@, VValue::String(name)),
{
    lemma_type_field(field_name);
    let td = named_type(doc, name)->Some_0;
    assert(def_name(td) == name) by {
        lemma_named_type_has_name(doc, name);
    }
}

/// `type(name: "T")` for a name that no type has is null, not an error.
pub proof fn lemma_unknown_type_is_null(
    doc: Document,
    ctx: ResolutionContext,
    field_name: Seq<char>,
    args: Seq<(String, Value)>,
    name: Seq<char>,
)
    requires
        is_type_lookup(field_name),
        name_argument(args) == Some(name),
        named_type(doc, name) is None,
    ensures
        resolve_value_spec(doc, ctx, field_name, "__Type"@, args) == Ok::<VValue, VError>(VValue::Null),
{
    lemma_type_field(field_name);
}

/// The `fields` of an object or interface type list its declared fields,
/// each once, in declaration order.
pub proof fn lemma_fields_in_declaration_order(doc: Document, ctx: ResolutionContext, n: String, fields: Seq<Field>)
    requires
        ctx == ResolutionContext::Type(TypeRef::Named(n)),
        (named_type(doc, n@) matches Some(TypeDefinition::Object(ot)) && ot.fields@ == fields) || (named_type(
            doc,
            n@,
        ) matches Some(TypeDefinition::Interface(it)) && it.fields@ == fields),
        forall|i: int| 0 <= i < fields.len() ==> (#[trigger] type_ref_spec(doc, fields[i].field_type)) is Ok,
    ensures
        resolve_values_spec(doc, ctx, "fields"@, "__Field"@) matches Ok(VValue::List(vs)) && vs.len()
            == fields.len() && forall|i: int|
            0 <= i < vs.len() ==> #[trigger] vs[i] == field_view(
                fields[i],
                type_ref_spec(doc, fields[i].field_type)->Ok_0,
            ) && vs[i]->Object_0[0] == ("name"@, VValue::String(fields[i].name@)),
{
    lemma_fields_field();
    let rs = field_entries(doc, fields);
    assert forall|i: int| 0 <= i < rs.len() implies (#[trigger] rs[i] matches Some(Ok(_))) by {
        assert(type_ref_spec(doc, fields[i].field_type) is Ok);
    }
    lemma_collect_all_ok(rs);
}

/// The `possibleTypes` of an interface are exactly the object types whose
/// implements-list names it: none is missing and none is extra.
pub proof fn lemma_possible_types_are_implementors(
    doc: Document,
    ctx: ResolutionContext,
    n: String,
    it: InterfaceType,
    v: VValue,
)
    requires
        ctx == ResolutionContext::Type(TypeRef::Named(n)),
        named_type(doc, n@) == Some(TypeDefinition::Interface(it)),
    ensures
        resolve_values_spec(doc, ctx, "possibleTypes"@, "__Type"@) matches Ok(VValue::List(vs)) && (vs.contains(v)
            <==> exists|i: int|
            0 <= i < doc.definitions@.len() && (#[trigger] doc.definitions@[i] matches Definition::Type(
                TypeDefinition::Object(ot),
            ) && implements(ot, it.name@) && v == definition_view(TypeDefinition::Object(ot)))),
{
    lemma_possible_types_field();
    let defs = doc.definitions@;
    let rs = implementor_entries(defs, it.name@);
    assert forall|i: int| 0 <= i < rs.len() implies !(#[trigger] rs[i] matches Some(Err(_))) by {
        assert(rs[i] == implementor_entries(defs, it.name@)[i]);
    }
    lemma_collect_no_err(rs);
    lemma_collect_members(rs, v);
    assert forall|i: int| 0 <= i < defs.len() implies (rs[i] == Some(Ok::<VValue, VError>(v)) <==> (
    #[trigger] defs[i] matches Definition::Type(TypeDefinition::Object(ot)) && implements(ot, it.name@) && v
        == definition_view(TypeDefinition::Object(ot)))) by {
        assert(rs[i] == implementor_entries(defs, it.name@)[i]);
    }
}

/// The `enumValues` of an enum type list its values in declaration order,
/// none of them deprecated.
pub proof fn lemma_enum_values_in_declaration_order(doc: Document, ctx: ResolutionContext, n: String, et: EnumType)
    requires
        ctx == ResolutionContext::Type(TypeRef::Named(n)),
        named_type(doc, n@) == Some(TypeDefinition::Enum(et)),
    ensures
        resolve_values_spec(doc, ctx, "enumValues"@, "__EnumValue"@) matches Ok(VValue::List(vs)) && vs.len()
            == et.values@.len() && forall|i: int|
            0 <= i < vs.len() ==> #[trigger] vs[i] == enum_value_view(et.values@[i])
                && vs[i]->Object_0[0] == ("name"@, VValue::String(et.values@[i].name@))
                && vs[i]->Object_0[2] == ("isDeprecated"@, VValue::Boolean(false)),
{
    lemma_enum_values_field();
    let rs = enum_value_entries(et.values@);
    assert forall|i: int| 0 <= i < rs.len() implies (#[trigger] rs[i] matches Some(Ok(_))) by {
        assert(rs[i] == enum_value_entries(et.values@)[i]);
    }
    lemma_collect_all_ok(rs);
}

/// Two resolutions of the same singular field against the same schema, in
/// the same context and with the same arguments, give identical trees.
pub proof fn lemma_value_resolution_is_deterministic(
    doc: Document,
    ctx: ResolutionContext,
    field_name: Seq<char>,
    object_name: Seq<char>,
    args: Seq<(String, Value)>,
    r1: Result<Value, IntrospectionError>,
    r2: Result<Value, IntrospectionError>,
)
    requires
        view_result(r1) == resolve_value_spec(doc, ctx, field_name, object_name, args),
        view_result(r2) == resolve_value_spec(doc, ctx, field_name, object_name, args),
    ensures
        view_result(r1) == view_result(r2),
{
}

/// Two resolutions of the same list field against the same schema, in the
/// same context, give identical trees.
pub proof fn lemma_values_resolution_is_deterministic(
    doc: Document,
    ctx: ResolutionContext,
    field_name: Seq<char>,
    object_name: Seq<char>,
    r1: Result<Value, IntrospectionError>,
    r2: Result<Value, IntrospectionError>,
)
    requires
        view_result(r1) == resolve_values_spec(doc, ctx, field_name, object_name),
        view_result(r2) == resolve_values_spec(doc, ctx, field_name, object_name),
    ensures
        view_result(r1) == view_result(r2),
{
}

/// In a schema whose type names are all distinct, the `possibleTypes` of an
/// interface name each object type once: no two entries share a name.
pub proof fn lemma_possible_types_have_distinct_names(doc: Document, ctx: ResolutionContext, n: String, it: InterfaceType)
    requires
        ctx == ResolutionContext::Type(TypeRef::Named(n)),
        named_type(doc, n@) == Some(TypeDefinition::Interface(it)),
        forall|i: int, j: int|
            0 <= i < j < doc.definitions@.len() && #[trigger] doc.definitions@[i] is Type
                && #[trigger] doc.definitions@[j] is Type ==> def_name(doc.definitions@[i]->Type_0)
                != def_name(doc.definitions@[j]->Type_0),
    ensures
        resolve_values_spec(doc, ctx, "possibleTypes"@, "__Type"@) matches Ok(VValue::List(vs)) && forall|a: int, b: int|
            0 <= a < b < vs.len() ==> (#[trigger] vs[a])->Object_0[1] != (#[trigger] vs[b])->Object_0[1],
{
    lemma_possible_types_field();
    let defs = doc.definitions@;
    let rs = implementor_entries(defs, it.name@);
    assert forall|i: int| 0 <= i < rs.len() implies !(#[trigger] rs[i] matches Some(Err(_))) by {
        assert(rs[i] == implementor_entries(defs, it.name@)[i]);
    }
    lemma_collect_no_err(rs);
    let rel = |x: VValue, y: VValue| x->Object_0[1] != y->Object_0[1];
    assert forall|i: int, j: int|
        0 <= i < j < rs.len() && (#[trigger] rs[i] matches Some(Ok(_))) && (#[trigger] rs[j] matches Some(Ok(_)))
            implies rel(rs[i]->Some_0->Ok_0, rs[j]->Some_0->Ok_0) by {
        assert(rs[i] == implementor_entries(defs, it.name@)[i]);
        assert(rs[j] == implementor_entries(defs, it.name@)[j]);
        assert(defs[i] is Type && defs[j] is Type);
        assert(def_name(defs[i]->Type_0) != def_name(defs[j]->Type_0));
    }
    lemma_collect_pairwise(rs, rel);
}

} // verus!

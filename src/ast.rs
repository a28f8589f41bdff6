//! Read-only lookups over a schema document.
use vstd::prelude::*;
use crate::schema::{Definition, Document, Field, ObjectType, TypeDefinition, def_name};

verus! {

/// `i` is the first position of `s` whose item satisfies `p`.
pub open spec fn is_first<T>(s: Seq<T>, p: spec_fn(T) -> bool, i: int) -> bool {
    &&& 0 <= i < s.len()
    &&& p(s[i])
    &&& forall|j: int| 0 <= j < i ==> !p(#[trigger] s[j])
}

/// The first position of `s` whose item satisfies `p`, if any.
pub open spec fn first_index<T>(s: Seq<T>, p: spec_fn(T) -> bool) -> Option<int> {
    if exists|i: int| is_first(s, p, i) {
        Some(choose|i: int| is_first(s, p, i))
    } else {
        None
    }
}

pub proof fn lemma_first_index_found<T>(s: Seq<T>, p: spec_fn(T) -> bool, i: int)
    requires
        is_first(s, p, i),
    ensures
        first_index(s, p) == Some(i),
{
    let k = choose|k: int| is_first(s, p, k);
    assert(is_first(s, p, k));
    if k < i {
        assert(!p(s[k]));
    } else if i < k {
        assert(!p(s[i]));
    }
}

pub proof fn lemma_first_index_none<T>(s: Seq<T>, p: spec_fn(T) -> bool)
    requires
        forall|j: int| 0 <= j < s.len() ==> !p(#[trigger] s[j]),
    ensures
        first_index(s, p) is None,
{
    if exists|i: int| is_first(s, p, i) {
        let k = choose|k: int| is_first(s, p, k);
        assert(p(s[k]));
    }
}

/// A definition that defines a type called `name`, of any kind.
pub open spec fn defines_type(name: Seq<char>) -> spec_fn(Definition) -> bool {
    |d: Definition|
        match d {
            Definition::Type(td) => def_name(td) == name,
            _ => false,
        }
}

/// A definition of an object type called `name`.
pub open spec fn defines_object(name: Seq<char>) -> spec_fn(Definition) -> bool {
    |d: Definition|
        match d {
            Definition::Type(TypeDefinition::Object(t)) => t.name@ == name,
            _ => false,
        }
}

/// A field called `name`.
pub open spec fn is_field_named(name: Seq<char>) -> spec_fn(Field) -> bool {
    |f: Field| f.name@ == name
}

/// The first type definition of the document called `name`.
pub open spec fn named_type(doc: Document, name: Seq<char>) -> Option<TypeDefinition> {
    match first_index(doc.definitions@, defines_type(name)) {
        Some(i) => Some(doc.definitions@[i]->Type_0),
        None => None,
    }
}

/// The first object type of the document called `name`.
pub open spec fn root_object_type(doc: Document, name: Seq<char>) -> Option<ObjectType> {
    match first_index(doc.definitions@, defines_object(name)) {
        Some(i) => Some(doc.definitions@[i]->Type_0->Object_0),
        None => None,
    }
}

/// The first field of `fields` called `name`.
pub open spec fn field_named(fields: Seq<Field>, name: Seq<char>) -> Option<Field> {
    match first_index(fields, is_field_named(name)) {
        Some(i) => Some(fields[i]),
        None => None,
    }
}

/// Returns the name of a type definition, whatever its kind.
pub fn get_type_name(t: &TypeDefinition) -> (r: &String)
    ensures
        r@ == def_name(*t),
{
    match t {
        TypeDefinition::Scalar(t) => &t.name,
        TypeDefinition::Object(t) => &t.name,
        TypeDefinition::Interface(t) => &t.name,
        TypeDefinition::Union(t) => &t.name,
        TypeDefinition::Enum(t) => &t.name,
        TypeDefinition::InputObject(t) => &t.name,
    }
}

/// Returns the first object type called `name`, if there is one.
pub fn get_root_object_type<'a>(schema: &'a Document, name: &str) -> (r: Option<&'a ObjectType>)
    ensures
        match r {
            Some(t) => root_object_type(*schema, name@) == Some(*t),
            None => root_object_type(*schema, name@) is None,
        },
{
    let ghost p = defines_object(name@);
    let wanted = name.to_owned();
    let mut i: usize = 0;
    while i < schema.definitions.len()
        invariant
            i <= schema.definitions@.len(),
            wanted@ == name@,
            p == defines_object(name@),
            forall|j: int| 0 <= j < i ==> !p(#[trigger] schema.definitions@[j]),
        decreases schema.definitions@.len() - i,
    {
        match &schema.definitions[i] {
            Definition::Type(TypeDefinition::Object(t)) => {
                if t.name == wanted {
                    proof {
                        lemma_first_index_found(schema.definitions@, p, i as int);
                    }
                    return Some(t);
                }
            },
            _ => {},
        }
        i += 1;
    }
    proof {
        lemma_first_index_none(schema.definitions@, p);
    }
    None
}

/// Returns the root query type: the first object type called `Query`.
pub fn get_root_query_type(schema: &Document) -> (r: Option<&ObjectType>)
    ensures
        match r {
            Some(t) => root_object_type(*schema, "Query"@) == Some(*t),
            None => root_object_type(*schema, "Query"@) is None,
        },
{
    get_root_object_type(schema, "Query")
}

/// Returns the root mutation type: the first object type called `Mutation`.
pub fn get_root_mutation_type(schema: &Document) -> (r: Option<&ObjectType>)
    ensures
        match r {
            Some(t) => root_object_type(*schema, "Mutation"@) == Some(*t),
            None => root_object_type(*schema, "Mutation"@) is None,
        },
{
    get_root_object_type(schema, "Mutation")
}

/// Returns the first type definition called `name`, of any kind.
pub fn get_named_type<'a>(schema: &'a Document, name: &String) -> (r: Option<&'a TypeDefinition>)
    ensures
        match r {
            Some(t) => named_type(*schema, name@) == Some(*t),
            None => named_type(*schema, name@) is None,
        },
{
    let ghost p = defines_type(name@);
    let mut i: usize = 0;
    while i < schema.definitions.len()
        invariant
            i <= schema.definitions@.len(),
            p == defines_type(name@),
            forall|j: int| 0 <= j < i ==> !p(#[trigger] schema.definitions@[j]),
        decreases schema.definitions@.len() - i,
    {
        match &schema.definitions[i] {
            Definition::Type(td) => {
                let n = get_type_name(td);
                if *n == *name {
                    proof {
                        lemma_first_index_found(schema.definitions@, p, i as int);
                    }
                    return Some(td);
                }
            },
            _ => {},
        }
        i += 1;
    }
    proof {
        lemma_first_index_none(schema.definitions@, p);
    }
    None
}

/// Returns the first field of `fields` called `name`.
pub fn find_field<'a>(fields: &'a Vec<Field>, name: &String) -> (r: Option<&'a Field>)
    ensures
        match r {
            Some(f) => field_named(fields@, name@) == Some(*f),
            None => field_named(fields@, name@) is None,
        },
{
    let ghost p = is_field_named(name@);
    let mut i: usize = 0;
    while i < fields.len()
        invariant
            i <= fields@.len(),
            p == is_field_named(name@),
            forall|j: int| 0 <= j < i ==> !p(#[trigger] fields@[j]),
        decreases fields@.len() - i,
    {
        if fields[i].name == *name {
            proof {
                lemma_first_index_found(fields@, p, i as int);
            }
            return Some(&fields[i]);
        }
        i += 1;
    }
    proof {
        lemma_first_index_none(fields@, p);
    }
    None
}

/// Returns the first field of an object type called `name`.
pub fn get_field_type<'a>(object_type: &'a ObjectType, name: &String) -> (r: Option<&'a Field>)
    ensures
        match r {
            Some(f) => field_named(object_type.fields@, name@) == Some(*f),
            None => field_named(object_type.fields@, name@) is None,
        },
{
    find_field(&object_type.fields, name)
}

} // verus!

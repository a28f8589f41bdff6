//! The schema document that introspection describes: type definitions and
//! directive definitions, in declaration order.
use vstd::prelude::*;

verus! {

/// A reference to a type: a named type, or a list or non-null wrapper around
/// another reference.
#[derive(Debug, PartialEq)]
pub enum TypeRef {
    Named(String),
    List(Box<TypeRef>),
    NonNull(Box<TypeRef>),
}

/// An argument of a field or directive, or a field of an input object.
/// `default_value` holds the default as GraphQL literal text.
#[derive(Debug, PartialEq)]
pub struct InputValue {
    pub name: String,
    pub description: Option<String>,
    pub value_type: TypeRef,
    pub default_value: Option<String>,
}

/// A field of an object or interface type.
#[derive(Debug, PartialEq)]
pub struct Field {
    pub name: String,
    pub description: Option<String>,
    pub arguments: Vec<InputValue>,
    pub field_type: TypeRef,
}

#[derive(Debug, PartialEq)]
pub struct ObjectType {
    pub name: String,
    pub description: Option<String>,
    pub implements_interfaces: Vec<String>,
    pub fields: Vec<Field>,
}

#[derive(Debug, PartialEq)]
pub struct InterfaceType {
    pub name: String,
    pub description: Option<String>,
    pub fields: Vec<Field>,
}

/// A union type with the names of its member types, in declaration order.
#[derive(Debug, PartialEq)]
pub struct UnionType {
    pub name: String,
    pub description: Option<String>,
    pub types: Vec<String>,
}

#[derive(Debug, PartialEq)]
pub struct EnumValue {
    pub name: String,
    pub description: Option<String>,
}

#[derive(Debug, PartialEq)]
pub struct EnumType {
    pub name: String,
    pub description: Option<String>,
    pub values: Vec<EnumValue>,
}

#[derive(Debug, PartialEq)]
pub struct ScalarType {
    pub name: String,
    pub description: Option<String>,
}

#[derive(Debug, PartialEq)]
pub struct InputObjectType {
    pub name: String,
    pub description: Option<String>,
    pub fields: Vec<InputValue>,
}

#[derive(Debug, PartialEq)]
pub enum TypeDefinition {
    Scalar(ScalarType),
    Object(ObjectType),
    Interface(InterfaceType),
    Union(UnionType),
    Enum(EnumType),
    InputObject(InputObjectType),
}

/// A place in a document where a directive may be used.
#[derive(Debug, PartialEq, Eq, Structural, Clone, Copy)]
pub enum DirectiveLocation {
    Query,
    Mutation,
    Subscription,
    Field,
    FragmentDefinition,
    FragmentSpread,
    InlineFragment,
    Schema,
    Scalar,
    Object,
    FieldDefinition,
    ArgumentDefinition,
    Interface,
    Union,
    Enum,
    EnumValue,
    InputObject,
    InputFieldDefinition,
}

#[derive(Debug, PartialEq)]
pub struct DirectiveDefinition {
    pub name: String,
    pub description: Option<String>,
    pub arguments: Vec<InputValue>,
    pub locations: Vec<DirectiveLocation>,
}

#[derive(Debug, PartialEq)]
pub enum Definition {
    Type(TypeDefinition),
    Directive(DirectiveDefinition),
}

/// A schema document: its definitions in declaration order.
#[derive(Debug, PartialEq)]
pub struct Document {
    pub definitions: Vec<Definition>,
}

/// The name of the named type at the bottom of a chain of wrappers.
pub open spec fn base_name(t: TypeRef) -> Seq<char>
    decreases t,
{
    match t {
        TypeRef::Named(n) => n@,
        TypeRef::List(inner) => base_name(*inner),
        TypeRef::NonNull(inner) => base_name(*inner),
    }
}

/// The name of a type definition, whatever its kind.
pub open spec fn def_name(td: TypeDefinition) -> Seq<char> {
    match td {
        TypeDefinition::Scalar(t) => t.name@,
        TypeDefinition::Object(t) => t.name@,
        TypeDefinition::Interface(t) => t.name@,
        TypeDefinition::Union(t) => t.name@,
        TypeDefinition::Enum(t) => t.name@,
        TypeDefinition::InputObject(t) => t.name@,
    }
}

/// The description of a type definition, whatever its kind.
pub open spec fn def_description(td: TypeDefinition) -> Option<String> {
    match td {
        TypeDefinition::Scalar(t) => t.description,
        TypeDefinition::Object(t) => t.description,
        TypeDefinition::Interface(t) => t.description,
        TypeDefinition::Union(t) => t.description,
        TypeDefinition::Enum(t) => t.description,
        TypeDefinition::InputObject(t) => t.description,
    }
}

/// The introspection kind tag of a type definition.
pub open spec fn def_kind(td: TypeDefinition) -> Seq<char> {
    match td {
        TypeDefinition::Scalar(_) => "SCALAR"@,
        TypeDefinition::Object(_) => "OBJECT"@,
        TypeDefinition::Interface(_) => "INTERFACE"@,
        TypeDefinition::Union(_) => "UNION"@,
        TypeDefinition::Enum(_) => "ENUM"@,
        TypeDefinition::InputObject(_) => "INPUT_OBJECT"@,
    }
}

/// The GraphQL spelling of a directive location.
pub open spec fn location_name(l: DirectiveLocation) -> Seq<char> {
    match l {
        DirectiveLocation::Query => "QUERY"@,
        DirectiveLocation::Mutation => "MUTATION"@,
        DirectiveLocation::Subscription => "SUBSCRIPTION"@,
        DirectiveLocation::Field => "FIELD"@,
        DirectiveLocation::FragmentDefinition => "FRAGMENT_DEFINITION"@,
        DirectiveLocation::FragmentSpread => "FRAGMENT_SPREAD"@,
        DirectiveLocation::InlineFragment => "INLINE_FRAGMENT"@,
        DirectiveLocation::Schema => "SCHEMA"@,
        DirectiveLocation::Scalar => "SCALAR"@,
        DirectiveLocation::Object => "OBJECT"@,
        DirectiveLocation::FieldDefinition => "FIELD_DEFINITION"@,
        DirectiveLocation::ArgumentDefinition => "ARGUMENT_DEFINITION"@,
        DirectiveLocation::Interface => "INTERFACE"@,
        DirectiveLocation::Union => "UNION"@,
        DirectiveLocation::Enum => "ENUM"@,
        DirectiveLocation::EnumValue => "ENUM_VALUE"@,
        DirectiveLocation::InputObject => "INPUT_OBJECT"@,
        DirectiveLocation::InputFieldDefinition => "INPUT_FIELD_DEFINITION"@,
    }
}

impl DirectiveLocation {
    /// The GraphQL spelling of this location.
    pub fn as_str(&self) -> (r: &'static str)
        ensures
            r@ == location_name(*self),
    {
        match self {
            DirectiveLocation::Query => "QUERY",
            DirectiveLocation::Mutation => "MUTATION",
            DirectiveLocation::Subscription => "SUBSCRIPTION",
            DirectiveLocation::Field => "FIELD",
            DirectiveLocation::FragmentDefinition => "FRAGMENT_DEFINITION",
            DirectiveLocation::FragmentSpread => "FRAGMENT_SPREAD",
            DirectiveLocation::InlineFragment => "INLINE_FRAGMENT",
            DirectiveLocation::Schema => "SCHEMA",
            DirectiveLocation::Scalar => "SCALAR",
            DirectiveLocation::Object => "OBJECT",
            DirectiveLocation::FieldDefinition => "FIELD_DEFINITION",
            DirectiveLocation::ArgumentDefinition => "ARGUMENT_DEFINITION",
            DirectiveLocation::Interface => "INTERFACE",
            DirectiveLocation::Union => "UNION",
            DirectiveLocation::Enum => "ENUM",
            DirectiveLocation::EnumValue => "ENUM_VALUE",
            DirectiveLocation::InputObject => "INPUT_OBJECT",
            DirectiveLocation::InputFieldDefinition => "INPUT_FIELD_DEFINITION",
        }
    }
}

} // verus!

//! Errors of introspection resolution. Both kinds are internal errors: a
//! type name the client asks for that does not exist is no error at all.
use vstd::prelude::*;

verus! {

#[derive(Debug, Clone, PartialEq)]
pub enum IntrospectionError {
    /// A type reference inside the schema names a type that is not defined.
    SchemaInconsistency(String),
    /// The resolver was asked for a field of an introspection type it does
    /// not know.
    UnhandledIntrospectionField { field_name: String, object_name: String },
}

/// The model of an [`IntrospectionError`].
pub ghost enum VError {
    SchemaInconsistency(Seq<char>),
    UnhandledIntrospectionField(Seq<char>, Seq<char>),
}

impl IntrospectionError {
    pub open spec fn view(self) -> VError {
        match self {
            IntrospectionError::SchemaInconsistency(n) => VError::SchemaInconsistency(n@),
            IntrospectionError::UnhandledIntrospectionField { field_name, object_name } =>
                VError::UnhandledIntrospectionField(field_name@, object_name@),
        }
    }

    /// Whether the error is the server's fault rather than the client's.
    pub fn is_internal(&self) -> (r: bool)
        ensures
            r,
    {
        true
    }
}

} // verus!

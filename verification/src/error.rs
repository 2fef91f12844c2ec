use vstd::prelude::*;

verus! {

/// Why a pointer could not be resolved (or parsed). Every variant carries
/// the textual context a caller needs to render a precise diagnosis.
#[derive(Debug, Clone)]
pub enum ResolveError {
    /// The string does not match either schema-pointer shape.
    MalformedSchemaReference { reference: String },
    /// The string does not match `#/components/<group>/<name>`.
    MalformedGroupReference { group: String, reference: String },
    /// The document has no components section, but the pointer needs one.
    NoComponents,
    /// The parsed name is not present in the relevant dictionary.
    UnknownName { reference: String },
    /// The dictionary entry is itself a pointer; chains are not permitted.
    ChainedReference { reference: String, target: String },
    /// A property pointer targets a schema that has no property dictionary.
    NotAnObject { reference: String, schema: String },
    /// A property pointer targets a schema lacking the named property.
    MissingProperty { schema: String, property: String },
}

/// Mathematical model of a `ResolveError`: its context as character sequences.
pub enum ResolveErrorModel {
    MalformedSchemaReference { reference: Seq<char> },
    MalformedGroupReference { group: Seq<char>, reference: Seq<char> },
    NoComponents,
    UnknownName { reference: Seq<char> },
    ChainedReference { reference: Seq<char>, target: Seq<char> },
    NotAnObject { reference: Seq<char>, schema: Seq<char> },
    MissingProperty { schema: Seq<char>, property: Seq<char> },
}

impl View for ResolveError {
    type V = ResolveErrorModel;

    open spec fn view(&self) -> ResolveErrorModel {
        match self {
            ResolveError::MalformedSchemaReference { reference } => {
                ResolveErrorModel::MalformedSchemaReference { reference: reference@ }
            },
            ResolveError::MalformedGroupReference { group, reference } => {
                ResolveErrorModel::MalformedGroupReference {
                    group: group@,
                    reference: reference@,
                }
            },
            ResolveError::NoComponents => ResolveErrorModel::NoComponents,
            ResolveError::UnknownName { reference } => {
                ResolveErrorModel::UnknownName { reference: reference@ }
            },
            ResolveError::ChainedReference { reference, target } => {
                ResolveErrorModel::ChainedReference { reference: reference@, target: target@ }
            },
            ResolveError::NotAnObject { reference, schema } => {
                ResolveErrorModel::NotAnObject { reference: reference@, schema: schema@ }
            },
            ResolveError::MissingProperty { schema, property } => {
                ResolveErrorModel::MissingProperty { schema: schema@, property: property@ }
            },
        }
    }
}

} // verus!

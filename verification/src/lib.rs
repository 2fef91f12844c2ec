//! Reference resolution for a structured API document model: a container
//! that is either an inline value or a textual pointer, the schema-scoped
//! pointer syntax, and the single-step resolution of pointers against the
//! owning document.

mod document;
mod error;
mod pointer;
mod reference_or;
mod resolve;
mod text;

pub use document::{Components, OpenAPI, Parameter, RequestBody, Response, Schema};
pub use document::{entry_model, props_model, schema_is_empty, schema_model, SchemaEntryModel, SchemaModel};
pub use error::{ResolveError, ResolveErrorModel};
pub use pointer::{SchemaReference, SchemaReferenceModel};
pub use pointer::{get_parameter_name, get_request_body_name, get_response_name, parse_reference};
pub use pointer::{
    extract_group_name, first_slash, format_schema_reference, group_path_prefix, last_slash,
    lemma_format_then_parse, lemma_parse_then_format, lemma_schema_reference_round_trip,
    parse_schema_reference, properties_infix, schema_path_prefix, well_formed,
};
pub use reference_or::ReferenceOr;
pub use resolve::{
    dict_lookup, entry_pair_count, parameter_resolution, request_body_resolution,
    resolution_fuel, response_resolution, sat_add, schema_lookup_step, schema_pair_count,
    schema_resolution, Resolve,
};
pub use resolve::{
    lemma_chain_rejected, lemma_item_short_circuit_parameter,
    lemma_item_short_circuit_request_body, lemma_item_short_circuit_response,
    lemma_item_short_circuit_schema, lemma_property_shape_mismatch, lemma_property_traversal,
    lemma_unknown_name,
};
pub use text::slash_free;

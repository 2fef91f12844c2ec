use vstd::prelude::*;

use crate::document::{OpenAPI, Parameter, RequestBody, Response, Schema};
use crate::error::{ResolveError, ResolveErrorModel};
use crate::pointer::{
    extract_group_name, get_parameter_name, get_request_body_name, get_response_name,
    parse_schema_reference, SchemaReference, SchemaReferenceModel,
};
use crate::reference_or::ReferenceOr;
use crate::text::str_eq;

verus! {

/// First-match lookup in a name-keyed association list.
pub open spec fn dict_lookup<T>(entries: Seq<(String, ReferenceOr<T>)>, name: Seq<char>) -> Option<
    ReferenceOr<T>,
>
    decreases entries.len(),
{
    if entries.len() == 0 {
        None
    } else if entries[0].0@ == name {
        Some(entries[0].1)
    } else {
        dict_lookup(entries.drop_first(), name)
    }
}

/// First-match lookup, executable: scans the entries in order.
#[verifier::loop_isolation(false)]
fn lookup_entry<'a, T>(entries: &'a Vec<(String, ReferenceOr<T>)>, name: &str) -> (r: Option<
    &'a ReferenceOr<T>,
>)
    ensures
        match r {
            Some(p) => dict_lookup(entries@, name@) == Some(*p),
            None => dict_lookup(entries@, name@) is None,
        },
{
    let mut idx: usize = 0;
    proof {
        assert(entries@.skip(0) =~= entries@);
    }
    while idx < entries.len()
        invariant
            idx <= entries@.len(),
            dict_lookup(entries@, name@) == dict_lookup(entries@.skip(idx as int), name@),
        decreases entries@.len() - idx,
    {
        let pair = &entries[idx];
        proof {
            assert(entries@.skip(idx as int)[0] == entries@[idx as int]);
        }
        if str_eq(pair.0.as_str(), name) {
            return Some(&pair.1);
        }
        proof {
            assert(entries@.skip(idx as int).drop_first() =~= entries@.skip(idx as int + 1));
        }
        idx += 1;
    }
    None
}

/// One property redirection per property of an inline top-level schema.
pub open spec fn entry_pair_count(e: (String, ReferenceOr<Schema>)) -> nat {
    match e.1 {
        ReferenceOr::Item(s) => match s.properties {
            Some(v) => v@.len(),
            None => 0,
        },
        ReferenceOr::Reference { .. } => 0,
    }
}

/// Addition capped at the machine's largest index.
pub open spec fn sat_add(a: nat, b: nat) -> nat {
    if a + b > usize::MAX {
        usize::MAX as nat
    } else {
        a + b
    }
}

/// The number of properties reachable from the schema dictionary, capped.
pub open spec fn schema_pair_count(entries: Seq<(String, ReferenceOr<Schema>)>) -> nat
    decreases entries.len(),
{
    if entries.len() == 0 {
        0
    } else {
        sat_add(schema_pair_count(entries.drop_last()), entry_pair_count(entries.last()))
    }
}

/// The document's redirection budget: a chain of property redirections
/// longer than the number of properties in the document must revisit one,
/// so it can only be a cycle.
pub open spec fn resolution_fuel(d: OpenAPI) -> nat {
    sat_add(schema_pair_count(d.schemas@), 1)
}

/// Computes the document's redirection budget.
#[verifier::loop_isolation(false)]
fn fuel_for(d: &OpenAPI) -> (r: usize)
    ensures
        r as nat == resolution_fuel(*d),
{
    let mut total: usize = 0;
    let mut idx: usize = 0;
    while idx < d.schemas.len()
        invariant
            idx <= d.schemas@.len(),
            total as nat == schema_pair_count(d.schemas@.take(idx as int)),
        decreases d.schemas@.len() - idx,
    {
        let pair = &d.schemas[idx];
        let c: usize = match &pair.1 {
            ReferenceOr::Item(s) => match &s.properties {
                Some(v) => v.len(),
                None => 0,
            },
            ReferenceOr::Reference { .. } => 0,
        };
        total = if total > usize::MAX - c {
            usize::MAX
        } else {
            total + c
        };
        proof {
            assert(d.schemas@.take(idx as int + 1).drop_last() =~= d.schemas@.take(idx as int));
            assert(d.schemas@.take(idx as int + 1).last() == d.schemas@[idx as int]);
        }
        idx += 1;
    }
    proof {
        assert(d.schemas@.take(d.schemas@.len() as int) =~= d.schemas@);
    }
    if total > usize::MAX - 1 {
        usize::MAX
    } else {
        total + 1
    }
}

/// One dictionary access for a schema name: the entry must exist and be
/// inline; a missing name or a further pointer is a precise failure.
pub open spec fn schema_lookup_step(d: OpenAPI, name: Seq<char>, raw: Seq<char>) -> Result<
    Schema,
    ResolveErrorModel,
> {
    match dict_lookup(d.schemas@, name) {
        None => Err(ResolveErrorModel::UnknownName { reference: raw }),
        Some(ReferenceOr::Reference { reference: target }) => Err(
            ResolveErrorModel::ChainedReference { reference: raw, target: target@ },
        ),
        Some(ReferenceOr::Item(s)) => Ok(s),
    }
}

/// What resolving a schema container yields. `fuel` bounds how many
/// property redirections may still be followed; a run that exhausts it has
/// revisited a property and is rejected as a chain.
pub open spec fn schema_resolution(c: ReferenceOr<Schema>, d: OpenAPI, fuel: nat) -> Result<
    Schema,
    ResolveErrorModel,
>
    decreases fuel,
{
    match c {
        ReferenceOr::Item(s) => Ok(s),
        ReferenceOr::Reference { reference } => match parse_schema_reference(reference@) {
            None => Err(ResolveErrorModel::MalformedSchemaReference { reference: reference@ }),
            Some(SchemaReferenceModel::Schema { schema }) => schema_lookup_step(
                d,
                schema,
                reference@,
            ),
            Some(SchemaReferenceModel::Property { schema, property }) => match schema_lookup_step(
                d,
                schema,
                reference@,
            ) {
                Err(e) => Err(e),
                Ok(sch) => match sch.properties {
                    None => Err(
                        ResolveErrorModel::NotAnObject { reference: reference@, schema },
                    ),
                    Some(props) => match dict_lookup(props@, property) {
                        None => Err(ResolveErrorModel::MissingProperty { schema, property }),
                        Some(ReferenceOr::Item(ps)) => Ok(ps),
                        Some(ReferenceOr::Reference { reference: r2 }) => {
                            if fuel == 0 {
                                Err(
                                    ResolveErrorModel::ChainedReference {
                                        reference: reference@,
                                        target: r2@,
                                    },
                                )
                            } else {
                                schema_resolution(
                                    ReferenceOr::Reference { reference: r2 },
                                    d,
                                    (fuel - 1) as nat,
                                )
                            }
                        },
                    },
                },
            },
        },
    }
}

/// What resolving a parameter container yields.
pub open spec fn parameter_resolution(c: ReferenceOr<Parameter>, d: OpenAPI) -> Result<
    Parameter,
    ResolveErrorModel,
> {
    match c {
        ReferenceOr::Item(p) => Ok(p),
        ReferenceOr::Reference { reference } => match extract_group_name(
            "parameters"@,
            reference@,
        ) {
            None => Err(
                ResolveErrorModel::MalformedGroupReference {
                    group: "parameters"@,
                    reference: reference@,
                },
            ),
            Some(name) => match d.components {
                None => Err(ResolveErrorModel::NoComponents),
                Some(comp) => match dict_lookup(comp.parameters@, name) {
                    None => Err(ResolveErrorModel::UnknownName { reference: reference@ }),
                    Some(ReferenceOr::Reference { reference: target }) => Err(
                        ResolveErrorModel::ChainedReference {
                            reference: reference@,
                            target: target@,
                        },
                    ),
                    Some(ReferenceOr::Item(p)) => Ok(p),
                },
            },
        },
    }
}

/// What resolving a response container yields.
pub open spec fn response_resolution(c: ReferenceOr<Response>, d: OpenAPI) -> Result<
    Response,
    ResolveErrorModel,
> {
    match c {
        ReferenceOr::Item(p) => Ok(p),
        ReferenceOr::Reference { reference } => match extract_group_name(
            "responses"@,
            reference@,
        ) {
            None => Err(
                ResolveErrorModel::MalformedGroupReference {
                    group: "responses"@,
                    reference: reference@,
                },
            ),
            Some(name) => match d.components {
                None => Err(ResolveErrorModel::NoComponents),
                Some(comp) => match dict_lookup(comp.responses@, name) {
                    None => Err(ResolveErrorModel::UnknownName { reference: reference@ }),
                    Some(ReferenceOr::Reference { reference: target }) => Err(
                        ResolveErrorModel::ChainedReference {
                            reference: reference@,
                            target: target@,
                        },
                    ),
                    Some(ReferenceOr::Item(p)) => Ok(p),
                },
            },
        },
    }
}

/// What resolving a request body container yields.
pub open spec fn request_body_resolution(c: ReferenceOr<RequestBody>, d: OpenAPI) -> Result<
    RequestBody,
    ResolveErrorModel,
> {
    match c {
        ReferenceOr::Item(p) => Ok(p),
        ReferenceOr::Reference { reference } => match extract_group_name(
            "requestBodies"@,
            reference@,
        ) {
            None => Err(
                ResolveErrorModel::MalformedGroupReference {
                    group: "requestBodies"@,
                    reference: reference@,
                },
            ),
            Some(name) => match d.components {
                None => Err(ResolveErrorModel::NoComponents),
                Some(comp) => match dict_lookup(comp.request_bodies@, name) {
                    None => Err(ResolveErrorModel::UnknownName { reference: reference@ }),
                    Some(ReferenceOr::Reference { reference: target }) => Err(
                        ResolveErrorModel::ChainedReference {
                            reference: reference@,
                            target: target@,
                        },
                    ),
                    Some(ReferenceOr::Item(p)) => Ok(p),
                },
            },
        },
    }
}

/// The single-step resolution capability: given the owning document,
/// return a borrow of the value a container denotes, or a precise
/// diagnosis. `resolution` is the mathematical account each
/// implementation's `resolve` is held to, exactly.
pub trait Resolve {
    type Output;

    /// What resolving this container against `doc` yields.
    spec fn resolution(&self, doc: &OpenAPI) -> Result<Self::Output, ResolveErrorModel>;

    /// Resolves this container against `doc`: an inline item is returned
    /// as is; a pointer is parsed and followed exactly one step.
    fn resolve<'a>(&'a self, doc: &'a OpenAPI) -> (r: Result<&'a Self::Output, ResolveError>)
        ensures
            match r {
                Ok(v) => self.resolution(doc) == Ok::<Self::Output, ResolveErrorModel>(*v),
                Err(e) => self.resolution(doc) == Err::<Self::Output, ResolveErrorModel>(e@),
            },
    ;
}

/// Looks a schema name up in the document's schema dictionary.
fn get_schema<'a>(d: &'a OpenAPI, name: &str, raw: &str) -> (r: Result<&'a Schema, ResolveError>)
    ensures
        match r {
            Ok(s) => schema_lookup_step(*d, name@, raw@) == Ok::<Schema, ResolveErrorModel>(*s),
            Err(e) => schema_lookup_step(*d, name@, raw@) == Err::<Schema, ResolveErrorModel>(e@),
        },
{
    match lookup_entry(d.schemas(), name) {
        None => Err(ResolveError::UnknownName { reference: raw.to_owned() }),
        Some(entry) => match entry {
            ReferenceOr::Item(s) => Ok(s),
            ReferenceOr::Reference { reference } => Err(
                ResolveError::ChainedReference {
                    reference: raw.to_owned(),
                    target: reference.clone(),
                },
            ),
        },
    }
}

/// Resolves a schema container with an explicit redirection budget.
fn resolve_schema_fueled<'a>(c: &'a ReferenceOr<Schema>, d: &'a OpenAPI, fuel: usize) -> (r: Result<
    &'a Schema,
    ResolveError,
>)
    ensures
        match r {
            Ok(s) => schema_resolution(*c, *d, fuel as nat) == Ok::<Schema, ResolveErrorModel>(*s),
            Err(e) => schema_resolution(*c, *d, fuel as nat) == Err::<
                Schema,
                ResolveErrorModel,
            >(e@),
        },
    decreases fuel,
{
    let reference = match c {
        ReferenceOr::Item(item) => {
            return Ok(item);
        },
        ReferenceOr::Reference { reference } => reference,
    };
    let parsed = match SchemaReference::from_str(reference.as_str()) {
        Ok(p) => p,
        Err(e) => {
            return Err(e);
        },
    };
    match &parsed {
        SchemaReference::Schema { schema } => get_schema(d, schema.as_str(), reference.as_str()),
        SchemaReference::Property { schema, property } => {
            let sch = match get_schema(d, schema.as_str(), reference.as_str()) {
                Ok(s) => s,
                Err(e) => {
                    return Err(e);
                },
            };
            let props = match &sch.properties {
                Some(v) => v,
                None => {
                    return Err(
                        ResolveError::NotAnObject {
                            reference: reference.clone(),
                            schema: schema.clone(),
                        },
                    );
                },
            };
            let child = match lookup_entry(props, property.as_str()) {
                Some(p) => p,
                None => {
                    return Err(
                        ResolveError::MissingProperty {
                            schema: schema.clone(),
                            property: property.clone(),
                        },
                    );
                },
            };
            match child {
                ReferenceOr::Item(ps) => Ok(ps),
                ReferenceOr::Reference { reference: r2 } => {
                    if fuel == 0 {
                        Err(
                            ResolveError::ChainedReference {
                                reference: reference.clone(),
                                target: r2.clone(),
                            },
                        )
                    } else {
                        resolve_schema_fueled(child, d, fuel - 1)
                    }
                },
            }
        },
    }
}

impl Resolve for ReferenceOr<Schema> {
    type Output = Schema;

    /// Schema resolution, with the document's full redirection budget.
    open spec fn resolution(&self, doc: &OpenAPI) -> Result<Schema, ResolveErrorModel> {
        schema_resolution(*self, *doc, resolution_fuel(*doc))
    }

    fn resolve<'a>(&'a self, doc: &'a OpenAPI) -> (r: Result<&'a Schema, ResolveError>) {
        let fuel = fuel_for(doc);
        resolve_schema_fueled(self, doc, fuel)
    }
}

impl Resolve for ReferenceOr<Parameter> {
    type Output = Parameter;

    open spec fn resolution(&self, doc: &OpenAPI) -> Result<Parameter, ResolveErrorModel> {
        parameter_resolution(*self, *doc)
    }

    fn resolve<'a>(&'a self, doc: &'a OpenAPI) -> (r: Result<&'a Parameter, ResolveError>) {
        let reference = match self {
            ReferenceOr::Item(item) => {
                return Ok(item);
            },
            ReferenceOr::Reference { reference } => reference,
        };
        let name = match get_parameter_name(reference.as_str()) {
            Ok(n) => n,
            Err(e) => {
                return Err(e);
            },
        };
        let comp = match &doc.components {
            Some(c) => c,
            None => {
                return Err(ResolveError::NoComponents);
            },
        };
        match lookup_entry(&comp.parameters, name) {
            None => Err(ResolveError::UnknownName { reference: reference.clone() }),
            Some(ReferenceOr::Item(p)) => Ok(p),
            Some(ReferenceOr::Reference { reference: target }) => Err(
                ResolveError::ChainedReference {
                    reference: reference.clone(),
                    target: target.clone(),
                },
            ),
        }
    }
}

impl Resolve for ReferenceOr<Response> {
    type Output = Response;

    open spec fn resolution(&self, doc: &OpenAPI) -> Result<Response, ResolveErrorModel> {
        response_resolution(*self, *doc)
    }

    fn resolve<'a>(&'a self, doc: &'a OpenAPI) -> (r: Result<&'a Response, ResolveError>) {
        let reference = match self {
            ReferenceOr::Item(item) => {
                return Ok(item);
            },
            ReferenceOr::Reference { reference } => reference,
        };
        let name = match get_response_name(reference.as_str()) {
            Ok(n) => n,
            Err(e) => {
                return Err(e);
            },
        };
        let comp = match &doc.components {
            Some(c) => c,
            None => {
                return Err(ResolveError::NoComponents);
            },
        };
        match lookup_entry(&comp.responses, name) {
            None => Err(ResolveError::UnknownName { reference: reference.clone() }),
            Some(ReferenceOr::Item(p)) => Ok(p),
            Some(ReferenceOr::Reference { reference: target }) => Err(
                ResolveError::ChainedReference {
                    reference: reference.clone(),
                    target: target.clone(),
                },
            ),
        }
    }
}

impl Resolve for ReferenceOr<RequestBody> {
    type Output = RequestBody;

    open spec fn resolution(&self, doc: &OpenAPI) -> Result<RequestBody, ResolveErrorModel> {
        request_body_resolution(*self, *doc)
    }

    fn resolve<'a>(&'a self, doc: &'a OpenAPI) -> (r: Result<&'a RequestBody, ResolveError>) {
        let reference = match self {
            ReferenceOr::Item(item) => {
                return Ok(item);
            },
            ReferenceOr::Reference { reference } => reference,
        };
        let name = match get_request_body_name(reference.as_str()) {
            Ok(n) => n,
            Err(e) => {
                return Err(e);
            },
        };
        let comp = match &doc.components {
            Some(c) => c,
            None => {
                return Err(ResolveError::NoComponents);
            },
        };
        match lookup_entry(&comp.request_bodies, name) {
            None => Err(ResolveError::UnknownName { reference: reference.clone() }),
            Some(ReferenceOr::Item(p)) => Ok(p),
            Some(ReferenceOr::Reference { reference: target }) => Err(
                ResolveError::ChainedReference {
                    reference: reference.clone(),
                    target: target.clone(),
                },
            ),
        }
    }
}

} // verus!

verus! {

/// An inline schema resolves to itself against any document, even one
/// with no components and no schema dictionary: resolution never inspects
/// the document for the `Item` variant.
pub proof fn lemma_item_short_circuit_schema(v: Schema, d: OpenAPI)
    ensures
        (ReferenceOr::Item(v)).resolution(&d) == Ok::<Schema, ResolveErrorModel>(v),
{
}

/// An inline parameter resolves to itself against any document.
pub proof fn lemma_item_short_circuit_parameter(v: Parameter, d: OpenAPI)
    ensures
        (ReferenceOr::Item(v)).resolution(&d) == Ok::<Parameter, ResolveErrorModel>(v),
{
}

/// An inline response resolves to itself against any document.
pub proof fn lemma_item_short_circuit_response(v: Response, d: OpenAPI)
    ensures
        (ReferenceOr::Item(v)).resolution(&d) == Ok::<Response, ResolveErrorModel>(v),
{
}

/// An inline request body resolves to itself against any document.
pub proof fn lemma_item_short_circuit_request_body(v: RequestBody, d: OpenAPI)
    ensures
        (ReferenceOr::Item(v)).resolution(&d) == Ok::<RequestBody, ResolveErrorModel>(v),
{
}

/// A schema pointer to a name the schema dictionary lacks fails with the
/// unknown-name diagnosis carrying the original pointer.
pub proof fn lemma_unknown_name(d: OpenAPI, raw: String, name: Seq<char>)
    requires
        parse_schema_reference(raw@) == Some(SchemaReferenceModel::Schema { schema: name }),
        dict_lookup(d.schemas@, name) is None,
    ensures
        (ReferenceOr::<Schema>::Reference { reference: raw }).resolution(&d) == Err::<
            Schema,
            ResolveErrorModel,
        >(ResolveErrorModel::UnknownName { reference: raw@ }),
{
}

/// A schema pointer whose dictionary entry is itself a pointer is rejected
/// as a chain, whatever that second pointer would resolve to.
pub proof fn lemma_chain_rejected(d: OpenAPI, raw: String, name: Seq<char>, target: String)
    requires
        parse_schema_reference(raw@) == Some(SchemaReferenceModel::Schema { schema: name }),
        dict_lookup(d.schemas@, name) == Some(
            ReferenceOr::<Schema>::Reference { reference: target },
        ),
    ensures
        (ReferenceOr::<Schema>::Reference { reference: raw }).resolution(&d) == Err::<
            Schema,
            ResolveErrorModel,
        >(ResolveErrorModel::ChainedReference { reference: raw@, target: target@ }),
{
}

/// A property pointer into a schema without a property dictionary fails
/// with the shape-mismatch diagnosis naming the schema.
pub proof fn lemma_property_shape_mismatch(
    d: OpenAPI,
    raw: String,
    name: Seq<char>,
    property: Seq<char>,
    sch: Schema,
)
    requires
        parse_schema_reference(raw@) == Some(
            SchemaReferenceModel::Property { schema: name, property },
        ),
        dict_lookup(d.schemas@, name) == Some(ReferenceOr::Item(sch)),
        sch.properties is None,
    ensures
        (ReferenceOr::<Schema>::Reference { reference: raw }).resolution(&d) == Err::<
            Schema,
            ResolveErrorModel,
        >(ResolveErrorModel::NotAnObject { reference: raw@, schema: name }),
{
}

/// A property pointer whose named schema holds the named property inline
/// resolves to that property's schema.
pub proof fn lemma_property_traversal(
    d: OpenAPI,
    raw: String,
    name: Seq<char>,
    property: Seq<char>,
    sch: Schema,
    props: Vec<(String, ReferenceOr<Schema>)>,
    ps: Schema,
)
    requires
        parse_schema_reference(raw@) == Some(
            SchemaReferenceModel::Property { schema: name, property },
        ),
        dict_lookup(d.schemas@, name) == Some(ReferenceOr::Item(sch)),
        sch.properties == Some(props),
        dict_lookup(props@, property) == Some(ReferenceOr::Item(ps)),
    ensures
        (ReferenceOr::<Schema>::Reference { reference: raw }).resolution(&d) == Ok::<
            Schema,
            ResolveErrorModel,
        >(ps),
{
}

} // verus!

use vstd::prelude::*;

use crate::reference_or::ReferenceOr;

verus! {

/// A schema entity: the parts of a schema that resolution reads — an
/// optional type name and an optional property dictionary.
#[derive(Debug)]
pub struct Schema {
    pub schema_type: Option<String>,
    pub properties: Option<Vec<(String, ReferenceOr<Schema>)>>,
}

/// A parameter entity; resolution treats its content as opaque.
#[derive(Debug, Clone)]
pub struct Parameter {
    pub name: String,
}

/// A response entity; resolution treats its content as opaque.
#[derive(Debug, Clone)]
pub struct Response {
    pub description: String,
}

/// A request body entity; resolution treats its content as opaque.
#[derive(Debug, Clone)]
pub struct RequestBody {
    pub description: String,
}

/// The document's reusable-entity area: three name-keyed dictionaries.
/// A dictionary is an association list; lookups take the first match.
#[derive(Debug)]
pub struct Components {
    pub parameters: Vec<(String, ReferenceOr<Parameter>)>,
    pub responses: Vec<(String, ReferenceOr<Response>)>,
    pub request_bodies: Vec<(String, ReferenceOr<RequestBody>)>,
}

/// The owning document: a name-keyed schema dictionary and an optional
/// components section.
#[derive(Debug)]
pub struct OpenAPI {
    pub schemas: Vec<(String, ReferenceOr<Schema>)>,
    pub components: Option<Components>,
}

impl OpenAPI {
    /// The document-level schema dictionary.
    pub fn schemas(&self) -> (r: &Vec<(String, ReferenceOr<Schema>)>)
        ensures
            *r == self.schemas,
    {
        &self.schemas
    }
}

/// Mathematical model of a schema.
pub struct SchemaModel {
    pub schema_type: Option<Seq<char>>,
    pub properties: Option<Seq<(Seq<char>, SchemaEntryModel)>>,
}

/// Model of one property entry's value.
pub enum SchemaEntryModel {
    Reference { reference: Seq<char> },
    Item(SchemaModel),
}

pub open spec fn schema_model(s: Schema) -> SchemaModel
    decreases s,
{
    SchemaModel {
        schema_type: match s.schema_type {
            None => None,
            Some(t) => Some(t@),
        },
        properties: match s.properties {
            None => None,
            Some(v) => Some(props_model(v@)),
        },
    }
}

pub open spec fn entry_model(e: (String, ReferenceOr<Schema>)) -> (Seq<char>, SchemaEntryModel)
    decreases e,
{
    (
        e.0@,
        match e.1 {
            ReferenceOr::Reference { reference } => SchemaEntryModel::Reference {
                reference: reference@,
            },
            ReferenceOr::Item(s) => SchemaEntryModel::Item(schema_model(s)),
        },
    )
}

pub open spec fn props_model(v: Seq<(String, ReferenceOr<Schema>)>) -> Seq<
    (Seq<char>, SchemaEntryModel),
>
    decreases v,
{
    if v.len() == 0 {
        Seq::empty()
    } else {
        seq![entry_model(v[0])] + props_model(v.drop_first())
    }
}

/// Appending one entry appends its model.
proof fn lemma_props_model_push(v: Seq<(String, ReferenceOr<Schema>)>, e: (String, ReferenceOr<Schema>))
    ensures
        props_model(v.push(e)) == props_model(v) + seq![entry_model(e)],
    decreases v.len(),
{
    if v.len() == 0 {
        assert(v.push(e)[0] == e);
        assert(v.push(e).drop_first() =~= Seq::<(String, ReferenceOr<Schema>)>::empty());
        assert(props_model(v.push(e).drop_first()) == Seq::<
            (Seq<char>, SchemaEntryModel),
        >::empty());
        assert(props_model(v.push(e)) =~~= props_model(v) + seq![entry_model(e)]);
    } else {
        assert(v.push(e).drop_first() =~= v.drop_first().push(e));
        lemma_props_model_push(v.drop_first(), e);
        assert(v.push(e)[0] == v[0]);
        assert(props_model(v.push(e)) =~~= props_model(v) + seq![entry_model(e)]);
    }
}

/// A schema is empty when it carries no type and no property dictionary.
pub open spec fn schema_is_empty(s: Schema) -> bool {
    s.schema_type is None && s.properties is None
}

impl Schema {
    /// Reports whether this schema carries nothing at all.
    pub fn is_empty(&self) -> (r: bool)
        ensures
            r == schema_is_empty(*self),
    {
        self.schema_type.is_none() && self.properties.is_none()
    }
}

/// Copies a schema; the copy has the same model as the original.
#[verifier::loop_isolation(false)]
fn clone_schema(s: &Schema) -> (r: Schema)
    ensures
        schema_model(r) == schema_model(*s),
    decreases *s,
{
    let schema_type = match &s.schema_type {
        None => None,
        Some(t) => Some(t.clone()),
    };
    let properties = match &s.properties {
        None => None,
        Some(v) => {
            let mut out: Vec<(String, ReferenceOr<Schema>)> = Vec::new();
            let mut idx: usize = 0;
            while idx < v.len()
                invariant
                    idx <= v.len(),
                    props_model(out@) == props_model(v@.take(idx as int)),
                decreases v.len() - idx,
            {
                let pair = &v[idx];
                let key = pair.0.clone();
                let val = match &pair.1 {
                    ReferenceOr::Reference { reference } => ReferenceOr::Reference {
                        reference: reference.clone(),
                    },
                    ReferenceOr::Item(sub) => ReferenceOr::Item(clone_schema(sub)),
                };
                proof {
                    assert(entry_model((key, val)) == entry_model(v@[idx as int]));
                    lemma_props_model_push(out@, (key, val));
                    lemma_props_model_push(v@.take(idx as int), v@[idx as int]);
                    assert(v@.take(idx as int).push(v@[idx as int]) =~= v@.take(idx as int + 1));
                }
                out.push((key, val));
                idx += 1;
            }
            proof {
                assert(v@.take(v@.len() as int) =~= v@);
            }
            Some(out)
        },
    };
    Schema { schema_type, properties }
}

impl Clone for Schema {
    /// A copy of the schema with the same model.
    fn clone(&self) -> (r: Self)
        ensures
            schema_model(r) == schema_model(*self),
    {
        clone_schema(self)
    }
}

impl ReferenceOr<Schema> {
    /// A pointer is never empty: only an inline schema that reports itself
    /// empty makes this true.
    pub fn is_empty(&self) -> (r: bool)
        ensures
            r == (match *self {
                ReferenceOr::Item(s) => schema_is_empty(s),
                ReferenceOr::Reference { .. } => false,
            }),
    {
        match self.as_item() {
            Some(s) => s.is_empty(),
            None => false,
        }
    }
}

impl ReferenceOr<Box<Schema>> {
    /// Lifts the heap indirection by copying the boxed schema; the variant
    /// is kept, and an inline copy has the same model as the original.
    pub fn unbox(&self) -> (r: ReferenceOr<Schema>)
        ensures
            match self {
                ReferenceOr::Reference { reference } => r == (ReferenceOr::<Schema>::Reference {
                    reference: *reference,
                }),
                ReferenceOr::Item(b) => r matches ReferenceOr::Item(s) && schema_model(s)
                    == schema_model(**b),
            },
    {
        match self {
            ReferenceOr::Reference { reference } => ReferenceOr::Reference {
                reference: reference.clone(),
            },
            ReferenceOr::Item(boxed) => ReferenceOr::Item(clone_schema(boxed)),
        }
    }
}

} // verus!

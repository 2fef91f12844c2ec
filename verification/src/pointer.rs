use vstd::prelude::*;
use vstd::string::{StrSliceExecFns, StringExecFns};

use crate::error::{ResolveError, ResolveErrorModel};
use crate::text::slash_free;

verus! {

/// A structured representation of a schema-scoped pointer:
/// `#/components/schemas/<schema>` or
/// `#/components/schemas/<schema>/properties/<property>`.
#[derive(Debug, Clone)]
pub enum SchemaReference {
    Schema { schema: String },
    Property { schema: String, property: String },
}

/// Mathematical model of a `SchemaReference`: its names as character
/// sequences.
pub enum SchemaReferenceModel {
    Schema { schema: Seq<char> },
    Property { schema: Seq<char>, property: Seq<char> },
}

impl View for SchemaReference {
    type V = SchemaReferenceModel;

    open spec fn view(&self) -> SchemaReferenceModel {
        match self {
            SchemaReference::Schema { schema } => SchemaReferenceModel::Schema { schema: schema@ },
            SchemaReference::Property { schema, property } => SchemaReferenceModel::Property {
                schema: schema@,
                property: property@,
            },
        }
    }
}

/// The fixed head of every schema pointer.
pub open spec fn schema_path_prefix() -> Seq<char> {
    "#/components/schemas/"@
}

/// The fixed segment between a schema name and a property name.
pub open spec fn properties_infix() -> Seq<char> {
    "/properties/"@
}

/// The fixed head of every flat group pointer.
pub open spec fn group_path_prefix() -> Seq<char> {
    "#/components/"@
}

/// Index of the first slash of `s`, if any.
pub open spec fn first_slash(s: Seq<char>) -> Option<int>
    decreases s.len(),
{
    if s.len() == 0 {
        None
    } else if s[0] == '/' {
        Some(0int)
    } else {
        match first_slash(s.drop_first()) {
            None => None,
            Some(i) => Some(i + 1),
        }
    }
}

/// Index of the last slash of `s`, if any.
pub open spec fn last_slash(s: Seq<char>) -> Option<int>
    decreases s.len(),
{
    if s.len() == 0 {
        None
    } else if s[s.len() - 1] == '/' {
        Some(s.len() - 1)
    } else {
        last_slash(s.drop_last())
    }
}

/// What parsing a schema pointer yields: splitting `s` on slashes, the
/// segments must be exactly `#`, `components`, `schemas`, a name, and
/// optionally `properties` and a second name; an empty name segment (from
/// a trailing or doubled slash) is no name and fails.
pub open spec fn parse_schema_reference(s: Seq<char>) -> Option<SchemaReferenceModel> {
    let plen = schema_path_prefix().len() as int;
    if s.len() < plen || s.take(plen) != schema_path_prefix() {
        None
    } else {
        let rest = s.skip(plen);
        match first_slash(rest) {
            None => if rest.len() == 0 {
                None
            } else {
                Some(SchemaReferenceModel::Schema { schema: rest })
            },
            Some(i) => {
                let ilen = properties_infix().len() as int;
                let tail = rest.skip(i);
                if i > 0 && tail.len() > ilen && tail.take(ilen) == properties_infix()
                    && slash_free(tail.skip(ilen)) {
                    Some(
                        SchemaReferenceModel::Property {
                            schema: rest.take(i),
                            property: tail.skip(ilen),
                        },
                    )
                } else {
                    None
                }
            },
        }
    }
}

/// The canonical text of a schema pointer.
pub open spec fn format_schema_reference(m: SchemaReferenceModel) -> Seq<char> {
    match m {
        SchemaReferenceModel::Schema { schema } => schema_path_prefix() + schema,
        SchemaReferenceModel::Property { schema, property } => schema_path_prefix() + schema
            + properties_infix() + property,
    }
}

/// A model whose names are nonempty and contain no slash; every parsed
/// pointer is such.
pub open spec fn well_formed(m: SchemaReferenceModel) -> bool {
    match m {
        SchemaReferenceModel::Schema { schema } => schema.len() > 0 && slash_free(schema),
        SchemaReferenceModel::Property { schema, property } => schema.len() > 0 && slash_free(
            schema,
        ) && property.len() > 0 && slash_free(property),
    }
}

/// What extracting a flat group name yields: split at the last slash; the
/// head must be exactly `#/components/<group>`; the trailing segment is the
/// name.
pub open spec fn extract_group_name(group: Seq<char>, s: Seq<char>) -> Option<Seq<char>> {
    match last_slash(s) {
        None => None,
        Some(i) => {
            if s.take(i) == group_path_prefix() + group {
                Some(s.skip(i + 1))
            } else {
                None
            }
        },
    }
}

/// `first_slash` finds a slash preceded only by non-slashes, or reports
/// that the whole sequence is slash-free.
pub proof fn lemma_first_slash(s: Seq<char>)
    ensures
        match first_slash(s) {
            None => slash_free(s),
            Some(i) => 0 <= i < s.len() && s[i] == '/' && slash_free(s.take(i)),
        },
    decreases s.len(),
{
    if s.len() == 0 {
    } else if s[0] == '/' {
    } else {
        lemma_first_slash(s.drop_first());
        match first_slash(s.drop_first()) {
            None => {
                assert forall|j: int| 0 <= j < s.len() implies s[j] != '/' by {
                    if j > 0 {
                        assert(s.drop_first()[j - 1] != '/');
                    }
                }
            },
            Some(i) => {
                assert forall|j: int| 0 <= j < i + 1 implies #[trigger] s.take(i + 1)[j]
                    != '/' by {
                    if j > 0 {
                        assert(s.drop_first().take(i)[j - 1] != '/');
                    }
                }
            },
        }
    }
}

/// `last_slash` finds a slash followed only by non-slashes, or reports
/// that the whole sequence is slash-free.
pub proof fn lemma_last_slash(s: Seq<char>)
    ensures
        match last_slash(s) {
            None => slash_free(s),
            Some(i) => 0 <= i < s.len() && s[i] == '/' && (forall|j: int|
                i < j < s.len() ==> s[j] != '/'),
        },
    decreases s.len(),
{
    if s.len() == 0 {
    } else if s[s.len() - 1] == '/' {
    } else {
        lemma_last_slash(s.drop_last());
        match last_slash(s.drop_last()) {
            None => {
                assert forall|j: int| 0 <= j < s.len() implies s[j] != '/' by {
                    if j < s.len() - 1 {
                        assert(s.drop_last()[j] != '/');
                    }
                }
            },
            Some(i) => {
                assert(s.drop_last()[i] == '/');
                assert forall|j: int| i < j < s.len() implies s[j] != '/' by {
                    if j < s.len() - 1 {
                        assert(s.drop_last()[j] != '/');
                    }
                }
            },
        }
    }
}

/// Whatever parses back to a model is well formed (nonempty, slash-free
/// names) and formats to the very string it was parsed from: parsing
/// loses nothing.
pub proof fn lemma_parse_then_format(s: Seq<char>, m: SchemaReferenceModel)
    requires
        parse_schema_reference(s) == Some(m),
    ensures
        format_schema_reference(m) == s,
        well_formed(m),
{
    let plen = schema_path_prefix().len() as int;
    let rest = s.skip(plen);
    lemma_first_slash(rest);
    match first_slash(rest) {
        None => {
            assert(schema_path_prefix() + rest =~= s);
        },
        Some(i) => {
            let ilen = properties_infix().len() as int;
            let tail = rest.skip(i);
            assert(schema_path_prefix() + rest.take(i) + properties_infix() + tail.skip(ilen)
                =~= s);
        },
    }
}

/// Formatting a well-formed model (nonempty, slash-free names) yields a
/// string that parses back to the same model: the two conversions are
/// mutually inverse on such models.
pub proof fn lemma_format_then_parse(m: SchemaReferenceModel)
    requires
        well_formed(m),
    ensures
        parse_schema_reference(format_schema_reference(m)) == Some(m),
{
    reveal_strlit("#/components/schemas/");
    reveal_strlit("/properties/");
    let s = format_schema_reference(m);
    let plen = schema_path_prefix().len() as int;
    match m {
        SchemaReferenceModel::Schema { schema } => {
            assert(s.len() == plen + schema.len());
            assert(s.take(plen) =~= schema_path_prefix());
            let rest = s.skip(plen);
            assert(rest =~= schema);
            lemma_first_slash(rest);
            match first_slash(rest) {
                None => {
                    assert(rest == schema);
                    assert(parse_schema_reference(s) == Some(
                        SchemaReferenceModel::Schema { schema: rest },
                    ));
                    assert(parse_schema_reference(s) == Some(m));
                },
                Some(i) => {
                    assert(rest[i] == '/');
                    assert(false);
                },
            }
        },
        SchemaReferenceModel::Property { schema, property } => {
            assert(s.take(plen) =~= schema_path_prefix());
            let rest = s.skip(plen);
            assert(rest =~= schema + properties_infix() + property);
            let ilen = properties_infix().len() as int;
            lemma_first_slash(rest);
            assert(rest[schema.len() as int] == '/');
            match first_slash(rest) {
                None => {
                    assert(false);
                },
                Some(i) => {
                    if i < schema.len() {
                        assert(rest[i] == schema[i]);
                        assert(false);
                    }
                    if i > schema.len() {
                        assert(rest.take(i)[schema.len() as int] == '/');
                        assert(false);
                    }
                    let tail = rest.skip(i);
                    assert(rest.take(i) == schema) by {
                        assert(rest.take(i) =~= schema);
                    }
                    assert(tail.take(ilen) == properties_infix()) by {
                        assert(tail.take(ilen) =~= properties_infix());
                    }
                    assert(tail.skip(ilen) == property) by {
                        assert(tail.skip(ilen) =~= property);
                    }
                    assert(parse_schema_reference(s) == Some(
                        SchemaReferenceModel::Property { schema: rest.take(i), property: tail.skip(ilen) },
                    ));
                    assert(parse_schema_reference(s) == Some(m));
                },
            }
        },
    }
}

/// Round trip: formatting any well-formed model and parsing the text
/// again gives back the same model, so formatting, parsing and formatting
/// again changes nothing.
pub proof fn lemma_schema_reference_round_trip(m: SchemaReferenceModel)
    requires
        well_formed(m),
    ensures
        parse_schema_reference(format_schema_reference(m)) == Some(m),
        format_schema_reference(parse_schema_reference(format_schema_reference(m))->Some_0)
            == format_schema_reference(m),
{
    lemma_format_then_parse(m);
}

} // verus!

verus! {

fn malformed_schema(reference: &str) -> (e: ResolveError)
    ensures
        e@ == (ResolveErrorModel::MalformedSchemaReference { reference: reference@ }),
{
    ResolveError::MalformedSchemaReference { reference: reference.to_owned() }
}

fn malformed_group(group: &str, reference: &str) -> (e: ResolveError)
    ensures
        e@ == (ResolveErrorModel::MalformedGroupReference {
            group: group@,
            reference: reference@,
        }),
{
    ResolveError::MalformedGroupReference {
        group: group.to_owned(),
        reference: reference.to_owned(),
    }
}

impl SchemaReference {
    /// Parses the textual form of a schema pointer; any string matching
    /// neither shape is rejected as malformed.
    #[verifier::loop_isolation(false)]
    pub fn from_str(s: &str) -> (r: Result<SchemaReference, ResolveError>)
        ensures
            match r {
                Ok(v) => parse_schema_reference(s@) == Some(v@),
                Err(e) => parse_schema_reference(s@) is None && e@ == (
                ResolveErrorModel::MalformedSchemaReference { reference: s@ }),
            },
    {
        proof {
            reveal_strlit("#/components/schemas/");
            reveal_strlit("/properties/");
        }
        let prefix: &str = "#/components/schemas/";
        let infix: &str = "/properties/";
        proof {
            assert(prefix@ == schema_path_prefix());
            assert(infix@ == properties_infix());
            assert(prefix@.len() == 21);
            assert(infix@.len() == 12);
        }
        let n = s.unicode_len();
        if n < 21 {
            return Err(malformed_schema(s));
        }
        let mut k: usize = 0;
        while k < 21
            invariant
                21 <= n == s@.len(),
                k <= 21,
                prefix@ == schema_path_prefix(),
                prefix@.len() == 21,
                forall|j: int| 0 <= j < k ==> s@[j] == schema_path_prefix()[j],
            decreases 21 - k,
        {
            if s.get_char(k) != prefix.get_char(k) {
                proof {
                    assert(s@.take(21)[k as int] != schema_path_prefix()[k as int]);
                }
                return Err(malformed_schema(s));
            }
            k += 1;
        }
        proof {
            assert(s@.take(21) =~= schema_path_prefix());
        }
        let ghost rest = s@.skip(21);
        let mut i: usize = 21;
        let mut is_slash = false;
        while i < n && !is_slash
            invariant
                21 <= i <= n,
                n == s@.len(),
                forall|j: int| 21 <= j < i ==> s@[j] != '/',
                is_slash ==> i < n && s@[i as int] == '/',
            decreases n - i + (if is_slash { 0int } else { 1int }),
        {
            if s.get_char(i) == '/' {
                is_slash = true;
            } else {
                i += 1;
            }
        }
        if !is_slash {
            if n == 21 {
                return Err(malformed_schema(s));
            }
            let schema = s.substring_char(21, n).to_owned();
            proof {
                assert forall|j: int| 0 <= j < rest.len() implies rest[j] != '/' by {
                    assert(s@[j + 21] != '/');
                }
                lemma_first_slash(rest);
                match first_slash(rest) {
                    None => {},
                    Some(i0) => {
                        assert(rest[i0] == '/');
                        assert(false);
                    },
                }
                assert(schema@ =~= rest);
            }
            return Ok(SchemaReference::Schema { schema });
        }
        if i == 21 {
            return Err(malformed_schema(s));
        }
        let ghost irel = i - 21;
        proof {
            assert(rest[irel as int] == '/');
            assert forall|j: int| 0 <= j < irel implies rest.take(irel as int)[j] != '/' by {
                assert(s@[j + 21] != '/');
            }
            lemma_first_slash(rest);
            match first_slash(rest) {
                None => {
                    assert(false);
                },
                Some(i0) => {
                    if i0 < irel {
                        assert(rest.take(irel as int)[i0] != '/');
                        assert(false);
                    }
                    if i0 > irel {
                        assert(rest.take(i0)[irel as int] == '/');
                        assert(rest.take(i0)[irel as int] != '/');
                        assert(false);
                    }
                },
            }
            assert(first_slash(rest) == Some(irel as int));
        }
        let ghost tail = rest.skip(irel as int);
        proof {
            assert forall|j: int| 0 <= j < tail.len() implies tail[j] == s@[j + i] by {}
        }
        if n - i <= 12 {
            return Err(malformed_schema(s));
        }
        let mut k2: usize = 0;
        while k2 < 12
            invariant
                n == s@.len(),
                21 <= i < n,
                n - i >= 12,
                k2 <= 12,
                infix@ == properties_infix(),
                infix@.len() == 12,
                tail == rest.skip(irel as int),
                rest == s@.skip(21),
                irel == i - 21,
                forall|j: int| 0 <= j < k2 ==> s@[j + i] == properties_infix()[j],
            decreases 12 - k2,
        {
            if s.get_char(i + k2) != infix.get_char(k2) {
                proof {
                    assert(tail[k2 as int] == s@[k2 + i]);
                    assert(tail.take(12)[k2 as int] != properties_infix()[k2 as int]);
                }
                return Err(malformed_schema(s));
            }
            k2 += 1;
        }
        proof {
            assert forall|j: int| 0 <= j < 12 implies #[trigger] tail.take(12)[j]
                == properties_infix()[j] by {
                assert(tail[j] == s@[j + i]);
            }
            assert(tail.take(12) =~= properties_infix());
        }
        let mut m: usize = i + 12;
        while m < n
            invariant
                n == s@.len(),
                21 <= i,
                i + 12 <= m <= n,
                forall|j: int| i + 12 <= j < m ==> s@[j] != '/',
            decreases n - m,
        {
            if s.get_char(m) == '/' {
                proof {
                    assert(tail.skip(12)[m - i - 12] == s@[m as int]);
                }
                return Err(malformed_schema(s));
            }
            m += 1;
        }
        let schema = s.substring_char(21, i).to_owned();
        let property = s.substring_char(i + 12, n).to_owned();
        proof {
            assert forall|j: int| 0 <= j < tail.skip(12).len() implies #[trigger] tail.skip(12)[j]
                != '/' by {
                assert(tail.skip(12)[j] == s@[j + i + 12]);
            }
            assert(schema@ =~= rest.take(irel as int));
            assert(property@ =~= tail.skip(12));
        }
        Ok(SchemaReference::Property { schema, property })
    }

    /// Renders the pointer in its canonical slash-delimited form.
    pub fn to_string(&self) -> (r: String)
        ensures
            r@ == format_schema_reference(self@),
    {
        match self {
            SchemaReference::Schema { schema } => {
                let mut out = "#/components/schemas/".to_owned();
                out.append(schema.as_str());
                proof {
                    assert(out@ =~= format_schema_reference(self@));
                }
                out
            },
            SchemaReference::Property { schema, property } => {
                let mut out = "#/components/schemas/".to_owned();
                out.append(schema.as_str());
                out.append("/properties/");
                out.append(property.as_str());
                proof {
                    assert(out@ =~= format_schema_reference(self@));
                }
                out
            },
        }
    }
}

} // verus!

verus! {

/// Splits a flat pointer `#/components/<group>/<name>` at its last slash
/// and returns the trailing name; used for the entity kinds that are
/// resolved by flat name only.
#[verifier::loop_isolation(false)]
pub fn parse_reference<'a>(reference: &'a str, group: &str) -> (r: Result<&'a str, ResolveError>)
    ensures
        match r {
            Ok(name) => extract_group_name(group@, reference@) == Some(name@),
            Err(e) => extract_group_name(group@, reference@) is None && e@ == (
            ResolveErrorModel::MalformedGroupReference { group: group@, reference: reference@ }),
        },
{
    proof {
        reveal_strlit("#/components/");
        assert(group_path_prefix().len() == 13);
    }
    let gp: &str = "#/components/";
    let n = reference.unicode_len();
    let glen = group.unicode_len();
    let mut i: usize = 0;
    let mut slash_at: usize = 0;
    let mut has_slash = false;
    while i < n
        invariant
            i <= n,
            has_slash ==> slash_at < i && reference@[slash_at as int] == '/' && (forall|j: int|
                slash_at < j < i ==> reference@[j] != '/'),
            !has_slash ==> forall|j: int| 0 <= j < i ==> reference@[j] != '/',
        decreases n - i,
    {
        if reference.get_char(i) == '/' {
            slash_at = i;
            has_slash = true;
        }
        i += 1;
    }
    proof {
        lemma_last_slash(reference@);
    }
    if !has_slash {
        return Err(malformed_group(group, reference));
    }
    proof {
        match last_slash(reference@) {
            None => {
                assert(false);
            },
            Some(i0) => {
                if i0 < slash_at {
                    assert(reference@[slash_at as int] != '/');
                    assert(false);
                }
                if i0 > slash_at {
                    assert(reference@[i0] != '/');
                    assert(false);
                }
            },
        }
        assert(last_slash(reference@) == Some(slash_at as int));
    }
    let ghost head = reference@.take(slash_at as int);
    if slash_at < 13 || slash_at - 13 != glen {
        proof {
            assert(head.len() != (group_path_prefix() + group@).len());
        }
        return Err(malformed_group(group, reference));
    }
    let mut k: usize = 0;
    while k < 13
        invariant
            k <= 13,
            forall|j: int| 0 <= j < k ==> reference@[j] == group_path_prefix()[j],
        decreases 13 - k,
    {
        if reference.get_char(k) != gp.get_char(k) {
            proof {
                assert(head[k as int] != (group_path_prefix() + group@)[k as int]);
            }
            return Err(malformed_group(group, reference));
        }
        k += 1;
    }
    let mut k2: usize = 0;
    while k2 < glen
        invariant
            k2 <= glen,
            forall|j: int| 0 <= j < k2 ==> reference@[j + 13] == group@[j],
        decreases glen - k2,
    {
        if reference.get_char(13 + k2) != group.get_char(k2) {
            proof {
                assert(head[k2 + 13] != (group_path_prefix() + group@)[k2 + 13]);
            }
            return Err(malformed_group(group, reference));
        }
        k2 += 1;
    }
    proof {
        assert(head =~= group_path_prefix() + group@);
    }
    let name = reference.substring_char(slash_at + 1, n);
    proof {
        assert(name@ =~= reference@.skip(slash_at as int + 1));
    }
    Ok(name)
}

/// Extracts the name from a `#/components/responses/<name>` pointer.
pub fn get_response_name<'a>(reference: &'a str) -> (r: Result<&'a str, ResolveError>)
    ensures
        match r {
            Ok(name) => extract_group_name("responses"@, reference@) == Some(name@),
            Err(e) => extract_group_name("responses"@, reference@) is None && e@ == (
            ResolveErrorModel::MalformedGroupReference {
                group: "responses"@,
                reference: reference@,
            }),
        },
{
    parse_reference(reference, "responses")
}

/// Extracts the name from a `#/components/requestBodies/<name>` pointer.
pub fn get_request_body_name<'a>(reference: &'a str) -> (r: Result<&'a str, ResolveError>)
    ensures
        match r {
            Ok(name) => extract_group_name("requestBodies"@, reference@) == Some(name@),
            Err(e) => extract_group_name("requestBodies"@, reference@) is None && e@ == (
            ResolveErrorModel::MalformedGroupReference {
                group: "requestBodies"@,
                reference: reference@,
            }),
        },
{
    parse_reference(reference, "requestBodies")
}

/// Extracts the name from a `#/components/parameters/<name>` pointer.
pub fn get_parameter_name<'a>(reference: &'a str) -> (r: Result<&'a str, ResolveError>)
    ensures
        match r {
            Ok(name) => extract_group_name("parameters"@, reference@) == Some(name@),
            Err(e) => extract_group_name("parameters"@, reference@) is None && e@ == (
            ResolveErrorModel::MalformedGroupReference {
                group: "parameters"@,
                reference: reference@,
            }),
        },
{
    parse_reference(reference, "parameters")
}

} // verus!

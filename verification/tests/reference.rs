use openapi_refs::{
    get_parameter_name, get_request_body_name, get_response_name, parse_reference, Components,
    OpenAPI, Parameter, ReferenceOr, RequestBody, Resolve, ResolveError, Response, Schema,
    SchemaReference,
};

fn s(text: &str) -> String {
    String::from(text)
}

fn string_schema() -> Schema {
    Schema { schema_type: Some(s("string")), properties: None }
}

fn empty_components() -> Components {
    Components { parameters: vec![], responses: vec![], request_bodies: vec![] }
}

#[test]
fn test_get_request_body_name() {
    assert!(matches!(
        get_request_body_name("#/components/requestBodies/Foo"),
        Ok("Foo")
    ));
    assert!(get_request_body_name("#/components/schemas/Foo").is_err());
}

#[test]
fn group_name_extraction() {
    assert!(matches!(
        get_response_name("#/components/responses/NotFound"),
        Ok("NotFound")
    ));
    assert!(matches!(
        get_parameter_name("#/components/parameters/limit"),
        Ok("limit")
    ));
    assert!(matches!(
        parse_reference("#/components/examples/Sample", "examples"),
        Ok("Sample")
    ));
    assert!(get_response_name("#/components/parameters/limit").is_err());
    assert!(get_parameter_name("no slashes here").is_err());
    match get_response_name("#/components/schemas/Foo") {
        Err(ResolveError::MalformedGroupReference { group, reference }) => {
            assert_eq!(group, "responses");
            assert_eq!(reference, "#/components/schemas/Foo");
        }
        other => panic!("unexpected result: {:?}", other),
    }
}

#[test]
fn parse_schema_pointer() {
    match SchemaReference::from_str("#/components/schemas/Account") {
        Ok(SchemaReference::Schema { schema }) => assert_eq!(schema, "Account"),
        other => panic!("unexpected result: {:?}", other),
    }
    match SchemaReference::from_str("#/components/schemas/Account/properties/name") {
        Ok(SchemaReference::Property { schema, property }) => {
            assert_eq!(schema, "Account");
            assert_eq!(property, "name");
        }
        other => panic!("unexpected result: {:?}", other),
    }
}

#[test]
fn parse_rejects_other_shapes() {
    for bad in [
        "",
        "Account",
        "#/components/schemas",
        "#/components/requestBodies/Foo",
        "#/components/schemas/a/b",
        "#/components/schemas/a/properties",
        "#/components/schemas/a/properties/b/c",
        "#/Components/schemas/a",
        "x#/components/schemas/a",
        "#/components/schemas/",
        "#/components/schemas//properties/y",
        "#/components/schemas/x/properties/",
        "#/components/schemas//properties/",
    ] {
        match SchemaReference::from_str(bad) {
            Err(ResolveError::MalformedSchemaReference { reference }) => {
                assert_eq!(reference, bad);
            }
            other => panic!("{:?} parsed unexpectedly as {:?}", bad, other),
        }
    }
    assert!(matches!(
        get_request_body_name("#/components/requestBodies/Foo"),
        Ok("Foo")
    ));
}

#[test]
fn format_round_trip() {
    for text in [
        "#/components/schemas/Account",
        "#/components/schemas/Account/properties/name",
        "#/components/schemas/with space",
        "#/components/schemas/A.b-c/properties/x_y",
    ] {
        let parsed = SchemaReference::from_str(text).unwrap();
        assert_eq!(parsed.to_string(), text);
        let reparsed = SchemaReference::from_str(&parsed.to_string()).unwrap();
        assert_eq!(reparsed.to_string(), text);
    }
}

#[test]
fn item_short_circuit() {
    let doc = OpenAPI { schemas: vec![], components: None };
    let held = ReferenceOr::item(string_schema());
    let got = held.resolve(&doc).unwrap();
    assert_eq!(got.schema_type.as_deref(), Some("string"));

    let param = ReferenceOr::item(Parameter { name: s("limit") });
    assert_eq!(param.resolve(&doc).unwrap().name, "limit");
    let resp = ReferenceOr::item(Response { description: s("ok") });
    assert_eq!(resp.resolve(&doc).unwrap().description, "ok");
    let body = ReferenceOr::item(RequestBody { description: s("payload") });
    assert_eq!(body.resolve(&doc).unwrap().description, "payload");
}

#[test]
fn unknown_schema_name_fails() {
    let doc = OpenAPI { schemas: vec![], components: None };
    let held: ReferenceOr<Schema> = ReferenceOr::ref_("#/components/schemas/DoesNotExist");
    match held.resolve(&doc) {
        Err(ResolveError::UnknownName { reference }) => {
            assert_eq!(reference, "#/components/schemas/DoesNotExist");
        }
        other => panic!("unexpected result: {:?}", other),
    }
}

#[test]
fn chained_schema_reference_fails() {
    let doc = OpenAPI {
        schemas: vec![
            (s("A"), ReferenceOr::ref_("#/components/schemas/B")),
            (s("B"), ReferenceOr::item(string_schema())),
        ],
        components: None,
    };
    let held: ReferenceOr<Schema> = ReferenceOr::ref_("#/components/schemas/A");
    match held.resolve(&doc) {
        Err(ResolveError::ChainedReference { reference, target }) => {
            assert_eq!(reference, "#/components/schemas/A");
            assert_eq!(target, "#/components/schemas/B");
        }
        other => panic!("unexpected result: {:?}", other),
    }
    let direct: ReferenceOr<Schema> = ReferenceOr::ref_("#/components/schemas/B");
    assert!(direct.resolve(&doc).is_ok());
}

#[test]
fn property_traversal() {
    let account = Schema {
        schema_type: Some(s("object")),
        properties: Some(vec![(s("name"), ReferenceOr::item(string_schema()))]),
    };
    let doc = OpenAPI { schemas: vec![(s("Account"), ReferenceOr::item(account))], components: None };
    let held: ReferenceOr<Schema> =
        ReferenceOr::ref_("#/components/schemas/Account/properties/name");
    let got = held.resolve(&doc).unwrap();
    assert_eq!(got.schema_type.as_deref(), Some("string"));
}

#[test]
fn property_pointer_follows_one_redirect() {
    let account = Schema {
        schema_type: Some(s("object")),
        properties: Some(vec![(s("name"), ReferenceOr::ref_("#/components/schemas/Name"))]),
    };
    let doc = OpenAPI {
        schemas: vec![
            (s("Account"), ReferenceOr::item(account)),
            (s("Name"), ReferenceOr::item(string_schema())),
        ],
        components: None,
    };
    let held: ReferenceOr<Schema> =
        ReferenceOr::ref_("#/components/schemas/Account/properties/name");
    let got = held.resolve(&doc).unwrap();
    assert_eq!(got.schema_type.as_deref(), Some("string"));
}

#[test]
fn cyclic_property_chain_is_rejected() {
    let looping = Schema {
        schema_type: Some(s("object")),
        properties: Some(vec![(
            s("next"),
            ReferenceOr::ref_("#/components/schemas/Loop/properties/next"),
        )]),
    };
    let doc = OpenAPI { schemas: vec![(s("Loop"), ReferenceOr::item(looping))], components: None };
    let held: ReferenceOr<Schema> = ReferenceOr::ref_("#/components/schemas/Loop/properties/next");
    assert!(matches!(
        held.resolve(&doc),
        Err(ResolveError::ChainedReference { .. })
    ));
}

#[test]
fn property_absence_fails() {
    let bare = Schema { schema_type: Some(s("string")), properties: None };
    let doc = OpenAPI { schemas: vec![(s("Account"), ReferenceOr::item(bare))], components: None };
    let held: ReferenceOr<Schema> =
        ReferenceOr::ref_("#/components/schemas/Account/properties/name");
    match held.resolve(&doc) {
        Err(ResolveError::NotAnObject { reference, schema }) => {
            assert_eq!(reference, "#/components/schemas/Account/properties/name");
            assert_eq!(schema, "Account");
        }
        other => panic!("unexpected result: {:?}", other),
    }
}

#[test]
fn missing_property_fails() {
    let empty_object = Schema { schema_type: Some(s("object")), properties: Some(vec![]) };
    let doc =
        OpenAPI { schemas: vec![(s("Account"), ReferenceOr::item(empty_object))], components: None };
    let held: ReferenceOr<Schema> =
        ReferenceOr::ref_("#/components/schemas/Account/properties/name");
    match held.resolve(&doc) {
        Err(ResolveError::MissingProperty { schema, property }) => {
            assert_eq!(schema, "Account");
            assert_eq!(property, "name");
        }
        other => panic!("unexpected result: {:?}", other),
    }
}

#[test]
fn flat_kinds_resolve_from_components() {
    let doc = OpenAPI {
        schemas: vec![],
        components: Some(Components {
            parameters: vec![(s("limit"), ReferenceOr::item(Parameter { name: s("limit") }))],
            responses: vec![(s("NotFound"), ReferenceOr::item(Response { description: s("gone") }))],
            request_bodies: vec![(
                s("Pet"),
                ReferenceOr::item(RequestBody { description: s("a pet") }),
            )],
        }),
    };
    let p: ReferenceOr<Parameter> = ReferenceOr::ref_("#/components/parameters/limit");
    assert_eq!(p.resolve(&doc).unwrap().name, "limit");
    let r: ReferenceOr<Response> = ReferenceOr::ref_("#/components/responses/NotFound");
    assert_eq!(r.resolve(&doc).unwrap().description, "gone");
    let b: ReferenceOr<RequestBody> = ReferenceOr::ref_("#/components/requestBodies/Pet");
    assert_eq!(b.resolve(&doc).unwrap().description, "a pet");
}

#[test]
fn flat_kinds_need_components() {
    let doc = OpenAPI { schemas: vec![], components: None };
    let p: ReferenceOr<Parameter> = ReferenceOr::ref_("#/components/parameters/limit");
    assert!(matches!(p.resolve(&doc), Err(ResolveError::NoComponents)));
    let r: ReferenceOr<Response> = ReferenceOr::ref_("#/components/responses/NotFound");
    assert!(matches!(r.resolve(&doc), Err(ResolveError::NoComponents)));
    let b: ReferenceOr<RequestBody> = ReferenceOr::ref_("#/components/requestBodies/Pet");
    assert!(matches!(b.resolve(&doc), Err(ResolveError::NoComponents)));
}

#[test]
fn flat_kinds_reject_chains_and_unknown_names() {
    let doc = OpenAPI {
        schemas: vec![],
        components: Some(Components {
            parameters: vec![(s("limit"), ReferenceOr::ref_("#/components/parameters/real"))],
            responses: vec![],
            request_bodies: vec![],
        }),
    };
    let chained: ReferenceOr<Parameter> = ReferenceOr::ref_("#/components/parameters/limit");
    match chained.resolve(&doc) {
        Err(ResolveError::ChainedReference { reference, target }) => {
            assert_eq!(reference, "#/components/parameters/limit");
            assert_eq!(target, "#/components/parameters/real");
        }
        other => panic!("unexpected result: {:?}", other),
    }
    let unknown: ReferenceOr<Parameter> = ReferenceOr::ref_("#/components/parameters/missing");
    match unknown.resolve(&doc) {
        Err(ResolveError::UnknownName { reference }) => {
            assert_eq!(reference, "#/components/parameters/missing");
        }
        other => panic!("unexpected result: {:?}", other),
    }
    let malformed: ReferenceOr<Parameter> = ReferenceOr::ref_("#/components/schemas/limit");
    assert!(matches!(
        malformed.resolve(&doc),
        Err(ResolveError::MalformedGroupReference { .. })
    ));
}

#[test]
fn resolution_borrows_from_the_document() {
    let doc = OpenAPI {
        schemas: vec![(s("Pet"), ReferenceOr::item(string_schema()))],
        components: Some(empty_components()),
    };
    let held: ReferenceOr<Schema> = ReferenceOr::ref_("#/components/schemas/Pet");
    let got = held.resolve(&doc).unwrap();
    let again = held.resolve(&doc).unwrap();
    assert!(std::ptr::eq(got, again));
}

#[test]
fn formatting_built_pointers() {
    let schema_only = SchemaReference::Schema { schema: s("Account") };
    assert_eq!(schema_only.to_string(), "#/components/schemas/Account");
    let with_property = SchemaReference::Property { schema: s("Account"), property: s("name") };
    assert_eq!(
        with_property.to_string(),
        "#/components/schemas/Account/properties/name"
    );
}

#[test]
fn document_accessor_returns_the_schema_dictionary() {
    let doc = OpenAPI {
        schemas: vec![(s("Pet"), ReferenceOr::item(string_schema()))],
        components: Some(empty_components()),
    };
    let dict = doc.schemas();
    assert_eq!(dict.len(), 1);
    assert_eq!(dict[0].0, "Pet");
}

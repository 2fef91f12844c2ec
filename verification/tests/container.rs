use openapi_refs::{ReferenceOr, Schema};

fn s(text: &str) -> String {
    String::from(text)
}

#[test]
fn into_item_never_fails() {
    let i = ReferenceOr::Item(1);
    assert_eq!(i.into_item(), Some(1));

    let j: ReferenceOr<u8> = ReferenceOr::Reference { reference: String::new() };
    assert_eq!(j.into_item(), None);
}

#[test]
fn as_item_never_fails() {
    let i = ReferenceOr::Item(1);
    assert_eq!(i.as_item(), Some(&1));

    let j: ReferenceOr<u8> = ReferenceOr::Reference { reference: String::new() };
    assert_eq!(j.as_item(), None);
}

#[test]
fn as_mut_never_fails() {
    let mut i = ReferenceOr::Item(1);
    match i.as_mut() {
        Some(v) => *v = 5,
        None => panic!("an item must be reachable"),
    }
    assert_eq!(i.into_item(), Some(5));

    let mut j: ReferenceOr<u8> = ReferenceOr::Reference { reference: String::new() };
    assert!(j.as_mut().is_none());
}

#[test]
fn as_ref_str_only_for_pointers() {
    let held: ReferenceOr<u8> = ReferenceOr::ref_("#/components/schemas/Pet");
    assert_eq!(held.as_ref_str(), Some("#/components/schemas/Pet"));
    assert_eq!(ReferenceOr::Item(3u8).as_ref_str(), None);
}

#[test]
fn as_ref_keeps_the_variant() {
    let item = ReferenceOr::Item(7u32);
    assert!(matches!(item.as_ref(), ReferenceOr::Item(&7)));
    let held: ReferenceOr<u32> = ReferenceOr::ref_("#/x");
    match held.as_ref() {
        ReferenceOr::Reference { reference } => assert_eq!(reference, "#/x"),
        ReferenceOr::Item(_) => panic!("variant must be kept"),
    }
}

#[test]
fn schema_ref_builds_the_canonical_pointer() {
    let held: ReferenceOr<Schema> = ReferenceOr::schema_ref("Pet");
    assert_eq!(held.as_ref_str(), Some("#/components/schemas/Pet"));
}

#[test]
fn default_is_an_inline_default_item() {
    let d: ReferenceOr<u8> = Default::default();
    assert!(matches!(d, ReferenceOr::Item(0)));
}

#[test]
fn boxing_round_trip() {
    let boxed = ReferenceOr::item(42u8).boxed();
    assert_eq!(boxed.into_item().map(|b| *b), Some(42));

    let direct = ReferenceOr::boxed_item(7u8);
    assert_eq!(direct.into_item().map(|b| *b), Some(7));

    let held: ReferenceOr<u8> = ReferenceOr::ref_("#/x");
    match held.boxed() {
        ReferenceOr::Reference { reference } => assert_eq!(reference, "#/x"),
        ReferenceOr::Item(_) => panic!("variant must be kept"),
    }
}

#[test]
fn unbox_copies_the_schema() {
    let inner = Schema {
        schema_type: Some(s("object")),
        properties: Some(vec![(
            s("name"),
            ReferenceOr::item(Schema { schema_type: Some(s("string")), properties: None }),
        )]),
    };
    let boxed: ReferenceOr<Box<Schema>> = ReferenceOr::boxed_item(inner);
    let unboxed = boxed.unbox();
    let got = unboxed.as_item().expect("an item must come back");
    assert_eq!(got.schema_type.as_deref(), Some("object"));
    let props = got.properties.as_ref().expect("properties must be kept");
    assert_eq!(props.len(), 1);
    assert_eq!(props[0].0, "name");

    let held: ReferenceOr<Box<Schema>> = ReferenceOr::ref_("#/components/schemas/Pet");
    assert_eq!(held.unbox().as_ref_str(), Some("#/components/schemas/Pet"));
}

#[test]
fn emptiness_of_schemas_and_containers() {
    let empty = Schema { schema_type: None, properties: None };
    assert!(empty.is_empty());
    let typed = Schema { schema_type: Some(s("string")), properties: None };
    assert!(!typed.is_empty());

    assert!(ReferenceOr::item(Schema { schema_type: None, properties: None }).is_empty());
    assert!(!ReferenceOr::item(typed).is_empty());
    let held: ReferenceOr<Schema> = ReferenceOr::ref_("#/components/schemas/Pet");
    assert!(!held.is_empty());
}

#[test]
fn schema_clone_is_deep() {
    let original = Schema {
        schema_type: Some(s("object")),
        properties: Some(vec![(
            s("name"),
            ReferenceOr::ref_("#/components/schemas/Name"),
        )]),
    };
    let copy = original.clone();
    assert_eq!(copy.schema_type.as_deref(), Some("object"));
    let props = copy.properties.as_ref().unwrap();
    assert_eq!(props[0].0, "name");
    assert_eq!(props[0].1.as_ref_str(), Some("#/components/schemas/Name"));
}

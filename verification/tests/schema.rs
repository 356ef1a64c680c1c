use zoinks::schema::set_named;
use zoinks::schema::NamedSchema;
use zoinks::Schema;

fn typed(kind: &str) -> Schema {
    let mut node = Schema::new();
    node.instance_type = vec![String::from(kind)];
    node
}

#[test]
fn new_schema_says_nothing() {
    let node = Schema::new();
    assert_eq!(node.reference, None);
    assert!(node.definitions.is_empty());
    assert!(node.properties.is_empty());
    assert!(node.any_of.is_empty());
    assert!(node.enums.is_empty());
    assert!(node.instance_type.is_empty());
    assert!(node.required.is_empty());
    assert_eq!(node.items, None);
    assert_eq!(node.additional_properties, None);
    assert_eq!(node, Schema::default());
}

#[test]
fn set_named_appends_a_new_name() {
    let mut entries: Vec<NamedSchema> = Vec::new();
    set_named(&mut entries, String::from("a"), typed("string"));
    set_named(&mut entries, String::from("b"), typed("number"));
    let names: Vec<&str> = entries.iter().map(|e| e.name.as_str()).collect();
    assert_eq!(names, vec!["a", "b"]);
    assert_eq!(entries[1].schema, typed("number"));
}

#[test]
fn set_named_replaces_in_place() {
    let mut entries: Vec<NamedSchema> = Vec::new();
    set_named(&mut entries, String::from("a"), typed("string"));
    set_named(&mut entries, String::from("b"), typed("number"));
    set_named(&mut entries, String::from("a"), typed("boolean"));
    let names: Vec<&str> = entries.iter().map(|e| e.name.as_str()).collect();
    assert_eq!(names, vec!["a", "b"]);
    assert_eq!(entries[0].schema, typed("boolean"));
    assert_eq!(entries[1].schema, typed("number"));
}

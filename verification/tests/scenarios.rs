use serde_json::Value;
use zoinks::genimpl;
use zoinks::ir::DiagnosticKind;
use zoinks::ir::Enum;
use zoinks::ir::EnumVariant;
use zoinks::ir::RustItem;
use zoinks::ir::Struct;
use zoinks::ir::StructField;
use zoinks::schema::set_named;
use zoinks::schema::Literal;
use zoinks::schema::NamedSchema;
use zoinks::AdditionalProperties;
use zoinks::Schema;

fn text(s: &str) -> String {
    String::from(s)
}

fn strings(value: &Value) -> Vec<String> {
    match value {
        Value::String(s) => vec![s.clone()],
        Value::Array(list) => list.iter().map(|v| text(v.as_str().unwrap())).collect(),
        other => panic!("neither a string nor a list: {}", other),
    }
}

fn named(value: &Value) -> Vec<NamedSchema> {
    let mut out = Vec::new();
    for (name, schema) in value.as_object().unwrap() {
        set_named(&mut out, name.clone(), schema_of(schema));
    }
    out
}

fn literal(value: &Value) -> Literal {
    match value {
        Value::String(s) => Literal::Text(s.clone()),
        Value::Number(n) => Literal::Number(n.to_string()),
        Value::Null => Literal::Null,
        other => Literal::Other(other.to_string()),
    }
}

fn schema_of(value: &Value) -> Schema {
    let mut node = Schema::new();
    for (key, value) in value.as_object().unwrap() {
        match key.as_str() {
            "$ref" => node.reference = Some(text(value.as_str().unwrap())),
            "description" => node.description = Some(text(value.as_str().unwrap())),
            "definitions" => node.definitions = named(value),
            "properties" => node.properties = named(value),
            "additionalProperties" => {
                node.additional_properties = Some(match value {
                    Value::Bool(b) => AdditionalProperties::Boolean(*b),
                    other => AdditionalProperties::Schema(Box::new(schema_of(other))),
                })
            },
            "anyOf" => node.any_of = value.as_array().unwrap().iter().map(schema_of).collect(),
            "items" => node.items = Some(Box::new(schema_of(value))),
            "enum" => node.enums = value.as_array().unwrap().iter().map(literal).collect(),
            "type" => node.instance_type = strings(value),
            "required" => node.required = strings(value),
            other => panic!("unknown key: {}", other),
        }
    }
    node
}

fn document(json: &str) -> Schema {
    schema_of(&serde_json::from_str::<Value>(json).unwrap())
}

fn null_type() -> Vec<RustItem> {
    vec![RustItem::DeriveCommon, RustItem::UnitStruct(text("Null"))]
}

#[test]
fn scenario_string_definition() {
    let doc = document(r#"{"definitions":{"Name":{"type":"string"}}}"#);
    let result = genimpl(&doc);
    let mut expected = null_type();
    expected.push(RustItem::DeriveCommon);
    expected.push(RustItem::TupleStruct(text("Name"), text("String")));
    assert_eq!(result.items, expected);
    assert!(result.diagnostics.is_empty());
}

#[test]
fn scenario_untagged_union() {
    let doc = document(
        r#"{"definitions":{"Shape":{"anyOf":[{"type":"string"},{"type":"number"}]}}}"#,
    );
    let result = genimpl(&doc);
    assert_eq!(result.items.len(), 10);
    assert_eq!(result.items[3], RustItem::TupleStruct(text("ShapeVariant0"), text("String")));
    assert_eq!(result.items[5], RustItem::TupleStruct(text("ShapeVariant1"), text("f64")));
    assert_eq!(result.items[8], RustItem::SerdeUntagged);
    assert_eq!(
        result.items[9],
        RustItem::Enum(Enum {
            name: text("Shape"),
            variants: vec![
                EnumVariant::Tuple(text("ShapeVariant0"), text("ShapeVariant0")),
                EnumVariant::Tuple(text("ShapeVariant1"), text("ShapeVariant1")),
            ],
        })
    );
}

#[test]
fn scenario_string_enum() {
    let doc =
        document(r#"{"definitions":{"Color":{"type":"string","enum":["red","green"]}}}"#);
    let result = genimpl(&doc);
    let mut expected = null_type();
    expected.push(RustItem::DeriveCommon);
    expected.push(RustItem::Enum(Enum {
        name: text("Color"),
        variants: vec![
            EnumVariant::Unit(text("Red"), text("red")),
            EnumVariant::Unit(text("Green"), text("green")),
        ],
    }));
    assert_eq!(result.items, expected);
}

#[test]
fn scenario_struct_with_required_field() {
    let doc = document(
        r#"{"definitions":{"Point":{"type":"object","properties":{"x":{"type":"number"}},"required":["x"]}}}"#,
    );
    let result = genimpl(&doc);
    let mut expected = null_type();
    expected.push(RustItem::DeriveCommon);
    expected.push(RustItem::TupleStruct(text("PointPrptyX"), text("f64")));
    expected.push(RustItem::DeriveCommon);
    expected.push(RustItem::Struct(Struct {
        name: text("Point"),
        fields: vec![StructField {
            name: text("x"),
            old_name: text("x"),
            field_type: text("PointPrptyX"),
            required: true,
            boxed: false,
            description: None,
        }],
        additional_fields: true,
    }));
    assert_eq!(result.items, expected);
}

#[test]
fn scenario_forbid_unknown_fields() {
    let doc = document(
        r#"{"definitions":{"Point":{"type":"object","properties":{"x":{"type":"number"}},"additionalProperties":false}}}"#,
    );
    let result = genimpl(&doc);
    match result.items.last() {
        Some(RustItem::Struct(decl)) => {
            assert!(!decl.additional_fields);
            assert!(decl.render().starts_with("#[serde(deny_unknown_fields)]\n"));
        },
        other => panic!("no struct: {:?}", other),
    }
}

#[test]
fn scenario_external_reference() {
    let doc = document(
        r##"{"definitions":{"Far":{"$ref":"http://external"},"Near":{"$ref":"#/definitions/Far"}}}"##,
    );
    let result = genimpl(&doc);
    let mut expected = null_type();
    expected.push(RustItem::DeriveCommon);
    expected.push(RustItem::TupleStruct(text("Near"), text("Far")));
    assert_eq!(result.items, expected);
    assert_eq!(result.diagnostics.len(), 1);
    assert_eq!(result.diagnostics[0].kind, DiagnosticKind::UnsupportedReference);
    assert_eq!(result.diagnostics[0].detail, "http://external");
}

#[test]
fn scenario_type_as_a_list() {
    let doc = document(r#"{"definitions":{"Maybe":{"type":["string","null"]}}}"#);
    let result = genimpl(&doc);
    assert_eq!(
        result.items.last(),
        Some(&RustItem::Enum(Enum {
            name: text("Maybe"),
            variants: vec![
                EnumVariant::Tuple(text("String"), text("String")),
                EnumVariant::Unit(text("Null"), text("null")),
            ],
        }))
    );
}

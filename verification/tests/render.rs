use zoinks::ir::Enum;
use zoinks::ir::EnumVariant;
use zoinks::ir::RustItem;
use zoinks::ir::Struct;
use zoinks::ir::StructField;
use zoinks::NumericValidatorConfig;
use zoinks::StringValidatorConfig;

fn text(s: &str) -> String {
    String::from(s)
}

fn a_field(name: &str, old_name: &str, field_type: &str) -> StructField {
    StructField {
        name: text(name),
        old_name: text(old_name),
        field_type: text(field_type),
        required: true,
        boxed: false,
        description: None,
    }
}

#[test]
fn required_field_is_declared_plainly() {
    let field = a_field("x", "x", "Px");
    assert!(!field.is_renamed());
    assert!(!field.is_collection());
    assert!(!field.has_default());
    assert_eq!(field.declared_type(), "Px");
    assert_eq!(field.render(), "  pub x: Px,\n");
}

#[test]
fn optional_field_is_wrapped_in_an_option() {
    let mut field = a_field("x", "x", "Px");
    field.required = false;
    assert_eq!(field.declared_type(), "Option<Px>");
    assert_eq!(field.render(), "  pub x: Option<Px>,\n");
}

#[test]
fn boxed_field_is_stored_behind_a_pointer() {
    let mut field = a_field("x", "x", "Px");
    field.boxed = true;
    assert_eq!(field.declared_type(), "Box<Px>");
    field.required = false;
    assert_eq!(field.declared_type(), "Option<Box<Px>>");
    assert_eq!(field.render(), "  pub x: Option<Box<Px>>,\n");
}

#[test]
fn optional_collection_defaults_to_empty() {
    let mut field = a_field("xs", "xs", "Vec<Px>");
    field.required = false;
    assert!(field.is_collection());
    assert!(field.has_default());
    assert_eq!(field.declared_type(), "Vec<Px>");
    assert_eq!(field.render(), "  #[serde(default)]\n  pub xs: Vec<Px>,\n");
    field.required = true;
    assert!(!field.has_default());
    assert_eq!(field.render(), "  pub xs: Vec<Px>,\n");
}

#[test]
fn collection_is_told_by_the_start_of_the_type() {
    assert!(a_field("x", "x", "Vec").is_collection());
    assert!(a_field("x", "x", "Vector").is_collection());
    assert!(!a_field("x", "x", "Ve").is_collection());
    assert!(!a_field("x", "x", "MyVec").is_collection());
}

#[test]
fn renamed_field_names_its_property() {
    let mut field = a_field("foo_bar", "fooBar", "T");
    assert!(field.is_renamed());
    assert_eq!(field.render(), "  #[serde(rename=\"fooBar\")]\n  pub foo_bar: T,\n");
    field.required = false;
    field.field_type = text("Vec<T>");
    assert_eq!(
        field.render(),
        "  #[serde(rename=\"fooBar\")]\n  #[serde(default)]\n  pub foo_bar: Vec<T>,\n"
    );
}

#[test]
fn variants_as_text() {
    let tuple = EnumVariant::Tuple(text("A"), text("TypeOfA"));
    assert!(!tuple.is_renamed());
    assert_eq!(tuple.render(), "  A(TypeOfA),\n");
    let same = EnumVariant::Unit(text("Null"), text("Null"));
    assert!(!same.is_renamed());
    assert_eq!(same.render(), "  Null,\n");
    let renamed = EnumVariant::Unit(text("Red"), text("red"));
    assert!(renamed.is_renamed());
    assert_eq!(renamed.render(), "  #[serde(rename=\"red\")]\n  Red,\n");
}

#[test]
fn enum_as_text() {
    let decl = Enum {
        name: text("Color"),
        variants: vec![
            EnumVariant::Unit(text("Red"), text("red")),
            EnumVariant::Tuple(text("Other"), text("String")),
        ],
    };
    assert_eq!(
        decl.render(),
        "pub enum Color {\n  #[serde(rename=\"red\")]\n  Red,\n  Other(String),\n}\n"
    );
    let empty = Enum { name: text("Never"), variants: Vec::new() };
    assert_eq!(empty.render(), "pub enum Never {\n}\n");
}

#[test]
fn struct_as_text() {
    let mut optional = a_field("y", "y", "Py");
    optional.required = false;
    let mut decl = Struct {
        name: text("Point"),
        fields: vec![a_field("x", "x", "Px"), optional],
        additional_fields: true,
    };
    assert_eq!(decl.render(), "pub struct Point {\n  pub x: Px,\n  pub y: Option<Py>,\n}\n");
    decl.additional_fields = false;
    assert_eq!(
        decl.render(),
        "#[serde(deny_unknown_fields)]\npub struct Point {\n  pub x: Px,\n  pub y: Option<Py>,\n}\n"
    );
}

#[test]
fn items_as_text() {
    assert_eq!(RustItem::DocComment(text("hello")).render(), "/// hello\n");
    assert_eq!(RustItem::DeriveCommon.render(), "#[derive(Debug, serde::Deserialize)]");
    assert_eq!(RustItem::DeriveNoSerde.render(), "#[derive(Debug)]");
    assert_eq!(RustItem::SerdeUntagged.render(), "#[serde(untagged)]");
    assert_eq!(
        RustItem::TypeAlias(text("Names"), text("Vec<Name>")).render(),
        "pub type Names = Vec<Name>;"
    );
    assert_eq!(
        RustItem::TupleStruct(text("Name"), text("String")).render(),
        "pub struct Name (String);"
    );
    assert_eq!(RustItem::UnitStruct(text("Null")).render(), "pub struct Null;");
    let decl = Enum { name: text("E"), variants: vec![EnumVariant::Unit(text("A"), text("A"))] };
    assert_eq!(RustItem::Enum(decl.clone()).render(), decl.render());
    let decl = Struct { name: text("S"), fields: Vec::new(), additional_fields: true };
    assert_eq!(RustItem::Struct(decl.clone()).render(), "pub struct S {\n}\n");
}

#[test]
fn validators_as_text() {
    let bounds = StringValidatorConfig { min_length: Some(3), max_length: None };
    assert_eq!(bounds.describe(), format!("{:?}", bounds));
    assert_eq!(bounds.describe(), "StringValidatorConfig { min_length: Some(3), max_length: None }");
    assert_eq!(
        RustItem::StringValidator(text("Name"), bounds).render(),
        format!("String Name {:?}", bounds)
    );
    let bounds = NumericValidatorConfig {
        min: Some(0),
        exclusive_min: None,
        max: Some(1.0f64.to_bits()),
        exclusive_max: Some(u64::MAX),
    };
    assert_eq!(bounds.describe(), format!("{:?}", bounds));
    assert_eq!(
        RustItem::NumericValidator(text("Size"), bounds).render(),
        format!("Numeric Size {:?}", bounds)
    );
}

//! The synthesis engine: from a schema node to the declarations that stand
//! for it.

use vstd::prelude::*;
use crate::case::camel_case;
use crate::case::snake_case;
use crate::case::to_camel_case;
use crate::case::to_snake_case;
use crate::ir::Diagnostic;
use crate::ir::DiagnosticKind;
use crate::ir::DiagnosticModel;
use crate::ir::diagnostics_view;
use crate::ir::emit;
use crate::ir::Enum;
use crate::ir::EnumModel;
use crate::ir::EnumVariant;
use crate::ir::FieldModel;
use crate::ir::fields_view;
use crate::ir::ItemModel;
use crate::ir::items_view;
use crate::ir::option_view;
use crate::ir::report;
use crate::ir::RustItem;
use crate::ir::Struct;
use crate::ir::StructField;
use crate::ir::StructModel;
use crate::ir::VariantModel;
use crate::ir::variants_view;
use crate::sanitize::sanitize;
use crate::sanitize::sanitized;
use crate::schema::AdditionalProperties;
use crate::schema::Literal;
use crate::schema::Schema;
use crate::text::contains_text;
use crate::text::decimal;
use crate::text::decimal_text;
use crate::text::holds;
use crate::text::join;
use crate::text::same_text;
use crate::text::strip_prefix;
use crate::text::texts;

verus! {

broadcast use vstd::std_specs::vec::axiom_vec_index_decreases;

/// A struct with more properties than this has all its fields boxed.
pub const BOXED_ABOVE: usize = 15;

/// Whether a field is stored behind a pointer: every field of a struct with
/// more than fifteen properties, and the three fields through which a type is
/// known to hold itself.
pub open spec fn boxed(struct_name: Seq<char>, field_name: Seq<char>, prop_count: nat) -> bool {
    ||| prop_count > BOXED_ABOVE
    ||| (struct_name == "DerivedStream"@ && field_name == "stream"@)
    ||| (struct_name == "LogicalNotQltPredicateQgt"@ && field_name == "not"@)
    ||| (struct_name == "NonLayerRepeatSpec"@ && field_name == "spec"@)
}

/// Whether the field `field_name` of the struct `struct_name`, which has
/// `prop_count` properties, is stored behind a pointer.
pub fn is_boxed(struct_name: &str, field_name: &str, prop_count: usize) -> (r: bool)
    ensures
        r == boxed(struct_name@, field_name@, prop_count as nat),
{
    if prop_count > BOXED_ABOVE {
        return true;
    }
    if same_text(struct_name, "DerivedStream") && same_text(field_name, "stream") {
        return true;
    }
    if same_text(struct_name, "LogicalNotQltPredicateQgt") && same_text(field_name, "not") {
        return true;
    }
    if same_text(struct_name, "NonLayerRepeatSpec") && same_text(field_name, "spec") {
        return true;
    }
    false
}

/// The kinds that the `type` keyword of a node lists.
pub open spec fn kinds(node: Schema) -> Seq<Seq<char>> {
    texts(node.instance_type@)
}

/// Whether a list of kinds holds `kind` and no other: as a set, it is the
/// set of that one kind.
pub open spec fn holds_only(kinds: Seq<Seq<char>>, kind: Seq<char>) -> bool {
    &&& kinds.len() > 0
    &&& forall|i: int| 0 <= i < kinds.len() ==> #[trigger] kinds[i] == kind
}

/// Whether a list of kinds holds two kinds that differ: as a set, it has more
/// than one member.
pub open spec fn holds_several(kinds: Seq<Seq<char>>) -> bool {
    exists|i: int| 0 <= i < kinds.len() && #[trigger] kinds[i] != kinds[0]
}

/// Whether a kind is one of those whose instances hold no other value:
/// string, number, boolean and null.
pub open spec fn is_scalar_kind(kind: Seq<char>) -> bool {
    kind == "string"@ || kind == "number"@ || kind == "boolean"@ || kind == "null"@
}

/// Whether every kind of a list is a scalar kind.
pub open spec fn holds_scalars_only(kinds: Seq<Seq<char>>) -> bool {
    forall|i: int| 0 <= i < kinds.len() ==> is_scalar_kind(#[trigger] kinds[i])
}

/// Whether a kind is the one kind that a node permits.
pub open spec fn permits_only(node: Schema, kind: Seq<char>) -> bool {
    holds_only(kinds(node), kind)
}

/// The rule under which a node is synthesized.
#[derive(Debug, Clone, Copy, PartialEq, Eq, Structural)]
pub enum Shape {
    /// Alternatives and no kind: an untagged union.
    Union,
    /// A list of literals: an enum of unit variants.
    Literals,
    /// An object without properties: a wrapper of any JSON value.
    OpenObject,
    /// An object with properties: a struct.
    Record,
    /// A reference and no kind: the type it points to.
    Reference,
    /// A number: a wrapper of `f64`.
    Number,
    /// A boolean: a wrapper of `bool`.
    Boolean,
    /// A string: a wrapper of `String`.
    Text,
    /// Null: the one null type.
    Null,
    /// An array with an element schema: an alias of a vector.
    Array,
    /// Several scalar kinds: an enum with a variant for each.
    Scalars,
    /// Anything else: a unit type in its place.
    Unknown,
}

/// The rule that applies to a node. The rules are tried in this order and the
/// first that fits is taken.
pub open spec fn shape_of(node: Schema) -> Shape {
    if node.any_of@.len() > 0 && kinds(node).len() == 0 {
        Shape::Union
    } else if node.enums@.len() > 0 {
        Shape::Literals
    } else if permits_only(node, "object"@) {
        if node.properties@.len() == 0 {
            Shape::OpenObject
        } else {
            Shape::Record
        }
    } else if node.reference is Some && kinds(node).len() == 0 {
        Shape::Reference
    } else if permits_only(node, "number"@) {
        Shape::Number
    } else if permits_only(node, "boolean"@) {
        Shape::Boolean
    } else if permits_only(node, "string"@) {
        Shape::Text
    } else if permits_only(node, "null"@) {
        Shape::Null
    } else if permits_only(node, "array"@) && node.items is Some {
        Shape::Array
    } else if holds_several(kinds(node)) && holds_scalars_only(kinds(node)) {
        Shape::Scalars
    } else {
        Shape::Unknown
    }
}

/// Whether a list of kinds holds `kind` and no other.
pub fn has_only_kind(types: &Vec<String>, kind: &str) -> (r: bool)
    ensures
        r == holds_only(texts(types@), kind@),
{
    if types.len() == 0 {
        return false;
    }
    let mut i: usize = 0;
    while i < types.len()
        invariant
            i <= types.len(),
            forall|j: int| 0 <= j < i ==> #[trigger] texts(types@)[j] == kind@,
        decreases types.len() - i,
    {
        if !same_text(types[i].as_str(), kind) {
            proof {
                assert(texts(types@)[i as int] != kind@);
            }
            return false;
        }
        i = i + 1;
    }
    true
}

/// Whether a list of kinds holds two kinds that differ.
pub fn has_several_kinds(types: &Vec<String>) -> (r: bool)
    ensures
        r == holds_several(texts(types@)),
{
    let mut i: usize = 1;
    while i < types.len()
        invariant
            1 <= i,
            forall|j: int|
                0 <= j < i && j < types@.len() ==> #[trigger] texts(types@)[j] == texts(types@)[0],
        decreases types.len() - i,
    {
        if !same_text(types[i].as_str(), types[0].as_str()) {
            proof {
                assert(texts(types@)[i as int] != texts(types@)[0]);
            }
            return true;
        }
        i = i + 1;
    }
    false
}

/// Whether every kind of a list is a scalar kind.
pub fn has_scalar_kinds_only(types: &Vec<String>) -> (r: bool)
    ensures
        r == holds_scalars_only(texts(types@)),
{
    let mut i: usize = 0;
    while i < types.len()
        invariant
            i <= types.len(),
            forall|j: int| 0 <= j < i ==> is_scalar_kind(#[trigger] texts(types@)[j]),
        decreases types.len() - i,
    {
        let kind = types[i].as_str();
        let scalar = same_text(kind, "string") || same_text(kind, "number") || same_text(
            kind,
            "boolean",
        ) || same_text(kind, "null");
        if !scalar {
            proof {
                assert(!is_scalar_kind(texts(types@)[i as int]));
            }
            return false;
        }
        i = i + 1;
    }
    true
}

/// Finds the rule that applies to a node.
pub fn classify(node: &Schema) -> (r: Shape)
    ensures
        r == shape_of(*node),
{
    let types = &node.instance_type;
    if node.any_of.len() > 0 && types.len() == 0 {
        Shape::Union
    } else if node.enums.len() > 0 {
        Shape::Literals
    } else if has_only_kind(types, "object") {
        if node.properties.len() == 0 {
            Shape::OpenObject
        } else {
            Shape::Record
        }
    } else if node.reference.is_some() && types.len() == 0 {
        Shape::Reference
    } else if has_only_kind(types, "number") {
        Shape::Number
    } else if has_only_kind(types, "boolean") {
        Shape::Boolean
    } else if has_only_kind(types, "string") {
        Shape::Text
    } else if has_only_kind(types, "null") {
        Shape::Null
    } else if has_only_kind(types, "array") && node.items.is_some() {
        Shape::Array
    } else if has_several_kinds(types) && has_scalar_kinds_only(types) {
        Shape::Scalars
    } else {
        Shape::Unknown
    }
}

/// What the synthesis of one node yields: the declarations, the diagnostics,
/// and the name by which other nodes refer to the node's type.
pub struct Emission {
    pub items: Seq<ItemModel>,
    pub diagnostics: Seq<DiagnosticModel>,
    pub name: Option<Seq<char>>,
}

/// What the alternatives of a union yield: the declarations and diagnostics
/// of the alternatives, and the variants of the union.
pub struct Alternatives {
    pub items: Seq<ItemModel>,
    pub diagnostics: Seq<DiagnosticModel>,
    pub variants: Seq<VariantModel>,
}

/// What the properties of an object yield: the declarations and diagnostics
/// of the properties, and the fields of the struct.
pub struct Fields {
    pub items: Seq<ItemModel>,
    pub diagnostics: Seq<DiagnosticModel>,
    pub fields: Seq<FieldModel>,
}

/// What the literals of a node yield: a variant for each literal that the
/// node permits, a diagnostic for each that it does not.
pub struct Literals {
    pub diagnostics: Seq<DiagnosticModel>,
    pub variants: Seq<VariantModel>,
}

/// Declarations and diagnostics.
pub struct Emitted {
    pub items: Seq<ItemModel>,
    pub diagnostics: Seq<DiagnosticModel>,
}

/// The name of the type that is declared for a path.
pub open spec fn declared_name(path: Seq<char>) -> Seq<char> {
    camel_case(sanitized(path))
}

/// The path of the alternative `index` of the union `name`.
pub open spec fn alternative_path(name: Seq<char>, index: nat) -> Seq<char> {
    name + "Variant"@ + decimal(index)
}

/// The path of the property `property` of the struct `name`.
pub open spec fn property_path(name: Seq<char>, property: Seq<char>) -> Seq<char> {
    camel_case(name + "_prpty_"@ + property)
}

/// The name of the field that stands for a property.
pub open spec fn field_name(property: Seq<char>) -> Seq<char> {
    snake_case(sanitized(property))
}

/// The path of the elements of the array `name`.
pub open spec fn element_path(name: Seq<char>) -> Seq<char> {
    camel_case(name) + "Item"@
}

/// The type of a vector of `element`.
pub open spec fn vector_of(element: Seq<char>) -> Seq<char> {
    "Vec<"@ + sanitized(element) + ">"@
}

/// The definition that a reference points to, where it points into the
/// definitions of its own document.
pub open spec fn definition_of(reference: Seq<char>) -> Option<Seq<char>> {
    if "#/definitions/"@.is_prefix_of(reference) {
        Some(reference.skip("#/definitions/"@.len() as int))
    } else {
        None
    }
}

/// Whether a node has no type: it is a reference that does not point into
/// the definitions of its own document. Every other node has a type.
pub open spec fn is_untyped(node: Schema) -> bool {
    shape_of(node) == Shape::Reference && definition_of(node.reference->0@) is None
}

/// Whether an object may hold properties that are not listed: always, unless
/// `additionalProperties` is the boolean `false`.
pub open spec fn allows_additional(node: Schema) -> bool {
    !(node.additional_properties matches Some(AdditionalProperties::Boolean(b)) && !b)
}

/// A diagnostic of the type `name`.
pub open spec fn diagnostic(kind: DiagnosticKind, name: Seq<char>, detail: Seq<char>)
    -> DiagnosticModel {
    DiagnosticModel { kind, path: name, detail }
}

/// The variants of a node of several scalar kinds: one for each kind that the
/// node permits, in the order string, number, boolean, null.
pub open spec fn scalar_variants(kinds: Seq<Seq<char>>) -> Seq<VariantModel> {
    (if holds(kinds, "string"@) {
        seq![VariantModel::Tuple("String"@, "String"@)]
    } else {
        Seq::empty()
    }) + (if holds(kinds, "number"@) {
        seq![VariantModel::Tuple("Number"@, "f64"@)]
    } else {
        Seq::empty()
    }) + (if holds(kinds, "boolean"@) {
        seq![VariantModel::Tuple("Boolean"@, "bool"@)]
    } else {
        Seq::empty()
    }) + (if holds(kinds, "null"@) {
        seq![VariantModel::Unit("Null"@, "null"@)]
    } else {
        Seq::empty()
    })
}

/// What one literal of the enum `name` yields, added to what the literals
/// before it have yielded.
pub open spec fn with_literal(
    before: Literals,
    name: Seq<char>,
    kinds: Seq<Seq<char>>,
    literal: Literal,
) -> Literals {
    match literal {
        Literal::Text(s) => if holds(kinds, "string"@) {
            Literals {
                diagnostics: before.diagnostics,
                variants: before.variants.push(VariantModel::Unit(camel_case(s@), s@)),
            }
        } else {
            Literals {
                diagnostics: before.diagnostics.push(
                    diagnostic(DiagnosticKind::StringLiteralNotAllowed, name, s@),
                ),
                variants: before.variants,
            }
        },
        Literal::Number(n) => if holds(kinds, "number"@) {
            Literals {
                diagnostics: before.diagnostics,
                variants: before.variants.push(
                    VariantModel::Unit(camel_case(name + "_"@ + n@), n@),
                ),
            }
        } else {
            Literals {
                diagnostics: before.diagnostics.push(
                    diagnostic(DiagnosticKind::NumberLiteralNotAllowed, name, n@),
                ),
                variants: before.variants,
            }
        },
        Literal::Null => if holds(kinds, "null"@) {
            Literals {
                diagnostics: before.diagnostics,
                variants: before.variants.push(VariantModel::Unit("Null"@, "null"@)),
            }
        } else {
            Literals {
                diagnostics: before.diagnostics.push(
                    diagnostic(DiagnosticKind::NullLiteralNotAllowed, name, "null"@),
                ),
                variants: before.variants,
            }
        },
        Literal::Other(json) => Literals {
            diagnostics: before.diagnostics.push(
                diagnostic(DiagnosticKind::UnsupportedLiteral, name, json@),
            ),
            variants: before.variants,
        },
    }
}

/// Whether each field is required exactly if `required` lists the name of its
/// property.
pub open spec fn required_as_listed(fields: Seq<FieldModel>, required: Seq<Seq<char>>) -> bool {
    forall|j: int|
        0 <= j < fields.len() ==> (#[trigger] fields[j]).required == holds(
            required,
            fields[j].old_name,
        )
}

/// What the first `k` literals of a node yield for the enum `name`.
pub open spec fn literals(name: Seq<char>, node: Schema, k: nat) -> Literals
    decreases k,
{
    if k == 0 || k > node.enums@.len() {
        Literals { diagnostics: Seq::empty(), variants: Seq::empty() }
    } else {
        with_literal(literals(name, node, (k - 1) as nat), name, kinds(node), node.enums@[k - 1])
    }
}

/// What the first `k` alternatives of a node yield for the union `name`.
///
/// Each alternative is synthesized under a path of its own. One that has a
/// type becomes a variant that wraps it; one that has none is left out, with
/// a diagnostic.
pub open spec fn alternatives(name: Seq<char>, node: Schema, k: nat) -> Alternatives
    decreases node, 0nat, k,
{
    if k == 0 || k > node.any_of.len() {
        Alternatives { items: Seq::empty(), diagnostics: Seq::empty(), variants: Seq::empty() }
    } else {
        let before = alternatives(name, node, (k - 1) as nat);
        let child = descent(alternative_path(name, (k - 1) as nat), node.any_of[k - 1], false);
        match child.name {
            Some(wrapped) => Alternatives {
                items: before.items + child.items,
                diagnostics: before.diagnostics + child.diagnostics,
                variants: before.variants.push(
                    VariantModel::Tuple(sanitized(wrapped), sanitized(wrapped)),
                ),
            },
            None => Alternatives {
                items: before.items + child.items,
                diagnostics: (before.diagnostics + child.diagnostics).push(
                    diagnostic(DiagnosticKind::InvalidAlternative, name, decimal((k - 1) as nat)),
                ),
                variants: before.variants,
            },
        }
    }
}

/// What the first `k` properties of a node yield for the struct `name`.
///
/// Each property is synthesized under a path of its own. One that has a type
/// becomes a field of that type, required exactly if the node lists its name
/// as required; one that has none is left out, with a diagnostic.
pub open spec fn fields(name: Seq<char>, node: Schema, k: nat) -> Fields
    decreases node, 0nat, k,
{
    if k == 0 || k > node.properties.len() {
        Fields { items: Seq::empty(), diagnostics: Seq::empty(), fields: Seq::empty() }
    } else {
        let before = fields(name, node, (k - 1) as nat);
        let property = node.properties[k - 1];
        let child = descent(property_path(name, property.name@), property.schema, false);
        match child.name {
            Some(field_type) => Fields {
                items: before.items + child.items,
                diagnostics: before.diagnostics + child.diagnostics,
                fields: before.fields.push(
                    FieldModel {
                        name: field_name(property.name@),
                        old_name: property.name@,
                        field_type,
                        required: holds(texts(node.required@), property.name@),
                        boxed: boxed(
                            name,
                            field_name(property.name@),
                            node.properties.len() as nat,
                        ),
                        description: option_view(property.schema.description),
                    },
                ),
            },
            None => Fields {
                items: before.items + child.items,
                diagnostics: (before.diagnostics + child.diagnostics).push(
                    diagnostic(DiagnosticKind::OmittedField, name, property.name@),
                ),
                fields: before.fields,
            },
        }
    }
}

/// The keywords that synthesis does not act on.
pub open spec fn unsupported_keywords(name: Seq<char>, node: Schema) -> Seq<DiagnosticModel> {
    (if node.all_of@.len() > 0 {
        seq![diagnostic(DiagnosticKind::UnsupportedKeyword, name, "allOf"@)]
    } else {
        Seq::empty()
    }) + (if node.one_of@.len() > 0 {
        seq![diagnostic(DiagnosticKind::UnsupportedKeyword, name, "oneOf"@)]
    } else {
        Seq::empty()
    }) + (if node.not is Some {
        seq![diagnostic(DiagnosticKind::UnsupportedKeyword, name, "not"@)]
    } else {
        Seq::empty()
    }) + (if node.pattern_properties@.len() > 0 {
        seq![diagnostic(DiagnosticKind::UnsupportedKeyword, name, "patternProperties"@)]
    } else {
        Seq::empty()
    })
}

/// What the declaration of a node under the name `name` yields, by the rule
/// that `shape_of` finds for the node.
///
/// A node at the root of a document is a definition: it gets a declaration
/// of its own even where it is only a reference.
pub open spec fn declaration(name: Seq<char>, node: Schema, root: bool) -> Emission
    decreases node, 1nat, 0nat,
{
    match shape_of(node) {
        Shape::Union => {
            let inner = alternatives(name, node, node.any_of.len() as nat);
            Emission {
                items: inner.items + seq![
                    ItemModel::DocComment("any_of enum: "@ + name),
                    ItemModel::DeriveCommon,
                    ItemModel::SerdeUntagged,
                    ItemModel::Enum(EnumModel { name, variants: inner.variants }),
                ],
                diagnostics: inner.diagnostics,
                name: Some(name),
            }
        },
        Shape::Literals => {
            let inner = literals(name, node, node.enums@.len());
            Emission {
                items: seq![
                    ItemModel::DeriveCommon,
                    ItemModel::Enum(EnumModel { name, variants: inner.variants }),
                ],
                diagnostics: inner.diagnostics,
                name: Some(name),
            }
        },
        Shape::OpenObject => Emission {
            items: seq![
                ItemModel::DeriveCommon,
                ItemModel::TupleStruct(name, "serde_json::Value"@),
            ],
            diagnostics: Seq::empty(),
            name: Some(name),
        },
        Shape::Record => {
            let inner = fields(name, node, node.properties.len() as nat);
            Emission {
                items: inner.items + seq![
                    ItemModel::DeriveCommon,
                    ItemModel::Struct(
                        StructModel {
                            name,
                            fields: inner.fields,
                            additional_fields: allows_additional(node),
                        },
                    ),
                ],
                diagnostics: inner.diagnostics,
                name: Some(name),
            }
        },
        Shape::Reference => match definition_of(node.reference->0@) {
            Some(target) => Emission {
                items: if root {
                    seq![
                        ItemModel::DeriveCommon,
                        ItemModel::TupleStruct(name, declared_name(target)),
                    ]
                } else {
                    Seq::empty()
                },
                diagnostics: Seq::empty(),
                name: Some(declared_name(target)),
            },
            None => Emission {
                items: Seq::empty(),
                diagnostics: seq![
                    diagnostic(DiagnosticKind::UnsupportedReference, name, node.reference->0@),
                ],
                name: None,
            },
        },
        Shape::Number => Emission {
            items: seq![ItemModel::DeriveCommon, ItemModel::TupleStruct(name, "f64"@)],
            diagnostics: Seq::empty(),
            name: Some(name),
        },
        Shape::Boolean => Emission {
            items: seq![ItemModel::DeriveCommon, ItemModel::TupleStruct(name, "bool"@)],
            diagnostics: Seq::empty(),
            name: Some(name),
        },
        Shape::Text => Emission {
            items: seq![ItemModel::DeriveCommon, ItemModel::TupleStruct(name, "String"@)],
            diagnostics: Seq::empty(),
            name: Some(name),
        },
        Shape::Null => Emission {
            items: Seq::empty(),
            diagnostics: Seq::empty(),
            name: Some("Null"@),
        },
        Shape::Array => {
            let inner = descent(element_path(name), *node.items->0, false);
            let element = match inner.name {
                Some(element) => element,
                None => element_path(name),
            };
            Emission {
                items: inner.items.push(ItemModel::TypeAlias(name, vector_of(element))),
                diagnostics: inner.diagnostics,
                name: Some(name),
            }
        },
        Shape::Scalars => Emission {
            items: seq![
                ItemModel::DeriveCommon,
                ItemModel::Enum(EnumModel { name, variants: scalar_variants(kinds(node)) }),
            ],
            diagnostics: Seq::empty(),
            name: Some(name),
        },
        Shape::Unknown => Emission {
            items: seq![ItemModel::DeriveCommon, ItemModel::UnitStruct(name)],
            diagnostics: seq![diagnostic(DiagnosticKind::UnclassifiedNode, name, ""@)],
            name: Some(name),
        },
    }
}

/// What the synthesis of a node under a path yields.
///
/// The node is declared under the name that its path gives. Each keyword of
/// the node that synthesis does not act on is reported first: `allOf`,
/// `oneOf`, `not` and `patternProperties`, in this order.
pub open spec fn descent(path: Seq<char>, node: Schema, root: bool) -> Emission
    decreases node, 2nat, 0nat,
{
    let name = declared_name(path);
    let declared = declaration(name, node, root);
    Emission {
        items: declared.items,
        diagnostics: unsupported_keywords(name, node) + declared.diagnostics,
        name: declared.name,
    }
}

/// What the first `k` definitions of a document yield, one behind the other.
pub open spec fn definitions(doc: Schema, k: nat) -> Emitted
    decreases k,
{
    if k == 0 || k > doc.definitions.len() {
        Emitted { items: Seq::empty(), diagnostics: Seq::empty() }
    } else {
        let before = definitions(doc, (k - 1) as nat);
        let entry = doc.definitions[k - 1];
        let child = descent(entry.name@, entry.schema, true);
        Emitted {
            items: before.items + child.items,
            diagnostics: before.diagnostics + child.diagnostics,
        }
    }
}

/// What the synthesis of a document yields: the null type first, then what
/// its definitions yield, in the order of the document.
pub open spec fn synthesis(doc: Schema) -> Emitted {
    let inner = definitions(doc, doc.definitions.len() as nat);
    Emitted {
        items: seq![ItemModel::DeriveCommon, ItemModel::UnitStruct("Null"@)] + inner.items,
        diagnostics: inner.diagnostics,
    }
}

/// The variants of a node of several scalar kinds.
pub fn scalar_variants_of(types: &Vec<String>) -> (r: Vec<EnumVariant>)
    ensures
        variants_view(r@) == scalar_variants(texts(types@)),
{
    let mut variants: Vec<EnumVariant> = Vec::new();
    assert(variants_view(variants@) =~= Seq::empty());
    if contains_text(types, "string") {
        let ghost before = variants@;
        variants.push(EnumVariant::Tuple(String::from_str("String"), String::from_str("String")));
        assert(variants_view(variants@) =~= variants_view(before) + seq![
            VariantModel::Tuple("String"@, "String"@),
        ]);
    }
    if contains_text(types, "number") {
        let ghost before = variants@;
        variants.push(EnumVariant::Tuple(String::from_str("Number"), String::from_str("f64")));
        assert(variants_view(variants@) =~= variants_view(before) + seq![
            VariantModel::Tuple("Number"@, "f64"@),
        ]);
    }
    if contains_text(types, "boolean") {
        let ghost before = variants@;
        variants.push(EnumVariant::Tuple(String::from_str("Boolean"), String::from_str("bool")));
        assert(variants_view(variants@) =~= variants_view(before) + seq![
            VariantModel::Tuple("Boolean"@, "bool"@),
        ]);
    }
    if contains_text(types, "null") {
        let ghost before = variants@;
        variants.push(EnumVariant::Unit(String::from_str("Null"), String::from_str("null")));
        assert(variants_view(variants@) =~= variants_view(before) + seq![
            VariantModel::Unit("Null"@, "null"@),
        ]);
    }
    assert(variants_view(variants@) =~= scalar_variants(texts(types@)));
    variants
}

/// The variants that the literals of a node give to the enum `name`, with a
/// diagnostic for each literal of a kind that the node does not permit.
pub fn literal_variants(name: &str, schema: &Schema, diagnostics: &mut Vec<Diagnostic>) -> (r: Vec<
    EnumVariant,
>)
    ensures
        variants_view(r@) == literals(name@, *schema, schema.enums@.len()).variants,
        diagnostics_view(final(diagnostics)@) == diagnostics_view(old(diagnostics)@) + literals(
            name@,
            *schema,
            schema.enums@.len(),
        ).diagnostics,
{
    let allow_string = contains_text(&schema.instance_type, "string");
    let allow_number = contains_text(&schema.instance_type, "number");
    let allow_null = contains_text(&schema.instance_type, "null");
    let mut variants: Vec<EnumVariant> = Vec::new();
    let mut i: usize = 0;
    assert(variants_view(variants@) =~= Seq::empty());
    assert(diagnostics_view(diagnostics@) =~= diagnostics_view(old(diagnostics)@) + Seq::empty());
    while i < schema.enums.len()
        invariant
            i <= schema.enums.len(),
            allow_string == holds(kinds(*schema), "string"@),
            allow_number == holds(kinds(*schema), "number"@),
            allow_null == holds(kinds(*schema), "null"@),
            variants_view(variants@) == literals(name@, *schema, i as nat).variants,
            diagnostics_view(diagnostics@) == diagnostics_view(old(diagnostics)@) + literals(
                name@,
                *schema,
                i as nat,
            ).diagnostics,
        decreases schema.enums.len() - i,
    {
        let ghost before = literals(name@, *schema, i as nat);
        let ghost after = literals(name@, *schema, (i + 1) as nat);
        let ghost seen = variants@;
        assert(after == with_literal(before, name@, kinds(*schema), schema.enums@[i as int]));
        match &schema.enums[i] {
            Literal::Text(s) => {
                if allow_string {
                    variants.push(EnumVariant::Unit(to_camel_case(s.as_str()), s.clone()));
                    assert(variants_view(variants@) =~= variants_view(seen).push(
                        VariantModel::Unit(camel_case(s@), s@),
                    ));
                } else {
                    report(diagnostics, DiagnosticKind::StringLiteralNotAllowed, name, s.as_str());
                }
            },
            Literal::Number(n) => {
                if allow_number {
                    let tagged = join(join(name, "_").as_str(), n.as_str());
                    variants.push(
                        EnumVariant::Unit(to_camel_case(tagged.as_str()), n.clone()),
                    );
                    assert(variants_view(variants@) =~= variants_view(seen).push(
                        VariantModel::Unit(camel_case(name@ + "_"@ + n@), n@),
                    ));
                } else {
                    report(diagnostics, DiagnosticKind::NumberLiteralNotAllowed, name, n.as_str());
                }
            },
            Literal::Null => {
                if allow_null {
                    variants.push(
                        EnumVariant::Unit(String::from_str("Null"), String::from_str("null")),
                    );
                    assert(variants_view(variants@) =~= variants_view(seen).push(
                        VariantModel::Unit("Null"@, "null"@),
                    ));
                } else {
                    report(diagnostics, DiagnosticKind::NullLiteralNotAllowed, name, "null");
                }
            },
            Literal::Other(json) => {
                report(diagnostics, DiagnosticKind::UnsupportedLiteral, name, json.as_str());
            },
        }
        i = i + 1;
        assert(diagnostics_view(diagnostics@) =~= diagnostics_view(old(diagnostics)@)
            + after.diagnostics);
    }
    variants
}

/// Synthesizes the alternatives of a union and returns its variants.
pub fn descend_alternatives(
    name: &str,
    schema: &Schema,
    out: &mut Vec<RustItem>,
    diagnostics: &mut Vec<Diagnostic>,
) -> (r: Vec<EnumVariant>)
    ensures
        items_view(final(out)@) == items_view(old(out)@) + alternatives(
            name@,
            *schema,
            schema.any_of.len() as nat,
        ).items,
        diagnostics_view(final(diagnostics)@) == diagnostics_view(old(diagnostics)@)
            + alternatives(name@, *schema, schema.any_of.len() as nat).diagnostics,
        variants_view(r@) == alternatives(name@, *schema, schema.any_of.len() as nat).variants,
    decreases schema, 0nat,
{
    let mut variants: Vec<EnumVariant> = Vec::new();
    let mut i: usize = 0;
    assert(variants_view(variants@) =~= Seq::empty());
    assert(items_view(out@) =~= items_view(old(out)@) + Seq::empty());
    assert(diagnostics_view(diagnostics@) =~= diagnostics_view(old(diagnostics)@) + Seq::empty());
    while i < schema.any_of.len()
        invariant
            i <= schema.any_of.len(),
            items_view(out@) == items_view(old(out)@) + alternatives(
                name@,
                *schema,
                i as nat,
            ).items,
            diagnostics_view(diagnostics@) == diagnostics_view(old(diagnostics)@) + alternatives(
                name@,
                *schema,
                i as nat,
            ).diagnostics,
            variants_view(variants@) == alternatives(name@, *schema, i as nat).variants,
        decreases schema.any_of.len() - i,
    {
        let ghost before = alternatives(name@, *schema, i as nat);
        let ghost after = alternatives(name@, *schema, (i + 1) as nat);
        let ghost child = descent(alternative_path(name@, i as nat), schema.any_of[i as int], false);
        let ghost seen = variants@;
        let index = decimal_text(i as u64);
        let path = join(join(name, "Variant").as_str(), index.as_str());
        match descend(path.as_str(), &schema.any_of[i], out, diagnostics, false) {
            Some(wrapped) => {
                let wrapped = sanitize(wrapped.as_str());
                variants.push(EnumVariant::Tuple(wrapped.clone(), wrapped));
                assert(variants_view(variants@) =~= variants_view(seen).push(
                    VariantModel::Tuple(sanitized(child.name->0), sanitized(child.name->0)),
                ));
            },
            None => {
                report(diagnostics, DiagnosticKind::InvalidAlternative, name, index.as_str());
            },
        }
        i = i + 1;
        assert(items_view(out@) =~= items_view(old(out)@) + after.items);
        assert(diagnostics_view(diagnostics@) =~= diagnostics_view(old(diagnostics)@)
            + after.diagnostics);
    }
    variants
}

/// Synthesizes the properties of an object and returns the fields of its
/// struct.
pub fn descend_properties(
    name: &str,
    schema: &Schema,
    out: &mut Vec<RustItem>,
    diagnostics: &mut Vec<Diagnostic>,
) -> (r: Vec<StructField>)
    ensures
        items_view(final(out)@) == items_view(old(out)@) + fields(
            name@,
            *schema,
            schema.properties.len() as nat,
        ).items,
        diagnostics_view(final(diagnostics)@) == diagnostics_view(old(diagnostics)@) + fields(
            name@,
            *schema,
            schema.properties.len() as nat,
        ).diagnostics,
        fields_view(r@) == fields(name@, *schema, schema.properties.len() as nat).fields,
        required_as_listed(fields_view(r@), texts(schema.required@)),
    decreases schema, 0nat,
{
    proof {
        lemma_fields_are_required_as_listed(name@, *schema, schema.properties.len() as nat);
    }
    let prop_count = schema.properties.len();
    let mut found: Vec<StructField> = Vec::new();
    let mut i: usize = 0;
    assert(fields_view(found@) =~= Seq::empty());
    assert(items_view(out@) =~= items_view(old(out)@) + Seq::empty());
    assert(diagnostics_view(diagnostics@) =~= diagnostics_view(old(diagnostics)@) + Seq::empty());
    while i < schema.properties.len()
        invariant
            i <= schema.properties.len(),
            prop_count == schema.properties.len(),
            items_view(out@) == items_view(old(out)@) + fields(name@, *schema, i as nat).items,
            diagnostics_view(diagnostics@) == diagnostics_view(old(diagnostics)@) + fields(
                name@,
                *schema,
                i as nat,
            ).diagnostics,
            fields_view(found@) == fields(name@, *schema, i as nat).fields,
        decreases schema.properties.len() - i,
    {
        let property = &schema.properties[i];
        let ghost after = fields(name@, *schema, (i + 1) as nat);
        let ghost child = descent(property_path(name@, property.name@), property.schema, false);
        let ghost seen = found@;
        let raw = join(join(name, "_prpty_").as_str(), property.name.as_str());
        let path = to_camel_case(raw.as_str());
        match descend(path.as_str(), &property.schema, out, diagnostics, false) {
            Some(field_type) => {
                let field = to_snake_case(sanitize(property.name.as_str()).as_str());
                let indirect = is_boxed(name, field.as_str(), prop_count);
                let required = contains_text(&schema.required, property.name.as_str());
                let description = match &property.schema.description {
                    Some(text) => Some(text.clone()),
                    None => None,
                };
                let ghost model = FieldModel {
                    name: field_name(property.name@),
                    old_name: property.name@,
                    field_type: child.name->0,
                    required: holds(texts(schema.required@), property.name@),
                    boxed: boxed(name@, field_name(property.name@), prop_count as nat),
                    description: option_view(property.schema.description),
                };
                found.push(
                    StructField {
                        name: field,
                        old_name: property.name.clone(),
                        field_type,
                        required,
                        boxed: indirect,
                        description,
                    },
                );
                assert(fields_view(found@) =~= fields_view(seen).push(model));
            },
            None => {
                report(
                    diagnostics,
                    DiagnosticKind::OmittedField,
                    name,
                    property.name.as_str(),
                );
            },
        }
        i = i + 1;
        assert(items_view(out@) =~= items_view(old(out)@) + after.items);
        assert(diagnostics_view(diagnostics@) =~= diagnostics_view(old(diagnostics)@)
            + after.diagnostics);
    }
    found
}

/// Reports each keyword of a node that synthesis does not act on.
pub fn report_unsupported(name: &str, schema: &Schema, diagnostics: &mut Vec<Diagnostic>)
    ensures
        diagnostics_view(final(diagnostics)@) == diagnostics_view(old(diagnostics)@)
            + unsupported_keywords(name@, *schema),
{
    let ghost before = diagnostics_view(diagnostics@);
    let ghost kind = DiagnosticKind::UnsupportedKeyword;
    assert(diagnostics_view(diagnostics@) =~= before + Seq::empty());
    if schema.all_of.len() > 0 {
        report(diagnostics, DiagnosticKind::UnsupportedKeyword, name, "allOf");
    }
    let ghost first = if schema.all_of@.len() > 0 {
        seq![diagnostic(kind, name@, "allOf"@)]
    } else {
        Seq::empty()
    };
    assert(diagnostics_view(diagnostics@) =~= before + first);
    if schema.one_of.len() > 0 {
        report(diagnostics, DiagnosticKind::UnsupportedKeyword, name, "oneOf");
    }
    let ghost second = first + (if schema.one_of@.len() > 0 {
        seq![diagnostic(kind, name@, "oneOf"@)]
    } else {
        Seq::empty()
    });
    assert(diagnostics_view(diagnostics@) =~= before + second);
    if schema.not.is_some() {
        report(diagnostics, DiagnosticKind::UnsupportedKeyword, name, "not");
    }
    let ghost third = second + (if schema.not is Some {
        seq![diagnostic(kind, name@, "not"@)]
    } else {
        Seq::empty()
    });
    assert(diagnostics_view(diagnostics@) =~= before + third);
    if schema.pattern_properties.len() > 0 {
        report(diagnostics, DiagnosticKind::UnsupportedKeyword, name, "patternProperties");
    }
    assert(diagnostics_view(diagnostics@) =~= before + unsupported_keywords(name@, *schema));
}

/// Declares one schema node under the name `name`, by the rule that fits it.
///
/// The declarations that define the node are appended to `out`, a diagnostic
/// for each construct that had to be degraded is appended to `diagnostics`,
/// and the name by which other nodes refer to the node's type is returned:
/// no name where the node is a reference that does not point into the
/// definitions of the document.
pub fn declare(
    name: &str,
    schema: &Schema,
    out: &mut Vec<RustItem>,
    diagnostics: &mut Vec<Diagnostic>,
    root: bool,
) -> (r: Option<String>)
    ensures
        items_view(final(out)@) == items_view(old(out)@) + declaration(name@, *schema, root).items,
        diagnostics_view(final(diagnostics)@) == diagnostics_view(old(diagnostics)@)
            + declaration(name@, *schema, root).diagnostics,
        option_view(r) == declaration(name@, *schema, root).name,
        r is None <==> is_untyped(*schema),
        shape_of(*schema) == Shape::Null ==> final(out)@ == old(out)@,
    decreases schema, 1nat,
{
    let ghost expected = declaration(name@, *schema, root);
    let ghost items_before = items_view(out@);
    let ghost diagnostics_before = diagnostics_view(diagnostics@);
    assert(diagnostics_before =~= diagnostics_before + Seq::empty());
    assert(items_before =~= items_before + Seq::empty());
    match classify(schema) {
        Shape::Union => {
            let variants = descend_alternatives(name, schema, out, diagnostics);
            emit(out, RustItem::DocComment(join("any_of enum: ", name)));
            emit(out, RustItem::DeriveCommon);
            emit(out, RustItem::SerdeUntagged);
            emit(out, RustItem::Enum(Enum { name: String::from_str(name), variants }));
            assert(items_view(out@) =~= items_before + expected.items);
            Some(String::from_str(name))
        },
        Shape::Literals => {
            let variants = literal_variants(name, schema, diagnostics);
            emit(out, RustItem::DeriveCommon);
            emit(out, RustItem::Enum(Enum { name: String::from_str(name), variants }));
            assert(items_view(out@) =~= items_before + expected.items);
            Some(String::from_str(name))
        },
        Shape::OpenObject => {
            emit(out, RustItem::DeriveCommon);
            emit(
                out,
                RustItem::TupleStruct(
                    String::from_str(name),
                    String::from_str("serde_json::Value"),
                ),
            );
            assert(items_view(out@) =~= items_before + expected.items);
            Some(String::from_str(name))
        },
        Shape::Record => {
            let fields = descend_properties(name, schema, out, diagnostics);
            let additional_fields = match &schema.additional_properties {
                Some(AdditionalProperties::Boolean(b)) => *b,
                _ => true,
            };
            emit(out, RustItem::DeriveCommon);
            emit(
                out,
                RustItem::Struct(Struct { name: String::from_str(name), fields, additional_fields }),
            );
            assert(items_view(out@) =~= items_before + expected.items);
            Some(String::from_str(name))
        },
        Shape::Reference => {
            let reference = schema.reference.as_ref().unwrap();
            match strip_prefix(reference.as_str(), "#/definitions/") {
                Some(target) => {
                    let target = to_camel_case(sanitize(target.as_str()).as_str());
                    if root {
                        emit(out, RustItem::DeriveCommon);
                        emit(out, RustItem::TupleStruct(String::from_str(name), target.clone()));
                    }
                    assert(items_view(out@) =~= items_before + expected.items);
                    Some(target)
                },
                None => {
                    report(
                        diagnostics,
                        DiagnosticKind::UnsupportedReference,
                        name,
                        reference.as_str(),
                    );
                    assert(diagnostics_view(diagnostics@) =~= diagnostics_before
                        + expected.diagnostics);
                    None
                },
            }
        },
        Shape::Number => {
            emit(out, RustItem::DeriveCommon);
            emit(out, RustItem::TupleStruct(String::from_str(name), String::from_str("f64")));
            assert(items_view(out@) =~= items_before + expected.items);
            Some(String::from_str(name))
        },
        Shape::Boolean => {
            emit(out, RustItem::DeriveCommon);
            emit(out, RustItem::TupleStruct(String::from_str(name), String::from_str("bool")));
            assert(items_view(out@) =~= items_before + expected.items);
            Some(String::from_str(name))
        },
        Shape::Text => {
            emit(out, RustItem::DeriveCommon);
            emit(out, RustItem::TupleStruct(String::from_str(name), String::from_str("String")));
            assert(items_view(out@) =~= items_before + expected.items);
            Some(String::from_str(name))
        },
        Shape::Null => Some(String::from_str("Null")),
        Shape::Array => {
            let items = schema.items.as_ref().unwrap();
            let inner_path = join(to_camel_case(name).as_str(), "Item");
            let element = match descend(inner_path.as_str(), items, out, diagnostics, false) {
                Some(element) => element,
                None => inner_path,
            };
            let vector = join(join("Vec<", sanitize(element.as_str()).as_str()).as_str(), ">");
            emit(out, RustItem::TypeAlias(String::from_str(name), vector));
            assert(items_view(out@) =~= items_before + expected.items);
            Some(String::from_str(name))
        },
        Shape::Scalars => {
            let variants = scalar_variants_of(&schema.instance_type);
            emit(out, RustItem::DeriveCommon);
            emit(out, RustItem::Enum(Enum { name: String::from_str(name), variants }));
            assert(items_view(out@) =~= items_before + expected.items);
            Some(String::from_str(name))
        },
        Shape::Unknown => {
            emit(out, RustItem::DeriveCommon);
            emit(out, RustItem::UnitStruct(String::from_str(name)));
            report(diagnostics, DiagnosticKind::UnclassifiedNode, name, "");
            assert(items_view(out@) =~= items_before + expected.items);
            assert(diagnostics_view(diagnostics@) =~= diagnostics_before + expected.diagnostics);
            Some(String::from_str(name))
        },
    }
}

/// Synthesizes one schema node.
///
/// The node is declared under the name that its path gives: the declarations
/// are appended to `out` and the name by which other nodes refer to the
/// node's type is returned. A diagnostic is appended to `diagnostics` for
/// each keyword of the node that synthesis does not act on, and for each
/// construct that had to be degraded.
pub fn descend(
    in_name: &str,
    schema: &Schema,
    out: &mut Vec<RustItem>,
    diagnostics: &mut Vec<Diagnostic>,
    root: bool,
) -> (r: Option<String>)
    ensures
        items_view(final(out)@) == items_view(old(out)@) + descent(in_name@, *schema, root).items,
        diagnostics_view(final(diagnostics)@) == diagnostics_view(old(diagnostics)@) + descent(
            in_name@,
            *schema,
            root,
        ).diagnostics,
        option_view(r) == descent(in_name@, *schema, root).name,
        r is None <==> is_untyped(*schema),
        permits_only(*schema, "null"@) && schema.enums@.len() == 0 ==> option_view(r) == Some(
            "Null"@,
        ) && final(out)@ == old(out)@,
        shape_of(*schema) == Shape::Record ==> items_view(final(out)@).len() > 0 && (items_view(
            final(out)@,
        ).last() matches ItemModel::Struct(decl) && required_as_listed(
            decl.fields,
            texts(schema.required@),
        )),
    decreases schema, 2nat,
{
    proof {
        if permits_only(*schema, "null"@) && schema.enums@.len() == 0 {
            lemma_null_is_one_type(in_name@, *schema, root);
        }
        if shape_of(*schema) == Shape::Record {
            lemma_required_field_fidelity(in_name@, *schema, root);
        }
    }
    let name = to_camel_case(sanitize(in_name).as_str());
    let ghost before = diagnostics_view(diagnostics@);
    report_unsupported(name.as_str(), schema, diagnostics);
    let r = declare(name.as_str(), schema, out, diagnostics, root);
    assert(diagnostics_view(diagnostics@) =~= before + descent(in_name@, *schema, root).diagnostics);
    r
}

/// What the synthesis of a document has yielded.
#[derive(Debug, Clone, PartialEq, Eq)]
pub struct Synthesis {
    /// The declarations, in the order in which they were made.
    pub items: Vec<RustItem>,
    /// One diagnostic for each construct that had to be degraded.
    pub diagnostics: Vec<Diagnostic>,
}

impl Synthesis {
    /// Whether this is what the synthesis of `doc` yields.
    pub open spec fn is_synthesis_of(&self, doc: Schema) -> bool {
        &&& items_view(self.items@) == synthesis(doc).items
        &&& diagnostics_view(self.diagnostics@) == synthesis(doc).diagnostics
    }
}

/// Synthesizes the declarations for a schema document.
///
/// The null type is declared first. Then each definition of the document is
/// synthesized as a root node, in the order of the document. No input is
/// refused: what cannot be declared is degraded and reported.
pub fn genimpl(schema: &Schema) -> (r: Synthesis)
    ensures
        r.is_synthesis_of(*schema),
        r.items@.len() >= 2,
{
    let mut out: Vec<RustItem> = Vec::new();
    let mut diagnostics: Vec<Diagnostic> = Vec::new();
    emit(&mut out, RustItem::DeriveCommon);
    emit(&mut out, RustItem::UnitStruct(String::from_str("Null")));
    let ghost head = items_view(out@);
    assert(head =~= seq![ItemModel::DeriveCommon, ItemModel::UnitStruct("Null"@)]);
    assert(items_view(out@) =~= head + Seq::empty());
    assert(diagnostics_view(diagnostics@) =~= Seq::empty());
    let mut i: usize = 0;
    while i < schema.definitions.len()
        invariant
            i <= schema.definitions.len(),
            out@.len() >= 2,
            items_view(out@) == head + definitions(*schema, i as nat).items,
            diagnostics_view(diagnostics@) == definitions(*schema, i as nat).diagnostics,
        decreases schema.definitions.len() - i,
    {
        let entry = &schema.definitions[i];
        let ghost after = definitions(*schema, (i + 1) as nat);
        let _ = descend(entry.name.as_str(), &entry.schema, &mut out, &mut diagnostics, true);
        i = i + 1;
        assert(items_view(out@) =~= head + after.items);
        assert(diagnostics_view(diagnostics@) =~= after.diagnostics);
        assert(out@.len() == items_view(out@).len());
    }
    Synthesis { items: out, diagnostics }
}

/// A node has a type unless it is a reference that leaves its document.
pub proof fn lemma_untyped_nodes(path: Seq<char>, node: Schema, root: bool)
    ensures
        descent(path, node, root).name is None <==> is_untyped(node),
{
}

/// Idempotence: two syntheses of one document say the same, declaration by
/// declaration and diagnostic by diagnostic.
pub proof fn lemma_synthesis_is_repeatable(doc: Schema, first: Synthesis, second: Synthesis)
    requires
        first.is_synthesis_of(doc),
        second.is_synthesis_of(doc),
    ensures
        items_view(first.items@) == items_view(second.items@),
        diagnostics_view(first.diagnostics@) == diagnostics_view(second.diagnostics@),
{
}

/// Totality: the synthesis of any document begins with the declaration of the
/// null type, so it is never empty.
pub proof fn lemma_synthesis_is_never_empty(doc: Schema)
    ensures
        synthesis(doc).items.len() >= 2,
        synthesis(doc).items[0] == ItemModel::DeriveCommon,
        synthesis(doc).items[1] == ItemModel::UnitStruct("Null"@),
{
}

/// Null unification: a node whose one kind is null, and which lists no
/// literals, has the null type whatever its path, and declares nothing.
///
/// A node that lists literals is an enum of its own, also where null is the
/// one kind it permits.
pub proof fn lemma_null_is_one_type(path: Seq<char>, node: Schema, root: bool)
    requires
        permits_only(node, "null"@),
        node.enums@.len() == 0,
    ensures
        shape_of(node) == Shape::Null,
        descent(path, node, root).name == Some("Null"@),
        descent(path, node, root).items.len() == 0,
{
    reveal_strlit("null");
    reveal_strlit("object");
    reveal_strlit("number");
    reveal_strlit("boolean");
    reveal_strlit("string");
    assert(kinds(node)[0] == "null"@);
}

/// Null unification, of two nodes: where null is the one kind of each and
/// neither lists literals, the two have the same type, whatever their paths.
pub proof fn lemma_null_nodes_share_their_type(
    path: Seq<char>,
    node: Schema,
    root: bool,
    other_path: Seq<char>,
    other_node: Schema,
    other_root: bool,
)
    requires
        permits_only(node, "null"@),
        node.enums@.len() == 0,
        permits_only(other_node, "null"@),
        other_node.enums@.len() == 0,
    ensures
        descent(path, node, root).name == descent(other_path, other_node, other_root).name,
{
    lemma_null_is_one_type(path, node, root);
    lemma_null_is_one_type(other_path, other_node, other_root);
}

/// Required-field fidelity for the fields of the first `k` properties: a
/// field is required exactly if the node lists the name of its property as
/// required.
pub proof fn lemma_fields_are_required_as_listed(name: Seq<char>, node: Schema, k: nat)
    ensures
        required_as_listed(fields(name, node, k).fields, texts(node.required@)),
    decreases k,
{
    if k == 0 || k > node.properties.len() {
    } else {
        lemma_fields_are_required_as_listed(name, node, (k - 1) as nat);
    }
}

/// Required-field fidelity: the struct that is declared for an object with
/// properties comes last among the declarations of its node, and it marks a
/// field as required exactly if the node lists the name of the field's
/// property as required.
pub proof fn lemma_required_field_fidelity(path: Seq<char>, node: Schema, root: bool)
    requires
        shape_of(node) == Shape::Record,
    ensures
        descent(path, node, root).items.len() > 0,
        descent(path, node, root).items.last() matches ItemModel::Struct(decl)
            && required_as_listed(decl.fields, texts(node.required@)),
{
    lemma_fields_are_required_as_listed(
        declared_name(path),
        node,
        node.properties.len() as nat,
    );
}

} // verus!

//! The declarations that synthesis yields, and what each one says.
//!
//! The executable types hold strings. Each has a view, which holds the
//! characters of those strings: contracts speak of the views.

use vstd::prelude::*;
use crate::numeric_validator::NumericValidatorConfig;
use crate::string_validator::StringValidatorConfig;
use crate::text::join;

verus! {

/// A variant of an enum declaration.
#[derive(Debug, Clone, PartialEq, Eq)]
pub enum EnumVariant {
    /// A variant that wraps a type: its name, then the type.
    Tuple(String, String),
    /// A variant without data: its name, then the literal it stands for.
    Unit(String, String),
}

/// An enum declaration.
#[derive(Debug, Clone, PartialEq, Eq)]
pub struct Enum {
    pub name: String,
    pub variants: Vec<EnumVariant>,
}

/// A field of a struct declaration.
#[derive(Debug, Clone, PartialEq, Eq)]
pub struct StructField {
    /// The name of the field in the declaration.
    pub name: String,
    /// The name of the property in the schema.
    pub old_name: String,
    pub field_type: String,
    /// Whether an instance must hold the field.
    pub required: bool,
    /// Whether the field is stored behind a pointer.
    pub boxed: bool,
    pub description: Option<String>,
}

/// A struct declaration.
#[derive(Debug, Clone, PartialEq, Eq)]
pub struct Struct {
    pub name: String,
    pub fields: Vec<StructField>,
    /// Whether an instance may hold fields that are not declared.
    pub additional_fields: bool,
}

/// One declaration, or one marker that belongs to the declaration behind it.
#[derive(Debug, Clone, PartialEq, Eq)]
pub enum RustItem {
    DocComment(String),
    /// The next type can be printed and read from JSON.
    DeriveCommon,
    /// The next type can be printed.
    DeriveNoSerde,
    /// The next enum is told apart by the shape of its variants.
    SerdeUntagged,
    /// A second name for a type: the name, then the type.
    TypeAlias(String, String),
    Enum(Enum),
    /// A type that wraps one other type: the name, then the type.
    TupleStruct(String, String),
    /// A type without data.
    UnitStruct(String),
    Struct(Struct),
    /// The length bounds of a string wrapper.
    StringValidator(String, StringValidatorConfig),
    /// The numeric bounds of a number wrapper.
    NumericValidator(String, NumericValidatorConfig),
}

/// What a degraded construct was.
#[derive(Debug, Clone, Copy, PartialEq, Eq)]
pub enum DiagnosticKind {
    /// An alternative of a union has no type and is left out.
    InvalidAlternative,
    /// A string literal where the node permits no string.
    StringLiteralNotAllowed,
    /// A number literal where the node permits no number.
    NumberLiteralNotAllowed,
    /// A null literal where the node does not permit null.
    NullLiteralNotAllowed,
    /// A literal that is neither string, number nor null.
    UnsupportedLiteral,
    /// A reference that does not point into the definitions of the document.
    UnsupportedReference,
    /// A property has no type and its field is left out.
    OmittedField,
    /// A node that fits no rule and gets a unit type.
    UnclassifiedNode,
    /// A keyword that synthesis does not act on.
    UnsupportedKeyword,
}

/// One degraded construct: what it was, the type it was found in, and the
/// text that names it there.
#[derive(Debug, Clone, PartialEq, Eq)]
pub struct Diagnostic {
    pub kind: DiagnosticKind,
    pub path: String,
    pub detail: String,
}

/// What an [`EnumVariant`] says.
pub enum VariantModel {
    Tuple(Seq<char>, Seq<char>),
    Unit(Seq<char>, Seq<char>),
}

/// What an [`Enum`] says.
pub struct EnumModel {
    pub name: Seq<char>,
    pub variants: Seq<VariantModel>,
}

/// What a [`StructField`] says.
pub struct FieldModel {
    pub name: Seq<char>,
    pub old_name: Seq<char>,
    pub field_type: Seq<char>,
    pub required: bool,
    pub boxed: bool,
    pub description: Option<Seq<char>>,
}

/// What a [`Struct`] says.
pub struct StructModel {
    pub name: Seq<char>,
    pub fields: Seq<FieldModel>,
    pub additional_fields: bool,
}

/// What a [`RustItem`] says.
pub enum ItemModel {
    DocComment(Seq<char>),
    DeriveCommon,
    DeriveNoSerde,
    SerdeUntagged,
    TypeAlias(Seq<char>, Seq<char>),
    Enum(EnumModel),
    TupleStruct(Seq<char>, Seq<char>),
    UnitStruct(Seq<char>),
    Struct(StructModel),
    StringValidator(Seq<char>, StringValidatorConfig),
    NumericValidator(Seq<char>, NumericValidatorConfig),
}

/// What a [`Diagnostic`] says.
pub struct DiagnosticModel {
    pub kind: DiagnosticKind,
    pub path: Seq<char>,
    pub detail: Seq<char>,
}

/// The characters of an optional string.
pub open spec fn option_view(s: Option<String>) -> Option<Seq<char>> {
    match s {
        Some(s) => Some(s@),
        None => None,
    }
}

impl View for EnumVariant {
    type V = VariantModel;

    open spec fn view(&self) -> VariantModel {
        match *self {
            EnumVariant::Tuple(name, wrapped) => VariantModel::Tuple(name@, wrapped@),
            EnumVariant::Unit(name, literal) => VariantModel::Unit(name@, literal@),
        }
    }
}

/// What a list of variants says.
pub open spec fn variants_view(variants: Seq<EnumVariant>) -> Seq<VariantModel> {
    variants.map_values(|v: EnumVariant| v@)
}

impl View for Enum {
    type V = EnumModel;

    open spec fn view(&self) -> EnumModel {
        EnumModel { name: self.name@, variants: variants_view(self.variants@) }
    }
}

impl View for StructField {
    type V = FieldModel;

    open spec fn view(&self) -> FieldModel {
        FieldModel {
            name: self.name@,
            old_name: self.old_name@,
            field_type: self.field_type@,
            required: self.required,
            boxed: self.boxed,
            description: option_view(self.description),
        }
    }
}

/// What a list of fields says.
pub open spec fn fields_view(fields: Seq<StructField>) -> Seq<FieldModel> {
    fields.map_values(|f: StructField| f@)
}

impl View for Struct {
    type V = StructModel;

    open spec fn view(&self) -> StructModel {
        StructModel {
            name: self.name@,
            fields: fields_view(self.fields@),
            additional_fields: self.additional_fields,
        }
    }
}

impl View for RustItem {
    type V = ItemModel;

    open spec fn view(&self) -> ItemModel {
        match *self {
            RustItem::DocComment(text) => ItemModel::DocComment(text@),
            RustItem::DeriveCommon => ItemModel::DeriveCommon,
            RustItem::DeriveNoSerde => ItemModel::DeriveNoSerde,
            RustItem::SerdeUntagged => ItemModel::SerdeUntagged,
            RustItem::TypeAlias(name, source) => ItemModel::TypeAlias(name@, source@),
            RustItem::Enum(decl) => ItemModel::Enum(decl@),
            RustItem::TupleStruct(name, wrapped) => ItemModel::TupleStruct(name@, wrapped@),
            RustItem::UnitStruct(name) => ItemModel::UnitStruct(name@),
            RustItem::Struct(decl) => ItemModel::Struct(decl@),
            RustItem::StringValidator(name, config) => ItemModel::StringValidator(name@, config),
            RustItem::NumericValidator(name, config) => ItemModel::NumericValidator(name@, config),
        }
    }
}

/// What a list of declarations says.
pub open spec fn items_view(items: Seq<RustItem>) -> Seq<ItemModel> {
    items.map_values(|i: RustItem| i@)
}

impl View for Diagnostic {
    type V = DiagnosticModel;

    open spec fn view(&self) -> DiagnosticModel {
        DiagnosticModel { kind: self.kind, path: self.path@, detail: self.detail@ }
    }
}

/// What a list of diagnostics says.
pub open spec fn diagnostics_view(diagnostics: Seq<Diagnostic>) -> Seq<DiagnosticModel> {
    diagnostics.map_values(|d: Diagnostic| d@)
}

impl DiagnosticKind {
    /// Whether a diagnostic of this kind is an error and not a warning: an
    /// alternative or a field that has no type, or a reference that cannot be
    /// followed.
    pub open spec fn is_error(self) -> bool {
        self == DiagnosticKind::InvalidAlternative || self == DiagnosticKind::UnsupportedReference
            || self == DiagnosticKind::OmittedField
    }

    /// What the diagnostics of this kind begin with.
    pub open spec fn headline(self) -> Seq<char> {
        match self {
            DiagnosticKind::InvalidAlternative => "Invalid alternative: "@,
            DiagnosticKind::StringLiteralNotAllowed => "String literal not allowed: "@,
            DiagnosticKind::NumberLiteralNotAllowed => "Number literal not allowed: "@,
            DiagnosticKind::NullLiteralNotAllowed => "Null literal not allowed: "@,
            DiagnosticKind::UnsupportedLiteral => "Unsupported literal: "@,
            DiagnosticKind::UnsupportedReference => "Unsupported reference: "@,
            DiagnosticKind::OmittedField => "No type for field: "@,
            DiagnosticKind::UnclassifiedNode => "Empty struct?"@,
            DiagnosticKind::UnsupportedKeyword => "Unsupported keyword: "@,
        }
    }
}

impl DiagnosticModel {
    /// The diagnostic as one line of text: the type, what was found in it,
    /// and the text that names it there.
    pub open spec fn message(self) -> Seq<char> {
        self.path + ": "@ + self.kind.headline() + self.detail
    }
}

impl Diagnostic {
    /// Whether the diagnostic is an error and not a warning.
    pub fn is_error(&self) -> (r: bool)
        ensures
            r == self.kind.is_error(),
    {
        match self.kind {
            DiagnosticKind::InvalidAlternative => true,
            DiagnosticKind::UnsupportedReference => true,
            DiagnosticKind::OmittedField => true,
            _ => false,
        }
    }

    /// Writes the diagnostic as one line of text.
    pub fn message(&self) -> (r: String)
        ensures
            r@ == self@.message(),
    {
        let headline = match self.kind {
            DiagnosticKind::InvalidAlternative => "Invalid alternative: ",
            DiagnosticKind::StringLiteralNotAllowed => "String literal not allowed: ",
            DiagnosticKind::NumberLiteralNotAllowed => "Number literal not allowed: ",
            DiagnosticKind::NullLiteralNotAllowed => "Null literal not allowed: ",
            DiagnosticKind::UnsupportedLiteral => "Unsupported literal: ",
            DiagnosticKind::UnsupportedReference => "Unsupported reference: ",
            DiagnosticKind::OmittedField => "No type for field: ",
            DiagnosticKind::UnclassifiedNode => "Empty struct?",
            DiagnosticKind::UnsupportedKeyword => "Unsupported keyword: ",
        };
        let head = join(join(self.path.as_str(), ": ").as_str(), headline);
        join(head.as_str(), self.detail.as_str())
    }
}

/// Appends a declaration.
pub fn emit(out: &mut Vec<RustItem>, item: RustItem)
    ensures
        final(out)@ == old(out)@.push(item),
        items_view(final(out)@) == items_view(old(out)@).push(item@),
{
    out.push(item);
    proof {
        assert(items_view(out@) =~= items_view(old(out)@).push(item@));
    }
}

/// Appends a diagnostic.
pub fn report(diagnostics: &mut Vec<Diagnostic>, kind: DiagnosticKind, path: &str, detail: &str)
    ensures
        diagnostics_view(final(diagnostics)@) == diagnostics_view(old(diagnostics)@).push(
            DiagnosticModel { kind, path: path@, detail: detail@ },
        ),
{
    let entry = Diagnostic { kind, path: String::from_str(path), detail: String::from_str(detail) };
    diagnostics.push(entry);
    proof {
        assert(diagnostics_view(diagnostics@) =~= diagnostics_view(old(diagnostics)@).push(
            DiagnosticModel { kind, path: path@, detail: detail@ },
        ));
    }
}

} // verus!

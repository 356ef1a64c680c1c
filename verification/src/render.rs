//! The declarations as text, and the decisions that any rendering of them
//! has to make: which fields are optional, which are renamed, which types are
//! wrapped.

use vstd::prelude::*;
use crate::ir::Enum;
use crate::ir::EnumModel;
use crate::ir::EnumVariant;
use crate::ir::FieldModel;
use crate::ir::ItemModel;
use crate::ir::RustItem;
use crate::ir::Struct;
use crate::ir::StructField;
use crate::ir::StructModel;
use crate::ir::VariantModel;
use crate::ir::fields_view;
use crate::ir::variants_view;
use crate::text::join;
use crate::text::occurs_at;
use crate::text::push_text;
use crate::text::same_text;
use crate::text::to_chars;

verus! {

/// The annotation that gives a field or a variant its name in the schema.
pub open spec fn rename_line(old_name: Seq<char>) -> Seq<char> {
    "  #[serde(rename=\""@ + old_name + "\")]\n"@
}

impl FieldModel {
    /// Whether the field holds a collection: its type begins with `Vec`.
    pub open spec fn is_collection(self) -> bool {
        "Vec"@.is_prefix_of(self.field_type)
    }

    /// Whether the field has another name than its property.
    pub open spec fn is_renamed(self) -> bool {
        self.name != self.old_name
    }

    /// Whether a missing field is read as the empty collection.
    pub open spec fn has_default(self) -> bool {
        self.is_collection() && !self.required
    }

    /// The type as it is stored: behind a pointer where the field is boxed.
    pub open spec fn stored_type(self) -> Seq<char> {
        if self.boxed {
            "Box<"@ + self.field_type + ">"@
        } else {
            self.field_type
        }
    }

    /// The type as it is declared: the stored type, optional where the field
    /// is neither required nor a collection.
    pub open spec fn declared_type(self) -> Seq<char> {
        if self.required || self.is_collection() {
            self.stored_type()
        } else {
            "Option<"@ + self.stored_type() + ">"@
        }
    }

    /// The field as text.
    pub open spec fn rendered(self) -> Seq<char> {
        (if self.is_renamed() {
            rename_line(self.old_name)
        } else {
            Seq::empty()
        }) + (if self.has_default() {
            "  #[serde(default)]\n"@
        } else {
            Seq::empty()
        }) + "  pub "@ + self.name + ": "@ + self.declared_type() + ",\n"@
    }
}

impl VariantModel {
    /// Whether a variant without data has another name than its literal.
    pub open spec fn is_renamed(self) -> bool {
        match self {
            VariantModel::Unit(name, literal) => name != literal,
            VariantModel::Tuple(_, _) => false,
        }
    }

    /// The variant as text.
    pub open spec fn rendered(self) -> Seq<char> {
        match self {
            VariantModel::Unit(name, literal) => (if name != literal {
                rename_line(literal)
            } else {
                Seq::empty()
            }) + "  "@ + name + ",\n"@,
            VariantModel::Tuple(name, wrapped) => "  "@ + name + "("@ + wrapped + "),\n"@,
        }
    }
}

/// The first `k` variants as text, one behind the other.
pub open spec fn rendered_variants(variants: Seq<VariantModel>, k: nat) -> Seq<char>
    decreases k,
{
    if k == 0 || k > variants.len() {
        Seq::empty()
    } else {
        rendered_variants(variants, (k - 1) as nat) + variants[k - 1].rendered()
    }
}

/// The first `k` fields as text, one behind the other.
pub open spec fn rendered_fields(fields: Seq<FieldModel>, k: nat) -> Seq<char>
    decreases k,
{
    if k == 0 || k > fields.len() {
        Seq::empty()
    } else {
        rendered_fields(fields, (k - 1) as nat) + fields[k - 1].rendered()
    }
}

impl EnumModel {
    /// The enum as text.
    pub open spec fn rendered(self) -> Seq<char> {
        "pub enum "@ + self.name + " {\n"@ + rendered_variants(self.variants, self.variants.len())
            + "}\n"@
    }
}

impl StructModel {
    /// The struct as text: unknown fields are denied where additional fields
    /// are not allowed.
    pub open spec fn rendered(self) -> Seq<char> {
        (if self.additional_fields {
            Seq::empty()
        } else {
            "#[serde(deny_unknown_fields)]\n"@
        }) + "pub struct "@ + self.name + " {\n"@ + rendered_fields(self.fields, self.fields.len())
            + "}\n"@
    }
}

impl ItemModel {
    /// The declaration as text.
    pub open spec fn rendered(self) -> Seq<char> {
        match self {
            ItemModel::DocComment(text) => "/// "@ + text + "\n"@,
            ItemModel::DeriveCommon => "#[derive(Debug, serde::Deserialize)]"@,
            ItemModel::DeriveNoSerde => "#[derive(Debug)]"@,
            ItemModel::SerdeUntagged => "#[serde(untagged)]"@,
            ItemModel::TypeAlias(name, source) => "pub type "@ + name + " = "@ + source + ";"@,
            ItemModel::Enum(decl) => decl.rendered(),
            ItemModel::TupleStruct(name, wrapped) => "pub struct "@ + name + " ("@ + wrapped
                + ");"@,
            ItemModel::UnitStruct(name) => "pub struct "@ + name + ";"@,
            ItemModel::Struct(decl) => decl.rendered(),
            ItemModel::StringValidator(name, config) => "String "@ + name + " "@
                + config.described(),
            ItemModel::NumericValidator(name, config) => "Numeric "@ + name + " "@
                + config.described(),
        }
    }
}

impl StructField {
    /// Whether the field holds a collection.
    pub fn is_collection(&self) -> (r: bool)
        ensures
            r == self@.is_collection(),
    {
        let text = to_chars(self.field_type.as_str());
        let head = to_chars("Vec");
        assert(text@.skip(0) =~= text@);
        occurs_at(&text, 0, &head)
    }

    /// Whether the field has another name than its property, so that the
    /// declaration has to name the property.
    pub fn is_renamed(&self) -> (r: bool)
        ensures
            r == self@.is_renamed(),
    {
        !same_text(self.name.as_str(), self.old_name.as_str())
    }

    /// Whether a missing field is read as the empty collection.
    pub fn has_default(&self) -> (r: bool)
        ensures
            r == self@.has_default(),
    {
        !self.required && self.is_collection()
    }

    /// The type of the field as it is declared.
    pub fn declared_type(&self) -> (r: String)
        ensures
            r@ == self@.declared_type(),
    {
        let stored = if self.boxed {
            join(join("Box<", self.field_type.as_str()).as_str(), ">")
        } else {
            self.field_type.clone()
        };
        if self.required || self.is_collection() {
            stored
        } else {
            join(join("Option<", stored.as_str()).as_str(), ">")
        }
    }

    /// Writes the field as text.
    pub fn render(&self) -> (r: String)
        ensures
            r@ == self@.rendered(),
    {
        let mut out = String::new();
        if self.is_renamed() {
            push_text(&mut out, "  #[serde(rename=\"");
            push_text(&mut out, self.old_name.as_str());
            push_text(&mut out, "\")]\n");
        }
        assert(out@ =~= if self@.is_renamed() {
            rename_line(self@.old_name)
        } else {
            Seq::empty()
        });
        if self.has_default() {
            push_text(&mut out, "  #[serde(default)]\n");
        }
        push_text(&mut out, "  pub ");
        push_text(&mut out, self.name.as_str());
        push_text(&mut out, ": ");
        push_text(&mut out, self.declared_type().as_str());
        push_text(&mut out, ",\n");
        assert(out@ =~= self@.rendered());
        out
    }
}

impl EnumVariant {
    /// Whether a variant without data has another name than its literal, so
    /// that the declaration has to name the literal.
    pub fn is_renamed(&self) -> (r: bool)
        ensures
            r == self@.is_renamed(),
    {
        match self {
            EnumVariant::Unit(name, literal) => !same_text(name.as_str(), literal.as_str()),
            EnumVariant::Tuple(_, _) => false,
        }
    }

    /// Writes the variant as text.
    pub fn render(&self) -> (r: String)
        ensures
            r@ == self@.rendered(),
    {
        let mut out = String::new();
        match self {
            EnumVariant::Unit(name, literal) => {
                if !same_text(name.as_str(), literal.as_str()) {
                    push_text(&mut out, "  #[serde(rename=\"");
                    push_text(&mut out, literal.as_str());
                    push_text(&mut out, "\")]\n");
                }
                assert(out@ =~= if name@ != literal@ {
                    rename_line(literal@)
                } else {
                    Seq::empty()
                });
                push_text(&mut out, "  ");
                push_text(&mut out, name.as_str());
                push_text(&mut out, ",\n");
            },
            EnumVariant::Tuple(name, wrapped) => {
                push_text(&mut out, "  ");
                push_text(&mut out, name.as_str());
                push_text(&mut out, "(");
                push_text(&mut out, wrapped.as_str());
                push_text(&mut out, "),\n");
                assert(out@ =~= self@.rendered());
            },
        }
        out
    }
}

impl Enum {
    /// Writes the enum as text.
    pub fn render(&self) -> (r: String)
        ensures
            r@ == self@.rendered(),
    {
        let mut out = String::from_str("pub enum ");
        push_text(&mut out, self.name.as_str());
        push_text(&mut out, " {\n");
        let ghost head = out@;
        let ghost variants = variants_view(self.variants@);
        let mut i: usize = 0;
        assert(out@ =~= head + rendered_variants(variants, 0));
        while i < self.variants.len()
            invariant
                i <= self.variants.len(),
                variants == variants_view(self.variants@),
                out@ == head + rendered_variants(variants, i as nat),
            decreases self.variants.len() - i,
        {
            push_text(&mut out, self.variants[i].render().as_str());
            i = i + 1;
            assert(out@ =~= head + rendered_variants(variants, i as nat));
        }
        push_text(&mut out, "}\n");
        out
    }
}

impl Struct {
    /// Writes the struct as text.
    pub fn render(&self) -> (r: String)
        ensures
            r@ == self@.rendered(),
    {
        let mut out = String::new();
        if !self.additional_fields {
            push_text(&mut out, "#[serde(deny_unknown_fields)]\n");
        }
        push_text(&mut out, "pub struct ");
        push_text(&mut out, self.name.as_str());
        push_text(&mut out, " {\n");
        let ghost head = out@;
        let ghost fields = fields_view(self.fields@);
        let mut i: usize = 0;
        assert(out@ =~= head + rendered_fields(fields, 0));
        while i < self.fields.len()
            invariant
                i <= self.fields.len(),
                fields == fields_view(self.fields@),
                out@ == head + rendered_fields(fields, i as nat),
            decreases self.fields.len() - i,
        {
            push_text(&mut out, self.fields[i].render().as_str());
            i = i + 1;
            assert(out@ =~= head + rendered_fields(fields, i as nat));
        }
        push_text(&mut out, "}\n");
        out
    }
}

impl RustItem {
    /// Writes the declaration as text.
    pub fn render(&self) -> (r: String)
        ensures
            r@ == self@.rendered(),
    {
        match self {
            RustItem::DocComment(text) => join(join("/// ", text.as_str()).as_str(), "\n"),
            RustItem::DeriveCommon => String::from_str("#[derive(Debug, serde::Deserialize)]"),
            RustItem::DeriveNoSerde => String::from_str("#[derive(Debug)]"),
            RustItem::SerdeUntagged => String::from_str("#[serde(untagged)]"),
            RustItem::TypeAlias(name, source) => {
                let mut out = String::from_str("pub type ");
                push_text(&mut out, name.as_str());
                push_text(&mut out, " = ");
                push_text(&mut out, source.as_str());
                push_text(&mut out, ";");
                out
            },
            RustItem::Enum(decl) => decl.render(),
            RustItem::TupleStruct(name, wrapped) => {
                let mut out = String::from_str("pub struct ");
                push_text(&mut out, name.as_str());
                push_text(&mut out, " (");
                push_text(&mut out, wrapped.as_str());
                push_text(&mut out, ");");
                out
            },
            RustItem::UnitStruct(name) => join(join("pub struct ", name.as_str()).as_str(), ";"),
            RustItem::Struct(decl) => decl.render(),
            RustItem::StringValidator(name, config) => {
                let mut out = String::from_str("String ");
                push_text(&mut out, name.as_str());
                push_text(&mut out, " ");
                push_text(&mut out, config.describe().as_str());
                out
            },
            RustItem::NumericValidator(name, config) => {
                let mut out = String::from_str("Numeric ");
                push_text(&mut out, name.as_str());
                push_text(&mut out, " ");
                push_text(&mut out, config.describe().as_str());
                out
            },
        }
    }
}

} // verus!

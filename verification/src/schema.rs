//! The schema model: one node for every subschema of a document.

use vstd::prelude::*;
use crate::text::same_text;

verus! {

/// A literal of an `enum` keyword.
#[derive(Debug, Clone, PartialEq, Eq)]
pub enum Literal {
    /// A string.
    Text(String),
    /// A number, as the document writes it.
    Number(String),
    /// The null literal.
    Null,
    /// Any other value, as JSON text: a boolean, an array or an object.
    Other(String),
}

/// What `additionalProperties` says of the properties that are not listed.
#[derive(Debug, PartialEq, Eq)]
pub enum AdditionalProperties {
    /// Whether they are permitted at all.
    Boolean(bool),
    /// The schema that they must meet.
    Schema(Box<Schema>),
}

/// A schema under its name: a definition, or a property of an object.
#[derive(Debug, PartialEq, Eq)]
pub struct NamedSchema {
    pub name: String,
    pub schema: Schema,
}

/// The properties that a property asks for when it is present.
#[derive(Debug, Clone, PartialEq, Eq)]
pub struct DependentRequired {
    pub name: String,
    pub required: Vec<String>,
}

/// One subschema of a document.
///
/// Mappings are kept as lists in the order of the document. Numbers with a
/// fraction are kept as binary64 bit patterns, and free-form values as their
/// JSON text: the engine carries them and never looks inside one.
#[derive(Debug, PartialEq, Eq)]
pub struct Schema {
    pub id: Option<String>,
    /// `$ref`: a pointer to another node of the same document.
    pub reference: Option<String>,
    pub schema_uri: Option<String>,
    pub description: Option<String>,
    pub title: Option<String>,
    /// The reusable nodes of the document, by name.
    pub definitions: Vec<NamedSchema>,
    pub additional_properties: Option<AdditionalProperties>,
    /// The fields of an object, by name.
    pub properties: Vec<NamedSchema>,
    pub all_of: Vec<Schema>,
    /// The alternatives of an untagged union.
    pub any_of: Vec<Schema>,
    pub one_of: Vec<Schema>,
    /// The element type of an array.
    pub items: Option<Box<Schema>>,
    /// `enum`: the literals that an instance may be.
    pub enums: Vec<Literal>,
    /// `type`: the primitive kinds that an instance may have.
    pub instance_type: Vec<String>,
    /// The names of the properties that must be present.
    pub required: Vec<String>,
    pub multiple_of: Option<u64>,
    pub maximum: Option<u64>,
    pub exclusive_maximum: Option<u64>,
    pub minimum: Option<u64>,
    pub exclusive_minimum: Option<u64>,
    pub max_length: Option<u32>,
    pub min_length: Option<u32>,
    pub pattern: Option<String>,
    pub max_items: Option<u32>,
    pub min_items: Option<u32>,
    pub unique_items: Option<bool>,
    /// `const`, as JSON text.
    pub constant: Option<String>,
    pub max_properties: Option<u32>,
    pub min_properties: Option<u32>,
    pub dependent_required: Vec<DependentRequired>,
    pub format: Option<String>,
    /// `default`, as JSON text.
    pub default: Option<String>,
    pub not: Option<Box<Schema>>,
    pub pattern_properties: Vec<NamedSchema>,
}

/// Whether no name occurs twice in a list of named schemas.
pub open spec fn distinct_names(entries: Seq<NamedSchema>) -> bool {
    forall|i: int, j: int|
        0 <= i < entries.len() && 0 <= j < entries.len() && i != j ==> entries[i].name@
            != entries[j].name@
}

/// The place of the first entry of a name, or the length of the list.
pub open spec fn position_of(entries: Seq<NamedSchema>, name: Seq<char>) -> int
    decreases entries.len(),
{
    if entries.len() == 0 {
        0
    } else if entries[0].name@ == name {
        0
    } else {
        1 + position_of(entries.skip(1), name)
    }
}

/// The first entry of the name is at `position_of`, which is the length of
/// the list where the name does not occur.
pub proof fn lemma_position_of(entries: Seq<NamedSchema>, name: Seq<char>)
    ensures
        0 <= position_of(entries, name) <= entries.len(),
        position_of(entries, name) < entries.len() ==> entries[position_of(entries, name)].name@
            == name,
        forall|i: int| 0 <= i < position_of(entries, name) ==> entries[i].name@ != name,
    decreases entries.len(),
{
    if entries.len() > 0 && entries[0].name@ != name {
        let rest = entries.skip(1);
        lemma_position_of(rest, name);
        assert forall|i: int| 0 <= i < position_of(entries, name) implies entries[i].name@
            != name by {
            if i > 0 {
                assert(entries[i] == rest[i - 1]);
            }
        }
    }
}

impl Schema {
    /// Whether the node says nothing: every list is empty and every other
    /// keyword is absent.
    pub open spec fn is_blank(&self) -> bool {
        &&& self.id is None
        &&& self.reference is None
        &&& self.schema_uri is None
        &&& self.description is None
        &&& self.title is None
        &&& self.definitions@.len() == 0
        &&& self.additional_properties is None
        &&& self.properties@.len() == 0
        &&& self.all_of@.len() == 0
        &&& self.any_of@.len() == 0
        &&& self.one_of@.len() == 0
        &&& self.items is None
        &&& self.enums@.len() == 0
        &&& self.instance_type@.len() == 0
        &&& self.required@.len() == 0
        &&& self.multiple_of is None
        &&& self.maximum is None
        &&& self.exclusive_maximum is None
        &&& self.minimum is None
        &&& self.exclusive_minimum is None
        &&& self.max_length is None
        &&& self.min_length is None
        &&& self.pattern is None
        &&& self.max_items is None
        &&& self.min_items is None
        &&& self.unique_items is None
        &&& self.constant is None
        &&& self.max_properties is None
        &&& self.min_properties is None
        &&& self.dependent_required@.len() == 0
        &&& self.format is None
        &&& self.default is None
        &&& self.not is None
        &&& self.pattern_properties@.len() == 0
    }

    /// The node that says nothing.
    pub fn new() -> (r: Schema)
        ensures
            r.is_blank(),
    {
        Schema {
            id: None,
            reference: None,
            schema_uri: None,
            description: None,
            title: None,
            definitions: Vec::new(),
            additional_properties: None,
            properties: Vec::new(),
            all_of: Vec::new(),
            any_of: Vec::new(),
            one_of: Vec::new(),
            items: None,
            enums: Vec::new(),
            instance_type: Vec::new(),
            required: Vec::new(),
            multiple_of: None,
            maximum: None,
            exclusive_maximum: None,
            minimum: None,
            exclusive_minimum: None,
            max_length: None,
            min_length: None,
            pattern: None,
            max_items: None,
            min_items: None,
            unique_items: None,
            constant: None,
            max_properties: None,
            min_properties: None,
            dependent_required: Vec::new(),
            format: None,
            default: None,
            not: None,
            pattern_properties: Vec::new(),
        }
    }
}

impl Default for Schema {
    /// The node that says nothing.
    fn default() -> (r: Self)
        ensures
            r.is_blank(),
    {
        Schema::new()
    }
}

/// Puts a schema under a name, as a mapping does: where the name is there
/// already, the first entry of it keeps its place and gets the new schema;
/// where it is not, the entry goes to the end.
pub fn set_named(entries: &mut Vec<NamedSchema>, name: String, schema: Schema)
    ensures
        position_of(old(entries)@, name@) < old(entries)@.len() ==> final(entries)@ == old(
            entries,
        )@.update(position_of(old(entries)@, name@), NamedSchema { name, schema }),
        position_of(old(entries)@, name@) == old(entries)@.len() ==> final(entries)@ == old(
            entries,
        )@.push(NamedSchema { name, schema }),
        distinct_names(old(entries)@) ==> distinct_names(final(entries)@),
{
    proof {
        lemma_position_of(entries@, name@);
    }
    let mut i: usize = 0;
    while i < entries.len()
        invariant
            i <= entries.len(),
            entries@ == old(entries)@,
            forall|j: int| 0 <= j < i ==> entries@[j].name@ != name@,
        decreases entries.len() - i,
    {
        if same_text(entries[i].name.as_str(), name.as_str()) {
            proof {
                lemma_position_of(entries@, name@);
            }
            entries[i] = NamedSchema { name, schema };
            return ;
        }
        i = i + 1;
    }
    proof {
        lemma_position_of(entries@, name@);
    }
    entries.push(NamedSchema { name, schema });
}

} // verus!

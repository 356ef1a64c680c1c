//! Synthesis of nominal type declarations from a JSON-Schema document.
//!
//! A schema document is held as a tree of [`Schema`] nodes. [`genimpl`] walks
//! the top-level definitions of a document and yields the declarations that
//! stand for them, together with a diagnostic for every construct it had to
//! degrade. Every function is stated over the character sequences that the
//! strings hold and proved against that statement.

pub mod case;
pub mod generator;
pub mod ir;
pub mod numeric_validator;
pub mod render;
pub mod sanitize;
pub mod schema;
pub mod string_validator;
pub mod text;

pub use generator::descend;
pub use generator::genimpl;
pub use generator::is_boxed;
pub use generator::Synthesis;
pub use numeric_validator::NumericValidatorConfig;
pub use sanitize::sanitize;
pub use schema::AdditionalProperties;
pub use schema::Schema;
pub use string_validator::StringValidatorConfig;

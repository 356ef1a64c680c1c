//! Case conventions for names, as the `heck` crate defines them.

use vstd::prelude::*;

verus! {

/// The camel-case form of a text: what `heck::CamelCase::to_camel_case`
/// returns for it. Words are capitalised and joined without a separator.
pub uninterp spec fn camel_case(s: Seq<char>) -> Seq<char>;

/// The snake-case form of a text: what `heck::SnakeCase::to_snake_case`
/// returns for it. Words are put in lower case and joined by underscores.
pub uninterp spec fn snake_case(s: Seq<char>) -> Seq<char>;

/// `heck::CamelCase::to_camel_case` on a `str`. The conversion reads nothing
/// but the text, so the result is the camel-case form of the text.
#[verifier::external_body]
pub(crate) fn to_camel_case(s: &str) -> (r: String)
    ensures
        r@ == camel_case(s@),
{
    heck::CamelCase::to_camel_case(s)
}

/// `heck::SnakeCase::to_snake_case` on a `str`. The conversion reads nothing
/// but the text, so the result is the snake-case form of the text.
#[verifier::external_body]
pub(crate) fn to_snake_case(s: &str) -> (r: String)
    ensures
        r@ == snake_case(s@),
{
    heck::SnakeCase::to_snake_case(s)
}

} // verus!

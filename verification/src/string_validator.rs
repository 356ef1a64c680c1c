//! Length bounds on a string value.

use vstd::prelude::*;
use vstd::utf8::encode_utf8;
use crate::text::bound_text;
use crate::text::push_bound;
use crate::text::push_text;

verus! {

/// The length bounds that a generated string wrapper checks when it is read.
/// A bound that is `None` does not constrain.
#[derive(Debug, Clone, Copy, PartialEq, Eq)]
pub struct StringValidatorConfig {
    pub min_length: Option<u32>,
    pub max_length: Option<u32>,
}

/// Which bound a string broke, with the bound and the length that broke it.
#[derive(Debug, Clone, Copy, PartialEq, Eq)]
pub enum LengthViolation {
    TooShort { min_length: u32, length: usize },
    TooLong { max_length: u32, length: usize },
}

/// The length of a text as the bounds count it: in bytes of its UTF-8 form.
pub open spec fn text_length(s: Seq<char>) -> nat {
    encode_utf8(s).len()
}

/// A length bound as a 64-bit bound.
pub open spec fn wide(bound: Option<u32>) -> Option<u64> {
    match bound {
        Some(n) => Some(n as u64),
        None => None,
    }
}

impl StringValidatorConfig {
    /// Whether a text of this length is within the bounds.
    pub open spec fn admits_length(&self, length: nat) -> bool {
        &&& self.min_length matches Some(min) ==> min <= length
        &&& self.max_length matches Some(max) ==> length <= max
    }

    /// Whether a text is within the bounds.
    pub open spec fn admits(&self, s: Seq<char>) -> bool {
        self.admits_length(text_length(s))
    }

    /// Whether `s` is acceptable: its length is at least `min_length` and at
    /// most `max_length`, as far as they are set.
    pub fn valid(&self, s: &str) -> (r: bool)
        ensures
            r == self.admits(s@),
    {
        let len = s.as_bytes().len();
        if let Some(min_length) = self.min_length {
            if (min_length as usize) > len {
                return false;
            }
        }
        if let Some(max_length) = self.max_length {
            if (max_length as usize) < len {
                return false;
            }
        }
        true
    }

    /// Checks `s` against the bounds and says which one it breaks, the lower
    /// bound first, with the length that broke it.
    pub fn check(&self, s: &str) -> (r: Result<(), LengthViolation>)
        ensures
            match r {
                Ok(_) => self.admits(s@),
                Err(LengthViolation::TooShort { min_length, length }) => {
                    &&& self.min_length == Some(min_length)
                    &&& length == text_length(s@)
                    &&& length < min_length
                },
                Err(LengthViolation::TooLong { max_length, length }) => {
                    &&& self.max_length == Some(max_length)
                    &&& length == text_length(s@)
                    &&& length > max_length
                    &&& self.min_length matches Some(min) ==> min <= length
                },
            },
    {
        let length = s.as_bytes().len();
        if let Some(min_length) = self.min_length {
            if (min_length as usize) > length {
                return Err(LengthViolation::TooShort { min_length, length });
            }
        }
        if let Some(max_length) = self.max_length {
            if (max_length as usize) < length {
                return Err(LengthViolation::TooLong { max_length, length });
            }
        }
        Ok(())
    }

    /// The bounds as a debug dump shows them.
    pub open spec fn described(&self) -> Seq<char> {
        "StringValidatorConfig { min_length: "@ + bound_text(wide(self.min_length))
            + ", max_length: "@ + bound_text(wide(self.max_length)) + " }"@
    }

    /// Writes the bounds as a debug dump shows them.
    pub fn describe(&self) -> (r: String)
        ensures
            r@ == self.described(),
    {
        let min_length = match self.min_length {
            Some(n) => Some(n as u64),
            None => None,
        };
        let max_length = match self.max_length {
            Some(n) => Some(n as u64),
            None => None,
        };
        let mut out = String::from_str("StringValidatorConfig { min_length: ");
        push_bound(&mut out, min_length);
        push_text(&mut out, ", max_length: ");
        push_bound(&mut out, max_length);
        push_text(&mut out, " }");
        out
    }
}

impl Default for StringValidatorConfig {
    /// No bound is set.
    fn default() -> (r: Self)
        ensures
            r.min_length is None,
            r.max_length is None,
    {
        Self { min_length: None, max_length: None }
    }
}

/// With no bound set, every text is acceptable.
pub proof fn lemma_unbounded_admits_all(config: StringValidatorConfig, s: Seq<char>)
    requires
        config.min_length is None,
        config.max_length is None,
    ensures
        config.admits(s),
{
}

} // verus!

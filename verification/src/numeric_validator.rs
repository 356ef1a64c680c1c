//! Numeric bounds on a number value.
//!
//! A number is a binary64 number, held as its bit pattern: one sign bit,
//! eleven bits of exponent, fifty-two bits of fraction. The order of two
//! numbers can be read off their bit patterns, which is all that a bound
//! needs.

use vstd::prelude::*;
use crate::text::bound_text;
use crate::text::push_bound;
use crate::text::push_text;

verus! {

/// The bit that holds the sign of a number.
pub const SIGN_BIT: u64 = 0x8000_0000_0000_0000;

/// The bit pattern of positive infinity: every bit of the exponent set, and
/// no bit of the fraction.
pub const INFINITY_BITS: u64 = 0x7ff0_0000_0000_0000;

/// The bits of a number without its sign.
pub open spec fn magnitude(bits: u64) -> int {
    if bits >= SIGN_BIT {
        bits - SIGN_BIT
    } else {
        bits as int
    }
}

/// Whether a bit pattern is not a number: beyond infinity in magnitude.
pub open spec fn is_nan(bits: u64) -> bool {
    magnitude(bits) > INFINITY_BITS
}

/// The place of a number in the order of all numbers. Numbers of one sign are
/// ordered as their magnitudes are, the negative ones in reverse, and the two
/// zeros share one place.
pub open spec fn rank(bits: u64) -> int {
    if bits >= SIGN_BIT {
        -magnitude(bits)
    } else {
        magnitude(bits)
    }
}

/// `a <= b`, as numbers. What is not a number compares with nothing.
pub open spec fn at_most(a: u64, b: u64) -> bool {
    !is_nan(a) && !is_nan(b) && rank(a) <= rank(b)
}

/// `a < b`, as numbers. What is not a number compares with nothing.
pub open spec fn below(a: u64, b: u64) -> bool {
    !is_nan(a) && !is_nan(b) && rank(a) < rank(b)
}

/// The numeric bounds that a generated number wrapper checks when it is read.
/// Each bound is held as its bit pattern. A bound that is `None` does not
/// constrain.
#[derive(Debug, Clone, Copy, PartialEq, Eq)]
pub struct NumericValidatorConfig {
    pub min: Option<u64>,
    pub exclusive_min: Option<u64>,
    pub max: Option<u64>,
    pub exclusive_max: Option<u64>,
}

/// Which bound a number broke, with the bound and the number that broke it,
/// both as bit patterns.
#[derive(Debug, Clone, Copy, PartialEq, Eq)]
pub enum BoundViolation {
    BelowMinimum { min: u64, value: u64 },
    NotAboveExclusiveMinimum { exclusive_min: u64, value: u64 },
    AboveMaximum { max: u64, value: u64 },
    NotBelowExclusiveMaximum { exclusive_max: u64, value: u64 },
}

fn is_number(bits: u64) -> (r: bool)
    ensures
        r == !is_nan(bits),
{
    let magnitude = if bits >= SIGN_BIT {
        bits - SIGN_BIT
    } else {
        bits
    };
    magnitude <= INFINITY_BITS
}

fn rank_of(bits: u64) -> (r: i64)
    ensures
        r == rank(bits),
{
    if bits >= SIGN_BIT {
        -((bits - SIGN_BIT) as i64)
    } else {
        bits as i64
    }
}

/// Whether `a <= b`, as numbers.
pub fn is_at_most(a: u64, b: u64) -> (r: bool)
    ensures
        r == at_most(a, b),
{
    is_number(a) && is_number(b) && rank_of(a) <= rank_of(b)
}

/// Whether `a < b`, as numbers.
pub fn is_below(a: u64, b: u64) -> (r: bool)
    ensures
        r == below(a, b),
{
    is_number(a) && is_number(b) && rank_of(a) < rank_of(b)
}

impl NumericValidatorConfig {
    /// Whether no bound is set.
    pub open spec fn is_unbounded(&self) -> bool {
        &&& self.min is None
        &&& self.exclusive_min is None
        &&& self.max is None
        &&& self.exclusive_max is None
    }

    /// Whether a number is within the bounds: at least `min`, above
    /// `exclusive_min`, at most `max` and below `exclusive_max`, as far as
    /// they are set.
    pub open spec fn admits(&self, n: u64) -> bool {
        &&& self.min matches Some(min) ==> at_most(min, n)
        &&& self.exclusive_min matches Some(exclusive_min) ==> below(exclusive_min, n)
        &&& self.max matches Some(max) ==> at_most(n, max)
        &&& self.exclusive_max matches Some(exclusive_max) ==> below(n, exclusive_max)
    }

    /// Whether the number with the bit pattern `n` is acceptable.
    pub fn valid(&self, n: u64) -> (r: bool)
        ensures
            r == self.admits(n),
    {
        if let Some(min) = self.min {
            if !is_at_most(min, n) {
                return false;
            }
        }
        if let Some(exclusive_min) = self.exclusive_min {
            if !is_below(exclusive_min, n) {
                return false;
            }
        }
        if let Some(max) = self.max {
            if !is_at_most(n, max) {
                return false;
            }
        }
        if let Some(exclusive_max) = self.exclusive_max {
            if !is_below(n, exclusive_max) {
                return false;
            }
        }
        true
    }

    /// Checks the number with the bit pattern `n` against the bounds and says
    /// which one it breaks: of several, the first in the order `min`,
    /// `exclusive_min`, `max`, `exclusive_max`.
    pub fn check(&self, n: u64) -> (r: Result<(), BoundViolation>)
        ensures
            match r {
                Ok(_) => self.admits(n),
                Err(BoundViolation::BelowMinimum { min, value }) => {
                    &&& value == n
                    &&& self.min == Some(min)
                    &&& !at_most(min, n)
                },
                Err(BoundViolation::NotAboveExclusiveMinimum { exclusive_min, value }) => {
                    &&& value == n
                    &&& self.exclusive_min == Some(exclusive_min)
                    &&& !below(exclusive_min, n)
                    &&& self.min matches Some(min) ==> at_most(min, n)
                },
                Err(BoundViolation::AboveMaximum { max, value }) => {
                    &&& value == n
                    &&& self.max == Some(max)
                    &&& !at_most(n, max)
                    &&& self.min matches Some(min) ==> at_most(min, n)
                    &&& self.exclusive_min matches Some(exclusive_min) ==> below(exclusive_min, n)
                },
                Err(BoundViolation::NotBelowExclusiveMaximum { exclusive_max, value }) => {
                    &&& value == n
                    &&& self.exclusive_max == Some(exclusive_max)
                    &&& !below(n, exclusive_max)
                    &&& self.min matches Some(min) ==> at_most(min, n)
                    &&& self.exclusive_min matches Some(exclusive_min) ==> below(exclusive_min, n)
                    &&& self.max matches Some(max) ==> at_most(n, max)
                },
            },
    {
        if let Some(min) = self.min {
            if !is_at_most(min, n) {
                return Err(BoundViolation::BelowMinimum { min, value: n });
            }
        }
        if let Some(exclusive_min) = self.exclusive_min {
            if !is_below(exclusive_min, n) {
                return Err(BoundViolation::NotAboveExclusiveMinimum { exclusive_min, value: n });
            }
        }
        if let Some(max) = self.max {
            if !is_at_most(n, max) {
                return Err(BoundViolation::AboveMaximum { max, value: n });
            }
        }
        if let Some(exclusive_max) = self.exclusive_max {
            if !is_below(n, exclusive_max) {
                return Err(BoundViolation::NotBelowExclusiveMaximum { exclusive_max, value: n });
            }
        }
        Ok(())
    }

    /// The bounds as a debug dump shows them, each as its bit pattern.
    pub open spec fn described(&self) -> Seq<char> {
        "NumericValidatorConfig { min: "@ + bound_text(self.min) + ", exclusive_min: "@
            + bound_text(self.exclusive_min) + ", max: "@ + bound_text(self.max)
            + ", exclusive_max: "@ + bound_text(self.exclusive_max) + " }"@
    }

    /// Writes the bounds as a debug dump shows them, each as its bit pattern.
    pub fn describe(&self) -> (r: String)
        ensures
            r@ == self.described(),
    {
        let mut out = String::from_str("NumericValidatorConfig { min: ");
        push_bound(&mut out, self.min);
        push_text(&mut out, ", exclusive_min: ");
        push_bound(&mut out, self.exclusive_min);
        push_text(&mut out, ", max: ");
        push_bound(&mut out, self.max);
        push_text(&mut out, ", exclusive_max: ");
        push_bound(&mut out, self.exclusive_max);
        push_text(&mut out, " }");
        out
    }
}

impl Default for NumericValidatorConfig {
    /// No bound is set.
    fn default() -> (r: Self)
        ensures
            r.is_unbounded(),
    {
        Self { min: None, exclusive_min: None, max: None, exclusive_max: None }
    }
}

/// With no bound set, every bit pattern is acceptable.
pub proof fn lemma_unbounded_admits_all(config: NumericValidatorConfig, n: u64)
    requires
        config.is_unbounded(),
    ensures
        config.admits(n),
{
}

/// The order of numbers is total on what is a number: of two numbers, one is
/// at most the other, and each is at most itself.
pub proof fn lemma_numbers_are_ordered(a: u64, b: u64)
    requires
        !is_nan(a),
        !is_nan(b),
    ensures
        at_most(a, b) || at_most(b, a),
        at_most(a, a),
        below(a, b) <==> !at_most(b, a),
{
}

/// The two zeros are one number: each is at most the other.
pub proof fn lemma_zeros_are_equal()
    ensures
        at_most(0, SIGN_BIT),
        at_most(SIGN_BIT, 0),
{
}

} // verus!

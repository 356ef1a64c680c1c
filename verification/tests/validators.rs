use zoinks::numeric_validator::is_at_most;
use zoinks::numeric_validator::is_below;
use zoinks::numeric_validator::BoundViolation;
use zoinks::string_validator::LengthViolation;
use zoinks::NumericValidatorConfig;
use zoinks::StringValidatorConfig;

#[test]
fn default_string_bounds_are_unset() {
    let config = StringValidatorConfig::default();
    assert_eq!(config.min_length, None);
    assert_eq!(config.max_length, None);
    assert!(config.valid(""));
    assert!(config.valid("anything at all"));
}

#[test]
fn string_bounds_are_inclusive() {
    let config = StringValidatorConfig { min_length: Some(2), max_length: Some(4) };
    assert!(!config.valid("a"));
    assert!(config.valid("ab"));
    assert!(config.valid("abcd"));
    assert!(!config.valid("abcde"));
}

#[test]
fn one_string_bound_alone() {
    let at_least = StringValidatorConfig { min_length: Some(1), max_length: None };
    assert!(!at_least.valid(""));
    assert!(at_least.valid("a very long text"));
    let at_most = StringValidatorConfig { min_length: None, max_length: Some(0) };
    assert!(at_most.valid(""));
    assert!(!at_most.valid("a"));
}

#[test]
fn string_length_is_counted_in_bytes() {
    let config = StringValidatorConfig { min_length: None, max_length: Some(1) };
    assert!(!config.valid("é"));
    let config = StringValidatorConfig { min_length: Some(2), max_length: Some(2) };
    assert!(config.valid("é"));
}

#[test]
fn check_names_the_broken_bound() {
    let config = StringValidatorConfig { min_length: Some(2), max_length: Some(4) };
    assert_eq!(config.check("abc"), Ok(()));
    assert_eq!(config.check("a"), Err(LengthViolation::TooShort { min_length: 2, length: 1 }));
    assert_eq!(config.check("abcde"), Err(LengthViolation::TooLong { max_length: 4, length: 5 }));
}

#[test]
fn check_reports_the_lower_bound_first() {
    let config = StringValidatorConfig { min_length: Some(5), max_length: Some(2) };
    assert_eq!(config.check("abc"), Err(LengthViolation::TooShort { min_length: 5, length: 3 }));
    assert_eq!(config.check("abcdef"), Err(LengthViolation::TooLong { max_length: 2, length: 6 }));
}

#[test]
fn check_agrees_with_valid() {
    let config = StringValidatorConfig { min_length: Some(1), max_length: Some(3) };
    for s in ["", "a", "abc", "abcd"] {
        assert_eq!(config.check(s).is_ok(), config.valid(s));
    }
}

#[test]
fn default_numeric_bounds_are_unset() {
    let config = NumericValidatorConfig::default();
    assert_eq!(config.min, None);
    assert_eq!(config.exclusive_min, None);
    assert_eq!(config.max, None);
    assert_eq!(config.exclusive_max, None);
}

#[test]
fn numeric_bounds_keep_their_bit_patterns() {
    let config = NumericValidatorConfig {
        min: Some(1.5f64.to_bits()),
        exclusive_min: None,
        max: Some(f64::INFINITY.to_bits()),
        exclusive_max: None,
    };
    assert_eq!(config.min.map(f64::from_bits), Some(1.5));
    assert_eq!(config.max.map(f64::from_bits), Some(f64::INFINITY));
}

fn samples() -> Vec<f64> {
    vec![
        f64::NEG_INFINITY,
        f64::MIN,
        -2.5,
        -1.0,
        -f64::MIN_POSITIVE,
        -f64::from_bits(1),
        -0.0,
        0.0,
        f64::from_bits(1),
        f64::MIN_POSITIVE,
        0.1,
        1.0,
        1.0 + f64::EPSILON,
        2.5,
        1e300,
        f64::MAX,
        f64::INFINITY,
        f64::NAN,
        -f64::NAN,
        f64::from_bits(0x7ff0_0000_0000_0001),
    ]
}

fn bounds(
    min: Option<f64>,
    exclusive_min: Option<f64>,
    max: Option<f64>,
    exclusive_max: Option<f64>,
) -> NumericValidatorConfig {
    NumericValidatorConfig {
        min: min.map(f64::to_bits),
        exclusive_min: exclusive_min.map(f64::to_bits),
        max: max.map(f64::to_bits),
        exclusive_max: exclusive_max.map(f64::to_bits),
    }
}

#[test]
fn order_of_bit_patterns_is_the_order_of_numbers() {
    for a in samples() {
        for b in samples() {
            assert_eq!(is_at_most(a.to_bits(), b.to_bits()), a <= b, "{} <= {}", a, b);
            assert_eq!(is_below(a.to_bits(), b.to_bits()), a < b, "{} < {}", a, b);
        }
    }
}

#[test]
fn numeric_bounds_agree_with_the_comparisons() {
    let settings = [None, Some(-1.0), Some(0.0), Some(-0.0), Some(2.5), Some(f64::NAN)];
    for min in settings {
        for max in settings {
            for v in samples() {
                let inclusive = bounds(min, None, max, None);
                let expected = min.map_or(true, |m| v >= m) && max.map_or(true, |m| v <= m);
                assert_eq!(inclusive.valid(v.to_bits()), expected);
                assert_eq!(inclusive.check(v.to_bits()).is_ok(), expected);
                let exclusive = bounds(None, min, None, max);
                let expected = min.map_or(true, |m| v > m) && max.map_or(true, |m| v < m);
                assert_eq!(exclusive.valid(v.to_bits()), expected);
                assert_eq!(exclusive.check(v.to_bits()).is_ok(), expected);
            }
        }
    }
}

#[test]
fn numeric_bounds_exact_values() {
    let config = bounds(Some(1.0), None, Some(2.0), None);
    assert!(config.valid(1.0f64.to_bits()));
    assert!(config.valid(2.0f64.to_bits()));
    assert!(!config.valid(0.999f64.to_bits()));
    assert!(!config.valid(2.001f64.to_bits()));
    let config = bounds(None, Some(1.0), None, Some(2.0));
    assert!(!config.valid(1.0f64.to_bits()));
    assert!(!config.valid(2.0f64.to_bits()));
    assert!(config.valid(1.5f64.to_bits()));
}

#[test]
fn unbounded_numbers_are_all_valid() {
    let config = NumericValidatorConfig::default();
    for v in samples() {
        assert!(config.valid(v.to_bits()));
        assert_eq!(config.check(v.to_bits()), Ok(()));
    }
}

#[test]
fn numeric_check_names_the_broken_bound() {
    let config = bounds(Some(0.0), Some(1.0), Some(10.0), Some(9.0));
    let bits = |v: f64| v.to_bits();
    assert_eq!(
        config.check(bits(-1.0)),
        Err(BoundViolation::BelowMinimum { min: bits(0.0), value: bits(-1.0) })
    );
    assert_eq!(
        config.check(bits(1.0)),
        Err(BoundViolation::NotAboveExclusiveMinimum { exclusive_min: bits(1.0), value: bits(1.0) })
    );
    assert_eq!(
        config.check(bits(11.0)),
        Err(BoundViolation::AboveMaximum { max: bits(10.0), value: bits(11.0) })
    );
    assert_eq!(
        config.check(bits(9.5)),
        Err(BoundViolation::NotBelowExclusiveMaximum { exclusive_max: bits(9.0), value: bits(9.5) })
    );
    assert_eq!(config.check(bits(5.0)), Ok(()));
}

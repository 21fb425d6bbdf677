use database_test::dto::{Condition, FloatValue, Value, ValueKind, Values, ColumnClause};
use database_test::text::{
    compare_i64, compare_str, compare_usize, contains_str, i64_to_text, join_strings,
    split_non_empty, split_text, text_equal, usize_to_text, Comparison,
};
use database_test::validate::{is_exists, is_n_workers, is_port, parse_unsigned};

fn strings(items: &[&str]) -> Vec<String> {
    items.iter().map(|s| s.to_string()).collect()
}

#[test]
fn decimal_text_of_numbers() {
    assert_eq!(usize_to_text(0), "0");
    assert_eq!(usize_to_text(7), "7");
    assert_eq!(usize_to_text(1234), "1234");
    assert_eq!(usize_to_text(usize::MAX), usize::MAX.to_string());
    assert_eq!(i64_to_text(-42), "-42");
    assert_eq!(i64_to_text(0), "0");
    assert_eq!(i64_to_text(i64::MIN), "-9223372036854775808");
    assert_eq!(i64_to_text(i64::MAX), "9223372036854775807");
}

#[test]
fn comparisons_of_numbers_and_texts() {
    assert_eq!(compare_i64(-1, 2), Comparison::Less);
    assert_eq!(compare_i64(5, 5), Comparison::Equal);
    assert_eq!(compare_usize(9, 3), Comparison::Greater);
    assert_eq!(compare_str("abc", "abd"), Comparison::Less);
    assert_eq!(compare_str("abc", "ab"), Comparison::Greater);
    assert_eq!(compare_str("", ""), Comparison::Equal);
    assert_eq!(compare_str("Z", "a"), Comparison::Less);
    assert_eq!(compare_str("é", "z"), Comparison::Greater);
    assert!(text_equal("same", "same"));
    assert!(!text_equal("same", "Same"));
}

#[test]
fn substring_search() {
    assert!(contains_str("users_suite", "users"));
    assert!(contains_str("users_suite", "suite"));
    assert!(contains_str("abc", ""));
    assert!(!contains_str("abc", "abcd"));
    assert!(!contains_str("orders", "users"));
}

#[test]
fn splitting_and_joining() {
    assert_eq!(split_text("a,,b", ','), strings(&["a", "", "b"]));
    assert_eq!(split_text("", ','), strings(&[""]));
    assert_eq!(split_text(",x", ','), strings(&["", "x"]));
    assert_eq!(split_non_empty("a,,b,", ','), strings(&["a", "b"]));
    assert_eq!(split_non_empty(",,", ','), Vec::<String>::new());
    assert_eq!(join_strings(&strings(&["1", "2", "3"]), ", "), "1, 2, 3");
    assert_eq!(join_strings(&strings(&["only"]), ", "), "only");
    assert_eq!(join_strings(&Vec::new(), ", "), "");
}

#[test]
fn condition_symbols() {
    let all = [
        Condition::Equal,
        Condition::NotEqual,
        Condition::Less,
        Condition::Greater,
        Condition::LessOrEqual,
        Condition::GreaterOrEqual,
    ];
    for c in all.iter() {
        assert_eq!(Condition::from_symbol(c.symbol()), Some(*c));
    }
    assert_eq!(Condition::from_symbol("=="), None);
    assert_eq!(Condition::from_symbol(""), None);
    assert_eq!(Condition::Equal.operator(), "==");
    assert_eq!(Condition::GreaterOrEqual.operator(), ">=");
}

#[test]
fn conditions_against_comparisons() {
    assert!(Condition::Equal.holds(Comparison::Equal));
    assert!(!Condition::Equal.holds(Comparison::Unordered));
    assert!(Condition::NotEqual.holds(Comparison::Unordered));
    assert!(!Condition::LessOrEqual.holds(Comparison::Unordered));
    assert!(!Condition::GreaterOrEqual.holds(Comparison::Unordered));
    assert!(Condition::LessOrEqual.holds(Comparison::Less));
    assert!(Condition::GreaterOrEqual.holds(Comparison::Equal));
    assert!(!Condition::Greater.holds(Comparison::Equal));
    // opposite conditions disagree on ordered pairs
    for order in [Comparison::Less, Comparison::Equal, Comparison::Greater].iter() {
        assert_ne!(Condition::Equal.holds(*order), Condition::NotEqual.holds(*order));
        assert_ne!(Condition::Less.holds(*order), Condition::GreaterOrEqual.holds(*order));
        assert_ne!(Condition::Greater.holds(*order), Condition::LessOrEqual.holds(*order));
    }
}

#[test]
fn value_kinds_and_requested_kinds() {
    let range_mixed = ColumnClause::Range {
        name: "a".to_string(),
        start: Value::Integer(1),
        end: Value::String("x".to_string()),
    };
    assert_eq!(range_mixed.requested_kind(), None);
    let range_float = ColumnClause::Range {
        name: "a".to_string(),
        start: Value::Float(FloatValue::new(1.5f64.to_bits(), "1.5".to_string())),
        end: Value::Float(FloatValue::new(2.5f64.to_bits(), "2.5".to_string())),
    };
    assert_eq!(range_float.requested_kind(), Some(ValueKind::Float));
    assert_eq!(range_float.reference_count(), 2);
    let any = ColumnClause::Any { name: "b".to_string(), any: Values::String(strings(&["x", "y", "z"])) };
    assert_eq!(any.requested_kind(), Some(ValueKind::String));
    assert_eq!(any.reference_count(), 3);
    assert_eq!(any.name(), "b");
}

#[test]
fn port_numbers() {
    assert_eq!(is_port("5432".to_string()), Ok(()));
    assert_eq!(is_port("0".to_string()), Ok(()));
    assert_eq!(is_port("65535".to_string()), Ok(()));
    assert_eq!(is_port("+80".to_string()), Ok(()));
    assert_eq!(is_port("007".to_string()), Ok(()));
    assert_eq!(
        is_port("65536".to_string()),
        Err("Port number must be in range 0 .. 65535, but 65536 given".to_string())
    );
    assert!(is_port("".to_string()).is_err());
    assert!(is_port("+".to_string()).is_err());
    assert!(is_port("-1".to_string()).is_err());
    assert!(is_port("12a".to_string()).is_err());
    assert!(is_port("99999999999999999999999".to_string()).is_err());
    // the check agrees with std's parsing
    for text in ["1", "+1", "65535", "65536", "", "+", "-0", " 1", "1 ", "00000000000000000080"].iter() {
        assert_eq!(is_port(text.to_string()).is_ok(), text.parse::<u16>().is_ok(), "{}", text);
    }
}

#[test]
fn numbers_of_workers() {
    assert_eq!(is_n_workers("4".to_string()), Ok(()));
    assert_eq!(is_n_workers("1".to_string()), Ok(()));
    assert_eq!(is_n_workers("100".to_string()), Ok(()));
    assert_eq!(
        is_n_workers("0".to_string()),
        Err("Number of workers must be in range 1 .. 100, but 0 given".to_string())
    );
    assert!(is_n_workers("101".to_string()).is_err());
    assert!(is_n_workers("256".to_string()).is_err());
    assert!(is_n_workers("four".to_string()).is_err());
}

#[test]
fn suite_paths_exist() {
    assert_eq!(is_exists("suite.yaml".to_string(), true), Ok(()));
    assert_eq!(
        is_exists("missing.yaml".to_string(), false),
        Err("Test suite missing.yaml must exists".to_string())
    );
}

#[test]
fn unsigned_numbers_with_bounds() {
    assert_eq!(parse_unsigned("255", 255), Some(255));
    assert_eq!(parse_unsigned("256", 255), None);
    assert_eq!(parse_unsigned("18446744073709551615", u64::MAX), Some(u64::MAX));
    assert_eq!(parse_unsigned("18446744073709551616", u64::MAX), None);
    assert_eq!(parse_unsigned("+0", 9), Some(0));
}

use database_test::dto::{
    ColumnClause, Condition, FloatValue, NRowsClause, QueryClause, TestCase, Value, Values,
};
use database_test::query::{
    assert_any, assert_column, assert_condition, assert_range, evaluate_case, evaluate_clause,
    join_values, make_query_result, ColumnValue, FloatReading, QueryResult,
};
use database_test::text::Comparison;

fn strings(items: &[&str]) -> Vec<String> {
    items.iter().map(|s| s.to_string()).collect()
}

fn compare(name: &str, condition: Condition, value: Value) -> ColumnClause {
    ColumnClause::Compare { name: name.to_string(), condition, value }
}

#[test]
fn query_results() {
    assert_eq!(QueryResult::success(), QueryResult::Success);
    assert_eq!(QueryResult::fail("no"), QueryResult::Fail { message: "no".to_string() });
    assert_eq!(QueryResult::error("down"), QueryResult::Error { message: "down".to_string() });
    assert!(QueryResult::success().is_success());
    assert!(!QueryResult::error("x").is_success());
    assert_eq!(make_query_result(true, "m".to_string()), QueryResult::Success);
    assert_eq!(make_query_result(false, "m".to_string()), QueryResult::fail("m"));
}

#[test]
fn condition_messages() {
    assert_eq!(
        assert_condition("Column 'id'", Condition::Less, Comparison::Greater, "7", "5"),
        QueryResult::fail("Column 'id' failed: 7 < 5")
    );
    assert_eq!(
        assert_condition("Column 'id'", Condition::Less, Comparison::Less, "3", "5"),
        QueryResult::success()
    );
    assert_eq!(
        assert_condition("x", Condition::NotEqual, Comparison::Equal, "a", "a"),
        QueryResult::fail("x failed: a != a")
    );
}

#[test]
fn range_and_any_messages() {
    assert_eq!(
        assert_range("age", Comparison::Less, Comparison::Less, "3", "5", "9"),
        QueryResult::fail("Column 'age' failed: 3 in [ 5 .. 9 ]")
    );
    assert_eq!(assert_range("age", Comparison::Equal, Comparison::Equal, "5", "5", "5"), QueryResult::success());
    assert_eq!(
        assert_any("c", &vec![Comparison::Less, Comparison::Greater], "b", &strings(&["a", "c"])),
        QueryResult::fail("Column 'c' failed: b any [ a, c ]")
    );
    assert_eq!(
        assert_any("c", &vec![Comparison::Less, Comparison::Equal], "c", &strings(&["a", "c"])),
        QueryResult::success()
    );
    assert_eq!(join_values(&strings(&["1", "2"]), "; "), "1; 2");
}

#[test]
fn integer_column_checks() {
    let clause = compare("id", Condition::GreaterOrEqual, Value::Integer(10));
    assert_eq!(assert_column(&clause, &ColumnValue::Integer(10)), QueryResult::success());
    assert_eq!(
        assert_column(&clause, &ColumnValue::Integer(-3)),
        QueryResult::fail("Column 'id' failed: -3 >= 10")
    );
    assert_eq!(
        assert_column(&clause, &ColumnValue::Missing),
        QueryResult::fail("Column id does not exists")
    );
    assert_eq!(
        assert_column(&clause, &ColumnValue::Unreadable("was NULL".to_string())),
        QueryResult::fail("Failed to get id value - was NULL")
    );
}

#[test]
fn text_column_checks() {
    let clause = compare("name", Condition::Equal, Value::String("bob".to_string()));
    assert_eq!(assert_column(&clause, &ColumnValue::String("bob".to_string())), QueryResult::success());
    assert_eq!(
        assert_column(&clause, &ColumnValue::String("alice".to_string())),
        QueryResult::fail("Column 'name' failed: alice == bob")
    );
    let any = ColumnClause::Any { name: "name".to_string(), any: Values::String(strings(&["x", "y"])) };
    assert_eq!(assert_column(&any, &ColumnValue::String("y".to_string())), QueryResult::success());
    assert_eq!(
        assert_column(&any, &ColumnValue::String("z".to_string())),
        QueryResult::fail("Column 'name' failed: z any [ x, y ]")
    );
}

#[test]
fn contains_column_checks() {
    let clause = ColumnClause::Contains { name: "title".to_string(), contains: "base".to_string() };
    assert_eq!(clause.requested_kind(), Some(database_test::dto::ValueKind::String));
    assert_eq!(assert_column(&clause, &ColumnValue::String("database".to_string())), QueryResult::success());
    assert_eq!(assert_column(&clause, &ColumnValue::String("base".to_string())), QueryResult::success());
    assert_eq!(
        assert_column(&clause, &ColumnValue::String("basket".to_string())),
        QueryResult::fail("Column 'title' failed: basket contains base")
    );
    assert_eq!(
        assert_column(&clause, &ColumnValue::Missing),
        QueryResult::fail("Column title does not exists")
    );
    let empty = ColumnClause::Contains { name: "title".to_string(), contains: String::new() };
    assert_eq!(assert_column(&empty, &ColumnValue::String(String::new())), QueryResult::success());
    let case = TestCase::new("c".to_string(), None, None, "SELECT".to_string(), None, vec![clause]);
    assert_eq!(
        evaluate_case(&case, &vec![
            vec![ColumnValue::String("bases".to_string())],
            vec![ColumnValue::String("none".to_string())],
        ]),
        QueryResult::fail("Column 'title' failed: none contains base")
    );
}

#[test]
fn range_column_checks() {
    let clause = ColumnClause::Range {
        name: "n".to_string(),
        start: Value::Integer(1),
        end: Value::Integer(5),
    };
    assert_eq!(assert_column(&clause, &ColumnValue::Integer(1)), QueryResult::success());
    assert_eq!(assert_column(&clause, &ColumnValue::Integer(5)), QueryResult::success());
    assert_eq!(
        assert_column(&clause, &ColumnValue::Integer(6)),
        QueryResult::fail("Column 'n' failed: 6 in [ 1 .. 5 ]")
    );
    let mixed = ColumnClause::Range {
        name: "n".to_string(),
        start: Value::Integer(1),
        end: Value::String("5".to_string()),
    };
    assert_eq!(
        assert_column(&mixed, &ColumnValue::Missing),
        QueryResult::fail("Parameters 'start' and 'end' have incompatible types")
    );
    let any = ColumnClause::Any { name: "n".to_string(), any: Values::Integer(vec![2, 4]) };
    assert_eq!(assert_column(&any, &ColumnValue::Integer(4)), QueryResult::success());
    assert_eq!(
        assert_column(&any, &ColumnValue::Integer(3)),
        QueryResult::fail("Column 'n' failed: 3 any [ 2, 4 ]")
    );
}

#[test]
fn float_column_checks() {
    let clause = compare("ratio", Condition::Less, Value::Float(FloatValue::new(0.5f64.to_bits(), "0.5".to_string())));
    let reading = |text: &str, order: Comparison| {
        ColumnValue::Float(FloatReading { text: text.to_string(), comparisons: vec![order] })
    };
    assert_eq!(assert_column(&clause, &reading("0.25", Comparison::Less)), QueryResult::success());
    assert_eq!(
        assert_column(&clause, &reading("NaN", Comparison::Unordered)),
        QueryResult::fail("Column 'ratio' failed: NaN < 0.5")
    );
}

fn case_with(n_rows: Option<NRowsClause>, columns: Vec<ColumnClause>) -> TestCase {
    TestCase::new("c".to_string(), None, None, "SELECT 1".to_string(), n_rows, columns)
}

#[test]
fn case_evaluation_order() {
    let columns = vec![
        compare("a", Condition::Equal, Value::Integer(1)),
        compare("b", Condition::Equal, Value::Integer(2)),
    ];
    let case = case_with(Some(NRowsClause::new(Condition::Equal, 2)), columns);
    let good = vec![ColumnValue::Integer(1), ColumnValue::Integer(2)];
    let bad_b = vec![ColumnValue::Integer(1), ColumnValue::Integer(9)];
    let bad_a = vec![ColumnValue::Integer(8), ColumnValue::Integer(2)];
    assert_eq!(evaluate_case(&case, &vec![good.clone(), good.clone()]), QueryResult::success());
    // the number of rows is checked first
    assert_eq!(
        evaluate_case(&case, &vec![bad_a.clone()]),
        QueryResult::fail("N rows failed: 1 == 2")
    );
    // then rows in order, columns in order
    assert_eq!(
        evaluate_case(&case, &vec![good.clone(), bad_b.clone()]),
        QueryResult::fail("Column 'b' failed: 9 == 2")
    );
    assert_eq!(
        evaluate_case(&case, &vec![bad_b, bad_a]),
        QueryResult::fail("Column 'b' failed: 9 == 2")
    );
    let no_rows_clause = case_with(None, vec![]);
    assert_eq!(evaluate_case(&no_rows_clause, &vec![vec![], vec![]]), QueryResult::success());
}

#[test]
fn clause_evaluation() {
    let clause = QueryClause::new("SELECT 1".to_string(), NRowsClause::new(Condition::Greater, 0));
    assert_eq!(evaluate_clause(&clause, 1), QueryResult::success());
    assert_eq!(evaluate_clause(&clause, 0), QueryResult::fail("N rows failed: 0 > 0"));
    assert_eq!(clause.query(), "SELECT 1");
    assert_eq!(clause.n_rows().value(), 0);
    assert_eq!(clause.n_rows().condition(), Condition::Greater);
}

use database_test::dto::{Condition, NRowsClause};
use database_test::query::{assert_n_rows, QueryResult};

fn n_rows_from_yaml(text: &str) -> NRowsClause {
    let value: serde_yaml::Value = serde_yaml::from_str(text).unwrap();
    let symbol = value["condition"].as_str().unwrap();
    let condition = Condition::from_symbol(symbol).unwrap();
    let expected = value["value"].as_u64().unwrap() as usize;
    NRowsClause::new(condition, expected)
}

#[test]
fn n_rows_success_if_actual_eq_expected() {
    let n_rows: NRowsClause = n_rows_from_yaml("{ condition : =, value : 3 }");
    let assert_2_rows = assert_n_rows(2, &n_rows);
    let assert_3_rows = assert_n_rows(3, &n_rows);
    let assert_4_rows = assert_n_rows(4, &n_rows);

    assert_eq!(QueryResult::fail("N rows failed: 2 == 3"), assert_2_rows);
    assert_eq!(QueryResult::success(), assert_3_rows);
    assert_eq!(QueryResult::fail("N rows failed: 4 == 3"), assert_4_rows);
}

#[test]
fn n_rows_success_if_actual_ne_expected() {
    let n_rows: NRowsClause = n_rows_from_yaml("{ condition : '!=', value : 3 }");
    let assert_2_rows = assert_n_rows(2, &n_rows);
    let assert_3_rows = assert_n_rows(3, &n_rows);
    let assert_4_rows = assert_n_rows(4, &n_rows);

    assert_eq!(QueryResult::success(), assert_2_rows);
    assert_eq!(QueryResult::fail("N rows failed: 3 != 3"), assert_3_rows);
    assert_eq!(QueryResult::success(), assert_4_rows);
}

#[test]
fn n_rows_success_if_actual_lt_expected() {
    let n_rows: NRowsClause = n_rows_from_yaml("{ condition : <, value : 3 }");
    let assert_2_rows = assert_n_rows(2, &n_rows);
    let assert_3_rows = assert_n_rows(3, &n_rows);
    let assert_4_rows = assert_n_rows(4, &n_rows);

    assert_eq!(QueryResult::success(), assert_2_rows);
    assert_eq!(QueryResult::fail("N rows failed: 3 < 3"), assert_3_rows);
    assert_eq!(QueryResult::fail("N rows failed: 4 < 3"), assert_4_rows);
}

#[test]
fn n_rows_success_if_actual_gt_expected() {
    let n_rows: NRowsClause = n_rows_from_yaml("{ condition : >, value : 3 }");
    let assert_2_rows = assert_n_rows(2, &n_rows);
    let assert_3_rows = assert_n_rows(3, &n_rows);
    let assert_4_rows = assert_n_rows(4, &n_rows);

    assert_eq!(QueryResult::fail("N rows failed: 2 > 3"), assert_2_rows);
    assert_eq!(QueryResult::fail("N rows failed: 3 > 3"), assert_3_rows);
    assert_eq!(QueryResult::success(), assert_4_rows);
}

#[test]
fn n_rows_success_if_actual_le_expected() {
    let n_rows: NRowsClause = n_rows_from_yaml("{ condition : <=, value : 3 }");
    let assert_2_rows = assert_n_rows(2, &n_rows);
    let assert_3_rows = assert_n_rows(3, &n_rows);
    let assert_4_rows = assert_n_rows(4, &n_rows);

    assert_eq!(QueryResult::success(), assert_2_rows);
    assert_eq!(QueryResult::success(), assert_3_rows);
    assert_eq!(QueryResult::fail("N rows failed: 4 <= 3"), assert_4_rows);
}

#[test]
fn n_rows_success_if_actual_ge_expected() {
    let n_rows: NRowsClause = n_rows_from_yaml("{ condition : >=, value : 3 }");
    let assert_2_rows = assert_n_rows(2, &n_rows);
    let assert_3_rows = assert_n_rows(3, &n_rows);
    let assert_4_rows = assert_n_rows(4, &n_rows);

    assert_eq!(QueryResult::fail("N rows failed: 2 >= 3"), assert_2_rows);
    assert_eq!(QueryResult::success(), assert_3_rows);
    assert_eq!(QueryResult::success(), assert_4_rows);
}

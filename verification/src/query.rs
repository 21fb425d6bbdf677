//! Checking query results: the number of rows, and every column value of every row,
//! against what a test case expects.

use vstd::prelude::*;
use vstd::string::*;

use crate::dto::{
    column_name, condition_holds, condition_operator, reference_count, reference_value,
    requested_kind, ColumnClause, Condition, NRowsClause, QueryClause, TestCase, Value, ValueKind,
    Values,
};
use crate::dto::FloatValue;
use crate::text::{
    compare_i64, compare_ints, compare_str, compare_texts, compare_usize, contains_str, contains_text,
    decimal, i64_to_text, join_strings, join_texts, lemma_compare_texts_order, lemma_compare_texts_total,
    occurs_at, signed_decimal, text_less, texts_view, usize_to_text, Comparison,
};

verus! {

/// What checking a query gives, as a value of specifications.
pub enum Outcome {
    Success,
    Fail(Seq<char>),
    Error(Seq<char>),
}

/// The result of running one query: it passed, its result did not meet the
/// expectation, or the query itself could not be run.
#[derive(Debug, PartialEq, Eq)]
pub enum QueryResult {
    Success,
    Fail { message: String },
    Error { message: String },
}

impl View for QueryResult {
    type V = Outcome;

    open spec fn view(&self) -> Outcome {
        match self {
            QueryResult::Success => Outcome::Success,
            QueryResult::Fail { message } => Outcome::Fail(message@),
            QueryResult::Error { message } => Outcome::Error(message@),
        }
    }
}

impl QueryResult {
    pub fn success() -> (r: QueryResult)
        ensures
            r@ == Outcome::Success,
    {
        QueryResult::Success
    }

    pub fn fail(message: &str) -> (r: QueryResult)
        ensures
            r@ == Outcome::Fail(message@),
    {
        QueryResult::Fail { message: message.to_owned() }
    }

    /// The result of a query that could not be run; `message` describes the error.
    pub fn error(message: &str) -> (r: QueryResult)
        ensures
            r@ == Outcome::Error(message@),
    {
        QueryResult::Error { message: message.to_owned() }
    }

    pub fn is_success(&self) -> (b: bool)
        ensures
            b == (self@ is Success),
    {
        match self {
            QueryResult::Success => true,
            _ => false,
        }
    }
}

/// Success when `holds`, otherwise a failure with `message`.
pub open spec fn checked(holds: bool, message: Seq<char>) -> Outcome {
    if holds {
        Outcome::Success
    } else {
        Outcome::Fail(message)
    }
}

/// "TEXT failed: ACTUAL OP EXPECTED".
pub open spec fn condition_message(
    text: Seq<char>,
    condition: Condition,
    actual: Seq<char>,
    expected: Seq<char>,
) -> Seq<char> {
    text + " failed: "@ + actual + " "@ + condition_operator(condition) + " "@ + expected
}

/// How a column is named in the message of a failed comparison.
pub open spec fn column_label(name: Seq<char>) -> Seq<char> {
    "Column '"@ + name + "'"@
}

/// "Column 'NAME' failed: ACTUAL in [ START .. END ]".
pub open spec fn range_message(
    name: Seq<char>,
    actual: Seq<char>,
    start: Seq<char>,
    end: Seq<char>,
) -> Seq<char> {
    "Column '"@ + name + "' failed: "@ + actual + " in [ "@ + start + " .. "@ + end + " ]"@
}

/// "Column 'NAME' failed: ACTUAL any [ V1, V2, ... ]".
pub open spec fn any_message(name: Seq<char>, actual: Seq<char>, list: Seq<char>) -> Seq<char> {
    "Column '"@ + name + "' failed: "@ + actual + " any [ "@ + list + " ]"@
}

/// "Column 'NAME' failed: ACTUAL contains TERM".
pub open spec fn contains_message(name: Seq<char>, actual: Seq<char>, term: Seq<char>) -> Seq<char> {
    "Column '"@ + name + "' failed: "@ + actual + " contains "@ + term
}

pub open spec fn missing_message(name: Seq<char>) -> Seq<char> {
    "Column "@ + name + " does not exists"@
}

pub open spec fn unreadable_message(name: Seq<char>, error: Seq<char>) -> Seq<char> {
    "Failed to get "@ + name + " value - "@ + error
}

pub open spec fn incompatible_message() -> Seq<char> {
    "Parameters 'start' and 'end' have incompatible types"@
}

/// The actual value is at least the reference value.
pub open spec fn at_least(order: Comparison) -> bool {
    order == Comparison::Greater || order == Comparison::Equal
}

/// The actual value is at most the reference value.
pub open spec fn at_most(order: Comparison) -> bool {
    order == Comparison::Less || order == Comparison::Equal
}

/// Some comparison found the actual value equal to a reference value.
pub open spec fn any_equal(orders: Seq<Comparison>) -> bool {
    exists|i: int| 0 <= i < orders.len() && orders[i] == Comparison::Equal
}

/// The outcome of checking the number of rows a query returned.
pub open spec fn n_rows_outcome(actual_rows: nat, n_rows: NRowsClause) -> Outcome {
    checked(
        condition_holds(n_rows.condition, compare_ints(actual_rows as int, n_rows.value as int)),
        condition_message(
            "N rows"@,
            n_rows.condition,
            decimal(actual_rows),
            decimal(n_rows.value as nat),
        ),
    )
}

/// Success when `condition` holds, otherwise a failure with `message`.
pub fn make_query_result(condition: bool, message: String) -> (r: QueryResult)
    ensures
        r@ == checked(condition, message@),
{
    if condition {
        QueryResult::Success
    } else {
        QueryResult::Fail { message }
    }
}

/// Checks `actual OP expected`, where `comparison` tells how `actual` compares with
/// `expected`, and `actual` and `expected` are the texts that show the two values.
pub fn assert_condition(
    text: &str,
    condition: Condition,
    comparison: Comparison,
    actual: &str,
    expected: &str,
) -> (r: QueryResult)
    ensures
        r@ == checked(
            condition_holds(condition, comparison),
            condition_message(text@, condition, actual@, expected@),
        ),
{
    let mut message = text.to_owned();
    message.append(" failed: ");
    message.append(actual);
    message.append(" ");
    message.append(condition.operator());
    message.append(" ");
    message.append(expected);
    make_query_result(condition.holds(comparison), message)
}

/// Checks the number of rows a query returned.
pub fn assert_n_rows(actual_rows: usize, n_rows: &NRowsClause) -> (r: QueryResult)
    ensures
        r@ == n_rows_outcome(actual_rows as nat, *n_rows),
{
    let condition = n_rows.condition();
    let expected_rows = n_rows.value();
    let actual_text = usize_to_text(actual_rows);
    let expected_text = usize_to_text(expected_rows);
    assert_condition(
        "N rows",
        condition,
        compare_usize(actual_rows, expected_rows),
        actual_text.as_str(),
        expected_text.as_str(),
    )
}

/// Checks that a value lies between `start` and `end`, both included; `to_start` and
/// `to_end` tell how the value compares with each bound.
pub fn assert_range(
    name: &str,
    to_start: Comparison,
    to_end: Comparison,
    actual: &str,
    start: &str,
    end: &str,
) -> (r: QueryResult)
    ensures
        r@ == checked(at_least(to_start) && at_most(to_end), range_message(name@, actual@, start@, end@)),
{
    let mut message = "Column '".to_owned();
    message.append(name);
    message.append("' failed: ");
    message.append(actual);
    message.append(" in [ ");
    message.append(start);
    message.append(" .. ");
    message.append(end);
    message.append(" ]");
    let above = match to_start {
        Comparison::Greater => true,
        Comparison::Equal => true,
        _ => false,
    };
    let below = match to_end {
        Comparison::Less => true,
        Comparison::Equal => true,
        _ => false,
    };
    make_query_result(above && below, message)
}

/// Joins the texts of values with `separator` between neighbours.
pub fn join_values(values: &Vec<String>, separator: &str) -> (r: String)
    ensures
        r@ == join_texts(texts_view(values@), separator@),
{
    join_strings(values, separator)
}

/// Checks that a value equals one of a list of values; `comparisons[i]` tells how the
/// value compares with the `i`-th, whose text is `values[i]`.
pub fn assert_any(
    name: &str,
    comparisons: &Vec<Comparison>,
    actual: &str,
    values: &Vec<String>,
) -> (r: QueryResult)
    ensures
        r@ == checked(
            any_equal(comparisons@),
            any_message(name@, actual@, join_texts(texts_view(values@), ", "@)),
        ),
{
    let mut found = false;
    let mut i: usize = 0;
    while i < comparisons.len()
        invariant
            i <= comparisons.len(),
            found <==> exists|k: int| 0 <= k < i && comparisons@[k] == Comparison::Equal,
        decreases comparisons.len() - i,
    {
        match comparisons[i] {
            Comparison::Equal => {
                found = true;
            },
            _ => {},
        }
        i = i + 1;
    }
    let mut message = "Column '".to_owned();
    message.append(name);
    message.append("' failed: ");
    message.append(actual);
    message.append(" any [ ");
    let list = join_values(values, ", ");
    message.append(list.as_str());
    message.append(" ]");
    make_query_result(found, message)
}

/// What a row holds under a column name, read at the type that the clause asks for.
#[derive(Debug, Clone)]
pub struct FloatReading {
    /// How `{}` prints the value.
    pub text: String,
    /// How the value compares with each expected value of the clause, in order.
    pub comparisons: Vec<Comparison>,
}

/// The value of one column of one row, as read for a column clause.
#[derive(Debug, Clone)]
pub enum ColumnValue {
    /// The row has no column of that name.
    Missing,
    /// The column could not be read at the requested type; the text describes why.
    Unreadable(String),
    Integer(i64),
    Float(FloatReading),
    String(String),
}

/// The value was read at the type the clause asks for.
pub open spec fn fits(column: ColumnClause, value: ColumnValue) -> bool {
    match value {
        ColumnValue::Missing => true,
        ColumnValue::Unreadable(_) => true,
        ColumnValue::Integer(_) => requested_kind(column) == Some(ValueKind::Integer),
        ColumnValue::String(_) => requested_kind(column) == Some(ValueKind::String),
        ColumnValue::Float(r) => requested_kind(column) == Some(ValueKind::Float)
            && r.comparisons@.len() == reference_count(column),
    }
}

/// The text that shows an actual value.
pub open spec fn actual_text(value: ColumnValue) -> Seq<char> {
    match value {
        ColumnValue::Integer(a) => signed_decimal(a as int),
        ColumnValue::Float(r) => r.text@,
        ColumnValue::String(s) => s@,
        _ => Seq::<char>::empty(),
    }
}

/// The text that shows an expected value.
pub open spec fn reference_text(value: Value) -> Seq<char> {
    match value {
        Value::Integer(i) => signed_decimal(i as int),
        Value::Float(f) => f.text@,
        Value::String(s) => s@,
    }
}

/// How the actual value compares with the `i`-th expected value of the clause.
pub open spec fn comparison_at(column: ColumnClause, value: ColumnValue, i: int) -> Comparison {
    match value {
        ColumnValue::Integer(a) => match reference_value(column, i) {
            Value::Integer(r) => compare_ints(a as int, r as int),
            _ => Comparison::Unordered,
        },
        ColumnValue::String(a) => match reference_value(column, i) {
            Value::String(r) => compare_texts(a@, r@),
            _ => Comparison::Unordered,
        },
        ColumnValue::Float(r) => r.comparisons@[i],
        _ => Comparison::Unordered,
    }
}

pub open spec fn comparisons(column: ColumnClause, value: ColumnValue) -> Seq<Comparison> {
    Seq::new(reference_count(column), |i: int| comparison_at(column, value, i))
}

pub open spec fn reference_texts(column: ColumnClause) -> Seq<Seq<char>> {
    Seq::new(reference_count(column), |i: int| reference_text(reference_value(column, i)))
}

/// The outcome of checking one column value against one column clause.
pub open spec fn column_outcome(column: ColumnClause, value: ColumnValue) -> Outcome {
    let name = column_name(column);
    if requested_kind(column) is None {
        Outcome::Fail(incompatible_message())
    } else {
        match value {
            ColumnValue::Missing => Outcome::Fail(missing_message(name)),
            ColumnValue::Unreadable(e) => Outcome::Fail(unreadable_message(name, e@)),
            _ => match column {
                ColumnClause::Compare { condition, .. } => checked(
                    condition_holds(condition, comparison_at(column, value, 0)),
                    condition_message(
                        column_label(name),
                        condition,
                        actual_text(value),
                        reference_texts(column)[0],
                    ),
                ),
                ColumnClause::Range { .. } => checked(
                    at_least(comparison_at(column, value, 0)) && at_most(
                        comparison_at(column, value, 1),
                    ),
                    range_message(
                        name,
                        actual_text(value),
                        reference_texts(column)[0],
                        reference_texts(column)[1],
                    ),
                ),
                ColumnClause::Any { .. } => checked(
                    any_equal(comparisons(column, value)),
                    any_message(
                        name,
                        actual_text(value),
                        join_texts(reference_texts(column), ", "@),
                    ),
                ),
                ColumnClause::Contains { contains, .. } => checked(
                    contains_text(actual_text(value), contains@),
                    contains_message(name, actual_text(value), contains@),
                ),
            },
        }
    }
}

fn value_text(value: &Value) -> (s: String)
    ensures
        s@ == reference_text(*value),
{
    match value {
        Value::Integer(i) => i64_to_text(*i),
        Value::Float(f) => f.text.clone(),
        Value::String(s) => s.clone(),
    }
}

fn reference_text_at(column: &ColumnClause, i: usize) -> (s: String)
    requires
        i < reference_count(*column),
    ensures
        s@ == reference_text(reference_value(*column, i as int)),
{
    match column {
        ColumnClause::Compare { value, .. } => value_text(value),
        ColumnClause::Range { start, end, .. } => if i == 0 {
            value_text(start)
        } else {
            value_text(end)
        },
        ColumnClause::Any { any, .. } => match any {
            Values::Integer(l) => i64_to_text(l[i]),
            Values::Float(l) => l[i].text.clone(),
            Values::String(l) => l[i].clone(),
        },
        ColumnClause::Contains { contains, .. } => contains.clone(),
    }
}

fn compare_with_value(actual: &ColumnValue, reference: &Value) -> (c: Comparison)
    requires
        !(actual is Float),
    ensures
        c == match *actual {
            ColumnValue::Integer(a) => match *reference {
                Value::Integer(r) => compare_ints(a as int, r as int),
                _ => Comparison::Unordered,
            },
            ColumnValue::String(a) => match *reference {
                Value::String(r) => compare_texts(a@, r@),
                _ => Comparison::Unordered,
            },
            _ => Comparison::Unordered,
        },
{
    match actual {
        ColumnValue::Integer(a) => match reference {
            Value::Integer(r) => compare_i64(*a, *r),
            _ => Comparison::Unordered,
        },
        ColumnValue::String(a) => match reference {
            Value::String(r) => compare_str(a.as_str(), r.as_str()),
            _ => Comparison::Unordered,
        },
        _ => Comparison::Unordered,
    }
}

fn comparison_at_exec(column: &ColumnClause, value: &ColumnValue, i: usize) -> (c: Comparison)
    requires
        i < reference_count(*column),
        fits(*column, *value),
    ensures
        c == comparison_at(*column, *value, i as int),
{
    if let ColumnValue::Float(r) = value {
        return r.comparisons[i];
    }
    match column {
        ColumnClause::Compare { value: expected, .. } => compare_with_value(value, expected),
        ColumnClause::Range { start, end, .. } => if i == 0 {
            compare_with_value(value, start)
        } else {
            compare_with_value(value, end)
        },
        ColumnClause::Any { any, .. } => match any {
            Values::Integer(l) => {
                let v = Value::Integer(l[i]);
                compare_with_value(value, &v)
            },
            Values::Float(l) => {
                let v = Value::Float(l[i].duplicate());
                compare_with_value(value, &v)
            },
            Values::String(l) => match value {
                ColumnValue::String(a) => compare_str(a.as_str(), l[i].as_str()),
                _ => Comparison::Unordered,
            },
        },
        ColumnClause::Contains { contains, .. } => match value {
            ColumnValue::String(a) => compare_str(a.as_str(), contains.as_str()),
            _ => Comparison::Unordered,
        },
    }
}

/// Checks the value of one column of a row against a column clause.
/// `value` is what the row holds under the clause's column name, read at the type that
/// the clause asks for (see `ColumnClause::requested_kind`); when a range clause has
/// bounds of different types nothing is read, and `value` is not looked at.
pub fn assert_column(column: &ColumnClause, value: &ColumnValue) -> (r: QueryResult)
    requires
        requested_kind(*column) is Some ==> fits(*column, *value),
    ensures
        r@ == column_outcome(*column, *value),
{
    let name = column.name();
    if column.requested_kind().is_none() {
        return QueryResult::fail("Parameters 'start' and 'end' have incompatible types");
    }
    match value {
        ColumnValue::Missing => {
            let mut message = "Column ".to_owned();
            message.append(name.as_str());
            message.append(" does not exists");
            return QueryResult::Fail { message };
        },
        ColumnValue::Unreadable(e) => {
            let mut message = "Failed to get ".to_owned();
            message.append(name.as_str());
            message.append(" value - ");
            message.append(e.as_str());
            return QueryResult::Fail { message };
        },
        _ => {},
    }
    let actual = match value {
        ColumnValue::Integer(a) => i64_to_text(*a),
        ColumnValue::Float(r) => r.text.clone(),
        ColumnValue::String(s) => s.clone(),
        _ => String::new(),
    };
    let count = column.reference_count();
    let mut texts: Vec<String> = Vec::new();
    let mut orders: Vec<Comparison> = Vec::new();
    let mut i: usize = 0;
    while i < count
        invariant
            count == reference_count(*column),
            fits(*column, *value),
            i <= count,
            texts_view(texts@) =~= reference_texts(*column).take(i as int),
            orders@ =~= comparisons(*column, *value).take(i as int),
        decreases count - i,
    {
        let t = reference_text_at(column, i);
        let c = comparison_at_exec(column, value, i);
        let ghost before = texts@;
        texts.push(t);
        orders.push(c);
        assert(texts_view(texts@) =~= texts_view(before).push(t@));
        i = i + 1;
    }
    assert(texts_view(texts@) =~= reference_texts(*column));
    assert(orders@ =~= comparisons(*column, *value));
    match column {
        ColumnClause::Compare { condition, .. } => {
            let mut label = "Column '".to_owned();
            label.append(name.as_str());
            label.append("'");
            assert(texts@[0]@ == reference_texts(*column)[0]);
            assert(orders@[0] == comparison_at(*column, *value, 0));
            assert_condition(label.as_str(), *condition, orders[0], actual.as_str(), texts[0].as_str())
        },
        ColumnClause::Range { .. } => {
            assert(texts@[0]@ == reference_texts(*column)[0]);
            assert(texts@[1]@ == reference_texts(*column)[1]);
            assert(orders@[0] == comparison_at(*column, *value, 0));
            assert(orders@[1] == comparison_at(*column, *value, 1));
            assert_range(
                name.as_str(),
                orders[0],
                orders[1],
                actual.as_str(),
                texts[0].as_str(),
                texts[1].as_str(),
            )
        },
        ColumnClause::Any { .. } => assert_any(name.as_str(), &orders, actual.as_str(), &texts),
        ColumnClause::Contains { contains, .. } => {
            let mut message = "Column '".to_owned();
            message.append(name.as_str());
            message.append("' failed: ");
            message.append(actual.as_str());
            message.append(" contains ");
            message.append(contains.as_str());
            make_query_result(contains_str(actual.as_str(), contains.as_str()), message)
        },
    }
}

/// The first failing column of a row, in clause order; success when none fails.
pub open spec fn row_outcome(columns: Seq<ColumnClause>, row: Seq<ColumnValue>) -> Outcome
    decreases columns.len(),
{
    if columns.len() == 0 || row.len() == 0 {
        Outcome::Success
    } else {
        let first = column_outcome(columns[0], row[0]);
        if first is Success {
            row_outcome(columns.drop_first(), row.drop_first())
        } else {
            first
        }
    }
}

/// The first failing column of the rows, row by row; success when none fails.
pub open spec fn rows_outcome(columns: Seq<ColumnClause>, rows: Seq<Vec<ColumnValue>>) -> Outcome
    decreases rows.len(),
{
    if rows.len() == 0 {
        Outcome::Success
    } else {
        let first = row_outcome(columns, rows[0]@);
        if first is Success {
            rows_outcome(columns, rows.drop_first())
        } else {
            first
        }
    }
}

/// Every value of the rows was read as its column clause asks.
pub open spec fn rows_fit(columns: Seq<ColumnClause>, rows: Seq<Vec<ColumnValue>>) -> bool {
    forall|r: int, c: int|
        0 <= r < rows.len() && 0 <= c < columns.len() ==> {
            &&& rows[r]@.len() == columns.len()
            &&& (requested_kind(columns[c]) is Some ==> fits(columns[c], #[trigger] rows[r]@[c]))
        }
}

/// The outcome of a test case whose query returned `rows`, each row holding the values
/// read for the case's column clauses, in order: first the number of rows, then every
/// column of every row.
pub open spec fn case_outcome(case: TestCase, rows: Seq<Vec<ColumnValue>>) -> Outcome {
    let count = match case.n_rows {
        Some(n) => n_rows_outcome(rows.len(), n),
        None => Outcome::Success,
    };
    if !(count is Success) {
        count
    } else {
        rows_outcome(case.columns@, rows)
    }
}

proof fn lemma_row_outcome_step(columns: Seq<ColumnClause>, row: Seq<ColumnValue>, i: int)
    requires
        0 <= i < columns.len(),
        i < row.len(),
        column_outcome(columns[i], row[i]) is Success,
    ensures
        row_outcome(columns.skip(i), row.skip(i)) == row_outcome(columns.skip(i + 1), row.skip(i + 1)),
{
    assert(columns.skip(i).drop_first() =~= columns.skip(i + 1));
    assert(row.skip(i).drop_first() =~= row.skip(i + 1));
}

proof fn lemma_row_outcome_fail(columns: Seq<ColumnClause>, row: Seq<ColumnValue>, i: int)
    requires
        0 <= i < columns.len(),
        i < row.len(),
        !(column_outcome(columns[i], row[i]) is Success),
    ensures
        row_outcome(columns.skip(i), row.skip(i)) == column_outcome(columns[i], row[i]),
{
}

/// Checks one row: the first failing column, or success.
fn check_row(columns: &Vec<ColumnClause>, row: &Vec<ColumnValue>) -> (r: QueryResult)
    requires
        row@.len() == columns@.len(),
        forall|c: int|
            0 <= c < columns@.len() ==> (requested_kind(columns@[c]) is Some ==> fits(
                columns@[c],
                #[trigger] row@[c],
            )),
    ensures
        r@ == row_outcome(columns@, row@),
{
    let mut i: usize = 0;
    assert(columns@.skip(0) =~= columns@);
    assert(row@.skip(0) =~= row@);
    while i < columns.len()
        invariant
            row@.len() == columns@.len(),
            forall|c: int|
                0 <= c < columns@.len() ==> (requested_kind(columns@[c]) is Some ==> fits(
                    columns@[c],
                    #[trigger] row@[c],
                )),
            i <= columns.len(),
            row_outcome(columns@, row@) == row_outcome(columns@.skip(i as int), row@.skip(i as int)),
        decreases columns.len() - i,
    {
        let result = assert_column(&columns[i], &row[i]);
        if !result.is_success() {
            proof {
                lemma_row_outcome_fail(columns@, row@, i as int);
            }
            return result;
        }
        proof {
            lemma_row_outcome_step(columns@, row@, i as int);
        }
        i = i + 1;
    }
    proof {
        lemma_row_outcome_at_end(columns@, row@, i as int);
    }
    QueryResult::Success
}

proof fn lemma_row_outcome_at_end(columns: Seq<ColumnClause>, row: Seq<ColumnValue>, i: int)
    requires
        i == columns.len(),
    ensures
        row_outcome(columns.skip(i), row.skip(i)) == Outcome::Success,
{
}

/// Checks the result of a test case's query. `rows` holds, for each returned row,
/// the values read for the case's column clauses, in clause order.
pub fn evaluate_case(case: &TestCase, rows: &Vec<Vec<ColumnValue>>) -> (r: QueryResult)
    requires
        rows_fit(case.columns@, rows@),
    ensures
        r@ == case_outcome(*case, rows@),
{
    if let Some(n_rows) = case.n_rows() {
        let result = assert_n_rows(rows.len(), n_rows);
        if !result.is_success() {
            return result;
        }
    }
    let columns = case.columns();
    let mut i: usize = 0;
    assert(rows@.skip(0) =~= rows@);
    while i < rows.len()
        invariant
            rows_fit(columns@, rows@),
            i <= rows.len(),
            case_outcome(*case, rows@) == rows_outcome(columns@, rows@.skip(i as int)),
        decreases rows.len() - i,
    {
        proof {
            assert forall|c: int| 0 <= c < columns@.len() implies (requested_kind(columns@[c]) is Some
                ==> fits(columns@[c], #[trigger] rows@[i as int]@[c])) by {}
            if columns@.len() > 0 {
                assert(rows@[i as int]@.len() == columns@.len());
            }
        }
        let row = &rows[i];
        if row.len() == columns.len() {
            let result = check_row(columns, row);
            proof {
                assert(rows@.skip(i as int).drop_first() =~= rows@.skip(i + 1));
                assert(rows@.skip(i as int)[0] == rows@[i as int]);
            }
            if !result.is_success() {
                return result;
            }
        } else {
            proof {
                assert(columns@.len() == 0);
                assert(rows@.skip(i as int).drop_first() =~= rows@.skip(i + 1));
            }
        }
        i = i + 1;
    }
    assert(rows@.skip(rows.len() as int) =~= Seq::<Vec<ColumnValue>>::empty());
    QueryResult::Success
}

/// Checks the result of a skip clause's query, which returned `actual_rows` rows.
pub fn evaluate_clause(clause: &QueryClause, actual_rows: usize) -> (r: QueryResult)
    ensures
        r@ == n_rows_outcome(actual_rows as nat, clause.n_rows),
{
    assert_n_rows(actual_rows, clause.n_rows())
}

/// Whatever the number of rows, `=` and `!=` disagree on it, as do `<` and `>=`,
/// and `>` and `<=`.
pub proof fn lemma_n_rows_opposites(actual_rows: nat, expected: usize)
    ensures
        (n_rows_outcome(actual_rows, NRowsClause { condition: Condition::Equal, value: expected }) is Success)
            != (n_rows_outcome(actual_rows, NRowsClause { condition: Condition::NotEqual, value: expected }) is Success),
        (n_rows_outcome(actual_rows, NRowsClause { condition: Condition::Less, value: expected }) is Success)
            != (n_rows_outcome(actual_rows, NRowsClause { condition: Condition::GreaterOrEqual, value: expected }) is Success),
        (n_rows_outcome(actual_rows, NRowsClause { condition: Condition::Greater, value: expected }) is Success)
            != (n_rows_outcome(actual_rows, NRowsClause { condition: Condition::LessOrEqual, value: expected }) is Success),
{
}

/// The number of rows meets an expectation exactly when the usual comparison of the
/// two numbers holds; otherwise the check fails, and the message shows both numbers
/// and the operator.
pub proof fn lemma_n_rows_matches(actual_rows: nat, condition: Condition, expected: usize)
    ensures
        ({
            let outcome = n_rows_outcome(actual_rows, NRowsClause { condition, value: expected });
            &&& (outcome is Success) <==> match condition {
                Condition::Equal => actual_rows == expected,
                Condition::NotEqual => actual_rows != expected,
                Condition::Less => actual_rows < expected,
                Condition::Greater => actual_rows > expected,
                Condition::LessOrEqual => actual_rows <= expected,
                Condition::GreaterOrEqual => actual_rows >= expected,
            }
            &&& !(outcome is Success) ==> outcome == Outcome::Fail(
                "N rows"@ + " failed: "@ + decimal(actual_rows) + " "@ + condition_operator(condition) + " "@
                    + decimal(expected as nat),
            )
        }),
{
}

/// An integer column meets an `any` clause of integers exactly when it equals one of
/// the listed values.
pub proof fn lemma_any_integer_matches(name: String, list: Vec<i64>, actual: i64)
    ensures
        (column_outcome(ColumnClause::Any { name, any: Values::Integer(list) }, ColumnValue::Integer(actual)) is Success)
            <==> list@.contains(actual),
{
    let column = ColumnClause::Any { name, any: Values::Integer(list) };
    let value = ColumnValue::Integer(actual);
    let orders = comparisons(column, value);
    if list@.contains(actual) {
        let i = choose|i: int| 0 <= i < list@.len() && list@[i] == actual;
        assert(orders[i] == Comparison::Equal);
    }
    if any_equal(orders) {
        let i = choose|i: int| 0 <= i < orders.len() && orders[i] == Comparison::Equal;
        assert(list@[i] == actual);
    }
}

/// A text column meets an `any` clause of texts exactly when it equals one of the
/// listed texts.
pub proof fn lemma_any_text_matches(name: String, list: Vec<String>, actual: String)
    ensures
        (column_outcome(ColumnClause::Any { name, any: Values::String(list) }, ColumnValue::String(actual)) is Success)
            <==> exists|i: int| 0 <= i < list@.len() && list@[i]@ == actual@,
{
    let column = ColumnClause::Any { name, any: Values::String(list) };
    let value = ColumnValue::String(actual);
    let orders = comparisons(column, value);
    if exists|i: int| 0 <= i < list@.len() && list@[i]@ == actual@ {
        let i = choose|i: int| 0 <= i < list@.len() && list@[i]@ == actual@;
        lemma_compare_texts_total(actual@, list@[i]@);
        assert(orders[i] == Comparison::Equal);
    }
    if any_equal(orders) {
        let i = choose|i: int| 0 <= i < orders.len() && orders[i] == Comparison::Equal;
        lemma_compare_texts_total(actual@, list@[i]@);
        assert(list@[i]@ == actual@);
    }
}

/// A text column meets a `contains` clause exactly when the term occurs in its text;
/// otherwise the check fails with a message that shows the text and the term.
pub proof fn lemma_contains_matches(name: String, contains: String, actual: String)
    ensures
        column_outcome(ColumnClause::Contains { name, contains }, ColumnValue::String(actual)) == checked(
            contains_text(actual@, contains@),
            contains_message(name@, actual@, contains@),
        ),
        (column_outcome(ColumnClause::Contains { name, contains }, ColumnValue::String(actual)) is Success)
            <==> exists|i: int| #[trigger] occurs_at(actual@, contains@, i),
{
}

/// An integer column meets a range clause of integers exactly when it lies between
/// the bounds, both included.
pub proof fn lemma_range_integer_matches(name: String, start: i64, end: i64, actual: i64)
    ensures
        (column_outcome(
            ColumnClause::Range { name, start: Value::Integer(start), end: Value::Integer(end) },
            ColumnValue::Integer(actual),
        ) is Success) <==> (start <= actual && actual <= end),
{
}


/// An integer column meets a condition clause of an integer exactly when the usual
/// integer comparison holds; otherwise the check fails and the message shows both
/// numbers and the operator.
pub proof fn lemma_compare_integer_matches(name: String, condition: Condition, expected: i64, actual: i64)
    ensures
        ({
            let outcome = column_outcome(
                ColumnClause::Compare { name, condition, value: Value::Integer(expected) },
                ColumnValue::Integer(actual),
            );
            &&& (outcome is Success) <==> match condition {
                Condition::Equal => actual == expected,
                Condition::NotEqual => actual != expected,
                Condition::Less => actual < expected,
                Condition::Greater => actual > expected,
                Condition::LessOrEqual => actual <= expected,
                Condition::GreaterOrEqual => actual >= expected,
            }
            &&& !(outcome is Success) ==> outcome == Outcome::Fail(
                "Column '"@ + name@ + "' failed: "@ + signed_decimal(actual as int) + " "@
                    + condition_operator(condition) + " "@ + signed_decimal(expected as int),
            )
        }),
{
    reveal_strlit("'");
    reveal_strlit(" failed: ");
    reveal_strlit("' failed: ");
    assert("'"@ + " failed: "@ =~= "' failed: "@);
    let column = ColumnClause::Compare { name, condition, value: Value::Integer(expected) };
    let value = ColumnValue::Integer(actual);
    assert(reference_texts(column)[0] == signed_decimal(expected as int));
    assert(comparison_at(column, value, 0) == compare_ints(actual as int, expected as int));
    assert(actual_text(value) == signed_decimal(actual as int));
    let outcome = column_outcome(column, value);
    assert((outcome is Success) == condition_holds(condition, compare_ints(actual as int, expected as int)));
    if !(outcome is Success) {
        assert(outcome == Outcome::Fail(condition_message(column_label(name@), condition, signed_decimal(actual as int), signed_decimal(expected as int))));
        assert(condition_message(column_label(name@), condition, signed_decimal(actual as int), signed_decimal(expected as int)) =~=
            "Column '"@ + name@ + "' failed: "@ + signed_decimal(actual as int) + " "@
                    + condition_operator(condition) + " "@ + signed_decimal(expected as int));
    }
}

/// A text column meets a condition clause of a text exactly when the texts compare as
/// the condition asks, texts ordered lexicographically (`text_less`); otherwise the
/// check fails and the message shows both texts and the operator.
pub proof fn lemma_compare_text_matches(name: String, condition: Condition, expected: String, actual: String)
    ensures
        ({
            let outcome = column_outcome(
                ColumnClause::Compare { name, condition, value: Value::String(expected) },
                ColumnValue::String(actual),
            );
            &&& (outcome is Success) <==> match condition {
                Condition::Equal => actual@ == expected@,
                Condition::NotEqual => actual@ != expected@,
                Condition::Less => text_less(actual@, expected@),
                Condition::Greater => text_less(expected@, actual@),
                Condition::LessOrEqual => !text_less(expected@, actual@),
                Condition::GreaterOrEqual => !text_less(actual@, expected@),
            }
            &&& !(outcome is Success) ==> outcome == Outcome::Fail(
                "Column '"@ + name@ + "' failed: "@ + actual@ + " "@ + condition_operator(condition)
                    + " "@ + expected@,
            )
        }),
{
    reveal_strlit("'");
    reveal_strlit(" failed: ");
    reveal_strlit("' failed: ");
    assert("'"@ + " failed: "@ =~= "' failed: "@);
    lemma_compare_texts_order(actual@, expected@);
    lemma_compare_texts_total(actual@, expected@);
    let column = ColumnClause::Compare { name, condition, value: Value::String(expected) };
    let value = ColumnValue::String(actual);
    assert(reference_texts(column)[0] == expected@);
    assert(comparison_at(column, value, 0) == compare_texts(actual@, expected@));
    assert(actual_text(value) == actual@);
    let outcome = column_outcome(column, value);
    assert((outcome is Success) == condition_holds(condition, compare_texts(actual@, expected@)));
    if !(outcome is Success) {
        assert(outcome == Outcome::Fail(condition_message(column_label(name@), condition, actual@, expected@)));
        assert(condition_message(column_label(name@), condition, actual@, expected@) =~=
            "Column '"@ + name@ + "' failed: "@ + actual@ + " "@ + condition_operator(condition) + " "@ + expected@);
    }
}

/// A floating-point column meets a condition clause exactly when the way it compares
/// with the expected value satisfies the condition; a pair without order (NaN) meets
/// only `!=`.
pub proof fn lemma_compare_float_matches(name: String, condition: Condition, expected: FloatValue, actual: FloatReading)
    requires
        actual.comparisons@.len() == 1,
    ensures
        ({
            let order = actual.comparisons@[0];
            (column_outcome(
                ColumnClause::Compare { name, condition, value: Value::Float(expected) },
                ColumnValue::Float(actual),
            ) is Success) <==> match condition {
                Condition::Equal => order == Comparison::Equal,
                Condition::NotEqual => order != Comparison::Equal,
                Condition::Less => order == Comparison::Less,
                Condition::Greater => order == Comparison::Greater,
                Condition::LessOrEqual => order == Comparison::Less || order == Comparison::Equal,
                Condition::GreaterOrEqual => order == Comparison::Greater || order == Comparison::Equal,
            }
        }),
{
}

/// A text column meets a range clause of texts exactly when it lies between the bounds
/// in lexicographic order, both bounds included; otherwise the check fails and the
/// message shows the text and the bounds.
pub proof fn lemma_range_text_matches(name: String, start: String, end: String, actual: String)
    ensures
        ({
            let outcome = column_outcome(
                ColumnClause::Range { name, start: Value::String(start), end: Value::String(end) },
                ColumnValue::String(actual),
            );
            &&& (outcome is Success) <==> (!text_less(actual@, start@) && !text_less(end@, actual@))
            &&& !(outcome is Success) ==> outcome == Outcome::Fail(
                "Column '"@ + name@ + "' failed: "@ + actual@ + " in [ "@ + start@ + " .. "@ + end@
                    + " ]"@,
            )
        }),
{
    lemma_compare_texts_order(actual@, start@);
    lemma_compare_texts_order(actual@, end@);
    lemma_compare_texts_total(actual@, start@);
    lemma_compare_texts_total(actual@, end@);
    let column = ColumnClause::Range { name, start: Value::String(start), end: Value::String(end) };
    assert(reference_texts(column)[0] == start@);
    assert(reference_texts(column)[1] == end@);
}

/// A floating-point column meets a range clause exactly when it is at least the start
/// and at most the end, as its comparisons with the two bounds tell.
pub proof fn lemma_range_float_matches(name: String, start: FloatValue, end: FloatValue, actual: FloatReading)
    requires
        actual.comparisons@.len() == 2,
    ensures
        ({
            let to_start = actual.comparisons@[0];
            let to_end = actual.comparisons@[1];
            (column_outcome(
                ColumnClause::Range { name, start: Value::Float(start), end: Value::Float(end) },
                ColumnValue::Float(actual),
            ) is Success) <==> ((to_start == Comparison::Greater || to_start == Comparison::Equal) && (
            to_end == Comparison::Less || to_end == Comparison::Equal))
        }),
{
}

/// A floating-point column meets an `any` clause exactly when it compares equal with
/// one of the listed values, wherever that value stands in the list.
pub proof fn lemma_any_float_matches(name: String, list: Vec<FloatValue>, actual: FloatReading)
    requires
        actual.comparisons@.len() == list@.len(),
    ensures
        (column_outcome(ColumnClause::Any { name, any: Values::Float(list) }, ColumnValue::Float(actual)) is Success)
            <==> exists|i: int| 0 <= i < list@.len() && actual.comparisons@[i] == Comparison::Equal,
{
    let column = ColumnClause::Any { name, any: Values::Float(list) };
    let value = ColumnValue::Float(actual);
    let orders = comparisons(column, value);
    if exists|i: int| 0 <= i < list@.len() && actual.comparisons@[i] == Comparison::Equal {
        let i = choose|i: int| 0 <= i < list@.len() && actual.comparisons@[i] == Comparison::Equal;
        assert(orders[i] == Comparison::Equal);
    }
    if any_equal(orders) {
        let i = choose|i: int| 0 <= i < orders.len() && orders[i] == Comparison::Equal;
        assert(actual.comparisons@[i] == Comparison::Equal);
    }
}

proof fn lemma_rows_outcome_success(columns: Seq<ColumnClause>, rows: Seq<Vec<ColumnValue>>)
    ensures
        (rows_outcome(columns, rows) is Success) <==> forall|r: int|
            0 <= r < rows.len() ==> (#[trigger] row_outcome(columns, rows[r]@)) is Success,
    decreases rows.len(),
{
    if rows.len() > 0 {
        let rest = rows.drop_first();
        lemma_rows_outcome_success(columns, rest);
        if rows_outcome(columns, rows) is Success {
            assert forall|r: int| 0 <= r < rows.len() implies (#[trigger] row_outcome(
                columns,
                rows[r]@,
            )) is Success by {
                if r > 0 {
                    assert(rows[r] == rest[r - 1]);
                }
            }
        }
        if forall|r: int| 0 <= r < rows.len() ==> (#[trigger] row_outcome(columns, rows[r]@)) is Success {
            assert(row_outcome(columns, rows[0]@) is Success);
            assert forall|r: int| 0 <= r < rest.len() implies (#[trigger] row_outcome(
                columns,
                rest[r]@,
            )) is Success by {
                assert(rest[r] == rows[r + 1]);
                assert(row_outcome(columns, rows[r + 1]@) is Success);
            }
        }
    }
}

/// Every row is checked: a case whose number of rows is as expected passes exactly
/// when every row passes, so one failing row fails the whole case.
pub proof fn lemma_case_passes_when_every_row_passes(case: TestCase, rows: Seq<Vec<ColumnValue>>)
    requires
        case.n_rows matches Some(n) ==> n_rows_outcome(rows.len(), n) is Success,
    ensures
        (case_outcome(case, rows) is Success) <==> forall|r: int|
            0 <= r < rows.len() ==> (#[trigger] row_outcome(case.columns@, rows[r]@)) is Success,
{
    lemma_rows_outcome_success(case.columns@, rows);
}

/// A case whose number of rows is not as expected fails, whatever its rows hold.
pub proof fn lemma_wrong_row_count_fails_case(case: TestCase, rows: Seq<Vec<ColumnValue>>)
    requires
        case.n_rows matches Some(n) && !(n_rows_outcome(rows.len(), n) is Success),
    ensures
        case_outcome(case, rows) == n_rows_outcome(rows.len(), case.n_rows->0),
{
}

} // verus!

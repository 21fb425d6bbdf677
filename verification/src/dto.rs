//! The test suite description: suites, cases, skip clauses and the expectations
//! on the number of rows and on column values.

use vstd::prelude::*;
use vstd::string::*;

use crate::text::Comparison;
use crate::text::text_equal;

verus! {

/// A comparison that an actual value must satisfy against an expected one.
#[derive(Debug, Clone, Copy, PartialEq, Eq, Structural)]
pub enum Condition {
    Equal,
    NotEqual,
    Less,
    Greater,
    LessOrEqual,
    GreaterOrEqual,
}

/// The symbol by which a suite file names a condition.
pub open spec fn condition_symbol(c: Condition) -> Seq<char> {
    match c {
        Condition::Equal => "="@,
        Condition::NotEqual => "!="@,
        Condition::Less => "<"@,
        Condition::Greater => ">"@,
        Condition::LessOrEqual => "<="@,
        Condition::GreaterOrEqual => ">="@,
    }
}

/// The condition that a suite file symbol names, if any.
pub open spec fn condition_of_symbol(s: Seq<char>) -> Option<Condition> {
    if s == "="@ {
        Some(Condition::Equal)
    } else if s == "!="@ {
        Some(Condition::NotEqual)
    } else if s == "<"@ {
        Some(Condition::Less)
    } else if s == ">"@ {
        Some(Condition::Greater)
    } else if s == "<="@ {
        Some(Condition::LessOrEqual)
    } else if s == ">="@ {
        Some(Condition::GreaterOrEqual)
    } else {
        None
    }
}

/// The operator by which failure messages show a condition.
pub open spec fn condition_operator(c: Condition) -> Seq<char> {
    match c {
        Condition::Equal => "=="@,
        Condition::NotEqual => "!="@,
        Condition::Less => "<"@,
        Condition::Greater => ">"@,
        Condition::LessOrEqual => "<="@,
        Condition::GreaterOrEqual => ">="@,
    }
}

/// Whether `actual OP expected` holds, given how `actual` compares with `expected`.
/// An unordered pair satisfies only `!=`, as floating-point comparison does.
pub open spec fn condition_holds(c: Condition, order: Comparison) -> bool {
    match c {
        Condition::Equal => order == Comparison::Equal,
        Condition::NotEqual => order != Comparison::Equal,
        Condition::Less => order == Comparison::Less,
        Condition::Greater => order == Comparison::Greater,
        Condition::LessOrEqual => order == Comparison::Less || order == Comparison::Equal,
        Condition::GreaterOrEqual => order == Comparison::Greater || order == Comparison::Equal,
    }
}

impl Condition {
    /// Reads a condition from its suite file symbol (`=`, `!=`, `<`, `>`, `<=`, `>=`).
    pub fn from_symbol(symbol: &str) -> (c: Option<Condition>)
        ensures
            c == condition_of_symbol(symbol@),
    {
        if text_equal(symbol, "=") {
            Some(Condition::Equal)
        } else if text_equal(symbol, "!=") {
            Some(Condition::NotEqual)
        } else if text_equal(symbol, "<") {
            Some(Condition::Less)
        } else if text_equal(symbol, ">") {
            Some(Condition::Greater)
        } else if text_equal(symbol, "<=") {
            Some(Condition::LessOrEqual)
        } else if text_equal(symbol, ">=") {
            Some(Condition::GreaterOrEqual)
        } else {
            None
        }
    }

    /// The suite file symbol of this condition.
    pub fn symbol(&self) -> (s: &'static str)
        ensures
            s@ == condition_symbol(*self),
    {
        match self {
            Condition::Equal => "=",
            Condition::NotEqual => "!=",
            Condition::Less => "<",
            Condition::Greater => ">",
            Condition::LessOrEqual => "<=",
            Condition::GreaterOrEqual => ">=",
        }
    }

    /// The operator by which failure messages show this condition.
    pub fn operator(&self) -> (s: &'static str)
        ensures
            s@ == condition_operator(*self),
    {
        match self {
            Condition::Equal => "==",
            Condition::NotEqual => "!=",
            Condition::Less => "<",
            Condition::Greater => ">",
            Condition::LessOrEqual => "<=",
            Condition::GreaterOrEqual => ">=",
        }
    }

    /// Whether the condition holds of a pair that compares as `order`.
    pub fn holds(&self, order: Comparison) -> (b: bool)
        ensures
            b == condition_holds(*self, order),
    {
        match self {
            Condition::Equal => match order {
                Comparison::Equal => true,
                _ => false,
            },
            Condition::NotEqual => match order {
                Comparison::Equal => false,
                _ => true,
            },
            Condition::Less => match order {
                Comparison::Less => true,
                _ => false,
            },
            Condition::Greater => match order {
                Comparison::Greater => true,
                _ => false,
            },
            Condition::LessOrEqual => match order {
                Comparison::Less => true,
                Comparison::Equal => true,
                _ => false,
            },
            Condition::GreaterOrEqual => match order {
                Comparison::Greater => true,
                Comparison::Equal => true,
                _ => false,
            },
        }
    }
}

/// Reading the symbol of a condition gives the condition back.
pub proof fn lemma_condition_symbol_roundtrip(c: Condition)
    ensures
        condition_of_symbol(condition_symbol(c)) == Some(c),
{
    reveal_strlit("=");
    reveal_strlit("!=");
    reveal_strlit("<");
    reveal_strlit(">");
    reveal_strlit("<=");
    reveal_strlit(">=");
    assert("="@.len() == 1);
    assert("!="@.len() == 2);
    assert("<"@.len() == 1);
    assert(">"@.len() == 1);
    assert("<="@.len() == 2);
    assert(">="@.len() == 2);
    assert("="@[0] == '=');
    assert("!="@[0] == '!');
    assert("<"@[0] == '<');
    assert(">"@[0] == '>');
    assert("<="@[0] == '<');
    assert("="@ != "!="@);
    assert("="@ != "<"@);
    assert("="@ != ">"@);
    assert("="@ != "<="@);
    assert("="@ != ">="@);
    assert("!="@ != "<"@);
    assert("!="@ != ">"@);
    assert("!="@ != "<="@);
    assert("!="@ != ">="@);
    assert("<"@ != ">"@);
    assert("<"@ != "<="@);
    assert("<"@ != ">="@);
    assert(">"@ != "<="@);
    assert(">"@ != ">="@);
    assert("<="@[1] == '=');
    assert(">="@[0] == '>');
    assert("<="@ != ">="@);
}

/// For a pair that is ordered (integers, texts, numbers that are not NaN), each condition
/// and its opposite disagree: `=` and `!=`, `<` and `>=`, `>` and `<=`.
pub proof fn lemma_condition_opposites(order: Comparison)
    requires
        order != Comparison::Unordered,
    ensures
        condition_holds(Condition::Equal, order) != condition_holds(Condition::NotEqual, order),
        condition_holds(Condition::Less, order) != condition_holds(Condition::GreaterOrEqual, order),
        condition_holds(Condition::Greater, order) != condition_holds(Condition::LessOrEqual, order),
{
}

/// A floating-point value of a suite file: its bit pattern and how `{}` prints it.
#[derive(Debug, Clone)]
pub struct FloatValue {
    pub bits: u64,
    pub text: String,
}

impl FloatValue {
    pub fn new(bits: u64, text: String) -> (f: FloatValue)
        ensures
            f.bits == bits,
            f.text == text,
    {
        FloatValue { bits, text }
    }

    /// A copy of this value.
    pub fn duplicate(&self) -> (r: FloatValue)
        ensures
            r == *self,
    {
        FloatValue { bits: self.bits, text: self.text.clone() }
    }
}

/// An expected column value.
#[derive(Debug, Clone)]
pub enum Value {
    Integer(i64),
    Float(FloatValue),
    String(String),
}

/// A list of expected column values of one type.
#[derive(Debug, Clone)]
pub enum Values {
    Integer(Vec<i64>),
    Float(Vec<FloatValue>),
    String(Vec<String>),
}

/// The type at which a column is read.
#[derive(Debug, Clone, Copy, PartialEq, Eq, Structural)]
pub enum ValueKind {
    Integer,
    Float,
    String,
}

pub open spec fn value_kind(v: Value) -> ValueKind {
    match v {
        Value::Integer(_) => ValueKind::Integer,
        Value::Float(_) => ValueKind::Float,
        Value::String(_) => ValueKind::String,
    }
}

pub open spec fn values_kind(v: Values) -> ValueKind {
    match v {
        Values::Integer(_) => ValueKind::Integer,
        Values::Float(_) => ValueKind::Float,
        Values::String(_) => ValueKind::String,
    }
}

pub open spec fn values_len(v: Values) -> nat {
    match v {
        Values::Integer(l) => l@.len(),
        Values::Float(l) => l@.len(),
        Values::String(l) => l@.len(),
    }
}

/// The value at position `i` of a list.
pub open spec fn values_at(v: Values, i: int) -> Value {
    match v {
        Values::Integer(l) => Value::Integer(l@[i]),
        Values::Float(l) => Value::Float(l@[i]),
        Values::String(l) => Value::String(l@[i]),
    }
}

impl Value {
    /// The type at which a column compared with this value is read.
    pub fn kind(&self) -> (k: ValueKind)
        ensures
            k == value_kind(*self),
    {
        match self {
            Value::Integer(_) => ValueKind::Integer,
            Value::Float(_) => ValueKind::Float,
            Value::String(_) => ValueKind::String,
        }
    }
}

impl Values {
    /// The type at which a column compared with these values is read.
    pub fn kind(&self) -> (k: ValueKind)
        ensures
            k == values_kind(*self),
    {
        match self {
            Values::Integer(_) => ValueKind::Integer,
            Values::Float(_) => ValueKind::Float,
            Values::String(_) => ValueKind::String,
        }
    }

    /// The number of values.
    pub fn len(&self) -> (n: usize)
        ensures
            n == values_len(*self),
    {
        match self {
            Values::Integer(l) => l.len(),
            Values::Float(l) => l.len(),
            Values::String(l) => l.len(),
        }
    }
}

/// An expectation on one column of every row.
#[derive(Debug, Clone)]
pub enum ColumnClause {
    Compare { name: String, condition: Condition, value: Value },
    Range { name: String, start: Value, end: Value },
    Any { name: String, any: Values },
    /// The column's text must contain `contains`.
    Contains { name: String, contains: String },
}

pub open spec fn column_name(c: ColumnClause) -> Seq<char> {
    match c {
        ColumnClause::Compare { name, .. } => name@,
        ColumnClause::Range { name, .. } => name@,
        ColumnClause::Any { name, .. } => name@,
        ColumnClause::Contains { name, .. } => name@,
    }
}

/// The type at which the column is read, or `None` for a range whose bounds
/// have different types.
pub open spec fn requested_kind(c: ColumnClause) -> Option<ValueKind> {
    match c {
        ColumnClause::Compare { value, .. } => Some(value_kind(value)),
        ColumnClause::Range { start, end, .. } => if value_kind(start) == value_kind(end) {
            Some(value_kind(start))
        } else {
            None
        },
        ColumnClause::Any { any, .. } => Some(values_kind(any)),
        ColumnClause::Contains { .. } => Some(ValueKind::String),
    }
}

/// The number of expected values that the column is compared with.
pub open spec fn reference_count(c: ColumnClause) -> nat {
    match c {
        ColumnClause::Compare { .. } => 1,
        ColumnClause::Range { .. } => 2,
        ColumnClause::Any { any, .. } => values_len(any),
        ColumnClause::Contains { .. } => 1,
    }
}

/// The `i`-th expected value that the column is compared with.
pub open spec fn reference_value(c: ColumnClause, i: int) -> Value {
    match c {
        ColumnClause::Compare { value, .. } => value,
        ColumnClause::Range { start, end, .. } => if i == 0 {
            start
        } else {
            end
        },
        ColumnClause::Any { any, .. } => values_at(any, i),
        ColumnClause::Contains { contains, .. } => Value::String(contains),
    }
}

impl ColumnClause {
    /// The name of the column.
    pub fn name(&self) -> (n: &String)
        ensures
            n@ == column_name(*self),
    {
        match self {
            ColumnClause::Compare { name, .. } => name,
            ColumnClause::Range { name, .. } => name,
            ColumnClause::Any { name, .. } => name,
            ColumnClause::Contains { name, .. } => name,
        }
    }

    /// The type at which the column is read; `None` for a range with bounds of different types.
    pub fn requested_kind(&self) -> (k: Option<ValueKind>)
        ensures
            k == requested_kind(*self),
    {
        match self {
            ColumnClause::Compare { value, .. } => Some(value.kind()),
            ColumnClause::Range { start, end, .. } => {
                let a = start.kind();
                let b = end.kind();
                if a == b {
                    Some(a)
                } else {
                    None
                }
            },
            ColumnClause::Any { any, .. } => Some(any.kind()),
            ColumnClause::Contains { .. } => Some(ValueKind::String),
        }
    }

    /// The number of expected values that the column is compared with.
    pub fn reference_count(&self) -> (n: usize)
        ensures
            n == reference_count(*self),
    {
        match self {
            ColumnClause::Compare { .. } => 1,
            ColumnClause::Range { .. } => 2,
            ColumnClause::Any { any, .. } => any.len(),
            ColumnClause::Contains { .. } => 1,
        }
    }
}

/// An expectation on the number of rows.
#[derive(Debug, Clone, Copy)]
pub struct NRowsClause {
    pub condition: Condition,
    pub value: usize,
}

impl NRowsClause {
    pub fn new(condition: Condition, value: usize) -> (c: NRowsClause)
        ensures
            c.condition == condition,
            c.value == value,
    {
        NRowsClause { condition, value }
    }

    pub fn condition(&self) -> (c: Condition)
        ensures
            c == self.condition,
    {
        self.condition
    }

    pub fn value(&self) -> (v: usize)
        ensures
            v == self.value,
    {
        self.value
    }
}

/// A query together with the number of rows it is expected to return.
#[derive(Debug, Clone)]
pub struct QueryClause {
    pub query: String,
    pub n_rows: NRowsClause,
}

impl QueryClause {
    pub fn new(query: String, n_rows: NRowsClause) -> (c: QueryClause)
        ensures
            c.query == query,
            c.n_rows == n_rows,
    {
        QueryClause { query, n_rows }
    }

    pub fn query(&self) -> (q: &String)
        ensures
            q == &self.query,
    {
        &self.query
    }

    pub fn n_rows(&self) -> (n: &NRowsClause)
        ensures
            *n == self.n_rows,
    {
        &self.n_rows
    }
}

/// One test: a query and what its result must satisfy.
#[derive(Debug, Clone)]
pub struct TestCase {
    pub name: String,
    pub description: Option<String>,
    pub skip: Option<QueryClause>,
    pub query: String,
    pub n_rows: Option<NRowsClause>,
    pub columns: Vec<ColumnClause>,
}

/// The name under which a case or suite is reported: its description if it has one.
pub open spec fn display_name(name: Seq<char>, description: Option<String>) -> Seq<char> {
    match description {
        Some(d) => d@,
        None => name,
    }
}

/// The shown name is the description when there is one, and the name otherwise.
pub proof fn lemma_display_name(name: Seq<char>, description: Option<String>)
    ensures
        description matches Some(d) ==> display_name(name, description) == d@,
        description is None ==> display_name(name, description) == name,
{
}

impl TestCase {
    pub fn new(
        name: String,
        description: Option<String>,
        skip: Option<QueryClause>,
        query: String,
        n_rows: Option<NRowsClause>,
        columns: Vec<ColumnClause>,
    ) -> (c: TestCase)
        ensures
            c.name == name,
            c.description == description,
            c.skip == skip,
            c.query == query,
            c.n_rows == n_rows,
            c.columns == columns,
    {
        TestCase { name, description, skip, query, n_rows, columns }
    }

    pub fn name(&self) -> (n: &String)
        ensures
            n == &self.name,
    {
        &self.name
    }

    pub fn description(&self) -> (d: Option<&String>)
        ensures
            d matches Some(s) ==> self.description == Some(*s),
            d is None <==> self.description is None,
    {
        self.description.as_ref()
    }

    pub fn skip(&self) -> (s: Option<&QueryClause>)
        ensures
            s matches Some(c) ==> self.skip == Some(*c),
            s is None <==> self.skip is None,
    {
        self.skip.as_ref()
    }

    pub fn query(&self) -> (q: &String)
        ensures
            q == &self.query,
    {
        &self.query
    }

    pub fn n_rows(&self) -> (n: Option<&NRowsClause>)
        ensures
            n matches Some(c) ==> self.n_rows == Some(*c),
            n is None <==> self.n_rows is None,
    {
        self.n_rows.as_ref()
    }

    pub fn columns(&self) -> (c: &Vec<ColumnClause>)
        ensures
            c == &self.columns,
    {
        &self.columns
    }

    /// The name under which the case is reported.
    pub fn display_name(&self) -> (n: &String)
        ensures
            n@ == display_name(self.name@, self.description),
    {
        match &self.description {
            Some(d) => d,
            None => &self.name,
        }
    }
}

/// A named group of cases, possibly skipped as a whole.
#[derive(Debug, Clone)]
pub struct TestSuite {
    pub name: String,
    pub description: Option<String>,
    pub skip: Option<QueryClause>,
    pub cases: Vec<TestCase>,
}

impl TestSuite {
    pub fn new(
        name: String,
        description: Option<String>,
        skip: Option<QueryClause>,
        cases: Vec<TestCase>,
    ) -> (s: TestSuite)
        ensures
            s.name == name,
            s.description == description,
            s.skip == skip,
            s.cases == cases,
    {
        TestSuite { name, description, skip, cases }
    }

    pub fn name(&self) -> (n: &String)
        ensures
            n == &self.name,
    {
        &self.name
    }

    pub fn description(&self) -> (d: Option<&String>)
        ensures
            d matches Some(s) ==> self.description == Some(*s),
            d is None <==> self.description is None,
    {
        self.description.as_ref()
    }

    pub fn skip(&self) -> (s: Option<&QueryClause>)
        ensures
            s matches Some(c) ==> self.skip == Some(*c),
            s is None <==> self.skip is None,
    {
        self.skip.as_ref()
    }

    pub fn cases(&self) -> (c: &Vec<TestCase>)
        ensures
            c == &self.cases,
    {
        &self.cases
    }

    /// The name under which the suite is reported.
    pub fn display_name(&self) -> (n: &String)
        ensures
            n@ == display_name(self.name@, self.description),
    {
        match &self.description {
            Some(d) => d,
            None => &self.name,
        }
    }
}

} // verus!

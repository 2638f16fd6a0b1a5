//! Statements on the tables of a database: their text, their parameters, and
//! what they mean for the rows of a table.
//!
//! A statement is SQL text with its parameters; running it is left to its
//! caller, who hands the rows back as plain values.
use vstd::prelude::*;
use vstd::string::*;
use crate::json::slices;
use crate::text::{dec, decimal, join, join_texts, maybe, texts};

verus! {

// ── Values and statements ───────────────────────────────

/// A value of the database.
pub enum SqlValue {
    Null,
    Int(i64),
    Text(String),
    /// A value of a kind that no record holds.
    Other,
}

/// A value of the database, as mathematics.
pub enum SqlV {
    Null,
    Int(int),
    Text(Seq<char>),
    Other,
}

impl View for SqlValue {
    type V = SqlV;

    open spec fn view(&self) -> SqlV {
        match self {
            SqlValue::Null => SqlV::Null,
            SqlValue::Int(i) => SqlV::Int(*i as int),
            SqlValue::Text(s) => SqlV::Text(s@),
            SqlValue::Other => SqlV::Other,
        }
    }
}

/// The values of a row.
pub open spec fn row_view(row: Seq<SqlValue>) -> Seq<SqlV> {
    Seq::new(row.len(), |i: int| row[i]@)
}

/// A statement with its parameters.
pub struct Statement {
    pub sql: String,
    pub params: Vec<SqlValue>,
}

/// A statement with its parameters, as mathematics.
#[verifier::ext_equal]
pub struct StatementV {
    pub sql: Seq<char>,
    pub params: Seq<SqlV>,
}

impl View for Statement {
    type V = StatementV;

    open spec fn view(&self) -> StatementV {
        StatementV { sql: self.sql@, params: row_view(self.params@) }
    }
}

/// An optional text as a value.
pub open spec fn sql_opt(s: Option<Seq<char>>) -> SqlV {
    match s {
        Some(t) => SqlV::Text(t),
        None => SqlV::Null,
    }
}

/// A text as a value.
pub(crate) fn text_value(s: &str) -> (r: SqlValue)
    ensures
        r@ == SqlV::Text(s@),
{
    SqlValue::Text(s.to_owned())
}

/// An optional text as a value.
pub(crate) fn opt_value(s: Option<&str>) -> (r: SqlValue)
    ensures
        r@ == sql_opt(maybe(s)),
{
    match s {
        Some(t) => SqlValue::Text(t.to_owned()),
        None => SqlValue::Null,
    }
}

impl Statement {
    /// A statement without parameters.
    pub(crate) fn new(sql: &str) -> (r: Statement)
        ensures
            r@ == (StatementV { sql: sql@, params: seq![] }),
    {
        Statement { sql: sql.to_owned(), params: Vec::new() }
    }

    /// This statement with one more parameter.
    pub(crate) fn with(self, v: SqlValue) -> (r: Statement)
        ensures
            r@ == (StatementV { sql: self@.sql, params: self@.params.push(v@) }),
    {
        let mut params: Vec<SqlValue> = self.params;
        let ghost before = row_view(params@);
        params.push(v);
        assert(row_view(params@) =~= before.push(v@));
        Statement { sql: self.sql, params }
    }

    /// This statement with a text as one more parameter.
    pub(crate) fn text(self, s: &str) -> (r: Statement)
        ensures
            r@ == (StatementV { sql: self@.sql, params: self@.params.push(SqlV::Text(s@)) }),
    {
        self.with(text_value(s))
    }
}

// ── Statements on one table ─────────────────────────────

/// Columns with their values.
pub type Cells = Seq<(Seq<char>, SqlV)>;

/// The order of a list.
pub enum Order<'a> {
    Any,
    /// By a column, the least first.
    Rising(&'a str),
    /// By a column, the greatest first.
    Falling(&'a str),
}

/// The order of a list, as mathematics.
pub enum OrderV {
    Any,
    Rising(Seq<char>),
    Falling(Seq<char>),
}

impl View for Order<'_> {
    type V = OrderV;

    open spec fn view(&self) -> OrderV {
        match self {
            Order::Any => OrderV::Any,
            Order::Rising(c) => OrderV::Rising(c@),
            Order::Falling(c) => OrderV::Falling(c@),
        }
    }
}

/// A test of a text in a column.
pub enum Test<'a> {
    Any,
    /// Its first ten characters, the day of a time, are this.
    Day(&'a str, &'a str),
    /// It comes before this.
    Before(&'a str, &'a str),
    /// It does not come before this.
    Since(&'a str, &'a str),
}

/// A test of a text in a column, as mathematics.
pub enum TestV {
    Any,
    Day(Seq<char>, Seq<char>),
    Before(Seq<char>, Seq<char>),
    Since(Seq<char>, Seq<char>),
}

impl View for Test<'_> {
    type V = TestV;

    open spec fn view(&self) -> TestV {
        match self {
            Test::Any => TestV::Any,
            Test::Day(c, s) => TestV::Day(c@, s@),
            Test::Before(c, s) => TestV::Before(c@, s@),
            Test::Since(c, s) => TestV::Since(c@, s@),
        }
    }
}

/// A statement on one table.
pub enum QueryV {
    /// Adds a row with these cells. The first is that of the primary key.
    Insert { table: Seq<char>, cells: Cells },
    /// Sets these cells in the row with this primary key.
    Update { table: Seq<char>, cells: Cells, key_column: Seq<char>, key: Seq<char> },
    /// Adds one to a column of the row with this primary key.
    Increment { table: Seq<char>, column: Seq<char>, key_column: Seq<char>, key: Seq<char> },
    /// The columns of all rows that hold these cells, in some order.
    Select { table: Seq<char>, columns: Seq<Seq<char>>, cells: Cells, order: OrderV },
    /// The columns of all rows that hold these cells and pass a test.
    SelectIf { table: Seq<char>, columns: Seq<Seq<char>>, cells: Cells, test: TestV },
    /// How many rows hold these cells.
    Count { table: Seq<char>, cells: Cells },
    /// How many rows hold these cells and pass a test.
    CountIf { table: Seq<char>, cells: Cells, test: TestV },
    /// The sum of a column over the rows that hold these cells and pass a test.
    Sum { table: Seq<char>, column: Seq<char>, cells: Cells, test: TestV },
    /// Adds a row with these cells, of which the first is that of the primary key.
    /// Where there is a row with this key, sets the other cells in it.
    Upsert { table: Seq<char>, cells: Cells },
    /// Removes all rows that hold these cells.
    Delete { table: Seq<char>, cells: Cells },
}

/// The mark of the `i`-th parameter.
pub open spec fn mark(i: nat) -> Seq<char> {
    "?"@ + dec(i)
}

/// The marks of the first `n` parameters.
pub open spec fn marks(n: nat) -> Seq<Seq<char>> {
    Seq::new(n, |i: int| mark((i + 1) as nat))
}

/// The columns of cells.
pub open spec fn columns_of(cells: Cells) -> Seq<Seq<char>> {
    Seq::new(cells.len(), |i: int| cells[i].0)
}

/// The values of cells.
pub open spec fn values_of(cells: Cells) -> Seq<SqlV> {
    Seq::new(cells.len(), |i: int| cells[i].1)
}

/// Each column with the mark of its parameter.
pub open spec fn equations(cells: Cells) -> Seq<Seq<char>> {
    Seq::new(cells.len(), |i: int| cells[i].0 + " = "@ + mark((i + 1) as nat))
}

/// The condition that rows hold cells.
pub open spec fn condition(cells: Cells) -> Seq<char> {
    if cells.len() == 0 {
        Seq::empty()
    } else {
        " WHERE "@ + join(equations(cells), " AND "@)
    }
}

/// The condition that a test is passed, with the mark of its parameter.
pub open spec fn test_text(test: TestV, i: nat) -> Seq<char> {
    match test {
        TestV::Any => Seq::empty(),
        TestV::Day(c, s) => "substr("@ + c + ", 1, 10) = "@ + mark(i),
        TestV::Before(c, s) => c + " < "@ + mark(i),
        TestV::Since(c, s) => c + " >= "@ + mark(i),
    }
}

/// The condition that rows hold cells and pass a test.
pub open spec fn condition_if(cells: Cells, test: TestV) -> Seq<char> {
    condition(cells) + if test is Any {
        Seq::empty()
    } else {
        (if cells.len() == 0 {
            " WHERE "@
        } else {
            " AND "@
        }) + test_text(test, cells.len() + 1)
    }
}

/// The values of cells and of a test.
pub open spec fn values_if(cells: Cells, test: TestV) -> Seq<SqlV> {
    match test {
        TestV::Any => values_of(cells),
        TestV::Day(c, s) => values_of(cells).push(SqlV::Text(s)),
        TestV::Before(c, s) => values_of(cells).push(SqlV::Text(s)),
        TestV::Since(c, s) => values_of(cells).push(SqlV::Text(s)),
    }
}

/// The order of a list.
pub open spec fn ordering(order: OrderV) -> Seq<char> {
    match order {
        OrderV::Any => Seq::empty(),
        OrderV::Rising(c) => " ORDER BY "@ + c,
        OrderV::Falling(c) => " ORDER BY "@ + c + " DESC"@,
    }
}

/// The text that adds a row.
pub open spec fn insert_text(verb: Seq<char>, table: Seq<char>, cells: Cells) -> Seq<char> {
    verb + table + " ("@ + join(columns_of(cells), ", "@) + ") VALUES ("@ + join(marks(cells.len()), ", "@) + ")"@
}

/// The text and the parameters of a statement on one table.
pub open spec fn statement_of(q: QueryV) -> StatementV {
    match q {
        QueryV::Insert { table, cells } => StatementV {
            sql: insert_text("INSERT INTO "@, table, cells),
            params: values_of(cells),
        },
        QueryV::Update { table, cells, key_column, key } => StatementV {
            sql: "UPDATE "@ + table + " SET "@ + join(equations(cells), ", "@) + " WHERE "@ + key_column + " = "@ + mark(
                cells.len() + 1,
            ),
            params: values_of(cells).push(SqlV::Text(key)),
        },
        QueryV::Increment { table, column, key_column, key } => StatementV {
            sql: "UPDATE "@ + table + " SET "@ + column + " = "@ + column + " + 1 WHERE "@ + key_column + " = ?1"@,
            params: seq![SqlV::Text(key)],
        },
        QueryV::Select { table, columns, cells, order } => StatementV {
            sql: "SELECT "@ + join(columns, ", "@) + " FROM "@ + table + condition(cells) + ordering(order),
            params: values_of(cells),
        },
        QueryV::SelectIf { table, columns, cells, test } => StatementV {
            sql: "SELECT "@ + join(columns, ", "@) + " FROM "@ + table + condition_if(cells, test),
            params: values_if(cells, test),
        },
        QueryV::Count { table, cells } => StatementV {
            sql: "SELECT COUNT(*) FROM "@ + table + condition(cells),
            params: values_of(cells),
        },
        QueryV::CountIf { table, cells, test } => StatementV {
            sql: "SELECT COUNT(*) FROM "@ + table + condition_if(cells, test),
            params: values_if(cells, test),
        },
        QueryV::Sum { table, column, cells, test } => StatementV {
            sql: "SELECT COALESCE(SUM("@ + column + "), 0) FROM "@ + table + condition_if(cells, test),
            params: values_if(cells, test),
        },
        QueryV::Upsert { table, cells } => StatementV {
            sql: insert_text("INSERT INTO "@, table, cells) + " ON CONFLICT("@ + cells[0].0 + ") DO UPDATE SET "@ + join(
                equations(cells).skip(1),
                ", "@,
            ),
            params: values_of(cells),
        },
        QueryV::Delete { table, cells } => StatementV {
            sql: "DELETE FROM "@ + table + condition(cells),
            params: values_of(cells),
        },
    }
}

/// A statement that adds a row to a table whose rows the database numbers itself.
pub enum AdditionV {
    /// Adds a row with these cells.
    Append { table: Seq<char>, cells: Cells },
    /// Adds a row with these cells, unless there is one that holds the first `unique`
    /// of them.
    AddNew { table: Seq<char>, cells: Cells, unique: nat },
}

/// The text and the parameters of a statement that adds a numbered row.
pub open spec fn addition_of(a: AdditionV) -> StatementV {
    match a {
        AdditionV::Append { table, cells } => StatementV {
            sql: insert_text("INSERT INTO "@, table, cells),
            params: values_of(cells),
        },
        AdditionV::AddNew { table, cells, unique } => StatementV {
            sql: insert_text("INSERT OR IGNORE INTO "@, table, cells),
            params: values_of(cells),
        },
    }
}

/// Columns with their values, by contents.
pub open spec fn cells_view(cells: Seq<(&str, SqlValue)>) -> Cells {
    Seq::new(cells.len(), |i: int| (cells[i].0@, cells[i].1@))
}

/// The columns, joined by commas.
fn column_list(cells: &Vec<(&str, SqlValue)>) -> (r: String)
    ensures
        r@ == join(columns_of(cells_view(cells@)), ", "@),
{
    let mut names: Vec<String> = Vec::new();
    let mut i: usize = 0;
    while i < cells.len()
        invariant
            i <= cells@.len(),
            names@.len() == i,
            forall|j: int| 0 <= j < i ==> (#[trigger] names@[j])@ == cells@[j].0@,
        decreases cells.len() - i,
    {
        names.push(cells[i].0.to_owned());
        i += 1;
    }
    assert(texts(names@) =~= columns_of(cells_view(cells@)));
    join_texts(&names, ", ")
}

/// The mark of a parameter.
fn mark_text(i: usize) -> (r: String)
    ensures
        r@ == mark(i as nat),
{
    let mut s: String = "?".to_owned();
    let n: String = decimal(i as u64);
    s.append(n.as_str());
    s
}

/// The marks of the first parameters, joined by commas.
fn mark_list(n: usize) -> (r: String)
    requires
        n < usize::MAX,
    ensures
        r@ == join(marks(n as nat), ", "@),
{
    let mut list: Vec<String> = Vec::new();
    let mut i: usize = 0;
    while i < n
        invariant
            i <= n < usize::MAX,
            list@.len() == i,
            forall|j: int| 0 <= j < i ==> (#[trigger] list@[j])@ == mark((j + 1) as nat),
        decreases n - i,
    {
        list.push(mark_text(i + 1));
        i += 1;
    }
    assert(texts(list@) =~= marks(n as nat));
    join_texts(&list, ", ")
}

/// Each column with the mark of its parameter.
fn equation_list(cells: &Vec<(&str, SqlValue)>, separator: &str) -> (r: String)
    requires
        cells@.len() < usize::MAX,
    ensures
        r@ == join(equations(cells_view(cells@)), separator@),
{
    let mut list: Vec<String> = Vec::new();
    let mut i: usize = 0;
    while i < cells.len()
        invariant
            i <= cells@.len() < usize::MAX,
            list@.len() == i,
            forall|j: int| 0 <= j < i ==> (#[trigger] list@[j])@ == cells@[j].0@ + " = "@ + mark((j + 1) as nat),
        decreases cells.len() - i,
    {
        let mut s: String = cells[i].0.to_owned();
        s.append(" = ");
        let m: String = mark_text(i + 1);
        s.append(m.as_str());
        list.push(s);
        i += 1;
    }
    assert(texts(list@) =~= equations(cells_view(cells@)));
    join_texts(&list, separator)
}

/// The condition that rows hold cells.
fn condition_text(cells: &Vec<(&str, SqlValue)>) -> (r: String)
    requires
        cells@.len() < usize::MAX,
    ensures
        r@ == condition(cells_view(cells@)),
{
    if cells.len() == 0 {
        return String::new();
    }
    let mut s: String = " WHERE ".to_owned();
    let list: String = equation_list(cells, " AND ");
    s.append(list.as_str());
    s
}

/// The values of cells.
fn value_list(cells: Vec<(&str, SqlValue)>) -> (r: Vec<SqlValue>)
    ensures
        row_view(r@) == values_of(cells_view(cells@)),
{
    let ghost all = cells@;
    let mut r: Vec<SqlValue> = Vec::new();
    for cell in it: cells
        invariant
            it.seq() == all,
            r@.len() == it.index(),
            forall|j: int| 0 <= j < r@.len() ==> (#[trigger] r@[j])@ == all[j].1@,
    {
        r.push(cell.1);
    }
    assert(row_view(r@) =~= values_of(cells_view(all)));
    r
}

/// The condition that rows hold cells and pass a test.
fn condition_if_text(cells: &Vec<(&str, SqlValue)>, test: &Test) -> (r: String)
    requires
        cells@.len() < usize::MAX,
    ensures
        r@ == condition_if(cells_view(cells@), test@),
{
    let mut s: String = condition_text(cells);
    let ghost before = s@;
    let joint: &str = if cells.len() == 0 {
        " WHERE "
    } else {
        " AND "
    };
    let m: String = mark_text(cells.len() + 1);
    match test {
        Test::Any => {},
        Test::Day(c, _) => {
            s.append(joint);
            s.append("substr(");
            s.append(c);
            s.append(", 1, 10) = ");
            s.append(m.as_str());
        },
        Test::Before(c, _) => {
            s.append(joint);
            s.append(c);
            s.append(" < ");
            s.append(m.as_str());
        },
        Test::Since(c, _) => {
            s.append(joint);
            s.append(c);
            s.append(" >= ");
            s.append(m.as_str());
        },
    }
    assert(s@ =~= condition_if(cells_view(cells@), test@));
    s
}

/// The values of cells and of a test.
fn value_if_list(cells: Vec<(&str, SqlValue)>, test: &Test) -> (r: Vec<SqlValue>)
    ensures
        row_view(r@) == values_if(cells_view(cells@), test@),
{
    let ghost all = cells@;
    let mut r: Vec<SqlValue> = value_list(cells);
    match test {
        Test::Any => {},
        Test::Day(_, s) => r.push(text_value(s)),
        Test::Before(_, s) => r.push(text_value(s)),
        Test::Since(_, s) => r.push(text_value(s)),
    }
    assert(row_view(r@) =~= values_if(cells_view(all), test@));
    r
}

/// The text that adds a row.
fn insertion(verb: &str, table: &str, cells: &Vec<(&str, SqlValue)>) -> (r: String)
    requires
        cells@.len() < usize::MAX,
    ensures
        r@ == insert_text(verb@, table@, cells_view(cells@)),
{
    let mut sql: String = verb.to_owned();
    sql.append(table);
    sql.append(" (");
    let columns: String = column_list(cells);
    sql.append(columns.as_str());
    sql.append(") VALUES (");
    let marks: String = mark_list(cells.len());
    sql.append(marks.as_str());
    sql.append(")");
    sql
}

/// A statement that adds a row.
pub(crate) fn insert(table: &str, cells: Vec<(&str, SqlValue)>) -> (r: Statement)
    requires
        cells@.len() < usize::MAX,
    ensures
        r@ == statement_of(QueryV::Insert { table: table@, cells: cells_view(cells@) }),
        r@ == addition_of(AdditionV::Append { table: table@, cells: cells_view(cells@) }),
{
    let sql: String = insertion("INSERT INTO ", table, &cells);
    Statement { sql, params: value_list(cells) }
}

/// A statement that adds a row, unless there is one that holds the first of its cells.
pub(crate) fn insert_new(table: &str, cells: Vec<(&str, SqlValue)>) -> (r: Statement)
    requires
        cells@.len() < usize::MAX,
    ensures
        forall|unique: nat|
            r@ == #[trigger] addition_of(
                AdditionV::AddNew { table: table@, cells: cells_view(cells@), unique },
            ),
{
    let sql: String = insertion("INSERT OR IGNORE INTO ", table, &cells);
    Statement { sql, params: value_list(cells) }
}

/// A statement that adds a row, or sets its cells where there is one with its key.
pub(crate) fn upsert(table: &str, cells: Vec<(&str, SqlValue)>) -> (r: Statement)
    requires
        0 < cells@.len() < usize::MAX,
    ensures
        r@ == statement_of(QueryV::Upsert { table: table@, cells: cells_view(cells@) }),
{
    let mut sql: String = insertion("INSERT INTO ", table, &cells);
    sql.append(" ON CONFLICT(");
    sql.append(cells[0].0);
    sql.append(") DO UPDATE SET ");
    let mut list: Vec<String> = Vec::new();
    let mut i: usize = 1;
    while i < cells.len()
        invariant
            1 <= i <= cells@.len() < usize::MAX,
            list@.len() == i - 1,
            forall|j: int| 0 <= j < i - 1 ==> (#[trigger] list@[j])@ == cells@[j + 1].0@ + " = "@ + mark((j + 2) as nat),
        decreases cells.len() - i,
    {
        let mut s: String = cells[i].0.to_owned();
        s.append(" = ");
        let m: String = mark_text(i + 1);
        s.append(m.as_str());
        list.push(s);
        i += 1;
    }
    assert(texts(list@) =~= equations(cells_view(cells@)).skip(1));
    let set: String = join_texts(&list, ", ");
    sql.append(set.as_str());
    Statement { sql, params: value_list(cells) }
}

/// A statement that sets cells in the row with a primary key.
pub(crate) fn update(table: &str, cells: Vec<(&str, SqlValue)>, key_column: &str, key: &str) -> (r: Statement)
    requires
        cells@.len() < usize::MAX,
    ensures
        r@ == statement_of(
            QueryV::Update { table: table@, cells: cells_view(cells@), key_column: key_column@, key: key@ },
        ),
{
    let mut sql: String = "UPDATE ".to_owned();
    sql.append(table);
    sql.append(" SET ");
    let list: String = equation_list(&cells, ", ");
    sql.append(list.as_str());
    sql.append(" WHERE ");
    sql.append(key_column);
    sql.append(" = ");
    let m: String = mark_text(cells.len() + 1);
    sql.append(m.as_str());
    let r: Statement = Statement { sql, params: value_list(cells) };
    r.text(key)
}

/// A statement that adds one to a column of the row with a primary key.
pub(crate) fn increment(table: &str, column: &str, key_column: &str, key: &str) -> (r: Statement)
    ensures
        r@ == statement_of(
            QueryV::Increment { table: table@, column: column@, key_column: key_column@, key: key@ },
        ),
{
    let mut sql: String = "UPDATE ".to_owned();
    sql.append(table);
    sql.append(" SET ");
    sql.append(column);
    sql.append(" = ");
    sql.append(column);
    sql.append(" + 1 WHERE ");
    sql.append(key_column);
    sql.append(" = ?1");
    Statement::new(sql.as_str()).text(key)
}

/// A statement that looks rows up.
pub(crate) fn select(table: &str, columns: &Vec<&str>, cells: Vec<(&str, SqlValue)>, order: Order) -> (r: Statement)
    requires
        cells@.len() < usize::MAX,
    ensures
        r@ == statement_of(
            QueryV::Select {
                table: table@,
                columns: slices(columns@),
                cells: cells_view(cells@),
                order: order@,
            },
        ),
{
    let mut sql: String = "SELECT ".to_owned();
    let list: String = name_list(columns);
    sql.append(list.as_str());
    sql.append(" FROM ");
    sql.append(table);
    let by: String = condition_text(&cells);
    sql.append(by.as_str());
    let ghost before = sql@;
    match order {
        Order::Any => {},
        Order::Rising(c) => {
            sql.append(" ORDER BY ");
            sql.append(c);
        },
        Order::Falling(c) => {
            sql.append(" ORDER BY ");
            sql.append(c);
            sql.append(" DESC");
        },
    }
    assert(sql@ =~= before + ordering(order@));
    Statement { sql, params: value_list(cells) }
}

/// A statement that counts rows.
pub(crate) fn count(table: &str, cells: Vec<(&str, SqlValue)>) -> (r: Statement)
    requires
        cells@.len() < usize::MAX,
    ensures
        r@ == statement_of(QueryV::Count { table: table@, cells: cells_view(cells@) }),
{
    let mut sql: String = "SELECT COUNT(*) FROM ".to_owned();
    sql.append(table);
    let by: String = condition_text(&cells);
    sql.append(by.as_str());
    Statement { sql, params: value_list(cells) }
}

/// The columns, joined by commas.
fn name_list(columns: &Vec<&str>) -> (r: String)
    ensures
        r@ == join(slices(columns@), ", "@),
{
    let mut names: Vec<String> = Vec::new();
    let mut i: usize = 0;
    while i < columns.len()
        invariant
            i <= columns@.len(),
            names@.len() == i,
            forall|j: int| 0 <= j < i ==> (#[trigger] names@[j])@ == columns@[j]@,
        decreases columns.len() - i,
    {
        names.push(columns[i].to_owned());
        i += 1;
    }
    assert(texts(names@) =~= slices(columns@));
    join_texts(&names, ", ")
}

/// A statement that looks rows up which pass a test.
pub(crate) fn select_if(table: &str, columns: &Vec<&str>, cells: Vec<(&str, SqlValue)>, test: Test) -> (r: Statement)
    requires
        cells@.len() < usize::MAX,
    ensures
        r@ == statement_of(
            QueryV::SelectIf {
                table: table@,
                columns: slices(columns@),
                cells: cells_view(cells@),
                test: test@,
            },
        ),
{
    let mut sql: String = "SELECT ".to_owned();
    let list: String = name_list(columns);
    sql.append(list.as_str());
    sql.append(" FROM ");
    sql.append(table);
    let by: String = condition_if_text(&cells, &test);
    sql.append(by.as_str());
    Statement { sql, params: value_if_list(cells, &test) }
}

/// A statement that counts rows which pass a test.
pub(crate) fn count_if(table: &str, cells: Vec<(&str, SqlValue)>, test: Test) -> (r: Statement)
    requires
        cells@.len() < usize::MAX,
    ensures
        r@ == statement_of(QueryV::CountIf { table: table@, cells: cells_view(cells@), test: test@ }),
{
    let mut sql: String = "SELECT COUNT(*) FROM ".to_owned();
    sql.append(table);
    let by: String = condition_if_text(&cells, &test);
    sql.append(by.as_str());
    Statement { sql, params: value_if_list(cells, &test) }
}

/// A statement that adds a column up over rows which pass a test.
pub(crate) fn sum(table: &str, column: &str, cells: Vec<(&str, SqlValue)>, test: Test) -> (r: Statement)
    requires
        cells@.len() < usize::MAX,
    ensures
        r@ == statement_of(
            QueryV::Sum { table: table@, column: column@, cells: cells_view(cells@), test: test@ },
        ),
{
    let mut sql: String = "SELECT COALESCE(SUM(".to_owned();
    sql.append(column);
    sql.append("), 0) FROM ");
    sql.append(table);
    let by: String = condition_if_text(&cells, &test);
    sql.append(by.as_str());
    Statement { sql, params: value_if_list(cells, &test) }
}

/// A statement that removes rows.
pub(crate) fn delete(table: &str, cells: Vec<(&str, SqlValue)>) -> (r: Statement)
    requires
        cells@.len() < usize::MAX,
    ensures
        r@ == statement_of(QueryV::Delete { table: table@, cells: cells_view(cells@) }),
{
    let mut sql: String = "DELETE FROM ".to_owned();
    sql.append(table);
    let by: String = condition_text(&cells);
    sql.append(by.as_str());
    Statement { sql, params: value_list(cells) }
}

// ── What statements mean ────────────────────────────────
//
// What a database does with a statement is stated here and not proved: the rows
// of a table before and after, and what a look-up gives.

/// A row: its values by column. A column without a value is null.
pub type Row = Map<Seq<char>, SqlV>;

/// The rows of a table by their primary key, which is a text. Rows that the database
/// numbers itself stand under some text for each number.
pub type Rows = Map<Seq<char>, Row>;

/// The value in a column of a row.
pub open spec fn cell(row: Row, column: Seq<char>) -> SqlV {
    if row.contains_key(column) {
        row[column]
    } else {
        SqlV::Null
    }
}

/// A row with cells set, each in turn.
pub open spec fn row_with(row: Row, cells: Cells) -> Row
    decreases cells.len(),
{
    if cells.len() == 0 {
        row
    } else {
        row_with(row, cells.drop_last()).insert(cells.last().0, cells.last().1)
    }
}

/// Whether a row holds cells. A null is equal to nothing.
pub open spec fn holds(row: Row, cells: Cells) -> bool {
    forall|i: int| 0 <= i < cells.len() ==> cell(row, (#[trigger] cells[i]).0) == cells[i].1 && !(cells[i].1 is Null)
}

/// The values of a row in some columns.
pub open spec fn projected(row: Row, columns: Seq<Seq<char>>) -> Seq<SqlV> {
    Seq::new(columns.len(), |i: int| cell(row, columns[i]))
}

/// The primary key of the row that a statement adds.
pub open spec fn added_key(cells: Cells) -> Seq<char> {
    cells[0].1->Text_0
}

/// Whether a statement can be run as far as its own table goes: a row is added only
/// under a primary key that is new. A row of another table that the new one refers
/// to has to be there too, which is not said here.
pub open spec fn runs(q: QueryV, rows: Rows) -> bool {
    q matches QueryV::Insert { table, cells } ==> cells.len() > 0 && cells[0].1 is Text && !rows.contains_key(
        added_key(cells),
    )
}

/// The rows of its table after a statement that can be run.
pub open spec fn effect(q: QueryV, rows: Rows) -> Rows {
    match q {
        QueryV::Insert { table, cells } => rows.insert(added_key(cells), row_with(Map::empty(), cells)),
        QueryV::Update { table, cells, key_column, key } => if rows.contains_key(key) {
            rows.insert(key, row_with(rows[key], cells))
        } else {
            rows
        },
        QueryV::Increment { table, column, key_column, key } => if rows.contains_key(key) {
            rows.insert(
                key,
                rows[key].insert(
                    column,
                    match cell(rows[key], column) {
                        SqlV::Int(n) => SqlV::Int(n + 1),
                        v => v,
                    },
                ),
            )
        } else {
            rows
        },
        QueryV::Select { .. } => rows,
        QueryV::SelectIf { .. } => rows,
        QueryV::Count { .. } => rows,
        QueryV::CountIf { .. } => rows,
        QueryV::Sum { .. } => rows,
        QueryV::Upsert { table, cells } => rows.insert(
            added_key(cells),
            if rows.contains_key(added_key(cells)) {
                row_with(rows[added_key(cells)], cells.skip(1))
            } else {
                row_with(Map::empty(), cells)
            },
        ),
        QueryV::Delete { table, cells } => rows.remove_keys(matching(rows, cells)),
    }
}

/// How many rows a statement changes.
pub open spec fn changed(q: QueryV, rows: Rows) -> nat {
    match q {
        QueryV::Insert { .. } => 1,
        QueryV::Update { table, cells, key_column, key } => if rows.contains_key(key) {
            1
        } else {
            0
        },
        QueryV::Increment { table, column, key_column, key } => if rows.contains_key(key) {
            1
        } else {
            0
        },
        QueryV::Select { .. } => 0,
        QueryV::SelectIf { .. } => 0,
        QueryV::Count { .. } => 0,
        QueryV::CountIf { .. } => 0,
        QueryV::Sum { .. } => 0,
        QueryV::Upsert { .. } => 1,
        QueryV::Delete { table, cells } => matching(rows, cells).len(),
    }
}

/// What a look-up gives for the row with a primary key: its values where it is
/// among those looked for.
pub open spec fn looked_up(q: QueryV, rows: Rows, key: Seq<char>) -> Option<Seq<SqlV>> {
    match q {
        QueryV::Select { table, columns, cells, order } => if rows.contains_key(key) && holds(rows[key], cells) {
            Some(projected(rows[key], columns))
        } else {
            None
        },
        QueryV::SelectIf { table, columns, cells, test } => if rows.contains_key(key) && holds(rows[key], cells)
            && passes(rows[key], test) {
            Some(projected(rows[key], columns))
        } else {
            None
        },
        _ => None,
    }
}

/// The primary keys of the rows that hold cells.
pub open spec fn matching(rows: Rows, cells: Cells) -> Set<Seq<char>> {
    rows.dom().filter(|k: Seq<char>| holds(rows[k], cells))
}

/// Whether some row holds cells.
pub open spec fn present(rows: Rows, cells: Cells) -> bool {
    exists|k: Seq<char>| #[trigger] matching(rows, cells).contains(k)
}

/// What a count gives.
pub open spec fn count_of(q: QueryV, rows: Rows) -> nat {
    match q {
        QueryV::Count { table, cells } => matching(rows, cells).len(),
        QueryV::CountIf { table, cells, test } => matching_if(rows, cells, test).len(),
        _ => 0,
    }
}

/// Whether a text comes before another, by its characters.
pub open spec fn text_before(a: Seq<char>, b: Seq<char>) -> bool
    decreases a.len(),
{
    if b.len() == 0 {
        false
    } else if a.len() == 0 {
        true
    } else {
        a[0] < b[0] || (a[0] == b[0] && text_before(a.skip(1), b.skip(1)))
    }
}

/// The first ten characters of a text.
pub open spec fn day_of(s: Seq<char>) -> Seq<char> {
    if s.len() < 10 {
        s
    } else {
        s.take(10)
    }
}

/// Whether a row passes a test. Nothing but a text passes one.
pub open spec fn passes(row: Row, test: TestV) -> bool {
    match test {
        TestV::Any => true,
        TestV::Day(c, s) => cell(row, c) matches SqlV::Text(t) && day_of(t) == s,
        TestV::Before(c, s) => cell(row, c) matches SqlV::Text(t) && text_before(t, s),
        TestV::Since(c, s) => cell(row, c) matches SqlV::Text(t) && !text_before(t, s),
    }
}

/// The primary keys of the rows that hold cells and pass a test.
pub open spec fn matching_if(rows: Rows, cells: Cells, test: TestV) -> Set<Seq<char>> {
    rows.dom().filter(|k: Seq<char>| holds(rows[k], cells) && passes(rows[k], test))
}

/// What a row adds to the sum of a column.
pub open spec fn amount(row: Row, column: Seq<char>) -> int {
    match cell(row, column) {
        SqlV::Int(n) => n,
        _ => 0,
    }
}

/// The sum of a column over some rows.
pub open spec fn total(rows: Rows, keys: Set<Seq<char>>, column: Seq<char>) -> int
    decreases keys.len(),
{
    if keys.finite() && keys.len() > 0 {
        let k = keys.choose();
        amount(rows[k], column) + total(rows, keys.remove(k), column)
    } else {
        0
    }
}

/// What a sum gives, as long as a number of the database can hold it.
pub open spec fn sum_of(q: QueryV, rows: Rows) -> int {
    match q {
        QueryV::Sum { table, column, cells, test } => total(rows, matching_if(rows, cells, test), column),
        _ => 0,
    }
}

/// The rows of its table after a statement that adds a numbered row, given the number
/// that a new row gets.
pub open spec fn added(a: AdditionV, rows: Rows, number: Seq<char>) -> Rows {
    match a {
        AdditionV::Append { table, cells } => rows.insert(number, row_with(Map::empty(), cells)),
        AdditionV::AddNew { table, cells, unique } => if present(rows, cells.take(unique as int)) {
            rows
        } else {
            rows.insert(number, row_with(Map::empty(), cells))
        },
    }
}

/// Whether every row holds its primary key in a column.
pub open spec fn keyed(rows: Rows, column: Seq<char>) -> bool {
    forall|k: Seq<char>| #[trigger] rows.contains_key(k) ==> cell(rows[k], column) == SqlV::Text(k)
}

/// Setting cells leaves every other column of a row as it is.
pub proof fn lemma_untouched(row: Row, cells: Cells, column: Seq<char>)
    requires
        forall|i: int| 0 <= i < cells.len() ==> (#[trigger] cells[i]).0 != column,
    ensures
        cell(row_with(row, cells), column) == cell(row, column),
    decreases cells.len(),
{
    if cells.len() > 0 {
        assert forall|i: int| 0 <= i < cells.drop_last().len() implies (#[trigger] cells.drop_last()[i]).0 != column by {
            assert(cells.drop_last()[i] == cells[i]);
        }
        lemma_untouched(row, cells.drop_last(), column);
        assert(cells.last() == cells[cells.len() - 1]);
    }
}

/// Setting cells of distinct columns puts each value into its column.
pub proof fn lemma_set(row: Row, cells: Cells, i: int)
    requires
        0 <= i < cells.len(),
        forall|j: int| i < j < cells.len() ==> (#[trigger] cells[j]).0 != cells[i].0,
    ensures
        cell(row_with(row, cells), cells[i].0) == cells[i].1,
    decreases cells.len(),
{
    if i < cells.len() - 1 {
        let front = cells.drop_last();
        assert(front[i] == cells[i]);
        assert forall|j: int| i < j < front.len() implies (#[trigger] front[j]).0 != front[i].0 by {
            assert(front[j] == cells[j]);
        }
        lemma_set(row, front, i);
        assert(cells[cells.len() - 1].0 != cells[i].0);
    }
}

/// A row counts once in a sum over rows that it is among.
pub proof fn lemma_total_remove(rows: Rows, keys: Set<Seq<char>>, k: Seq<char>, column: Seq<char>)
    requires
        keys.finite(),
        keys.contains(k),
    ensures
        total(rows, keys, column) == amount(rows[k], column) + total(rows, keys.remove(k), column),
    decreases keys.len(),
{
    let c = keys.choose();
    if c != k {
        lemma_total_remove(rows, keys.remove(c), k, column);
        lemma_total_remove(rows, keys.remove(k), c, column);
        assert(keys.remove(c).remove(k) =~= keys.remove(k).remove(c));
    }
}

/// A sum depends on the rows that it is over.
pub proof fn lemma_total_same(a: Rows, b: Rows, keys: Set<Seq<char>>, column: Seq<char>)
    requires
        forall|k: Seq<char>| #[trigger] keys.contains(k) ==> a[k] == b[k],
    ensures
        total(a, keys, column) == total(b, keys, column),
    decreases keys.len(),
{
    if keys.finite() && keys.len() > 0 {
        let c = keys.choose();
        assert(keys.contains(c));
        lemma_total_same(a, b, keys.remove(c), column);
    }
}

/// A new row adds what it holds to the sums that it is among, and nothing to others.
pub proof fn lemma_sum_added(rows: Rows, k: Seq<char>, row: Row, q: QueryV)
    requires
        rows.dom().finite(),
        !rows.contains_key(k),
        q is Sum,
    ensures
        sum_of(q, rows.insert(k, row)) == sum_of(q, rows) + if holds(row, q->Sum_cells) && passes(row, q->Sum_test) {
            amount(row, q->Sum_column)
        } else {
            0
        },
{
    let after = rows.insert(k, row);
    let before_keys = matching_if(rows, q->Sum_cells, q->Sum_test);
    let after_keys = matching_if(after, q->Sum_cells, q->Sum_test);
    lemma_total_same(rows, after, before_keys, q->Sum_column);
    if holds(row, q->Sum_cells) && passes(row, q->Sum_test) {
        assert(after_keys =~= before_keys.insert(k));
        lemma_total_remove(after, after_keys, k, q->Sum_column);
        assert(after_keys.remove(k) =~= before_keys);
    } else {
        assert(after_keys =~= before_keys);
    }
}

} // verus!

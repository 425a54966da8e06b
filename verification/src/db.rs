//! The todo store, kept in SQLite through `rusqlite`.
//!
//! What SQLite holds depends on the database file and on every statement that
//! ran before, so the calls into `rusqlite` promise nothing about the rows they
//! hand back.  The verified part is what the store does with them: how it
//! turns rows into values and errors into the library's own error.

use vstd::prelude::*;

verus! {

/// Declares `rusqlite::Connection` as an opaque type, so that the store can
/// hold one.
#[verifier::external_type_specification]
#[verifier::external_body]
pub struct ExConnection(rusqlite::Connection);

/// Declares `rusqlite::Error` as an opaque type, so that the calls into
/// `rusqlite` can return it.
#[verifier::external_type_specification]
#[verifier::external_body]
pub struct ExSqlError(rusqlite::Error);

/// One todo item as the store keeps it.
#[derive(Debug, Clone)]
pub struct Todo {
    pub id: i64,
    pub title: String,
    pub completed: bool,
}

/// A failed database call, carrying the text that SQLite gave for it.
#[derive(Debug, Clone)]
pub struct DbError {
    pub message: String,
}

/// A value bound to the single `?1` placeholder of a statement.
#[derive(Debug)]
pub enum SqlParam {
    Text(String),
    Integer(i64),
}

/// Calls `rusqlite::Connection::open` with `path` and holds the connection
/// in a store with empty logs.  Whether the file can be opened depends on the
/// file system, so success is not promised; the contract records that the
/// connection is to `path`.
#[verifier::external_body]
fn connection_open(path: &str) -> (r: Result<Database, rusqlite::Error>)
    ensures
        r matches Ok(db) ==> {
            &&& db.opened_path() == Some(path@)
            &&& db.calls() == Seq::<SqlCall>::empty()
            &&& db.inserted_ids() == Seq::<i64>::empty()
        },
{
    let conn = rusqlite::Connection::open(path)?;
    Ok(Database { conn, log: Ghost(Seq::empty()), ids: Ghost(Seq::empty()), origin: Ghost(Some(path@)) })
}

/// Calls `rusqlite::Connection::open_in_memory` and holds the connection in
/// a store with empty logs.  SQLite may fail to allocate the database, so
/// success is not promised; the contract records that the connection is to
/// no file.
#[verifier::external_body]
fn connection_open_in_memory() -> (r: Result<Database, rusqlite::Error>)
    ensures
        r matches Ok(db) ==> {
            &&& db.opened_path() is None
            &&& db.calls() == Seq::<SqlCall>::empty()
            &&& db.inserted_ids() == Seq::<i64>::empty()
        },
{
    let conn = rusqlite::Connection::open_in_memory()?;
    Ok(Database { conn, log: Ghost(Seq::empty()), ids: Ghost(Seq::empty()), origin: Ghost(None) })
}

/// Calls `rusqlite::Connection::execute_batch` on `db`'s connection with
/// `sql`.  Whether it succeeds depends on the database; the contract records
/// in `db`'s log that `sql` was handed over, and whether it succeeded.
#[verifier::external_body]
fn connection_execute_batch(db: &mut Database, sql: &str) -> (r: Result<(), rusqlite::Error>)
    ensures
        final(db).calls() == old(db).calls().push(
            SqlCall {
                sql: sql@,
                param: SqlValue::Nothing,
                answer: match r {
                    Ok(_) => SqlAnswer::Done,
                    Err(e) => SqlAnswer::Failed(e),
                },
            },
        ),
        final(db).opened_path() == old(db).opened_path(),
        final(db).inserted_ids() == old(db).inserted_ids(),
{
    db.conn.execute_batch(sql)
}

/// Calls `rusqlite::Connection::execute` on `db`'s connection with `sql` and
/// `param` bound to `?1`.  The number of changed rows, and whether the
/// statement succeeds, depend on what the database holds; the contract
/// records in `db`'s log the statement, the parameter and what came back.
#[verifier::external_body]
fn connection_execute(db: &mut Database, sql: &str, param: &SqlParam) -> (r: Result<
    usize,
    rusqlite::Error,
>)
    ensures
        final(db).calls() == old(db).calls().push(
            SqlCall {
                sql: sql@,
                param: param_view(*param),
                answer: match r {
                    Ok(n) => SqlAnswer::Changed(n),
                    Err(e) => SqlAnswer::Failed(e),
                },
            },
        ),
        final(db).opened_path() == old(db).opened_path(),
        final(db).inserted_ids() == old(db).inserted_ids(),
{
    let value = match param {
        SqlParam::Text(s) => rusqlite::types::Value::Text(s.clone()),
        SqlParam::Integer(i) => rusqlite::types::Value::Integer(*i),
    };
    db.conn.execute(sql, (value,))
}

/// Calls `rusqlite::Connection::last_insert_rowid` on `db`'s connection.  The
/// row id comes from the database; the contract records it in `db`'s list of
/// reported row ids.
#[verifier::external_body]
fn connection_last_insert_rowid(db: &mut Database) -> (r: i64)
    ensures
        final(db).inserted_ids() == old(db).inserted_ids().push(r),
        final(db).calls() == old(db).calls(),
        final(db).opened_path() == old(db).opened_path(),
{
    db.conn.last_insert_rowid()
}

/// Calls `rusqlite::Connection::prepare` and `rusqlite::Statement::query_map`
/// on `db`'s connection with `sql`, taking the first three columns of every
/// row as an integer, a text and an integer, and collects the rows in the
/// order SQLite returns them.  The rows come from the database; the contract
/// records in `db`'s log the query and the rows (or the failure).
#[verifier::external_body]
fn connection_query_rows(db: &mut Database, sql: &str) -> (r: Result<
    Vec<(i64, String, i64)>,
    rusqlite::Error,
>)
    ensures
        final(db).calls() == old(db).calls().push(
            SqlCall {
                sql: sql@,
                param: SqlValue::Nothing,
                answer: match r {
                    Ok(rows) => SqlAnswer::Rows(rows@.map_values(|row: (i64, String, i64)| row_view(row))),
                    Err(e) => SqlAnswer::Failed(e),
                },
            },
        ),
        final(db).opened_path() == old(db).opened_path(),
        final(db).inserted_ids() == old(db).inserted_ids(),
{
    let mut stmt = db.conn.prepare(sql)?;
    let rows = stmt.query_map([], |row| Ok((row.get(0)?, row.get(1)?, row.get(2)?)))?;
    rows.collect()
}

/// Calls `rusqlite::Connection::query_row` on `db`'s connection with `sql`
/// and takes the first column of the first row as an integer.  The value
/// comes from the database; the contract records in `db`'s log the query and
/// the value (or the failure).
#[verifier::external_body]
fn connection_query_integer(db: &mut Database, sql: &str) -> (r: Result<i64, rusqlite::Error>)
    ensures
        final(db).calls() == old(db).calls().push(
            SqlCall {
                sql: sql@,
                param: SqlValue::Nothing,
                answer: match r {
                    Ok(n) => SqlAnswer::Integer(n),
                    Err(e) => SqlAnswer::Failed(e),
                },
            },
        ),
        final(db).opened_path() == old(db).opened_path(),
        final(db).inserted_ids() == old(db).inserted_ids(),
{
    db.conn.query_row(sql, [], |row| row.get(0))
}

/// The library's own error for a failed `rusqlite` call: its message is the
/// error's `Display` text, as `to_string` gives it.
pub fn db_error(e: rusqlite::Error) -> (r: DbError)
    ensures
        describes(r, e),
{
    DbError { message: e.to_string() }
}

/// `e` reports the `rusqlite` error `x`: its message is `x`'s `Display` text.
pub open spec fn describes(e: DbError, x: rusqlite::Error) -> bool {
    vstd::string::to_string_from_display_ensures::<rusqlite::Error>(&x, e.message)
}

/// `e` reports a failed `rusqlite` call: its message is the `Display` text
/// of some `rusqlite::Error`.
pub open spec fn is_sql_error(e: DbError) -> bool {
    exists|x: rusqlite::Error| #[trigger] describes(e, x)
}

/// What a row `(id, title, completed)` of the todo table stands for: the
/// completed column is true for every value but zero.
pub open spec fn todo_of_row(row: (i64, Seq<char>, i64)) -> (i64, Seq<char>, bool) {
    (row.0, row.1, row.2 != 0)
}

/// A todo built from a row carries the row's id and title unchanged, whatever
/// the title's length, and is done exactly when the completed column is not
/// zero.
pub proof fn lemma_row_keeps_fields(row: (i64, Seq<char>, i64))
    ensures
        todo_of_row(row).0 == row.0,
        todo_of_row(row).1 == row.1,
        todo_of_row(row).1.len() == row.1.len(),
        todo_of_row(row).2 <==> row.2 != 0,
{
}

/// The view of a todo: its id, its title's characters and whether it is done.
pub open spec fn todo_view(t: Todo) -> (i64, Seq<char>, bool) {
    (t.id, t.title@, t.completed)
}

/// The view of a row as the query hands it back.
pub open spec fn row_view(row: (i64, String, i64)) -> (i64, Seq<char>, i64) {
    (row.0, row.1@, row.2)
}

/// Turns the rows of the list query into todos, keeping their order.
pub fn todos_from_rows(rows: &Vec<(i64, String, i64)>) -> (r: Vec<Todo>)
    ensures
        r@.len() == rows@.len(),
        forall|i: int|
            0 <= i < rows@.len() ==> todo_view(#[trigger] r@[i]) == todo_of_row(
                row_view(rows@[i]),
            ),
        forall|i: int|
            0 <= i < rows@.len() ==> {
                &&& (#[trigger] r@[i]).id == rows@[i].0
                &&& r@[i].title@ == rows@[i].1@
                &&& r@[i].completed == (rows@[i].2 != 0)
            },
{
    let mut r: Vec<Todo> = Vec::new();
    let mut i: usize = 0;
    while i < rows.len()
        invariant
            i <= rows@.len(),
            r@.len() == i,
            forall|k: int|
                0 <= k < i ==> todo_view(#[trigger] r@[k]) == todo_of_row(row_view(rows@[k])),
        decreases rows@.len() - i,
    {
        let row = &rows[i];
        r.push(Todo { id: row.0, title: row.1.clone(), completed: row.2 != 0 });
        i = i + 1;
    }
    r
}

/// The pair `(done, total)` of counts as the store reports them.
pub fn counts_from(done: i64, total: i64) -> (r: (usize, usize))
    ensures
        r.0 == done as usize,
        r.1 == total as usize,
{
    (done as usize, total as usize)
}

/// A parameter as it is bound to a statement.
pub ghost enum SqlValue {
    /// The statement takes no parameter.
    Nothing,
    Text(Seq<char>),
    Integer(i64),
}

/// The view of a parameter.
pub open spec fn param_view(p: SqlParam) -> SqlValue {
    match p {
        SqlParam::Text(s) => SqlValue::Text(s@),
        SqlParam::Integer(i) => SqlValue::Integer(i),
    }
}

/// What SQLite answered to a statement.
pub ghost enum SqlAnswer {
    /// The statement failed with this error.
    Failed(rusqlite::Error),
    /// A batch of statements ran.
    Done,
    /// A statement changed this many rows.
    Changed(usize),
    /// A query returned these rows `(id, title, completed)`, in order.
    Rows(Seq<(i64, Seq<char>, i64)>),
    /// A query returned this number.
    Integer(i64),
}

/// One statement handed to SQLite: its text, its parameter and the answer.
pub ghost struct SqlCall {
    pub sql: Seq<char>,
    pub param: SqlValue,
    pub answer: SqlAnswer,
}

/// The todos as their views.
pub open spec fn todos_view(todos: Seq<Todo>) -> Seq<(i64, Seq<char>, bool)> {
    todos.map_values(|t: Todo| todo_view(t))
}

/// The todos that rows of the list query stand for.
pub open spec fn rows_as_todos(rows: Seq<(i64, Seq<char>, i64)>) -> Seq<(i64, Seq<char>, bool)> {
    rows.map_values(|row: (i64, Seq<char>, i64)| todo_of_row(row))
}

/// The statement that creates the todo table when it is missing.
pub open spec fn create_tables_sql() -> Seq<char> {
    "CREATE TABLE IF NOT EXISTS todos (
                id        INTEGER PRIMARY KEY AUTOINCREMENT,
                title     TEXT    NOT NULL,
                completed INTEGER NOT NULL DEFAULT 0
            );"@
}

/// `n` spaces.
pub open spec fn spaces(n: nat) -> Seq<char> {
    Seq::new(n, |i: int| ' ')
}

/// One column of a table definition, on a line of its own: indented by
/// sixteen spaces, the column's name padded to ten characters, then its type
/// and constraints.
pub open spec fn column_line(name: Seq<char>, declaration: Seq<char>) -> Seq<char> {
    spaces(16) + name + spaces((10 - name.len()) as nat) + declaration
}

/// The todo table has exactly three columns and no other constraint: `id`,
/// the integer key that SQLite hands out in increasing order; `title`, text
/// that must be present and may repeat (nothing makes it unique); and
/// `completed`, an integer that is zero unless given.
pub proof fn lemma_todo_table_columns()
    ensures
        create_tables_sql() == "CREATE TABLE IF NOT EXISTS todos (\n"@
            + column_line("id"@, "INTEGER PRIMARY KEY AUTOINCREMENT"@) + ",\n"@
            + column_line("title"@, "TEXT    NOT NULL"@) + ",\n"@
            + column_line("completed"@, "INTEGER NOT NULL DEFAULT 0"@) + "\n"@ + spaces(12)
            + ");"@,
{
    reveal_strlit("CREATE TABLE IF NOT EXISTS todos (
                id        INTEGER PRIMARY KEY AUTOINCREMENT,
                title     TEXT    NOT NULL,
                completed INTEGER NOT NULL DEFAULT 0
            );");
    reveal_strlit("CREATE TABLE IF NOT EXISTS todos (\n");
    reveal_strlit("id");
    reveal_strlit("INTEGER PRIMARY KEY AUTOINCREMENT");
    reveal_strlit(",\n");
    reveal_strlit("title");
    reveal_strlit("TEXT    NOT NULL");
    reveal_strlit("completed");
    reveal_strlit("INTEGER NOT NULL DEFAULT 0");
    reveal_strlit("\n");
    reveal_strlit(");");
    assert(create_tables_sql() =~= "CREATE TABLE IF NOT EXISTS todos (\n"@
        + column_line("id"@, "INTEGER PRIMARY KEY AUTOINCREMENT"@) + ",\n"@
        + column_line("title"@, "TEXT    NOT NULL"@) + ",\n"@
        + column_line("completed"@, "INTEGER NOT NULL DEFAULT 0"@) + "\n"@ + spaces(12)
        + ");"@);
}

/// The statement that inserts a todo.
pub open spec fn insert_sql() -> Seq<char> {
    "INSERT INTO todos (title) VALUES (?1)"@
}

/// The query for all todos, newest (highest id) first.
pub open spec fn list_sql() -> Seq<char> {
    "SELECT id, title, completed FROM todos ORDER BY id DESC"@
}

/// The statement that flips a todo's completed flag.
pub open spec fn toggle_sql() -> Seq<char> {
    "UPDATE todos SET completed = 1 - completed WHERE id = ?1"@
}

/// The statement that removes a todo.
pub open spec fn delete_sql() -> Seq<char> {
    "DELETE FROM todos WHERE id = ?1"@
}

/// The query that counts all todos.
pub open spec fn count_all_sql() -> Seq<char> {
    "SELECT COUNT(*) FROM todos"@
}

/// The query that counts the completed todos.
pub open spec fn count_done_sql() -> Seq<char> {
    "SELECT COUNT(*) FROM todos WHERE completed = 1"@
}

/// The statement that creates the todo table when it is missing.
pub fn create_tables_statement() -> (r: String)
    ensures
        r@ == create_tables_sql(),
{
    String::from_str(
        "CREATE TABLE IF NOT EXISTS todos (
                id        INTEGER PRIMARY KEY AUTOINCREMENT,
                title     TEXT    NOT NULL,
                completed INTEGER NOT NULL DEFAULT 0
            );",
    )
}

/// The statement that inserts a todo titled `title`, and its parameter.
pub fn insert_statement(title: &str) -> (r: (String, SqlParam))
    ensures
        r.0@ == insert_sql(),
        param_view(r.1) == SqlValue::Text(title@),
{
    (String::from_str("INSERT INTO todos (title) VALUES (?1)"), SqlParam::Text(String::from_str(title)))
}

/// The query for all todos, newest (highest id) first.
pub fn list_statement() -> (r: String)
    ensures
        r@ == list_sql(),
{
    String::from_str("SELECT id, title, completed FROM todos ORDER BY id DESC")
}

/// The statement that flips the completed flag of the todo `id`, and its
/// parameter.
pub fn toggle_statement(id: i64) -> (r: (String, SqlParam))
    ensures
        r.0@ == toggle_sql(),
        param_view(r.1) == SqlValue::Integer(id),
{
    (String::from_str("UPDATE todos SET completed = 1 - completed WHERE id = ?1"), SqlParam::Integer(id))
}

/// The statement that removes the todo `id`, and its parameter.
pub fn delete_statement(id: i64) -> (r: (String, SqlParam))
    ensures
        r.0@ == delete_sql(),
        param_view(r.1) == SqlValue::Integer(id),
{
    (String::from_str("DELETE FROM todos WHERE id = ?1"), SqlParam::Integer(id))
}

/// The query that counts all todos.
pub fn count_all_statement() -> (r: String)
    ensures
        r@ == count_all_sql(),
{
    String::from_str("SELECT COUNT(*) FROM todos")
}

/// The query that counts the completed todos.
pub fn count_done_statement() -> (r: String)
    ensures
        r@ == count_done_sql(),
{
    String::from_str("SELECT COUNT(*) FROM todos WHERE completed = 1")
}

/// The counts `(done, total)` that the counting queries at positions `n`
/// (all todos) and `n + 1` (completed todos) of `calls` answered, when both
/// answered.
pub open spec fn counts_at(calls: Seq<SqlCall>, n: int) -> Option<(usize, usize)> {
    match (calls[n].answer, calls[n + 1].answer) {
        (SqlAnswer::Integer(total), SqlAnswer::Integer(done)) => Some(
            (done as usize, total as usize),
        ),
        _ => None,
    }
}

/// `calls` is `before` followed by the counting queries, as `count` sends
/// them: all todos first, and the completed ones only when the first
/// answered.
pub open spec fn counting_calls(before: Seq<SqlCall>, calls: Seq<SqlCall>) -> bool {
    let n = before.len() as int;
    &&& calls.len() > n
    &&& calls.subrange(0, n) == before
    &&& calls[n].sql == count_all_sql()
    &&& calls[n].param == SqlValue::Nothing
    &&& if calls[n].answer is Integer {
        &&& calls.len() == n + 2
        &&& calls[n + 1].sql == count_done_sql()
        &&& calls[n + 1].param == SqlValue::Nothing
        &&& (calls[n + 1].answer is Integer || calls[n + 1].answer is Failed)
    } else {
        calls.len() == n + 1 && calls[n].answer is Failed
    }
}

/// A connection to the todo database, with the log of every statement it
/// has handed to SQLite and what came back, the row ids SQLite reported for
/// inserts, and the file it was opened on.
pub struct Database {
    conn: rusqlite::Connection,
    log: Ghost<Seq<SqlCall>>,
    ids: Ghost<Seq<i64>>,
    origin: Ghost<Option<Seq<char>>>,
}

/// The store `after` a write call appended to `before`'s log: the file and
/// the reported row ids stay, and exactly one call was added.
pub open spec fn one_call_more(before: Database, after: Database) -> bool {
    &&& after.opened_path() == before.opened_path()
    &&& after.inserted_ids() == before.inserted_ids()
    &&& after.calls().len() == before.calls().len() + 1
    &&& after.calls().drop_last() =~= before.calls()
}

/// The last call of `db`'s log failed exactly when `failed`, and when it did,
/// the error `e` reports its error.
pub open spec fn last_failure_reported(db: Database, failed: bool, e: Option<DbError>) -> bool {
    &&& (db.calls().last().answer is Failed) == failed
    &&& db.calls().last().answer matches SqlAnswer::Failed(x) ==> (e matches Some(err) && describes(
        err,
        x,
    ))
}

impl Database {
    /// The statements this connection has handed to SQLite, oldest first,
    /// with their parameters and answers.
    pub closed spec fn calls(&self) -> Seq<SqlCall> {
        self.log@
    }

    /// The row ids SQLite reported after inserts, oldest first.
    pub closed spec fn inserted_ids(&self) -> Seq<i64> {
        self.ids@
    }

    /// The path of the database file, or `None` for a database in memory.
    pub closed spec fn opened_path(&self) -> Option<Seq<char>> {
        self.origin@
    }

    /// Opens (or creates) the database at `path` and creates the todo table
    /// when it is missing.  On success the store is on `path`, and that
    /// creation is the only statement sent, and it ran.
    pub fn open(path: &str) -> (r: Result<Database, DbError>)
        ensures
            r matches Err(e) ==> is_sql_error(e),
            r matches Ok(db) ==> {
                &&& db.opened_path() == Some(path@)
                &&& db.inserted_ids() == Seq::<i64>::empty()
                &&& db.calls() == seq![
                SqlCall {
                    sql: create_tables_sql(),
                    param: SqlValue::Nothing,
                    answer: SqlAnswer::Done,
                },
            ]
            },
    {
        match connection_open(path) {
            Ok(db) => Database::with_tables(db),
            Err(e) => Err(db_error(e)),
        }
    }

    /// Opens a database that lives in memory only and creates the todo
    /// table in it.  On success the store is on no file, and that creation is
    /// the only statement sent, and it ran.
    pub fn open_in_memory() -> (r: Result<Database, DbError>)
        ensures
            r matches Err(e) ==> is_sql_error(e),
            r matches Ok(db) ==> {
                &&& db.opened_path() is None
                &&& db.inserted_ids() == Seq::<i64>::empty()
                &&& db.calls() == seq![
                SqlCall {
                    sql: create_tables_sql(),
                    param: SqlValue::Nothing,
                    answer: SqlAnswer::Done,
                },
            ]
            },
    {
        match connection_open_in_memory() {
            Ok(db) => Database::with_tables(db),
            Err(e) => Err(db_error(e)),
        }
    }

    /// The freshly opened store `db`, once the todo table exists.
    fn with_tables(db: Database) -> (r: Result<Database, DbError>)
        requires
            db.calls() == Seq::<SqlCall>::empty(),
        ensures
            r matches Err(e) ==> is_sql_error(e),
            r matches Ok(d) ==> {
                &&& d.opened_path() == db.opened_path()
                &&& d.inserted_ids() == db.inserted_ids()
                &&& d.calls() == seq![
                SqlCall {
                    sql: create_tables_sql(),
                    param: SqlValue::Nothing,
                    answer: SqlAnswer::Done,
                },
            ]
            },
    {
        let mut db = db;
        match db.create_tables() {
            Ok(()) => {
                assert(db.calls() =~= seq![
                    SqlCall {
                    sql: create_tables_sql(),
                    param: SqlValue::Nothing,
                    answer: SqlAnswer::Done,
                },
                ]);
                Ok(db)
            },
            Err(e) => Err(e),
        }
    }

    fn create_tables(&mut self) -> (r: Result<(), DbError>)
        ensures
            r matches Err(e) ==> is_sql_error(e),
            final(self).opened_path() == old(self).opened_path(),
            final(self).inserted_ids() == old(self).inserted_ids(),
            final(self).calls().len() == old(self).calls().len() + 1,
            final(self).calls().drop_last() == old(self).calls(),
            final(self).calls().last().sql == create_tables_sql(),
            final(self).calls().last().param == SqlValue::Nothing,
            r is Ok ==> final(self).calls().last().answer == SqlAnswer::Done,
            last_failure_reported(*final(self), r is Err, r.err()),
    {
        let sql = create_tables_statement();
        match connection_execute_batch(self, sql.as_str()) {
            Ok(()) => Ok(()),
            Err(e) => Err(db_error(e)),
        }
    }

    /// Sends the insert of a todo titled `title` and returns the row id
    /// SQLite then reports.  Fails exactly when SQLite refused the insert,
    /// with that error.
    pub fn add(&mut self, title: &str) -> (r: Result<i64, DbError>)
        ensures
            r matches Err(e) ==> is_sql_error(e),
            final(self).opened_path() == old(self).opened_path(),
            final(self).calls().len() == old(self).calls().len() + 1,
            final(self).calls().drop_last() == old(self).calls(),
            final(self).calls().last().sql == insert_sql(),
            final(self).calls().last().param == SqlValue::Text(title@),
            final(self).calls().last().answer is Changed || final(self).calls().last().answer is Failed,
            last_failure_reported(*final(self), r is Err, r.err()),
            match r {
                Ok(id) => final(self).inserted_ids() == old(self).inserted_ids().push(id),
                Err(_) => final(self).inserted_ids() == old(self).inserted_ids(),
            },
    {
        let (sql, param) = insert_statement(title);
        match connection_execute(self, sql.as_str(), &param) {
            Ok(_) => Ok(connection_last_insert_rowid(self)),
            Err(e) => Err(db_error(e)),
        }
    }

    /// Runs the list query: all todos, newest (highest id) first.  Fails
    /// exactly when the query failed, with that error; otherwise the todos are
    /// the rows SQLite returned, in its order.
    pub fn list(&mut self) -> (r: Result<Vec<Todo>, DbError>)
        ensures
            one_call_more(*old(self), *final(self)),
            final(self).calls().last().sql == list_sql(),
            final(self).calls().last().param == SqlValue::Nothing,
            match final(self).calls().last().answer {
                SqlAnswer::Rows(rows) => r matches Ok(t) && todos_view(t@) == rows_as_todos(rows),
                SqlAnswer::Failed(x) => r matches Err(e) && describes(e, x),
                _ => false,
            },
    {
        let sql = list_statement();
        match connection_query_rows(self, sql.as_str()) {
            Ok(rows) => {
                let todos = todos_from_rows(&rows);
                assert(todos_view(todos@) =~= rows_as_todos(
                    rows@.map_values(|row: (i64, String, i64)| row_view(row)),
                ));
                Ok(todos)
            },
            Err(e) => Err(db_error(e)),
        }
    }

    /// Sends the toggle of the todo `id`, which flips its completed flag.
    /// Fails exactly when SQLite refused the statement, with that error.
    pub fn toggle(&mut self, id: i64) -> (r: Result<(), DbError>)
        ensures
            r matches Err(e) ==> is_sql_error(e),
            one_call_more(*old(self), *final(self)),
            final(self).calls().last().sql == toggle_sql(),
            final(self).calls().last().param == SqlValue::Integer(id),
            final(self).calls().last().answer is Changed || final(self).calls().last().answer is Failed,
            last_failure_reported(*final(self), r is Err, r.err()),
    {
        let (sql, param) = toggle_statement(id);
        match connection_execute(self, sql.as_str(), &param) {
            Ok(_) => Ok(()),
            Err(e) => Err(db_error(e)),
        }
    }

    /// Sends the removal of the todo `id`.  Fails exactly when SQLite
    /// refused the statement, with that error.
    pub fn delete(&mut self, id: i64) -> (r: Result<(), DbError>)
        ensures
            r matches Err(e) ==> is_sql_error(e),
            one_call_more(*old(self), *final(self)),
            final(self).calls().last().sql == delete_sql(),
            final(self).calls().last().param == SqlValue::Integer(id),
            final(self).calls().last().answer is Changed || final(self).calls().last().answer is Failed,
            last_failure_reported(*final(self), r is Err, r.err()),
    {
        let (sql, param) = delete_statement(id);
        match connection_execute(self, sql.as_str(), &param) {
            Ok(_) => Ok(()),
            Err(e) => Err(db_error(e)),
        }
    }

    /// Runs the query that counts all todos and then the one that counts the
    /// completed ones, and returns `(done, total)`.  Fails exactly when one of
    /// them failed, with that error.
    pub fn count(&mut self) -> (r: Result<(usize, usize), DbError>)
        ensures
            final(self).opened_path() == old(self).opened_path(),
            final(self).inserted_ids() == old(self).inserted_ids(),
            counting_calls(old(self).calls(), final(self).calls()),
            match r {
                Ok(p) => final(self).calls().len() == old(self).calls().len() + 2 && counts_at(
                    final(self).calls(),
                    old(self).calls().len() as int,
                ) == Some(p),
                Err(e) => {
                    &&& is_sql_error(e)
                    &&& final(self).calls().last().answer matches SqlAnswer::Failed(x)
                    &&& describes(e, x)
                },
            },
    {
        let ghost before = self.calls();
        let all_sql = count_all_statement();
        let total = match connection_query_integer(self, all_sql.as_str()) {
            Ok(n) => n,
            Err(e) => {
                assert(self.calls().subrange(0, before.len() as int) =~= before);
                return Err(db_error(e));
            },
        };
        let done_sql = count_done_statement();
        let done = match connection_query_integer(self, done_sql.as_str()) {
            Ok(n) => n,
            Err(e) => {
                assert(self.calls().subrange(0, before.len() as int) =~= before);
                return Err(db_error(e));
            },
        };
        assert(self.calls().subrange(0, before.len() as int) =~= before);
        Ok(counts_from(done, total))
    }
}

} // verus!

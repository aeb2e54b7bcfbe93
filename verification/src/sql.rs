use vstd::prelude::*;

verus! {

/// `rusqlite::Connection`, an open database. Nothing inside it is visible to
/// the proofs.
#[verifier::external_type_specification]
#[verifier::external_body]
pub struct ExConnection(rusqlite::Connection);

/// `rusqlite::Statement`, a compiled statement of a connection.
#[verifier::external_type_specification]
#[verifier::external_body]
pub struct ExStatement<'conn>(rusqlite::Statement<'conn>);

/// `rusqlite::Rows`, the rows that a running query still has to give.
#[verifier::external_type_specification]
#[verifier::external_body]
pub struct ExRows<'stmt>(rusqlite::Rows<'stmt>);

/// `rusqlite::Row`, one row of a query.
#[verifier::external_type_specification]
#[verifier::external_body]
pub struct ExRow<'stmt>(rusqlite::Row<'stmt>);

/// `rusqlite::Error`, the failure of any of the calls below.
#[verifier::external_type_specification]
#[verifier::external_body]
pub struct ExSqlError(rusqlite::Error);

/// `rusqlite::Connection::open`: opens the database file at `path`, creating
/// it where there is none. The path is first made a C string, which fails
/// where it holds a NUL character: that failure is all that is claimed. Every
/// other outcome depends on the file system.
#[verifier::external_body]
pub(crate) fn open_database(path: &str) -> (r: Result<rusqlite::Connection, rusqlite::Error>)
    ensures
        path@.contains('\0') ==> r is Err,
{
    rusqlite::Connection::open(path)
}

/// `rusqlite::Connection::execute`: compiles and runs the single statement
/// `sql` with `params` bound to `?1`, `?2`, .. in their order, and answers how
/// many rows it changed. Nothing is claimed of the outcome, which depends on
/// what the database holds.
#[verifier::external_body]
pub(crate) fn execute_statement(conn: &rusqlite::Connection, sql: &str, params: &Vec<String>) -> (r:
    Result<usize, rusqlite::Error>) {
    conn.execute(sql, rusqlite::params_from_iter(params.iter()))
}

/// `rusqlite::Connection::prepare`: compiles the single statement `sql`.
/// Nothing is claimed of the outcome.
#[verifier::external_body]
pub(crate) fn prepare_statement<'conn>(conn: &'conn rusqlite::Connection, sql: &str) -> (r: Result<
    rusqlite::Statement<'conn>,
    rusqlite::Error,
>) {
    conn.prepare(sql)
}

/// `rusqlite::Statement::query`: binds `params` to `?1`, `?2`, .. in their
/// order and starts the query. Nothing is claimed of the outcome.
#[verifier::external_body]
pub(crate) fn start_query<'stmt>(
    statement: &'stmt mut rusqlite::Statement<'_>,
    params: &Vec<String>,
) -> (r: Result<rusqlite::Rows<'stmt>, rusqlite::Error>) {
    statement.query(rusqlite::params_from_iter(params.iter()))
}

/// `rusqlite::Rows::next`: the next row of the query, `None` after the last.
/// Nothing is claimed of the outcome, which depends on what the database
/// holds.
#[verifier::external_body]
pub(crate) fn next_row<'rows, 'stmt>(rows: &'rows mut rusqlite::Rows<'stmt>) -> (r: Result<
    Option<&'rows rusqlite::Row<'stmt>>,
    rusqlite::Error,
>) {
    rows.next()
}

/// `rusqlite::Row::get`, asked for a `String`: the text in column `column` of
/// `row`, counted from zero. Nothing is claimed of the outcome.
#[verifier::external_body]
pub(crate) fn column_text(row: &rusqlite::Row<'_>, column: usize) -> (r: Result<
    String,
    rusqlite::Error,
>) {
    row.get::<usize, String>(column)
}

/// The `Display` text of a `rusqlite::Error`. Nothing is claimed of it.
#[verifier::external_body]
pub(crate) fn error_text(error: &rusqlite::Error) -> (text: String) {
    error.to_string()
}

} // verus!

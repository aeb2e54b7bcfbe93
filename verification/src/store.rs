use crate::changes::took_effect;
use crate::changes::Change;
use crate::error::ErrorView;
use crate::error::StoreError;
use crate::identity::GitUser;
use crate::identity::IdentityView;
use crate::model::add_outcome;
use crate::model::after_add;
use crate::model::after_remove;
use crate::model::after_select;
use crate::model::remove_outcome;
use crate::model::select_outcome;
use crate::model::status_outcome;
use crate::model::StoreView;
use crate::rules::current;
use crate::rules::flag_outcome;
use crate::rules::law_add_changes;
use crate::rules::law_remove_changes;
use crate::rules::law_select_changes;
use crate::rules::plan_add;
use crate::rules::plan_remove;
use crate::rules::plan_select;
use crate::rules::settle;
use crate::rules::user_outcome;
use crate::sql::error_text;
use crate::sql::execute_statement;
use crate::sql::open_database;
use crate::sql::column_text;
use crate::sql::next_row;
use crate::sql::prepare_statement;
use crate::sql::start_query;
use crate::tables::name_view;
use crate::tables::views_of;
use crate::tables::Tables;
use vstd::prelude::*;

verus! {

/// Whether each of `rows` has the two columns of an identity.
pub open spec fn are_user_rows(rows: Seq<Vec<String>>) -> bool {
    forall|i: int| 0 <= i < rows.len() ==> (#[trigger] rows[i]).len() == 2
}

/// The identities that `rows` hold: the name in the first column, the email in
/// the second.
pub open spec fn users_of_rows(rows: Seq<Vec<String>>) -> Seq<IdentityView> {
    Seq::new(rows.len(), |i: int| IdentityView { name: rows[i][0]@, email: rows[i][1]@ })
}

/// Whether `rows` are what the table of the selection can hold: no row, or one
/// row of one column.
pub open spec fn are_selection_rows(rows: Seq<Vec<String>>) -> bool {
    rows.len() == 0 || (rows.len() == 1 && rows[0].len() == 1)
}

/// The selection that `rows` hold.
pub open spec fn selection_of_rows(rows: Seq<Vec<String>>) -> Option<Seq<char>> {
    if rows.len() == 0 {
        None
    } else {
        Some(rows[0][0]@)
    }
}

/// The store that the rows of the two tables hold; `None` where they have not
/// the shape of the tables or break the rules of the store.
pub open spec fn loaded(users: Seq<Vec<String>>, selection: Seq<Vec<String>>) -> Option<StoreView> {
    let store = StoreView { users: users_of_rows(users), selected: selection_of_rows(selection) };
    if are_user_rows(users) && are_selection_rows(selection) && store.wf() {
        Some(store)
    } else {
        None
    }
}

/// What an operation that writes through to the storage may answer and leave
/// behind, where the rules of the store ask for `want` and `next`: just that
/// or, where they ask for success, a failure of the storage with the store as
/// it was.
pub open spec fn written_through<T>(
    got: Result<T, ErrorView>,
    post: StoreView,
    want: Result<T, ErrorView>,
    pre: StoreView,
    next: StoreView,
) -> bool {
    ||| got == want && post == next
    ||| want is Ok && got is Err && got->Err_0 is StorageUnavailable && post == pre
}

/// The identities that the rows of the table of identities hold, where each
/// row has its two columns.
pub fn users_from_rows(rows: &Vec<Vec<String>>) -> (users: Option<Vec<GitUser>>)
    ensures
        users is Some <==> are_user_rows(rows@),
        users matches Some(found) ==> views_of(found@) == users_of_rows(rows@),
{
    let mut users: Vec<GitUser> = Vec::new();
    let mut i: usize = 0;
    while i < rows.len()
        invariant
            i <= rows.len(),
            users.len() == i,
            forall|j: int| 0 <= j < i ==> (#[trigger] rows[j]).len() == 2,
            forall|j: int|
                0 <= j < i ==> (#[trigger] users[j])@ == (IdentityView {
                    name: rows[j][0]@,
                    email: rows[j][1]@,
                }),
        decreases rows.len() - i,
    {
        let row = &rows[i];
        if row.len() != 2 {
            return None;
        }
        users.push(GitUser { name: row[0].clone(), email: row[1].clone() });
        i += 1;
    }
    Some(users)
}

/// The selection that the rows of the table of the selection hold, where they
/// are no row or one row of one column.
pub fn selection_from_rows(rows: &Vec<Vec<String>>) -> (selection: Option<Option<String>>)
    ensures
        selection is Some <==> are_selection_rows(rows@),
        selection matches Some(found) ==> name_view(found) == selection_of_rows(rows@),
{
    if rows.len() == 0 {
        Some(None)
    } else if rows.len() == 1 && rows[0].len() == 1 {
        Some(Some(rows[0][0].clone()))
    } else {
        None
    }
}

/// Why rows that are no store are refused: for their shape, or for what they
/// hold.
pub open spec fn refusal_of_rows(users: Seq<Vec<String>>, selection: Seq<Vec<String>>) -> Seq<char> {
    if are_user_rows(users) && are_selection_rows(selection) {
        "the stored identities break the rules of the store"@
    } else {
        "the stored rows have not the expected columns"@
    }
}

/// The tables that the rows of the two tables of the storage hold. Fails with
/// `StorageUnavailable` where the rows have not the shape of the tables, two
/// identities share a name, or a name or an email is empty.
pub fn assemble(users: &Vec<Vec<String>>, selection: &Vec<Vec<String>>) -> (r: Result<
    Tables,
    StoreError,
>)
    ensures
        match r {
            Ok(tables) => loaded(users@, selection@) == Some(tables@) && tables@.wf(),
            Err(e) => loaded(users@, selection@) is None && e@ == ErrorView::StorageUnavailable(
                refusal_of_rows(users@, selection@),
            ),
        },
{
    let found_users = match users_from_rows(users) {
        Some(found) => found,
        None => {
            return Err(
                StoreError::StorageUnavailable("the stored rows have not the expected columns".to_owned()),
            );
        },
    };
    let found_selection = match selection_from_rows(selection) {
        Some(found) => found,
        None => {
            return Err(
                StoreError::StorageUnavailable("the stored rows have not the expected columns".to_owned()),
            );
        },
    };
    match Tables::from_rows(found_users, found_selection) {
        Some(tables) => Ok(tables),
        None => Err(
            StoreError::StorageUnavailable("the stored identities break the rules of the store".to_owned()),
        ),
    }
}

/// Whether the statement of `change` has done its work: it ran, and changed
/// the rows that the change stands for. A statement that did not run hands its
/// failure on; one that changed other rows than expected is a failure of the
/// storage too.
pub fn confirm(change: &Change, written: Result<usize, StoreError>) -> (r: Result<(), StoreError>)
    ensures
        match written {
            Ok(rows) => if took_effect(change@, rows as nat) {
                r is Ok
            } else {
                r is Err && r->Err_0@ == ErrorView::StorageUnavailable(
                    "the storage does not hold the expected rows"@,
                )
            },
            Err(e) => r == Err::<(), StoreError>(e),
        },
{
    match written {
        Ok(rows) => if change.wrote(rows) {
            Ok(())
        } else {
            Err(
                StoreError::StorageUnavailable("the storage does not hold the expected rows".to_owned()),
            )
        },
        Err(e) => Err(e),
    }
}

/// What the store makes of an answer of the database: a value is handed on as
/// it is, and a failure becomes `StorageUnavailable` with the reason that the
/// database gave.
fn answered<T>(answer: Result<T, rusqlite::Error>) -> (r: Result<T, StoreError>)
    ensures
        match answer {
            Ok(value) => r == Ok::<T, StoreError>(value),
            Err(_) => r is Err && r->Err_0@ is StorageUnavailable,
        },
{
    match answer {
        Ok(value) => Ok(value),
        Err(error) => Err(StoreError::StorageUnavailable(error_text(&error))),
    }
}

/// Runs one statement and answers how many rows it changed.
fn run(conn: &rusqlite::Connection, sql: &str, params: &Vec<String>) -> (r: Result<usize, StoreError>)
    ensures
        r matches Err(e) ==> e@ is StorageUnavailable,
{
    answered(execute_statement(conn, sql, params))
}

/// Runs one query and answers its rows, each as the texts of its first
/// `columns` columns.
fn read(conn: &rusqlite::Connection, sql: &str, columns: usize) -> (r: Result<
    Vec<Vec<String>>,
    StoreError,
>)
    ensures
        r matches Err(e) ==> e@ is StorageUnavailable,
        r matches Ok(rows) ==> forall|i: int| 0 <= i < rows.len() ==> (#[trigger] rows[i]).len()
            == columns,
{
    let none: Vec<String> = Vec::new();
    let mut statement = match answered(prepare_statement(conn, sql)) {
        Ok(statement) => statement,
        Err(e) => {
            return Err(e);
        },
    };
    let mut cursor = match answered(start_query(&mut statement, &none)) {
        Ok(cursor) => cursor,
        Err(e) => {
            return Err(e);
        },
    };
    let mut rows: Vec<Vec<String>> = Vec::new();
    while rows.len() < usize::MAX
        invariant
            forall|i: int| 0 <= i < rows.len() ==> (#[trigger] rows[i]).len() == columns,
        decreases usize::MAX - rows.len(),
    {
        let row = match answered(next_row(&mut cursor)) {
            Ok(Some(row)) => row,
            Ok(None) => {
                return Ok(rows);
            },
            Err(e) => {
                return Err(e);
            },
        };
        let mut texts: Vec<String> = Vec::new();
        while texts.len() < columns
            invariant
                texts.len() <= columns,
            decreases columns - texts.len(),
        {
            match answered(column_text(row, texts.len())) {
                Ok(text) => {
                    texts.push(text);
                },
                Err(e) => {
                    return Err(e);
                },
            }
        }
        rows.push(texts);
    }
    Err(StoreError::StorageUnavailable("the storage holds more rows than can be read".to_owned()))
}

/// Writes `changes` to the storage, all of them or none: they run in one
/// transaction, which is rolled back as soon as one of them fails.
fn persist(conn: &rusqlite::Connection, changes: &Vec<Change>) -> (r: Result<(), StoreError>)
    ensures
        r matches Err(e) ==> e@ is StorageUnavailable,
{
    let none: Vec<String> = Vec::new();
    match run(conn, "BEGIN IMMEDIATE", &none) {
        Ok(_) => {},
        Err(e) => {
            return Err(e);
        },
    }
    let mut i: usize = 0;
    while i < changes.len()
        invariant
            i <= changes.len(),
        decreases changes.len() - i,
    {
        let change = &changes[i];
        let params = change.parameters();
        let written = run(conn, change.statement(), &params);
        match confirm(change, written) {
            Ok(()) => {},
            Err(e) => {
                let _ = run(conn, "ROLLBACK", &none);
                return Err(e);
            },
        }
        i += 1;
    }
    match run(conn, "COMMIT", &none) {
        Ok(_) => Ok(()),
        Err(e) => {
            let _ = run(conn, "ROLLBACK", &none);
            Err(e)
        },
    }
}

/// Reads the two tables of the storage.
fn load(conn: &rusqlite::Connection) -> (r: Result<Tables, StoreError>)
    ensures
        r matches Err(e) ==> e@ is StorageUnavailable,
        r matches Ok(tables) ==> tables@.wf(),
{
    let users = match read(conn, "SELECT name, email FROM users ORDER BY rowid", 2) {
        Ok(rows) => rows,
        Err(e) => {
            return Err(e);
        },
    };
    let selection = match read(conn, "SELECT name FROM selected_user WHERE id = 1", 1) {
        Ok(rows) => rows,
        Err(e) => {
            return Err(e);
        },
    };
    assemble(&users, &selection)
}

/// The identity store: the two tables in memory, and the database that keeps
/// them. Every change is written to the database before the tables follow it,
/// so that a change that an operation reports is one that the database holds.
/// The tables are read once, when the store is opened: the store takes it that
/// nothing else writes to the database while it is open.
pub struct IdentityStore {
    conn: rusqlite::Connection,
    tables: Tables,
}

impl View for IdentityStore {
    type V = StoreView;

    closed spec fn view(&self) -> StoreView {
        self.tables@
    }
}

/// Opens the storage at `path`, creating the database and its two tables where
/// they are missing, and reads what it holds. Fails with `StorageUnavailable`
/// where the database cannot be opened or read, or where what it holds is not
/// a store; a path that holds a NUL character names no file, and always fails.
pub fn create_connection(path: &str) -> (r: Result<IdentityStore, StoreError>)
    ensures
        r matches Err(e) ==> e@ is StorageUnavailable,
        r matches Ok(store) ==> store@.wf(),
        path@.contains('\0') ==> r is Err,
{
    let conn = match answered(open_database(path)) {
        Ok(conn) => conn,
        Err(e) => {
            return Err(e);
        },
    };
    let none: Vec<String> = Vec::new();
    match run(
        &conn,
        "CREATE TABLE IF NOT EXISTS users (
            name TEXT PRIMARY KEY,
            email TEXT NOT NULL
        )",
        &none,
    ) {
        Ok(_) => {},
        Err(e) => {
            return Err(e);
        },
    }
    match run(
        &conn,
        "CREATE TABLE IF NOT EXISTS selected_user (
            id INTEGER PRIMARY KEY CHECK (id = 1),
            name TEXT NOT NULL
        )",
        &none,
    ) {
        Ok(_) => {},
        Err(e) => {
            return Err(e);
        },
    }
    match load(&conn) {
        Ok(tables) => Ok(IdentityStore { conn, tables }),
        Err(e) => Err(e),
    }
}

/// All stored identities, in the order in which they were added.
pub fn list_users(store: &IdentityStore) -> (users: Vec<GitUser>)
    ensures
        views_of(users@) == store@.users,
        store@.wf(),
{
    proof {
        use_type_invariant(&store.tables);
    }
    store.tables.list_identities()
}

/// Adds the identity `name`, `email`. Fails with `InvalidArgument` where the
/// name or the email is empty, and with `DuplicateName` where the name is
/// taken; the store is then unchanged.
pub fn add_user(store: &mut IdentityStore, name: &str, email: &str) -> (r: Result<
    GitUser,
    StoreError,
>)
    ensures
        final(store)@.wf(),
        written_through(
            user_outcome(r),
            final(store)@,
            add_outcome(old(store)@, name@, email@),
            old(store)@,
            after_add(old(store)@, name@, email@),
        ),
{
    proof {
        use_type_invariant(&store.tables);
    }
    match plan_add(&store.tables, name, email) {
        Err(e) => Err(e),
        Ok((user, changes)) => {
            proof {
                law_add_changes(old(store)@, name@, email@);
            }
            let written = persist(&store.conn, &changes);
            settle(&mut store.tables, &changes, user, written)
        },
    }
}

/// Removes the identity called `name`, and clears the selection where it was
/// selected; the flag says whether it was. Fails with `NotFound` where no such
/// identity is stored; the store is then unchanged.
pub fn remove_user(store: &mut IdentityStore, name: &str) -> (r: Result<bool, StoreError>)
    ensures
        final(store)@.wf(),
        written_through(
            flag_outcome(r),
            final(store)@,
            remove_outcome(old(store)@, name@),
            old(store)@,
            after_remove(old(store)@, name@),
        ),
{
    proof {
        use_type_invariant(&store.tables);
    }
    match plan_remove(&store.tables, name) {
        Err(e) => Err(e),
        Ok((cleared, changes)) => {
            proof {
                law_remove_changes(old(store)@, name@);
            }
            let written = persist(&store.conn, &changes);
            settle(&mut store.tables, &changes, cleared, written)
        },
    }
}

/// Selects the identity called `name` and answers it, for the caller to hand
/// to the external configuration. Fails with `NotFound` where no such identity
/// is stored; the store is then unchanged.
pub fn select_user(store: &mut IdentityStore, name: &str) -> (r: Result<GitUser, StoreError>)
    ensures
        final(store)@.wf(),
        written_through(
            user_outcome(r),
            final(store)@,
            select_outcome(old(store)@, name@),
            old(store)@,
            after_select(old(store)@, name@),
        ),
{
    proof {
        use_type_invariant(&store.tables);
    }
    match plan_select(&store.tables, name) {
        Err(e) => Err(e),
        Ok((user, changes)) => {
            proof {
                law_select_changes(old(store)@, name@);
            }
            let written = persist(&store.conn, &changes);
            settle(&mut store.tables, &changes, user, written)
        },
    }
}

/// The selected identity. Fails with `NoSelection` where nothing is selected,
/// and with `DanglingSelection` where the selected name is not stored.
pub fn status(store: &IdentityStore) -> (r: Result<GitUser, StoreError>)
    ensures
        user_outcome(r) == status_outcome(store@),
        store@.wf(),
{
    proof {
        use_type_invariant(&store.tables);
    }
    current(&store.tables)
}

} // verus!

//! The storage accessor: the five statements the service sends to the users
//! table, and the shape of what the table sends back.
//!
//! The table is `users(id PRIMARY KEY, email, phone, created_at)`. The
//! functions here build statements; running them is the caller's part.

use vstd::prelude::*;

verus! {

/// Text of the statement that lists every user, newest first.
pub const SELECT_ALL: &'static str = "SELECT * FROM users ORDER BY created_at DESC";

/// Text of the statement that fetches the user with a given id.
pub const SELECT_BY_ID: &'static str = "SELECT * FROM users where id = ?";

/// Text of the statement that inserts a user and returns the new row.
pub const INSERT: &'static str = "INSERT INTO users (email, phone) VALUES ($1, $2) returning *";

/// Text of the statement that replaces a user's phone and email and returns
/// the updated row.
pub const UPDATE: &'static str =
    "UPDATE users SET phone = $1, email = $2 where id = $3 returning *";

/// Text of the statement that removes a user and returns the removed row.
pub const DELETE: &'static str = "DELETE from users WHERE id = $1 returning *";

/// The view of an optional text: the characters, where there are any.
pub open spec fn optional_text<T: View>(text: Option<T>) -> Option<T::V> {
    match text {
        Some(t) => Some(t@),
        None => None,
    }
}

/// One parameterized SQL statement: its text, and the values bound to its
/// placeholders in the order of binding. A `None` binds SQL `NULL`.
#[derive(Clone, Debug, PartialEq, Eq)]
pub struct Statement {
    pub sql: String,
    pub binds: Vec<Option<String>>,
}

/// The mathematical value of a [`Statement`].
pub struct StatementView {
    pub sql: Seq<char>,
    pub binds: Seq<Option<Seq<char>>>,
}

impl View for Statement {
    type V = StatementView;

    open spec fn view(&self) -> StatementView {
        StatementView {
            sql: self.sql@,
            binds: Seq::new(self.binds@.len(), |i: int| optional_text(self.binds@[i])),
        }
    }
}

/// A row of the users table as it is stored: `created_at` is the stored
/// text, or `None` where the column is absent or `NULL`.
#[derive(Clone, Debug, PartialEq, Eq)]
pub struct UserRow {
    pub id: i32,
    pub email: String,
    pub phone: String,
    pub created_at: Option<String>,
}

/// The mathematical value of a [`UserRow`].
pub struct UserRowView {
    pub id: i32,
    pub email: Seq<char>,
    pub phone: Seq<char>,
    pub created_at: Option<Seq<char>>,
}

impl View for UserRow {
    type V = UserRowView;

    open spec fn view(&self) -> UserRowView {
        UserRowView {
            id: self.id,
            email: self.email@,
            phone: self.phone@,
            created_at: optional_text(self.created_at),
        }
    }
}

/// Why the table gave no row.
#[derive(Clone, Debug, PartialEq, Eq)]
pub enum StorageError {
    /// No row matches the statement.
    NotFound,
    /// Any other failure of the connection or the query, with the
    /// diagnostic text that the storage client gave.
    Failure(String),
}

/// The mathematical value of a [`StorageError`].
pub enum StorageErrorView {
    NotFound,
    Failure(Seq<char>),
}

impl StorageErrorView {
    /// The diagnostic text of the error: the storage client's name for a
    /// missing row, or the text of the failure.
    pub open spec fn description(self) -> Seq<char> {
        match self {
            StorageErrorView::NotFound => "RowNotFound"@,
            StorageErrorView::Failure(detail) => detail,
        }
    }
}

impl View for StorageError {
    type V = StorageErrorView;

    open spec fn view(&self) -> StorageErrorView {
        match self {
            StorageError::NotFound => StorageErrorView::NotFound,
            StorageError::Failure(detail) => StorageErrorView::Failure(detail@),
        }
    }
}

impl StorageError {
    /// The diagnostic text of the error.
    pub fn describe(&self) -> (text: String)
        ensures
            text@ == self@.description(),
    {
        match self {
            StorageError::NotFound => "RowNotFound".to_owned(),
            StorageError::Failure(detail) => detail.clone(),
        }
    }
}

/// What the table answers to a statement that fetches one row.
pub type QueryResult = Result<UserRow, StorageError>;

/// What the table answers to a statement that fetches every row.
pub type QueryResults = Result<Vec<UserRow>, StorageError>;

/// The mathematical value of a [`QueryResult`].
pub type RowOutcome = Result<UserRowView, StorageErrorView>;

/// The mathematical value of a [`QueryResults`].
pub type RowsOutcome = Result<Seq<UserRowView>, StorageErrorView>;

/// The views of the rows of `rows`, in the same order.
pub open spec fn rows_view(rows: Seq<UserRow>) -> Seq<UserRowView> {
    Seq::new(rows.len(), |i: int| rows[i]@)
}

/// The view of a [`QueryResult`].
pub open spec fn row_outcome(result: QueryResult) -> RowOutcome {
    match result {
        Ok(row) => Ok(row@),
        Err(error) => Err(error@),
    }
}

/// The view of a [`QueryResults`].
pub open spec fn rows_outcome(result: QueryResults) -> RowsOutcome {
    match result {
        Ok(rows) => Ok(rows_view(rows@)),
        Err(error) => Err(error@),
    }
}

/// The statement that lists every user: no binds, newest `created_at`
/// first.
pub open spec fn get_all_statement() -> StatementView {
    StatementView { sql: SELECT_ALL@, binds: seq![] }
}

/// The statement that fetches the user `id`.
pub open spec fn get_by_id_statement(id: Seq<char>) -> StatementView {
    StatementView { sql: SELECT_BY_ID@, binds: seq![Some(id)] }
}

/// The statement that inserts a user: `email` is bound first, `phone`
/// second.
pub open spec fn create_statement(
    email: Option<Seq<char>>,
    phone: Option<Seq<char>>,
) -> StatementView {
    StatementView { sql: INSERT@, binds: seq![email, phone] }
}

/// The statement that updates the user `id`: `phone` is bound first,
/// `email` second, `id` third, as the placeholders of [`UPDATE`] stand.
pub open spec fn update_statement(
    id: Seq<char>,
    email: Option<Seq<char>>,
    phone: Option<Seq<char>>,
) -> StatementView {
    StatementView { sql: UPDATE@, binds: seq![phone, email, Some(id)] }
}

/// The statement that removes the user `id`.
pub open spec fn delete_statement(id: Seq<char>) -> StatementView {
    StatementView { sql: DELETE@, binds: seq![Some(id)] }
}

fn owned(text: Option<&String>) -> (copy: Option<String>)
    ensures
        optional_text(copy) == optional_text(text),
{
    match text {
        Some(t) => Some(t.clone()),
        None => None,
    }
}

/// Builds the statement that lists every user, newest first.
pub fn get_all() -> (statement: Statement)
    ensures
        statement@ == get_all_statement(),
{
    let statement = Statement { sql: SELECT_ALL.to_owned(), binds: Vec::new() };
    assert(statement@.binds =~= seq![]);
    statement
}

/// Builds the statement that fetches the user `id`.
pub fn get_by_id(id: String) -> (statement: Statement)
    ensures
        statement@ == get_by_id_statement(id@),
{
    let mut binds: Vec<Option<String>> = Vec::new();
    binds.push(Some(id));
    let statement = Statement { sql: SELECT_BY_ID.to_owned(), binds };
    assert(statement@.binds =~= seq![Some(id@)]);
    statement
}

/// Builds the statement that inserts a user with `email` and `phone`.
pub fn create(email: Option<&String>, phone: Option<&String>) -> (statement: Statement)
    ensures
        statement@ == create_statement(optional_text(email), optional_text(phone)),
{
    let mut binds: Vec<Option<String>> = Vec::new();
    binds.push(owned(email));
    binds.push(owned(phone));
    let statement = Statement { sql: INSERT.to_owned(), binds };
    assert(statement@.binds =~= seq![optional_text(email), optional_text(phone)]);
    statement
}

/// Builds the statement that replaces the email and phone of the user `id`.
pub fn update(id: String, email: Option<&String>, phone: Option<&String>) -> (statement: Statement)
    ensures
        statement@ == update_statement(id@, optional_text(email), optional_text(phone)),
{
    let mut binds: Vec<Option<String>> = Vec::new();
    binds.push(owned(phone));
    binds.push(owned(email));
    binds.push(Some(id));
    let statement = Statement { sql: UPDATE.to_owned(), binds };
    assert(statement@.binds =~= seq![optional_text(phone), optional_text(email), Some(id@)]);
    statement
}

/// Builds the statement that removes the user `id`.
pub fn delete(id: String) -> (statement: Statement)
    ensures
        statement@ == delete_statement(id@),
{
    let mut binds: Vec<Option<String>> = Vec::new();
    binds.push(Some(id));
    let statement = Statement { sql: DELETE.to_owned(), binds };
    assert(statement@.binds =~= seq![Some(id@)]);
    statement
}

} // verus!

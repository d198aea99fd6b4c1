//! The row mapper and the five request handlers.
//!
//! A handler is called twice at most for one request. Called with no
//! outcome, it validates the request and answers with the statement to run
//! or, where the request is refused, with the response. Called with the
//! outcome of that statement, it answers with the response.

use crate::models::user_model;
use crate::models::user_model::{
    create_statement, delete_statement, get_all_statement, get_by_id_statement, row_outcome,
    rows_outcome, rows_view, update_statement, QueryResult, QueryResults, RowOutcome,
    RowsOutcome, StatementView, StorageError, StorageErrorView, UserRow, UserRowView,
};
use crate::services::response::{
    users_view, Body, BodyView, Response, ResponseView, Status, Step, StepView,
};
use crate::services::route::{routes_view, Endpoint, Method, Route, RouteView};
use crate::types::timestamp::{naive_date_time_parsed, parse_naive_date_time, Timestamp};
use crate::types::types::{User, UserForm, UserFormView, UserView};
use vstd::prelude::*;
use vstd::string::*;

verus! {

/// The strftime pattern in which `created_at` is stored.
pub const CREATED_AT_FORMAT: &'static str = "%Y-%m-%d %H:%M:%S";

/// Message of the response to a form without an email.
pub const MISSING_EMAIL: &'static str = "Missing user email";

/// Message of the response to a form without a phone.
pub const MISSING_PHONE: &'static str = "Missing user phone";

/// Path of the collection of users.
pub const USERS_PATH: &'static str = "/users";

/// Path of one user; `{id}` is the path parameter that the handlers take
/// as `id`.
pub const USER_PATH: &'static str = "/users/{id}";

/// The user made of the id, email and phone of `row` and of `created_at`.
pub open spec fn user_of(row: UserRowView, created_at: Option<Timestamp>) -> UserView {
    UserView { id: row.id, email: row.email, phone: row.phone, created_at }
}

/// The creation time of `row`: what its stored text reads as under
/// [`CREATED_AT_FORMAT`], and `None` where the text is missing or does not
/// read as a timestamp.
pub open spec fn created_at_of(row: UserRowView) -> Option<Timestamp> {
    match row.created_at {
        Some(text) => naive_date_time_parsed(text, CREATED_AT_FORMAT@),
        None => None,
    }
}

/// The user that `row` stands for.
pub open spec fn serialized(row: UserRowView) -> UserView {
    user_of(row, created_at_of(row))
}

/// The users that `rows` stand for, in the same order.
pub open spec fn serialized_all(rows: Seq<UserRowView>) -> Seq<UserView> {
    Seq::new(rows.len(), |i: int| serialized(rows[i]))
}

/// Makes a user of a row's id, email and phone and of a creation time that
/// has been read already.
pub fn user_from_row(row: UserRow, created_at: Option<Timestamp>) -> (user: User)
    ensures
        user@ == user_of(row@, created_at),
{
    User { id: row.id, email: row.email, phone: row.phone, created_at }
}

/// Maps a stored row to a user. A creation time that is missing or does not
/// read as a timestamp becomes `None`; it is never an error.
pub fn serialize_user(row: UserRow) -> (user: User)
    ensures
        user@ == serialized(row@),
{
    let created_at = match &row.created_at {
        Some(text) => parse_naive_date_time(text.as_str(), CREATED_AT_FORMAT),
        None => None,
    };
    user_from_row(row, created_at)
}

fn message(status: Status, text: String) -> (response: Response)
    ensures
        response@ == ResponseView::message(status, text@),
{
    Response { status, body: Body::Message(text) }
}

fn failure(prefix: &str, error: &StorageError) -> (response: Response)
    ensures
        response@ == ResponseView::message(Status::ServerError, prefix@ + error@.description()),
{
    let detail = error.describe();
    message(Status::ServerError, String::from_str(prefix).concat(detail.as_str()))
}

fn show(row: UserRow) -> (response: Response)
    ensures
        response@ == ResponseView::user(serialized(row@)),
{
    Response { status: Status::Success, body: Body::User(serialize_user(row)) }
}

/// The view of what a handler is told of a statement that fetches one row.
pub open spec fn row_event(event: Option<QueryResult>) -> Option<RowOutcome> {
    match event {
        Some(result) => Some(row_outcome(result)),
        None => None,
    }
}

/// The view of what a handler is told of a statement that fetches every
/// row.
pub open spec fn rows_event(event: Option<QueryResults>) -> Option<RowsOutcome> {
    match event {
        Some(result) => Some(rows_outcome(result)),
        None => None,
    }
}

/// `GET /users`: list the users. The rows are shown in the order in which
/// the table gave them; a storage failure is a server error.
pub open spec fn get_all_users_step(event: Option<RowsOutcome>) -> StepView {
    match event {
        None => StepView::Query(get_all_statement()),
        Some(Ok(rows)) => StepView::Respond(ResponseView::users(serialized_all(rows))),
        Some(Err(error)) => StepView::Respond(
            ResponseView::message(
                Status::ServerError,
                "failed to fetch users: "@ + error.description(),
            ),
        ),
    }
}

/// `GET /users/{id}`: show one user. Any failure of the lookup, a missing
/// row or another, is answered as not found.
pub open spec fn get_single_user_step(id: Seq<char>, event: Option<RowOutcome>) -> StepView {
    match event {
        None => StepView::Query(get_by_id_statement(id)),
        Some(Ok(row)) => StepView::Respond(ResponseView::user(serialized(row))),
        Some(Err(_)) => StepView::Respond(
            ResponseView::message(Status::NotFound, "User "@ + id + " does not exist"@),
        ),
    }
}

/// The refusal of a form that lacks a required field: the email is looked
/// at before the phone. `None` for a complete form.
pub open spec fn refusal(form: UserFormView) -> Option<ResponseView> {
    if form.email is None {
        Some(ResponseView::message(Status::BadRequest, MISSING_EMAIL@))
    } else if form.phone is None {
        Some(ResponseView::message(Status::BadRequest, MISSING_PHONE@))
    } else {
        None
    }
}

/// `POST /users`: create a user. An incomplete form is refused before the
/// table is asked; a storage failure is a server error.
pub open spec fn create_user_step(form: UserFormView, event: Option<RowOutcome>) -> StepView {
    match refusal(form) {
        Some(response) => StepView::Respond(response),
        None => match event {
            None => StepView::Query(create_statement(form.email, form.phone)),
            Some(Ok(row)) => StepView::Respond(ResponseView::user(serialized(row))),
            Some(Err(error)) => StepView::Respond(
                ResponseView::message(
                    Status::ServerError,
                    "FAILED to create user: "@ + error.description(),
                ),
            ),
        },
    }
}

/// `PUT /users/{id}`: replace a user's email and phone. An incomplete form
/// is refused before the table is asked; a storage failure, a missing row
/// among them, is a server error.
pub open spec fn update_user_step(
    id: Seq<char>,
    form: UserFormView,
    event: Option<RowOutcome>,
) -> StepView {
    match refusal(form) {
        Some(response) => StepView::Respond(response),
        None => match event {
            None => StepView::Query(update_statement(id, form.email, form.phone)),
            Some(Ok(row)) => StepView::Respond(ResponseView::user(serialized(row))),
            Some(Err(error)) => StepView::Respond(
                ResponseView::message(
                    Status::ServerError,
                    "FAILED to update user: "@ + error.description(),
                ),
            ),
        },
    }
}

/// `DELETE /users/{id}`: remove a user and show what was removed. A storage
/// failure, a missing row among them, is a server error.
pub open spec fn delete_user_step(id: Seq<char>, event: Option<RowOutcome>) -> StepView {
    match event {
        None => StepView::Query(delete_statement(id)),
        Some(Ok(row)) => StepView::Respond(ResponseView::user(serialized(row))),
        Some(Err(error)) => StepView::Respond(
            ResponseView::message(
                Status::ServerError,
                "FAILED to delete user: "@ + error.description(),
            ),
        ),
    }
}

/// Handles `GET /users`.
pub fn get_all_users(event: Option<QueryResults>) -> (step: Step)
    ensures
        step@ == get_all_users_step(rows_event(event)),
{
    match event {
        None => Step::Query(user_model::get_all()),
        Some(Ok(rows)) => {
            let mut users_arr: Vec<User> = Vec::new();
            let ghost stored = rows@;
            for row in it: rows
                invariant
                    it.seq() == stored,
                    users_arr@.len() == it.index(),
                    forall|j: int|
                        0 <= j < users_arr@.len() ==> (#[trigger] users_arr@[j])@ == serialized(
                            stored[j]@,
                        ),
            {
                users_arr.push(serialize_user(row));
            }
            assert(users_view(users_arr@) =~= serialized_all(rows_view(stored)));
            Step::Respond(Response { status: Status::Success, body: Body::Users(users_arr) })
        },
        Some(Err(error)) => Step::Respond(failure("failed to fetch users: ", &error)),
    }
}

/// Handles `GET /users/{id}`.
pub fn get_single_user(id: &str, event: Option<QueryResult>) -> (step: Step)
    ensures
        step@ == get_single_user_step(id@, row_event(event)),
{
    match event {
        None => Step::Query(user_model::get_by_id(id.to_owned())),
        Some(Ok(row)) => Step::Respond(show(row)),
        Some(Err(_)) => {
            let text = String::from_str("User ").concat(id).concat(" does not exist");
            Step::Respond(message(Status::NotFound, text))
        },
    }
}

/// Handles `POST /users`.
pub fn create_user(new_user: &UserForm, event: Option<QueryResult>) -> (step: Step)
    ensures
        step@ == create_user_step(new_user@, row_event(event)),
{
    if new_user.email.is_none() {
        return Step::Respond(message(Status::BadRequest, MISSING_EMAIL.to_owned()));
    }
    if new_user.phone.is_none() {
        return Step::Respond(message(Status::BadRequest, MISSING_PHONE.to_owned()));
    }
    match event {
        None => Step::Query(
            user_model::create(new_user.email.as_ref(), new_user.phone.as_ref()),
        ),
        Some(Ok(row)) => Step::Respond(show(row)),
        Some(Err(error)) => Step::Respond(failure("FAILED to create user: ", &error)),
    }
}

/// Handles `PUT /users/{id}`.
pub fn update_user(id: &str, updated_user: &UserForm, event: Option<QueryResult>) -> (step: Step)
    ensures
        step@ == update_user_step(id@, updated_user@, row_event(event)),
{
    if updated_user.email.is_none() {
        return Step::Respond(message(Status::BadRequest, MISSING_EMAIL.to_owned()));
    }
    if updated_user.phone.is_none() {
        return Step::Respond(message(Status::BadRequest, MISSING_PHONE.to_owned()));
    }
    match event {
        None => Step::Query(
            user_model::update(
                id.to_owned(),
                updated_user.email.as_ref(),
                updated_user.phone.as_ref(),
            ),
        ),
        Some(Ok(row)) => Step::Respond(show(row)),
        Some(Err(error)) => Step::Respond(failure("FAILED to update user: ", &error)),
    }
}

/// Handles `DELETE /users/{id}`.
pub fn delete_user(id: &str, event: Option<QueryResult>) -> (step: Step)
    ensures
        step@ == delete_user_step(id@, row_event(event)),
{
    match event {
        None => Step::Query(user_model::delete(id.to_owned())),
        Some(Ok(row)) => Step::Respond(show(row)),
        Some(Err(error)) => Step::Respond(failure("FAILED to delete user: ", &error)),
    }
}

/// The routing table: on the collection, `POST` creates and `GET` lists; on
/// one user, `GET` shows, `PUT` updates and `DELETE` removes.
pub open spec fn user_routes() -> Seq<RouteView> {
    seq![
        RouteView { method: Method::Post, path: USERS_PATH@, endpoint: Endpoint::CreateUser },
        RouteView { method: Method::Get, path: USERS_PATH@, endpoint: Endpoint::ListUsers },
        RouteView { method: Method::Get, path: USER_PATH@, endpoint: Endpoint::GetUser },
        RouteView { method: Method::Put, path: USER_PATH@, endpoint: Endpoint::UpdateUser },
        RouteView { method: Method::Delete, path: USER_PATH@, endpoint: Endpoint::DeleteUser },
    ]
}

/// Builds the routing table, in the order in which the bindings are to be
/// registered.
pub fn init_user_routes() -> (routes: Vec<Route>)
    ensures
        routes_view(routes@) == user_routes(),
{
    let mut routes: Vec<Route> = Vec::new();
    routes.push(
        Route { method: Method::Post, path: USERS_PATH.to_owned(), endpoint: Endpoint::CreateUser },
    );
    routes.push(
        Route { method: Method::Get, path: USERS_PATH.to_owned(), endpoint: Endpoint::ListUsers },
    );
    routes.push(
        Route { method: Method::Get, path: USER_PATH.to_owned(), endpoint: Endpoint::GetUser },
    );
    routes.push(
        Route { method: Method::Put, path: USER_PATH.to_owned(), endpoint: Endpoint::UpdateUser },
    );
    routes.push(
        Route {
            method: Method::Delete,
            path: USER_PATH.to_owned(),
            endpoint: Endpoint::DeleteUser,
        },
    );
    assert(routes_view(routes@) =~= user_routes());
    routes
}

/// Every handler is bound exactly once, and no verb is bound twice on one
/// path: a request matches one binding at most.
pub proof fn routes_are_unambiguous()
    ensures
        user_routes().len() == 5,
        forall|i: int, j: int|
            0 <= i < j < 5 ==> user_routes()[i].endpoint != user_routes()[j].endpoint,
        forall|i: int, j: int|
            0 <= i < j < 5 ==> !(user_routes()[i].method == user_routes()[j].method
                && user_routes()[i].path == user_routes()[j].path),
{
    reveal_strlit("/users");
    reveal_strlit("/users/{id}");
    assert(USERS_PATH@.len() != USER_PATH@.len());
}

/// `text` holds `word` as a run of consecutive characters.
pub open spec fn mentions(text: Seq<char>, word: Seq<char>) -> bool {
    exists|i: int|
        0 <= i && i + word.len() <= text.len() && #[trigger] text.subrange(i, i + word.len())
            == word
}

/// Once the table has answered, every handler responds: no request takes
/// more than one statement.
pub proof fn one_statement_per_request(
    id: Seq<char>,
    form: UserFormView,
    rows: RowsOutcome,
    row: RowOutcome,
)
    ensures
        get_all_users_step(Some(rows)) is Respond,
        get_single_user_step(id, Some(row)) is Respond,
        create_user_step(form, Some(row)) is Respond,
        update_user_step(id, form, Some(row)) is Respond,
        delete_user_step(id, Some(row)) is Respond,
{
}

/// A create or update request whose form lacks a field is refused with
/// status 400 before the table is asked and whatever the table said. The
/// message names the email where the email is missing, and the phone where
/// the email is there and the phone is missing.
pub proof fn incomplete_form_is_bad_request(
    id: Seq<char>,
    form: UserFormView,
    event: Option<RowOutcome>,
)
    requires
        !form.is_complete(),
    ensures
        update_user_step(id, form, event) == create_user_step(form, event),
        ({
            &&& create_user_step(form, event) matches StepView::Respond(response)
            &&& response.status == Status::BadRequest
            &&& response.status.code_of() == 400
            &&& response.body matches BodyView::Message(text)
            &&& form.email is None ==> mentions(text, "email"@)
            &&& form.email is Some ==> mentions(text, "phone"@)
        }),
{
    reveal_strlit("Missing user email");
    reveal_strlit("Missing user phone");
    reveal_strlit("email");
    reveal_strlit("phone");
    if form.email is None {
        assert(MISSING_EMAIL@.subrange(13int, 13int + "email"@.len()) =~= "email"@);
    } else {
        assert(MISSING_PHONE@.subrange(13int, 13int + "phone"@.len()) =~= "phone"@);
    }
}

/// A complete form is answered with the insert statement that binds its
/// email and its phone, in this order. When the table returns the inserted
/// row, which holds that email and that phone, the response is a success
/// that shows a user with the id of that row and the email and phone of the
/// form.
pub proof fn create_shows_inserted_user(form: UserFormView, row: UserRowView)
    requires
        form.is_complete(),
        form.email == Some(row.email),
        form.phone == Some(row.phone),
    ensures
        create_user_step(form, None) == StepView::Query(
            StatementView { sql: user_model::INSERT@, binds: seq![form.email, form.phone] },
        ),
        ({
            &&& create_user_step(form, Some(Ok(row))) matches StepView::Respond(response)
            &&& response.status == Status::Success
            &&& response.body matches BodyView::User(user)
            &&& user.id == row.id
            &&& form.email == Some(user.email)
            &&& form.phone == Some(user.phone)
        }),
{
}

/// A row is shown as the same user by every handler that shows one row:
/// what a lookup shows of a row is what the creation, the update or the
/// removal that returned this row showed, id, email, phone and creation
/// time.
pub proof fn same_row_same_user(
    id: Seq<char>,
    other_id: Seq<char>,
    form: UserFormView,
    row: UserRowView,
)
    requires
        form.is_complete(),
    ensures
        get_single_user_step(id, None) == StepView::Query(
            StatementView { sql: user_model::SELECT_BY_ID@, binds: seq![Some(id)] },
        ),
        get_single_user_step(id, Some(Ok(row))) == StepView::Respond(
            ResponseView::user(serialized(row)),
        ),
        create_user_step(form, Some(Ok(row))) == get_single_user_step(id, Some(Ok(row))),
        update_user_step(other_id, form, Some(Ok(row))) == get_single_user_step(
            id,
            Some(Ok(row)),
        ),
        delete_user_step(other_id, Some(Ok(row))) == get_single_user_step(id, Some(Ok(row))),
        serialized(row).id == row.id,
        serialized(row).email == row.email,
        serialized(row).phone == row.phone,
{
}

/// A complete form is answered with the update statement that sets phone
/// and email and nothing else, for the row whose id is bound last. When the
/// table returns the updated row, which holds the email and phone of the
/// form, the response is a success that shows a user with the id and the
/// creation time of that row and the email and phone of the form.
pub proof fn update_shows_updated_user(id: Seq<char>, form: UserFormView, row: UserRowView)
    requires
        form.is_complete(),
        form.email == Some(row.email),
        form.phone == Some(row.phone),
    ensures
        update_user_step(id, form, None) == StepView::Query(
            StatementView {
                sql: user_model::UPDATE@,
                binds: seq![form.phone, form.email, Some(id)],
            },
        ),
        ({
            &&& update_user_step(id, form, Some(Ok(row))) matches StepView::Respond(response)
            &&& response.status == Status::Success
            &&& response.body matches BodyView::User(user)
            &&& user.id == row.id
            &&& user.created_at == created_at_of(row)
            &&& form.email == Some(user.email)
            &&& form.phone == Some(user.phone)
        }),
{
}

/// A removal is answered with the delete statement for the id, and shows
/// the row that the table returned as removed. A lookup that the table
/// answers with an error, a missing row or any other, is answered with
/// status 404 and a message that holds the id.
pub proof fn delete_shows_removed_user_and_failed_lookup_is_not_found(
    id: Seq<char>,
    row: UserRowView,
    error: StorageErrorView,
)
    ensures
        delete_user_step(id, None) == StepView::Query(
            StatementView { sql: user_model::DELETE@, binds: seq![Some(id)] },
        ),
        delete_user_step(id, Some(Ok(row))) == StepView::Respond(
            ResponseView::user(serialized(row)),
        ),
        ({
            &&& get_single_user_step(id, Some(Err(error))) matches StepView::Respond(response)
            &&& response.status == Status::NotFound
            &&& response.status.code_of() == 404
            &&& response.body matches BodyView::Message(text)
            &&& mentions(text, id)
        }),
{
    let text = "User "@ + id + " does not exist"@;
    reveal_strlit("User ");
    assert(text.subrange(5int, 5int + id.len()) =~= id);
}

/// The list statement asks for the rows newest first, and the response
/// shows one user for each row that the table gave, in the table's order.
pub proof fn list_keeps_the_order_of_the_rows(rows: Seq<UserRowView>)
    ensures
        get_all_users_step(None) == StepView::Query(
            StatementView { sql: user_model::SELECT_ALL@, binds: seq![] },
        ),
        ({
            &&& get_all_users_step(Some(Ok(rows))) matches StepView::Respond(response)
            &&& response.status == Status::Success
            &&& response.body matches BodyView::Users(users)
            &&& users.len() == rows.len()
            &&& forall|i: int| 0 <= i < rows.len() ==> #[trigger] users[i] == serialized(rows[i])
        }),
{
}

/// A storage failure of a list, a creation, an update or a removal is
/// answered with status 500, and the message ends with the diagnostic text
/// of the failure.
pub proof fn storage_failure_is_server_error(
    id: Seq<char>,
    form: UserFormView,
    error: StorageErrorView,
)
    requires
        form.is_complete(),
    ensures
        failed_with(get_all_users_step(Some(Err(error))), error),
        failed_with(create_user_step(form, Some(Err(error))), error),
        failed_with(update_user_step(id, form, Some(Err(error))), error),
        failed_with(delete_user_step(id, Some(Err(error))), error),
{
    let detail = error.description();
    assert forall|prefix: Seq<char>| #[trigger]
        (prefix + detail).subrange(prefix.len() as int, (prefix + detail).len() as int)
            == detail by {
        assert((prefix + detail).subrange(prefix.len() as int, (prefix + detail).len() as int)
            =~= detail);
    }
}

/// `step` is a response with status 500 whose message ends with the
/// diagnostic text of `error`.
pub open spec fn failed_with(step: StepView, error: StorageErrorView) -> bool {
    &&& step matches StepView::Respond(response)
    &&& response.status == Status::ServerError
    &&& response.status.code_of() == 500
    &&& response.body matches BodyView::Message(text)
    &&& error.description().len() <= text.len()
    &&& text.subrange(text.len() - error.description().len(), text.len() as int)
        == error.description()
}

} // verus!

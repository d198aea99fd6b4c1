//! What a handler hands back: a response to send, or a statement to run
//! first.

use crate::models::user_model::{Statement, StatementView};
use crate::types::types::{User, UserView};
use vstd::prelude::*;

verus! {

/// The status of a response.
#[derive(Clone, Copy, Debug, PartialEq, Eq, Structural)]
pub enum Status {
    /// 200
    Success,
    /// 400
    BadRequest,
    /// 404
    NotFound,
    /// 500
    ServerError,
}

impl Status {
    /// The HTTP status code.
    pub open spec fn code_of(self) -> u16 {
        match self {
            Status::Success => 200,
            Status::BadRequest => 400,
            Status::NotFound => 404,
            Status::ServerError => 500,
        }
    }

    /// The HTTP status code.
    pub fn code(&self) -> (code: u16)
        ensures
            code == self.code_of(),
    {
        match self {
            Status::Success => 200,
            Status::BadRequest => 400,
            Status::NotFound => 404,
            Status::ServerError => 500,
        }
    }
}

/// The body of a response, before it is written as JSON: one user, a list
/// of users, or a message.
#[derive(Clone, Debug, PartialEq, Eq)]
pub enum Body {
    User(User),
    Users(Vec<User>),
    Message(String),
}

/// The mathematical value of a [`Body`].
pub enum BodyView {
    User(UserView),
    Users(Seq<UserView>),
    Message(Seq<char>),
}

/// The views of the users of `users`, in the same order.
pub open spec fn users_view(users: Seq<User>) -> Seq<UserView> {
    Seq::new(users.len(), |i: int| users[i]@)
}

impl View for Body {
    type V = BodyView;

    open spec fn view(&self) -> BodyView {
        match self {
            Body::User(user) => BodyView::User(user@),
            Body::Users(users) => BodyView::Users(users_view(users@)),
            Body::Message(text) => BodyView::Message(text@),
        }
    }
}

/// A response: its status and its body.
#[derive(Clone, Debug, PartialEq, Eq)]
pub struct Response {
    pub status: Status,
    pub body: Body,
}

/// The mathematical value of a [`Response`].
pub struct ResponseView {
    pub status: Status,
    pub body: BodyView,
}

impl View for Response {
    type V = ResponseView;

    open spec fn view(&self) -> ResponseView {
        ResponseView { status: self.status, body: self.body@ }
    }
}

impl ResponseView {
    /// The response with `status` whose body is the message `text`.
    pub open spec fn message(status: Status, text: Seq<char>) -> ResponseView {
        ResponseView { status, body: BodyView::Message(text) }
    }

    /// The successful response that shows `user`.
    pub open spec fn user(user: UserView) -> ResponseView {
        ResponseView { status: Status::Success, body: BodyView::User(user) }
    }

    /// The successful response that lists `users`.
    pub open spec fn users(users: Seq<UserView>) -> ResponseView {
        ResponseView { status: Status::Success, body: BodyView::Users(users) }
    }
}

/// What a handler asks of its caller.
#[derive(Clone, Debug, PartialEq, Eq)]
pub enum Step {
    /// Run this statement against the users table and call the handler
    /// again with the outcome.
    Query(Statement),
    /// Send this response; the request is done.
    Respond(Response),
}

/// The mathematical value of a [`Step`].
pub enum StepView {
    Query(StatementView),
    Respond(ResponseView),
}

impl View for Step {
    type V = StepView;

    open spec fn view(&self) -> StepView {
        match self {
            Step::Query(statement) => StepView::Query(statement@),
            Step::Respond(response) => StepView::Respond(response@),
        }
    }
}

} // verus!

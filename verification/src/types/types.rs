//! The user record and the form that carries a request body.

use crate::types::timestamp::Timestamp;
use vstd::prelude::*;

verus! {

/// The body of a create or update request. Both fields may be missing when
/// the body is read; the handlers require both.
#[derive(Clone, Debug, PartialEq, Eq)]
pub struct UserForm {
    pub email: Option<String>,
    pub phone: Option<String>,
}

/// The mathematical value of a [`UserForm`].
pub struct UserFormView {
    pub email: Option<Seq<char>>,
    pub phone: Option<Seq<char>>,
}

impl View for UserForm {
    type V = UserFormView;

    open spec fn view(&self) -> UserFormView {
        UserFormView {
            email: match self.email {
                Some(email) => Some(email@),
                None => None,
            },
            phone: match self.phone {
                Some(phone) => Some(phone@),
                None => None,
            },
        }
    }
}

impl UserFormView {
    /// Both required fields are present.
    pub open spec fn is_complete(self) -> bool {
        self.email is Some && self.phone is Some
    }
}

/// A user as the service shows it.
#[derive(Clone, Debug, PartialEq, Eq)]
pub struct User {
    pub id: i32,
    pub email: String,
    pub phone: String,
    pub created_at: Option<Timestamp>,
}

/// The mathematical value of a [`User`].
pub struct UserView {
    pub id: i32,
    pub email: Seq<char>,
    pub phone: Seq<char>,
    pub created_at: Option<Timestamp>,
}

impl View for User {
    type V = UserView;

    open spec fn view(&self) -> UserView {
        UserView {
            id: self.id,
            email: self.email@,
            phone: self.phone@,
            created_at: self.created_at,
        }
    }
}

} // verus!

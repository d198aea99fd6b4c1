//! The bindings of verbs and paths to handlers, as data.

use vstd::prelude::*;

verus! {

/// The verb of a request.
#[derive(Clone, Copy, Debug, PartialEq, Eq, Structural)]
pub enum Method {
    Get,
    Post,
    Put,
    Delete,
}

/// The five things the service does, one handler each.
#[derive(Clone, Copy, Debug, PartialEq, Eq, Structural)]
pub enum Endpoint {
    /// Handled by `get_all_users`.
    ListUsers,
    /// Handled by `create_user`.
    CreateUser,
    /// Handled by `get_single_user`.
    GetUser,
    /// Handled by `update_user`.
    UpdateUser,
    /// Handled by `delete_user`.
    DeleteUser,
}

/// One binding: requests with this verb on this path go to this handler.
/// A path segment in braces stands for a path parameter.
#[derive(Clone, Debug, PartialEq, Eq)]
pub struct Route {
    pub method: Method,
    pub path: String,
    pub endpoint: Endpoint,
}

/// The mathematical value of a [`Route`].
pub struct RouteView {
    pub method: Method,
    pub path: Seq<char>,
    pub endpoint: Endpoint,
}

impl View for Route {
    type V = RouteView;

    open spec fn view(&self) -> RouteView {
        RouteView { method: self.method, path: self.path@, endpoint: self.endpoint }
    }
}

/// The views of the bindings of `routes`, in the same order.
pub open spec fn routes_view(routes: Seq<Route>) -> Seq<RouteView> {
    Seq::new(routes.len(), |i: int| routes[i]@)
}

} // verus!

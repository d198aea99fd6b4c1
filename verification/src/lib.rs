//! The request-handling core of a small service that keeps one table of
//! users: the statements it sends to the table, the mapping of a stored row
//! to a user record, and the answer it gives to each request.
//!
//! Nothing here performs I/O. A handler is a function from a request and,
//! once the table has answered, the table's answer, to the next step: a
//! statement to run or a response to send. The caller runs the statement and
//! calls the handler again with the outcome.

pub mod models;
pub mod services;
pub mod types;

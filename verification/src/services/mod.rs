pub mod response;
pub mod route;
pub mod user_service;

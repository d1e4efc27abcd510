//! User accounts and authentication: registration and login rules, the
//! status codes of failures, the claims of access tokens, and the
//! conversation between the account service and the user store.
pub mod error;
pub mod model;
pub mod text;
pub mod password;
pub mod service;
pub mod token;
pub mod responses;
pub mod store;
pub mod laws;

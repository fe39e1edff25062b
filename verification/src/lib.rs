//! User records of a small directory service: the record itself, its mapping
//! to and from the documents of the store, the requests the repository sends
//! to the store, the replies the HTTP endpoints give, and the settings the
//! service needs to start.

pub mod document;
pub mod settings;
pub mod user_router;
pub mod user_service;

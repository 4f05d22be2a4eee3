//! A small user service: identifiers, tokens, the repository's view of a
//! document store, and the HTTP decisions built on them.

pub mod object_id;
pub mod token;
pub mod user;
pub mod repository;
pub mod api;
pub mod store;
pub mod laws;

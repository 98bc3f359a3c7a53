//! A todo-list service core: the entity and its payloads, payload validation,
//! the repository interface with an in-memory implementation, and the
//! request handlers that turn repository outcomes into HTTP statuses.
//! Every function states its behaviour as a contract that Verus proves.

pub mod handlers;
pub mod laws;
pub mod memory;
pub mod repositories;
pub mod store;
pub mod text;
pub mod todo;
pub mod validation;

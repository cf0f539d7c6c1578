//! Core logic of a task-list ("to-do") service: validation of the optional
//! query parameters of the list endpoint, and compilation of a validated
//! query into a backend-neutral filter/sort specification, together with the
//! small helpers the service keeps around them (identifier parsing, error
//! messages, connection-string assembly).

pub mod compile;
pub mod database;
pub mod errors;
pub mod mongo;
pub mod object_id;
pub mod query;
pub mod results;
pub mod task;
pub mod text;
pub mod uuids;
pub mod validate;

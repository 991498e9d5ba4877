//! A small task service: the decisions of its five request handlers, the
//! mapping from domain errors to responses, and a model of the `tasks` table
//! over which the service's laws are proved.

pub mod error;
pub mod handlers;
pub mod laws;
pub mod store;
pub mod task;
pub mod text;

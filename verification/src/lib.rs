//! A greeting service core: the greeting text, the handling of a greeting
//! request from its query string to its JSON reply, and the registry that
//! describes the service's routes.

pub mod handler;
pub mod json;
pub mod printer;
pub mod query;
pub mod render;
pub mod schema;

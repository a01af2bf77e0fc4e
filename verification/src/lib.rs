//! A catalog of grocery items grouped by category, read from and written to
//! JSON, and the responses of the one endpoint that serves it.

pub mod decode;
pub mod encode;
pub mod error;
pub mod handlers;
pub mod json;
pub mod laws;
pub mod models;
pub mod validate;

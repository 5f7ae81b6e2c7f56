//! A typed graph query core for teams and their members.
//!
//! The library decides which storage statements a request needs and what the
//! replies amount to; it never touches storage itself.

pub mod entity;
pub mod execute;
pub mod explorer;
pub mod gateway;
pub mod laws;
pub mod request;
pub mod resolution;
pub mod resolver;
pub mod response;
pub mod schema;
pub mod text;
pub mod validate;

//! Request and response codec for GraphQL queries that are carried to backend
//! targets as byte payloads, in an internal and a gateway framing.

pub mod graphql;
pub mod json;
pub mod misc;
pub mod text;
pub mod types;

//! The two protocols by which a GraphQL query reaches a backend target, and
//! the errors they share.

pub mod context;
pub mod error;
pub mod framing;
pub mod gateway;
pub mod id_set;
pub mod internal;
pub mod response;

pub use context::GraphqlContext;
pub use error::{GraphQLError, RawInvocationResult};
pub use gateway::GatewayGraphQLRequestBody;
pub use internal::GraphQLRequestBody;
pub use response::{GraphQLFieldError, ParsedGraphQLResponse};

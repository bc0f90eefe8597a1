//! A small GraphQL-over-HTTP client.
//!
//! The library holds the protocol: the request body, the redirect rules, the
//! reading of the response envelope and the error model. Sending requests and
//! decoding caller-defined data types is left to the code that drives it.

pub mod client;
pub mod error;
pub mod laws;
mod outside;
pub mod protocol;
pub mod text;
pub mod types;

pub use client::{GQLClient, GQLClient as Client, TransportSettings};
pub use error::{
    ErrorMessageView, ErrorView, GraphQLError, GraphQLErrorLocation, GraphQLErrorMessage,
    GraphQLErrorPathParam, PathSegment,
};
pub use types::{ClientConfig, GQLProxy, ProxyAuth, ProxyType};
pub use protocol::{OutboundRequest, QuerySession, Reply, ResponseEnvelope, Step};

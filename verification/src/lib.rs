//! Verified core of a client for a media service's file listing: search
//! options, the query parameters they stand for, and the reading of the
//! service's answer.

pub mod decimal;
pub mod options;
pub mod query;
pub mod response;

pub use crate::options::Options;
pub use crate::query::query_string;
pub use crate::response::{
    conclude, expected_body, BodyShape, Decoded, ErrorPayload, Exchange, ListError, STATUS_OK,
};

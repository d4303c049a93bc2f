//! Building blocks for HTTP clients that accept injected implementations.
//!
//! The crate models the construction-time half of an HTTP request: the verb,
//! the target URL, and the header list. Verb constructors and the fluent
//! builder are verified: a request that builds successfully has a well-formed
//! absolute URL, every header name within the token grammar, and every header
//! value within the visible-ASCII-plus-space grammar. The network half (the
//! actual transmission) is left to concrete client libraries.

pub mod header;
pub mod method;
pub mod request;
pub mod url;

pub use header::{check_header_name, check_header_value};
pub use method::Method;
pub use request::{BuildError, Client, HeaderPair, Request, RequestBuilder};

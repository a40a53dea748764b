//! A fluent builder for assembling HTTP request values: method, target URI,
//! header fields and query parameters are accumulated through chained calls,
//! and `build` materializes an immutable request value. Transmission of the
//! request is left to an HTTP client; this crate only assembles the value.

pub mod ascii;
pub mod builder;
pub mod json;
pub mod kv;

pub use builder::{BuildError, Method, Request, RequestBuilder, TypedHeader};
pub use json::JsonValue;
pub use kv::KvMap;

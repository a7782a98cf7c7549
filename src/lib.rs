//! The core of an HTTP client: status codes, request bodies, URLs and the
//! redirect-following request loop over a pluggable transport.

pub mod status;
pub mod uri;
pub mod headers;
pub mod body;
pub mod client;
pub mod mock;

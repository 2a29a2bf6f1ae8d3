//! An outbound HTTP client core: the decisions of a connector pipeline
//! (transport, proxy tunnel, TLS, HTTP handoff) as a verified state machine,
//! response version normalisation, a structured error with a context chain,
//! and a header-append utility over `http::HeaderMap`.

pub mod version;
pub mod error;
pub mod client;
pub mod call;
pub mod headers;
pub mod tunnel;

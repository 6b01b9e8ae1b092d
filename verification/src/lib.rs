//! A resilient HTTP request-execution core: URL construction, header
//! merging, pluggable authentication, per-attempt error classification and
//! a bounded retry policy, with every rule stated as a contract. The
//! transport itself (sockets, TLS) stays outside; this crate decides what
//! to send, how to classify each outcome, and when to stop retrying.

pub mod auth;
pub mod client;
pub mod context;
pub mod errors;
pub mod executor;
pub mod headers;
pub mod kinds;
pub mod sorting;
pub mod text;
pub mod urls;

pub use client::{BaseClient, ClientBuilder, HttpClient, RestClient, Method, PreparedRequest, prepare_request};
pub use auth::{Authentication, AuthHandle, BasicAuth, NoAuth};
pub use executor::{AttemptOutcome, Decision, Executor};
pub use errors::{ClassifiedError, TransportFailure, JsonFailure, http_error_serialize, http_resp_serialise, json_error_serialize};
pub use headers::{HeaderSet, merge_headers};
pub use kinds::{ErrorKind, HttpStatusCodeErrors};
pub use urls::{UrlRoot, build_url};

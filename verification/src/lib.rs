//! Request builders and data types for a handful of REST APIs.
//!
//! Every endpoint is a function from its path and query parameters to a
//! [`request::Request`]: the verb, the path with its query, and the body.
//! [`path`] escapes what goes into a path and [`query`] writes the query
//! string. Sending the request is left to the caller, who hands the status and
//! body of the answer to [`answer::accept`]. List endpoints are walked with
//! [`pagination::Pager`], and enums that the server may extend decode through
//! the model in [`wire`].

pub mod answer;
pub mod client;
pub mod docusign;
pub mod gusto;
pub mod pagination;
pub mod path;
pub mod query;
pub mod ramp;
pub mod request;
pub mod text;
pub mod wire;

//! An HTTP mock server's core: the mapping model, the mapping store, the
//! request matcher with its regex cache, and the answers it gives: static
//! responses, JSON errors, and the plan for proxied requests.
pub mod config;
pub mod error;
pub mod keyed;
pub mod mappings;
pub mod matcher;
pub mod pattern;
pub mod response;
pub mod text;
pub mod wire;

pub use config::{Either, Files, Header, HeaderPattern, Mapping, Proxy, Request, Response, Runtime};
pub use error::Error;
pub use mappings::Mappings;
pub use matcher::{Enabled, HttpRequest, Matcher, Predicate};
pub use pattern::RegexCache;
pub use response::{BodyCache, Connector, HttpResponse, Plan, Step, Upstream};

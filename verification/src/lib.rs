//! One interface to the prompt repositories LangSmith, Haystack PromptHub, PromptHub and OpenLIT.
//!
//! A repository is asked over HTTP, and this library does everything around the exchange: it
//! builds the request, judges the status of the answer, and turns the decoded payload into a
//! [`PromptTemplate`]. Sending the request and decoding the body is left to the caller; see
//! [`PromptRepository`].

pub mod error;
pub mod haystack;
pub mod http;
pub mod json;
pub mod langsmith;
pub mod laws;
pub mod laws_calls;
pub mod laws_haystack;
pub mod laws_langsmith;
pub mod laws_openlit;
pub mod laws_prompthub;
pub mod laws_semver;
pub mod laws_values;
pub mod metadata;
pub mod openlit;
pub mod promthub;
pub mod repository;
pub mod semver;
pub mod template;
pub mod text;
pub mod version;

pub use error::{PromptError, PromptRepositoryError};
pub use haystack::HaystackPromptHub;
pub use http::{HttpRequest, Method, Status};
pub use langsmith::LangSmith;
pub use metadata::Metadata;
pub use openlit::OpenLit;
pub use promthub::PromptHub;
pub use repository::{fetch_outcome, query_outcome, Exchange, PromptRepository};
pub use template::{PromptSegment, PromptSummary, PromptTemplate, Role, TemplateSyntax};
pub use version::{PromptQuery, Version};

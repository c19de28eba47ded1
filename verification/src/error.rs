//! What can go wrong between the caller and a repository.

use vstd::prelude::*;

verus! {

/// Why a repository could not hand out a prompt.
#[derive(Debug, Clone, PartialEq, Eq)]
#[non_exhaustive]
pub enum PromptError {
    /// The prompt could not be found in the repository.
    NotFound,
    /// The repository does not support what was asked for.
    Unsupported(String),
    /// The network failed (DNS, TLS, a connection reset and the like).
    Network(String),
    /// The repository answered with a status outside 2xx, or with an explicit error.
    Api(String),
    /// The answer could not be deserialised.
    Deserialization(String),
    /// The request could not be serialised.
    Serialization(String),
    /// The answer holds no usable prompt.
    PromptExtraction(String),
    /// Anything else.
    Other(String),
}

/// The view of a [`PromptError`].
pub enum ErrorView {
    NotFound,
    Unsupported(Seq<char>),
    Network(Seq<char>),
    Api(Seq<char>),
    Deserialization(Seq<char>),
    Serialization(Seq<char>),
    PromptExtraction(Seq<char>),
    Other(Seq<char>),
}

impl View for PromptError {
    type V = ErrorView;

    open spec fn view(&self) -> ErrorView {
        match *self {
            PromptError::NotFound => ErrorView::NotFound,
            PromptError::Unsupported(s) => ErrorView::Unsupported(s@),
            PromptError::Network(s) => ErrorView::Network(s@),
            PromptError::Api(s) => ErrorView::Api(s@),
            PromptError::Deserialization(s) => ErrorView::Deserialization(s@),
            PromptError::Serialization(s) => ErrorView::Serialization(s@),
            PromptError::PromptExtraction(s) => ErrorView::PromptExtraction(s@),
            PromptError::Other(s) => ErrorView::Other(s@),
        }
    }
}

/// What an error says.
pub open spec fn error_message(e: ErrorView) -> Seq<char> {
    match e {
        ErrorView::NotFound => "prompt not found"@,
        ErrorView::Unsupported(s) => "repository does not implement this feature: "@ + s,
        ErrorView::Network(s) => "network error: "@ + s,
        ErrorView::Api(s) => "api error: "@ + s,
        ErrorView::Deserialization(s) => "deserialization error: "@ + s,
        ErrorView::Serialization(s) => "serialization error: "@ + s,
        ErrorView::PromptExtraction(s) => "prompt extraction error: "@ + s,
        ErrorView::Other(s) => "other: "@ + s,
    }
}

fn labelled(label: &str, detail: &str) -> (r: String)
    ensures
        r@ == label@ + detail@,
{
    let mut r = label.to_owned();
    r.append(detail);
    r
}

impl PromptError {
    /// The error in words.
    pub fn message(&self) -> (r: String)
        ensures
            r@ == error_message(self@),
    {
        match self {
            PromptError::NotFound => "prompt not found".to_owned(),
            PromptError::Unsupported(s) => labelled(
                "repository does not implement this feature: ",
                s.as_str(),
            ),
            PromptError::Network(s) => labelled("network error: ", s.as_str()),
            PromptError::Api(s) => labelled("api error: ", s.as_str()),
            PromptError::Deserialization(s) => labelled("deserialization error: ", s.as_str()),
            PromptError::Serialization(s) => labelled("serialization error: ", s.as_str()),
            PromptError::PromptExtraction(s) => labelled("prompt extraction error: ", s.as_str()),
            PromptError::Other(s) => labelled("other: ", s.as_str()),
        }
    }
}

/// The errors of a repository client, by the step that failed.
#[derive(Debug, Clone, PartialEq, Eq)]
pub enum PromptRepositoryError {
    RequestError(String),
    ApiError(String),
    SerializationError(String),
    DeserializationError(String),
    PromptExtractionError,
}

/// What a [`PromptRepositoryError`] says.
pub open spec fn repository_error_message(e: PromptRepositoryError) -> Seq<char> {
    match e {
        PromptRepositoryError::RequestError(s) => "Request error: "@ + s@,
        PromptRepositoryError::ApiError(s) => "API error: "@ + s@,
        PromptRepositoryError::SerializationError(s) => "Failed to serialize object: "@ + s@,
        PromptRepositoryError::DeserializationError(s) => "Failed to deserialize object: "@ + s@,
        PromptRepositoryError::PromptExtractionError => "Failed to extract prompt"@,
    }
}

impl PromptRepositoryError {
    /// The error in words.
    pub fn message(&self) -> (r: String)
        ensures
            r@ == repository_error_message(*self),
    {
        match self {
            PromptRepositoryError::RequestError(s) => labelled("Request error: ", s.as_str()),
            PromptRepositoryError::ApiError(s) => labelled("API error: ", s.as_str()),
            PromptRepositoryError::SerializationError(s) => labelled(
                "Failed to serialize object: ",
                s.as_str(),
            ),
            PromptRepositoryError::DeserializationError(s) => labelled(
                "Failed to deserialize object: ",
                s.as_str(),
            ),
            PromptRepositoryError::PromptExtractionError => "Failed to extract prompt".to_owned(),
        }
    }
}

} // verus!

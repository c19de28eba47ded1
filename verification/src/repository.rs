//! What every prompt repository does.

use crate::error::{ErrorView, PromptError};
use crate::http::{status_text, success, HttpRequest, RequestView, Status};
use crate::template::PromptSummary;
use crate::version::{Version, VersionView};
use vstd::prelude::*;

verus! {

/// A result by its view.
pub open spec fn result_view<T: View>(r: Result<T, PromptError>) -> Result<T::V, ErrorView> {
    match r {
        Ok(t) => Ok(t@),
        Err(e) => Err(e@),
    }
}

/// The error for an answer whose status is no success.
pub open spec fn refusal(service: Seq<char>, status: u16) -> ErrorView {
    ErrorView::Api(service + " returned status "@ + status_text(status))
}

/// How an exchange with a service went.
#[derive(Debug)]
pub enum Exchange<P> {
    /// No answer came: what the network said.
    Unanswered(String),
    /// An answer came, with this status; its body is the decoded payload, or what the decoder
    /// said. Where the status is no success, the body is of no account.
    Answered(Status, Result<P, String>),
}

/// The error for a repository that cannot list its prompts.
pub fn no_list() -> (r: PromptError)
    ensures
        r@ == ErrorView::Unsupported("repository does not support `list()`"@),
{
    PromptError::Unsupported("repository does not support `list()`".to_owned())
}

/// Something that stores prompts.
///
/// `query_request` or `fetch_request` says what to send. The caller sends it, and decodes the body
/// of the answer where the status is a success. [`query_outcome`] or [`fetch_outcome`] says what
/// that exchange ends in: [`PromptError::Network`] where no answer came, the refusal of
/// `check_status` where the status is no success, and otherwise what `query_result` or
/// `fetch_result` makes of the body.
pub trait PromptRepository {
    /// What a query of this repository asks.
    type Query<'a>;

    /// What the repository answers, decoded.
    type Payload;

    /// What a query ends in.
    type Prompt: View;

    /// The name of the service, as it stands in errors.
    spec fn service(&self) -> Seq<char>;

    /// The request of a query.
    spec fn query_request_spec<'a>(&self, q: Self::Query<'a>) -> RequestView;

    /// The request for a prompt by identifier and version.
    spec fn fetch_request_spec(&self, id: Seq<char>, version: VersionView) -> RequestView;

    /// What a query ends in once the body of the answer has been decoded.
    spec fn query_result_spec<'a>(
        &self,
        q: Self::Query<'a>,
        body: Result<Self::Payload, String>,
    ) -> Result<<Self::Prompt as View>::V, ErrorView>;

    /// What a fetch ends in once the body of the answer has been decoded.
    spec fn fetch_result_spec(
        &self,
        id: Seq<char>,
        version: VersionView,
        body: Result<Self::Payload, String>,
    ) -> Result<<Self::Prompt as View>::V, ErrorView>;

    /// The name of the service.
    fn service_name(&self) -> (r: &'static str)
        ensures
            r@ == self.service(),
    ;

    /// The request to send for a query.
    fn query_request<'a>(&self, q: Self::Query<'a>) -> (r: Result<HttpRequest, PromptError>)
        ensures
            result_view(r) == Ok::<RequestView, ErrorView>(self.query_request_spec(q)),
    ;

    /// The request to send for a prompt by identifier and version.
    fn fetch_request<'a>(&self, id: &str, version: Version<'a>) -> (r: Result<
        HttpRequest,
        PromptError,
    >)
        ensures
            result_view(r) == Ok::<RequestView, ErrorView>(self.fetch_request_spec(id@, version@)),
    ;

    /// Whether an answer with this status carries a payload.
    fn check_status(&self, status: Status) -> (r: Result<(), PromptError>)
        ensures
            match r {
                Ok(()) => success(status@),
                Err(e) => !success(status@) && e@ == refusal(self.service(), status@),
            },
    {
        if status.is_success() {
            Ok(())
        } else {
            let mut message = self.service_name().to_owned();
            message.append(" returned status ");
            message.append(status.text().as_str());
            Err(PromptError::Api(message))
        }
    }

    /// What a query ends in: `body` is the decoded payload, or what the decoder said.
    fn query_result<'a>(&self, q: Self::Query<'a>, body: Result<Self::Payload, String>) -> (r:
        Result<Self::Prompt, PromptError>)
        ensures
            result_view(r) == self.query_result_spec(q, body),
    ;

    /// What a fetch ends in: `body` is the decoded payload, or what the decoder said.
    fn fetch_result<'a>(
        &self,
        id: &str,
        version: Version<'a>,
        body: Result<Self::Payload, String>,
    ) -> (r: Result<Self::Prompt, PromptError>)
        ensures
            result_view(r) == self.fetch_result_spec(id@, version@, body),
    ;

    /// The prompts that the repository holds. A repository does not support this unless it says
    /// otherwise.
    fn list(&self) -> (r: Result<Vec<PromptSummary>, PromptError>)
        default_ensures
            r matches Err(e) && e@ == ErrorView::Unsupported(
                "repository does not support `list()`"@,
            ),
    {
        Err(no_list())
    }
}

/// What a query ends in, by how the exchange went.
pub open spec fn query_outcome_spec<'a, R: PromptRepository>(
    repository: R,
    q: R::Query<'a>,
    exchange: Exchange<R::Payload>,
) -> Result<<R::Prompt as View>::V, ErrorView> {
    match exchange {
        Exchange::Unanswered(words) => Err(ErrorView::Network(words@)),
        Exchange::Answered(status, body) => if success(status@) {
            repository.query_result_spec(q, body)
        } else {
            Err(refusal(repository.service(), status@))
        },
    }
}

/// What a fetch ends in, by how the exchange went.
pub open spec fn fetch_outcome_spec<R: PromptRepository>(
    repository: R,
    id: Seq<char>,
    version: VersionView,
    exchange: Exchange<R::Payload>,
) -> Result<<R::Prompt as View>::V, ErrorView> {
    match exchange {
        Exchange::Unanswered(words) => Err(ErrorView::Network(words@)),
        Exchange::Answered(status, body) => if success(status@) {
            repository.fetch_result_spec(id, version, body)
        } else {
            Err(refusal(repository.service(), status@))
        },
    }
}

/// Ends a query: a failed exchange in the words of the network, any other by its status first
/// and its body then.
pub fn query_outcome<'a, R: PromptRepository>(
    repository: &R,
    q: R::Query<'a>,
    exchange: Exchange<R::Payload>,
) -> (r: Result<R::Prompt, PromptError>)
    ensures
        result_view(r) == query_outcome_spec(*repository, q, exchange),
{
    match exchange {
        Exchange::Unanswered(words) => Err(PromptError::Network(words)),
        Exchange::Answered(status, body) => match repository.check_status(status) {
            Ok(()) => repository.query_result(q, body),
            Err(e) => Err(e),
        },
    }
}

/// Ends a fetch: a failed exchange in the words of the network, any other by its status first
/// and its body then.
pub fn fetch_outcome<'a, R: PromptRepository>(
    repository: &R,
    id: &str,
    version: Version<'a>,
    exchange: Exchange<R::Payload>,
) -> (r: Result<R::Prompt, PromptError>)
    ensures
        result_view(r) == fetch_outcome_spec(*repository, id@, version@, exchange),
{
    match exchange {
        Exchange::Unanswered(words) => Err(PromptError::Network(words)),
        Exchange::Answered(status, body) => match repository.check_status(status) {
            Ok(()) => repository.fetch_result(id, version, body),
            Err(e) => Err(e),
        },
    }
}

} // verus!

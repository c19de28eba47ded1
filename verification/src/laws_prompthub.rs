//! What a PromptHub prompt has to do with the answer that it comes from, and what the service is
//! asked.

use crate::error::ErrorView;
use crate::promthub::{at_version, ApiResponse, ProjectId, PromptHub, PromptHubQuery, PromptResponse};
use crate::repository::PromptRepository;
use crate::template::{RoleView, SegmentView, TemplateSyntax, TemplateView};
use crate::text::decimal;
use crate::version::VersionView;
use vstd::prelude::*;

verus! {

/// Whether a segment is this text, spoken in this role, in moustache syntax.
pub open spec fn says(segment: SegmentView, role: RoleView, text: Seq<char>) -> bool {
    segment.role == role && segment.template == text && segment.syntax == TemplateSyntax::Moustache
}

/// Whether a template says what an answer says: the system message first, then the prompt, each
/// where there is one and as it is, and no more; named by the project, at the commit hash, with
/// nothing beside it.
pub open spec fn tells_answer(data: PromptResponse, template: TemplateView) -> bool {
    &&& match (data.system_message, data.prompt) {
        (Some(system), Some(user)) => template.segments.len() == 2 && says(
            template.segments[0],
            RoleView::System,
            system@,
        ) && says(template.segments[1], RoleView::User, user@),
        (Some(system), None) => template.segments.len() == 1 && says(
            template.segments[0],
            RoleView::System,
            system@,
        ),
        (None, Some(user)) => template.segments.len() == 1 && says(
            template.segments[0],
            RoleView::User,
            user@,
        ),
        (None, None) => template.segments.len() == 0,
    }
    &&& data.project_id matches ProjectId::Text(name) ==> template.id == "prompthub:"@ + name@
    &&& data.project_id matches ProjectId::Number(n) ==> template.id == "prompthub:"@ + decimal(
        n as nat,
    )
    &&& template.version == Some(data.hash@)
    &&& forall|name: Seq<char>| !#[trigger] template.metadata.contains_key(name)
}

/// Every decoded answer to a query, with a branch or without, comes to a prompt that says what
/// the answer says.
pub proof fn law_prompthub_queries_tell_the_answer<'a>(
    repository: PromptHub,
    q: PromptHubQuery<'a>,
    api: ApiResponse,
)
    ensures
        repository.query_result_spec(q, Ok(api)) matches Ok(template) && tells_answer(
            api.data,
            template,
        ),
{
}

/// What an answer to a query comes to does not hang on the project and the branch that were asked
/// for, nor on the address and key of the repository.
pub proof fn law_prompthub_results_hang_on_the_answer<'a, 'b>(
    first: PromptHub,
    second: PromptHub,
    p: PromptHubQuery<'a>,
    q: PromptHubQuery<'b>,
    body: Result<ApiResponse, String>,
)
    ensures
        first.query_result_spec(p, body) == second.query_result_spec(q, body),
{
}

/// A body that does not decode is an error of every query, with or without a branch, in the words
/// of the decoder.
pub proof fn law_prompthub_undecodable_queries_are_errors<'a>(
    repository: PromptHub,
    q: PromptHubQuery<'a>,
    words: String,
)
    ensures
        repository.query_result_spec(q, Err(words)) == Err::<TemplateView, ErrorView>(
            ErrorView::Deserialization(words@),
        ),
{
}

/// A fetch hands a prompt out exactly where no version was named or the named one is the commit
/// hash that came back, and then the prompt says what the answer says. Any other version is
/// refused, with both versions in the words.
pub proof fn law_prompthub_fetches_tell_the_answer(
    repository: PromptHub,
    id: Seq<char>,
    version: VersionView,
    api: ApiResponse,
)
    ensures
        match repository.fetch_result_spec(id, version, Ok(api)) {
            Ok(template) => {
                &&& version is Latest || version == VersionView::Ref(api.data.hash@)
                &&& tells_answer(api.data, template)
            },
            Err(e) => version matches VersionView::Ref(reference) && reference != api.data.hash@
                && e == ErrorView::Unsupported(
                "PromptHub does not expose the requested version '"@ + reference
                    + "'. Returned version '"@ + api.data.hash@ + "'."@,
            ),
        },
{
}

/// Every segment of every prompt that PromptHub hands out, to a query or a fetch, has moustache
/// syntax.
pub proof fn law_prompthub_segments_are_moustache<'a>(
    repository: PromptHub,
    q: PromptHubQuery<'a>,
    id: Seq<char>,
    version: VersionView,
    body: Result<ApiResponse, String>,
)
    ensures
        repository.query_result_spec(q, body) matches Ok(template) ==> forall|i: int|
            0 <= i < template.segments.len() ==> (#[trigger] template.segments[i]).syntax
                == TemplateSyntax::Moustache,
        repository.fetch_result_spec(id, version, body) matches Ok(template) ==> forall|i: int|
            0 <= i < template.segments.len() ==> (#[trigger] template.segments[i]).syntax
                == TemplateSyntax::Moustache,
{
}

/// Holding a result to a version changes it only where it is a template that tells another
/// version; it is then an error with both versions in its words.
pub proof fn law_results_are_held_to_a_version(
    version: VersionView,
    result: Result<TemplateView, ErrorView>,
)
    ensures
        (version matches VersionView::Ref(reference) && result matches Ok(template)
            && template.version matches Some(told) && told != reference) ==> at_version(
            version,
            result,
        ) == Err::<TemplateView, ErrorView>(
            ErrorView::Unsupported(
                "PromptHub does not expose the requested version '"@ + version->Ref_0
                    + "'. Returned version '"@ + result->Ok_0.version->0 + "'."@,
            ),
        ),
        !(version matches VersionView::Ref(reference) && result matches Ok(template)
            && template.version matches Some(told) && told != reference) ==> at_version(
            version,
            result,
        ) == result,
{
}

/// The service is asked for the head of a project, on a branch where one is named. A fetch asks
/// for no branch, whatever the version.
pub proof fn law_prompthub_is_asked_for_a_head<'a>(
    repository: PromptHub,
    q: PromptHubQuery<'a>,
    version: VersionView,
)
    ensures
        ({
            let request = repository.query_request_spec(q);
            &&& request.method is Get
            &&& q.branch is None ==> request.url == repository.endpoint() + "/projects/"@ + q.id@
                + "/head"@
            &&& q.branch matches Some(branch) ==> request.url == repository.endpoint()
                + "/projects/"@ + q.id@ + "/head?branch="@ + branch@
            &&& request.headers == seq![
                ("Authorization"@, "Bearer "@ + repository.key()),
                ("Accept"@, "application/json"@),
                ("Content-Type"@, "application/json"@),
            ]
            &&& request.body is None
        }),
        ({
            let request = repository.fetch_request_spec(q.id@, version);
            &&& request.method is Get
            &&& request.url == repository.endpoint() + "/projects/"@ + q.id@ + "/head"@
            &&& request.headers == repository.query_request_spec(q).headers
            &&& request.body is None
        }),
{
    reveal_strlit("/head");
    reveal_strlit("?branch=");
    reveal_strlit("/head?branch=");
    let start = repository.endpoint() + "/projects/"@ + q.id@;
    assert(start + "/head"@ + Seq::<char>::empty() =~= start + "/head"@);
    if let Some(branch) = q.branch {
        assert(start + "/head"@ + ("?branch="@ + branch@) =~= start + "/head?branch="@ + branch@);
    }
}

} // verus!

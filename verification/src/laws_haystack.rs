//! What a Haystack PromptHub prompt has to do with the payload that it comes from, and what the
//! service is asked.

use crate::error::ErrorView;
use crate::haystack::{HaystackPromptHub, PromptPayload};
use crate::json::{json, Json};
use crate::laws::{law_trimmed_addresses, trimmed};
use crate::repository::PromptRepository;
use crate::semver::semver;
use crate::template::{TemplateSyntax, TemplateView};
use crate::version::{PromptQuery, VersionView};
use vstd::prelude::*;

verus! {

/// A fetch hands a prompt out exactly where the payload has a text and the version, where one was
/// named, is the one that came back.
pub proof fn law_haystack_hands_out_what_was_asked_for(
    repository: HaystackPromptHub,
    id: Seq<char>,
    version: VersionView,
    payload: PromptPayload,
)
    ensures
        repository.fetch_result_spec(id, version, Ok(payload)) is Ok <==> payload.text is Some && (
        version is Latest || version == VersionView::Ref(payload.version@)),
{
}

/// Where a fetch hands a prompt out, its only segment is the text of the payload, character for
/// character, spoken by the user in moustache syntax.
pub proof fn law_haystack_prompts_are_the_text(
    repository: HaystackPromptHub,
    id: Seq<char>,
    version: VersionView,
    payload: PromptPayload,
)
    ensures
        repository.fetch_result_spec(id, version, Ok(payload)) matches Ok(template) ==> {
            &&& template.segments.len() == 1
            &&& payload.text matches Some(text) && template.segments[0].template == text@
            &&& template.segments[0].role is User
            &&& template.segments[0].syntax == TemplateSyntax::Moustache
        },
{
}

/// Where a fetch hands a prompt out, it is named by the name in the payload, and has the version
/// of the payload where that is a semantic one.
pub proof fn law_haystack_prompts_tell_name_and_version(
    repository: HaystackPromptHub,
    id: Seq<char>,
    version: VersionView,
    payload: PromptPayload,
)
    ensures
        repository.fetch_result_spec(id, version, Ok(payload)) matches Ok(template) ==> {
            &&& template.id == "haystack:"@ + payload.name@
            &&& template.version is Some <==> semver(payload.version@)
            &&& template.version matches Some(told) ==> told == payload.version@
        },
{
}

/// Where a fetch hands a prompt out, it has the description, every tag in its place, and the meta
/// value of the payload beside it, and nothing else.
pub proof fn law_haystack_prompts_keep_the_rest(
    repository: HaystackPromptHub,
    id: Seq<char>,
    version: VersionView,
    payload: PromptPayload,
)
    ensures
        repository.fetch_result_spec(id, version, Ok(payload)) matches Ok(template) ==> {
            &&& forall|name: Seq<char>| #[trigger]
                template.metadata.contains_key(name) <==> name == "description"@ || name == "tags"@
                    || name == "meta"@
            &&& template.metadata["description"@] == Json::Text(payload.description@)
            &&& template.metadata["meta"@] == json(payload.meta)
            &&& template.metadata["tags"@] matches Json::Array(tags) && tags.len()
                == payload.tags@.len() && forall|i: int|
                0 <= i < tags.len() ==> #[trigger] tags[i] == Json::Text(payload.tags@[i]@)
        },
{
    reveal_strlit("description");
    reveal_strlit("tags");
    reveal_strlit("meta");
    assert("description"@.len() == 11 && "tags"@.len() == 4 && "meta"@.len() == 4);
    assert("tags"@[0] == 't' && "meta"@[0] == 'm');
}

/// A version other than the one that came back is refused, whether the payload has a text or not,
/// with both versions in the words; where the version is right, a payload without a text is an
/// error that says so.
pub proof fn law_haystack_errors(
    repository: HaystackPromptHub,
    id: Seq<char>,
    version: VersionView,
    payload: PromptPayload,
)
    ensures
        version matches VersionView::Ref(reference) && reference != payload.version@ ==> (
        repository.fetch_result_spec(id, version, Ok(payload)) matches Err(
            ErrorView::Unsupported(words),
        ) && words == "Haystack PromptHub does not expose the requested version '"@
            + version->Ref_0 + "'. Returned version '"@ + payload.version@ + "'."@),
        payload.text is None && (version is Latest || version == VersionView::Ref(
            payload.version@,
        )) ==> repository.fetch_result_spec(id, version, Ok(payload)) == Err::<
            TemplateView,
            ErrorView,
        >(ErrorView::PromptExtraction("`text` field missing in Haystack response"@)),
{
}

/// What an answer comes to does not hang on the identifier that was asked for, nor on the address
/// of the repository.
pub proof fn law_haystack_results_hang_on_the_payload(
    first: HaystackPromptHub,
    second: HaystackPromptHub,
    a: Seq<char>,
    b: Seq<char>,
    version: VersionView,
    body: Result<PromptPayload, String>,
)
    ensures
        first.fetch_result_spec(a, version, body) == second.fetch_result_spec(b, version, body),
{
}

/// The service is asked for the prompt at a path, below the address without its end slashes. The
/// version is no part of the request, and a query asks what a fetch asks.
pub proof fn law_haystack_is_asked_for_a_prompt<'a>(
    repository: HaystackPromptHub,
    address: Seq<char>,
    q: PromptQuery<'a>,
    version: VersionView,
)
    requires
        trimmed(address, repository.endpoint()),
    ensures
        ({
            let request = repository.fetch_request_spec(q.id@, version);
            &&& request.method is Get
            &&& request.url == address + "/prompts/"@ + q.id@
            &&& request.headers.len() == 0
            &&& request.body is None
            &&& repository.query_request_spec(q) == request
        }),
{
    law_trimmed_addresses(address, repository.endpoint());
}

} // verus!

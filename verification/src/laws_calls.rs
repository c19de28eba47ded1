//! What the calls of the library come to, over the values that go in and come out.

use crate::error::{ErrorView, PromptError};
use crate::haystack::HaystackPromptHub;
use crate::http::{reason_phrase, HttpRequest, Status};
use crate::json::{json, json_at, jsons, texts_among, Json};
use crate::langsmith::{determine_role, determine_syntax, extract_ids, LangSmith};
use crate::laws::{law_trimmed_addresses, trimmed};
use crate::laws_openlit::{asked, law_openlit_bodies_are_objects, object};
use crate::metadata::{entries_view, names_distinct, Metadata};
use crate::openlit::{ApiRequest, OpenLit};
use crate::promthub::PromptHub;
use crate::repository::{no_list, PromptRepository};
use crate::template::{PromptSummary, PromptTemplate, Role, TemplateSyntax};
use crate::text::{decimal, same_text, str_views, trim_end_slashes};
use crate::version::Version;
use serde_json::Value;
use vstd::prelude::*;

verus! {

/// In every repository, the request of a query or a fetch is made, and shows what the repository
/// is said to be asked.
pub proof fn law_requests_by_call<'a, R: PromptRepository>(
    repository: &R,
    q: R::Query<'a>,
    id: &str,
    version: Version<'a>,
)
    ensures
        forall|r: Result<HttpRequest, PromptError>| #[trigger]
            call_ensures(R::query_request, (repository, q), r) ==> (r matches Ok(request)
                && request@ == repository.query_request_spec(q)),
        forall|r: Result<HttpRequest, PromptError>| #[trigger]
            call_ensures(R::fetch_request, (repository, id, version), r) ==> (r matches Ok(request)
                && request@ == repository.fetch_request_spec(id@, version@)),
{
}

/// In every repository, what a decoded answer to a query or a fetch comes to is what the
/// repository is said to make of it, prompt or error.
pub proof fn law_results_by_call<'a, R: PromptRepository>(
    repository: &R,
    q: R::Query<'a>,
    id: &str,
    version: Version<'a>,
    body: Result<R::Payload, String>,
)
    ensures
        forall|r: Result<R::Prompt, PromptError>| #[trigger]
            call_ensures(R::query_result, (repository, q, body), r) ==> match (
                r,
                repository.query_result_spec(q, body),
            ) {
                (Ok(prompt), Ok(told)) => prompt@ == told,
                (Err(e), Err(told)) => e@ == told,
                _ => false,
            },
        forall|r: Result<R::Prompt, PromptError>| #[trigger]
            call_ensures(R::fetch_result, (repository, id, version, body), r) ==> match (
                r,
                repository.fetch_result_spec(id@, version@, body),
            ) {
                (Ok(prompt), Ok(told)) => prompt@ == told,
                (Err(e), Err(told)) => e@ == told,
                _ => false,
            },
{
}

/// In every repository, a status passes exactly from 200 to 299; any other is refused in words
/// that name the service, the code and its reason.
pub proof fn law_statuses_are_judged_by_call<R: PromptRepository>(repository: &R, status: Status)
    ensures
        forall|r: Result<(), PromptError>| #[trigger]
            call_ensures(R::check_status, (repository, status), r) ==> match r {
                Ok(()) => 200 <= status@ <= 299,
                Err(e) => !(200 <= status@ <= 299) && e@ == ErrorView::Api(
                    repository.service() + " returned status "@ + (decimal(status@ as nat) + " "@
                        + reason_phrase(status@)),
                ),
            },
{
}

/// None of the repositories lists its prompts.
pub proof fn law_nothing_is_listed_by_call(
    langsmith: &LangSmith,
    haystack: &HaystackPromptHub,
    prompthub: &PromptHub,
    openlit: &OpenLit,
)
    ensures
        forall|r: Result<Vec<PromptSummary>, PromptError>|
            #![trigger call_ensures(<LangSmith as PromptRepository>::list, (langsmith,), r)]
            #![trigger call_ensures(<HaystackPromptHub as PromptRepository>::list, (haystack,), r)]
            #![trigger call_ensures(<PromptHub as PromptRepository>::list, (prompthub,), r)]
            #![trigger call_ensures(<OpenLit as PromptRepository>::list, (openlit,), r)]
            call_ensures(<LangSmith as PromptRepository>::list, (langsmith,), r) || call_ensures(
                <HaystackPromptHub as PromptRepository>::list,
                (haystack,),
                r,
            ) || call_ensures(<PromptHub as PromptRepository>::list, (prompthub,), r)
                || call_ensures(<OpenLit as PromptRepository>::list, (openlit,), r) ==> (
            r matches Err(e) && e@ == ErrorView::Unsupported(
                "repository does not support `list()`"@,
            )),
        forall|e: PromptError| #[trigger]
            call_ensures(no_list, (), e) ==> e@ == ErrorView::Unsupported(
                "repository does not support `list()`"@,
            ),
{
}

/// A repository has the address and the key that it was made with, and without an address that of
/// its service.
pub proof fn law_repositories_keep_address_and_key_by_call(key: String, address: String)
    ensures
        forall|r: LangSmith| #[trigger]
            call_ensures(LangSmith::from_url, (key, address), r) ==> r.endpoint() == address@
                && r.key() == key@,
        forall|r: PromptHub| #[trigger]
            call_ensures(PromptHub::from_url, (key, address), r) ==> r.endpoint() == address@
                && r.key() == key@,
        forall|r: OpenLit| #[trigger]
            call_ensures(OpenLit::from_url, (key, address), r) ==> r.endpoint() == address@
                && r.key() == key@,
        forall|r: HaystackPromptHub| #[trigger]
            call_ensures(HaystackPromptHub::from_url, (address,), r) ==> r.endpoint() == address@,
        forall|r: LangSmith| #[trigger]
            call_ensures(LangSmith::new, (key,), r) ==> r.endpoint()
                == "https://api.smith.langchain.com"@ && r.key() == key@,
        forall|r: PromptHub| #[trigger]
            call_ensures(PromptHub::new, (key,), r) ==> r.endpoint()
                == "https://app.prompthub.us/api/v1"@ && r.key() == key@,
        forall|r: OpenLit| #[trigger]
            call_ensures(OpenLit::new, (key,), r) ==> r.endpoint() == "http://localhost:3000"@
                && r.key() == key@,
        forall|r: HaystackPromptHub| #[trigger]
            call_ensures(HaystackPromptHub::new, (), r) ==> r.endpoint()
                == "https://api.prompthub.deepset.ai"@,
{
}

/// Whether one of some values is the text `name`.
pub open spec fn holds(values: Seq<Value>, name: Seq<char>) -> bool {
    exists|i: int| 0 <= i < values.len() && json(#[trigger] values[i]) == Json::Text(name)
}

/// The role of some identifiers is that of the first type among system, human and AI that they
/// hold, and unknown where they hold none or where there are none.
pub proof fn law_roles_by_call(ids: &Vec<Value>)
    ensures
        forall|r: Role| #[trigger]
            call_ensures(determine_role, (Some(ids),), r) ==> {
                let system = holds(ids@, "SystemMessagePromptTemplate"@);
                let human = holds(ids@, "HumanMessagePromptTemplate"@);
                let ai = holds(ids@, "AIMessagePromptTemplate"@);
                &&& r is System <==> system
                &&& r is User <==> human && !system
                &&& r is Assistant <==> ai && !human && !system
                &&& r matches Role::Custom(name) ==> name@ == "unknown"@
            },
        forall|r: Role| #[trigger]
            call_ensures(determine_role, (None,), r) ==> (r matches Role::Custom(name) && name@
                == "unknown"@),
{
    let trees = jsons(ids@);
    assert forall|name: Seq<char>| #[trigger]
        trees.contains(Json::Text(name)) <==> holds(ids@, name) by {
        if trees.contains(Json::Text(name)) {
            let i = choose|i: int| 0 <= i < trees.len() && trees[i] == Json::Text(name);
            assert(json(ids@[i]) == Json::Text(name));
        }
        if holds(ids@, name) {
            let i = choose|i: int| 0 <= i < ids@.len() && json(#[trigger] ids@[i]) == Json::Text(name);
            assert(trees[i] == Json::Text(name));
        }
    }
}

/// The syntax of a template is f-string exactly where the value that names it is the text
/// `f-string`.
pub proof fn law_syntaxes_by_call(p: Option<&Value>)
    ensures
        forall|r: TemplateSyntax| #[trigger]
            call_ensures(determine_syntax, (p,), r) ==> (r == TemplateSyntax::FString <==> (
            p matches Some(v) && json(*v) == Json::Text("f-string"@))),
{
}

/// The identifiers that are read of a value are the texts in the array at its key `id`; without
/// that array there is an error that says so.
pub proof fn law_identifiers_by_call<'a>(v: &'a Value)
    ensures
        forall|r: Result<Vec<&'a str>, PromptError>| #[trigger]
            call_ensures(extract_ids, (v,), r) ==> match json_at(json(*v), seq!["id"@]) {
                Some(Json::Array(items)) => r matches Ok(ids) && ids@.len() == texts_among(
                    items,
                ).len() && forall|i: int|
                    0 <= i < ids@.len() ==> (#[trigger] ids@[i])@ == texts_among(items)[i],
                _ => r matches Err(e) && e@ == ErrorView::PromptExtraction("missing id array"@),
            },
{
    assert forall|r: Result<Vec<&'a str>, PromptError>| #[trigger]
        call_ensures(extract_ids, (v,), r) implies match json_at(json(*v), seq!["id"@]) {
        Some(Json::Array(items)) => r matches Ok(ids) && ids@.len() == texts_among(items).len()
            && forall|i: int|
            0 <= i < ids@.len() ==> (#[trigger] ids@[i])@ == texts_among(items)[i],
        _ => r matches Err(e) && e@ == ErrorView::PromptExtraction("missing id array"@),
    } by {
        if let Some(Json::Array(items)) = json_at(json(*v), seq!["id"@]) {
            let ids = r->Ok_0;
            assert(str_views(ids@) == texts_among(items));
            assert forall|i: int| 0 <= i < ids@.len() implies (#[trigger] ids@[i])@
                == texts_among(items)[i] by {
                assert(str_views(ids@)[i] == ids@[i]@);
            }
        }
    }
}

/// The body of a request to OpenLIT is made, as the JSON object of what it asks, and the request
/// posts that body.
pub proof fn law_openlit_bodies_by_call<'a>(
    repository: &OpenLit,
    request: &ApiRequest<'a>,
    posted: ApiRequest<'a>,
)
    ensures
        forall|r: Result<String, PromptError>| #[trigger]
            call_ensures(ApiRequest::<'a>::body, (request,), r) ==> (r matches Ok(body) && body@
                == object(asked(request.query_type@, request.version@, request.compile))),
        forall|r: Result<HttpRequest, PromptError>| #[trigger]
            call_ensures(OpenLit::prompt_request, (repository, posted), r) ==> (r matches Ok(made)
                && made@.method is Post && made@.url == repository.endpoint()
                + "/api/prompt/get-compiled"@ && made@.headers == seq![
                ("Authorization"@, "Bearer "@ + repository.key()),
                ("Content-Type"@, "application/json"@),
            ] && made@.body == Some(
                object(asked(posted.query_type@, posted.version@, posted.compile)),
            )),
{
    law_openlit_bodies_are_objects(request.query_type@, request.version@, request.compile);
    law_openlit_bodies_are_objects(posted.query_type@, posted.version@, posted.compile);
}

/// Holding a result to a version changes it only where it is a prompt that tells another version;
/// it is then refused with both versions in the words.
pub proof fn law_versions_are_held_to_by_call<'a>(
    version: Version<'a>,
    result: Result<PromptTemplate, PromptError>,
)
    ensures
        forall|r: Result<PromptTemplate, PromptError>| #[trigger]
            call_ensures(PromptHub::require_version, (version, result), r) ==> match (
                version,
                result,
            ) {
                (Version::Latest, Ok(t)) => r matches Ok(kept) && kept@ == t@,
                (Version::Ref(reference), Ok(t)) => if t.version is Some && t.version->0@
                    != reference@ {
                    r matches Err(e) && e@ == ErrorView::Unsupported(
                        "PromptHub does not expose the requested version '"@ + reference@
                            + "'. Returned version '"@ + t.version->0@ + "'."@,
                    )
                } else {
                    r matches Ok(kept) && kept@ == t@
                },
                (_, Err(e)) => r matches Err(kept) && kept@ == e@,
            },
{
}

/// Two texts are the same where they hold the same characters, and a text is trimmed by cutting
/// the slashes off its end, all of them and nothing else.
pub proof fn law_texts_are_compared_and_trimmed_by_call<'a>(a: &'a str, b: &str)
    ensures
        forall|r: bool| #[trigger] call_ensures(same_text, (a, b), r) ==> (r <==> a@ == b@),
        forall|r: &'a str| #[trigger] call_ensures(trim_end_slashes, (a,), r) ==> trimmed(r@, a@),
{
    law_trimmed_addresses(a@, a@);
}

/// The entries of metadata say what the metadata says, no name twice, and a copy of metadata says
/// the same.
pub proof fn law_entries_by_call(metadata: &Metadata)
    ensures
        forall|r: &Vec<(String, Value)>| #[trigger]
            call_ensures(Metadata::entries, (metadata,), r) ==> names_distinct(r@) && entries_view(
                r@,
            ) == metadata@,
        forall|r: Metadata| #[trigger]
            call_ensures(<Metadata as Clone>::clone, (metadata,), r) ==> r@ == metadata@,
{
}

} // verus!

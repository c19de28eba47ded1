//! What holds of the values that pass through every repository: exchanges, views, errors, JSON
//! values and metadata.

use crate::error::{
    error_message, repository_error_message, ErrorView, PromptError, PromptRepositoryError,
};
use crate::haystack::HaystackPromptHub;
use crate::http::{reason_phrase, HttpRequest, Status};
use crate::json::{json, json_at, jsons, Json};
use crate::langsmith::LangSmith;
use crate::metadata::Metadata;
use crate::openlit::{OpenLit, QueryType, QueryTypeView};
use crate::promthub::{ProjectId, PromptHub};
use crate::repository::{
    fetch_outcome, fetch_outcome_spec, query_outcome, query_outcome_spec, result_view, Exchange,
    PromptRepository,
};
use crate::template::{PromptSegment, PromptTemplate, Role, RoleView, TemplateSyntax, TemplateView};
use crate::text::decimal;
use crate::version::{Version, VersionView};
use serde_json::Value;
use vstd::prelude::*;
use vstd::std_specs::convert::FromSpec;

verus! {

/// In every repository, an answer with a status from 200 to 299 ends by its body alone, and with
/// any other status in an error that names the service, the code and its reason.
pub proof fn law_exchanges_end_by_status_and_body<'a, R: PromptRepository>(
    repository: R,
    q: R::Query<'a>,
    id: Seq<char>,
    version: VersionView,
    status: Status,
    body: Result<R::Payload, String>,
)
    ensures
        200 <= status@ <= 299 ==> {
            &&& query_outcome_spec(repository, q, Exchange::Answered(status, body))
                == repository.query_result_spec(q, body)
            &&& fetch_outcome_spec(repository, id, version, Exchange::Answered(status, body))
                == repository.fetch_result_spec(id, version, body)
        },
        !(200 <= status@ <= 299) ==> {
            let words = repository.service() + " returned status "@ + decimal(status@ as nat) + " "@
                + reason_phrase(status@);
            &&& query_outcome_spec(repository, q, Exchange::Answered(status, body)) matches Err(e)
                && e == ErrorView::Api(words)
            &&& fetch_outcome_spec(
                repository,
                id,
                version,
                Exchange::Answered(status, body),
            ) matches Err(e) && e == ErrorView::Api(words)
        },
{
    assert(repository.service() + " returned status "@ + (decimal(status@ as nat) + " "@
        + reason_phrase(status@)) =~= repository.service() + " returned status "@ + decimal(
        status@ as nat,
    ) + " "@ + reason_phrase(status@));
}

/// In every repository, what an exchange ends in is what the outcome of its query or fetch is
/// said to be.
pub proof fn law_exchanges_end_by_call<'a, R: PromptRepository>(
    repository: &R,
    q: R::Query<'a>,
    id: &str,
    version: Version<'a>,
    exchange: Exchange<R::Payload>,
)
    ensures
        forall|r: Result<R::Prompt, PromptError>| #[trigger]
            call_ensures(query_outcome::<R>, (repository, q, exchange), r) ==> match r {
                Ok(prompt) => query_outcome_spec(*repository, q, exchange) == Ok::<
                    <R::Prompt as View>::V,
                    ErrorView,
                >(prompt@),
                Err(e) => query_outcome_spec(*repository, q, exchange) == Err::<
                    <R::Prompt as View>::V,
                    ErrorView,
                >(e@),
            },
        forall|r: Result<R::Prompt, PromptError>| #[trigger]
            call_ensures(fetch_outcome::<R>, (repository, id, version, exchange), r) ==> match r {
                Ok(prompt) => fetch_outcome_spec(*repository, id@, version@, exchange) == Ok::<
                    <R::Prompt as View>::V,
                    ErrorView,
                >(prompt@),
                Err(e) => fetch_outcome_spec(*repository, id@, version@, exchange) == Err::<
                    <R::Prompt as View>::V,
                    ErrorView,
                >(e@),
            },
{
}

/// The names by which the services stand in errors.
pub proof fn law_services_go_by_their_names(
    langsmith: LangSmith,
    haystack: HaystackPromptHub,
    prompthub: PromptHub,
    openlit: OpenLit,
)
    ensures
        langsmith.service() == "LangSmith"@,
        haystack.service() == "Haystack PromptHub"@,
        prompthub.service() == "PromptHub"@,
        openlit.service() == "OpenLIT"@,
{
}

/// The view of a result, a template, a segment or a role shows all that it holds, as it is.
pub proof fn law_templates_are_shown_as_they_are(
    template: PromptTemplate,
    segment: PromptSegment,
    e: PromptError,
)
    ensures
        result_view(Ok::<PromptTemplate, PromptError>(template)) == Ok::<TemplateView, ErrorView>(template@),
        result_view(Err::<PromptTemplate, PromptError>(e)) == Err::<TemplateView, ErrorView>(e@),
        template@.id == template.id@,
        template@.metadata == template.metadata@,
        template.version is None <==> template@.version is None,
        template.version matches Some(version) ==> template@.version == Some(version@),
        template@.segments.len() == template.segments@.len(),
        forall|i: int|
            0 <= i < template.segments@.len() ==> template@.segments[i] == (
            #[trigger] template.segments@[i])@,
        segment@.template == segment.template@,
        segment@.syntax == segment.syntax,
        segment@.role is System <==> segment.role is System,
        segment@.role is User <==> segment.role is User,
        segment@.role is Assistant <==> segment.role is Assistant,
        segment.role matches Role::Custom(name) ==> segment@.role == RoleView::Custom(name@),
{
}

/// The view of a request shows all that it holds, as it is.
pub proof fn law_requests_are_shown_as_they_are(request: HttpRequest)
    ensures
        request@.method == request.method,
        request@.url == request.url@,
        request.body is None <==> request@.body is None,
        request.body matches Some(body) ==> request@.body == Some(body@),
        request@.headers.len() == request.headers@.len(),
        forall|i: int|
            0 <= i < request.headers@.len() ==> request@.headers[i] == (
                (#[trigger] request.headers@[i]).0@,
                request.headers@[i].1@,
            ),
{
}

/// The view of a version or of a way to find a prompt shows all that it holds, as it is.
pub proof fn law_queries_are_shown_as_they_are<'a>(version: Version<'a>, query: QueryType<'a>)
    ensures
        version is Latest <==> version@ is Latest,
        version matches Version::Ref(reference) ==> version@ == VersionView::Ref(reference@),
        query matches QueryType::ById(id) ==> query@ == QueryTypeView::ById(id@),
        query matches QueryType::ByName(name) ==> query@ == QueryTypeView::ByName(name@),
{
}

/// The view of an error shows its kind and its words, as they are.
pub proof fn law_errors_are_shown_as_they_are(e: PromptError)
    ensures
        match e {
            PromptError::NotFound => e@ is NotFound,
            PromptError::Unsupported(s) => e@ == ErrorView::Unsupported(s@),
            PromptError::Network(s) => e@ == ErrorView::Network(s@),
            PromptError::Api(s) => e@ == ErrorView::Api(s@),
            PromptError::Deserialization(s) => e@ == ErrorView::Deserialization(s@),
            PromptError::Serialization(s) => e@ == ErrorView::Serialization(s@),
            PromptError::PromptExtraction(s) => e@ == ErrorView::PromptExtraction(s@),
            PromptError::Other(s) => e@ == ErrorView::Other(s@),
        },
{
}

/// The words of an error stand at the end of its message, in full, behind what the kind of the
/// error says by itself.
pub proof fn law_messages_end_in_the_words(s: Seq<char>)
    ensures
        error_message(ErrorView::Unsupported(s)) == error_message(
            ErrorView::Unsupported(Seq::empty()),
        ) + s,
        error_message(ErrorView::Network(s)) == error_message(ErrorView::Network(Seq::empty())) + s,
        error_message(ErrorView::Api(s)) == error_message(ErrorView::Api(Seq::empty())) + s,
        error_message(ErrorView::Deserialization(s)) == error_message(
            ErrorView::Deserialization(Seq::empty()),
        ) + s,
        error_message(ErrorView::Serialization(s)) == error_message(
            ErrorView::Serialization(Seq::empty()),
        ) + s,
        error_message(ErrorView::PromptExtraction(s)) == error_message(
            ErrorView::PromptExtraction(Seq::empty()),
        ) + s,
        error_message(ErrorView::Other(s)) == error_message(ErrorView::Other(Seq::empty())) + s,
{
    assert forall|label: Seq<char>| #[trigger] (label + Seq::<char>::empty()) == label by {
        assert(label + Seq::<char>::empty() =~= label);
    }
}

/// The words of a client error stand at the end of its message, in full, behind what its kind
/// says by itself.
pub proof fn law_client_messages_end_in_the_words(s: String, empty: String)
    requires
        empty@ == Seq::<char>::empty(),
    ensures
        repository_error_message(PromptRepositoryError::RequestError(s))
            == repository_error_message(PromptRepositoryError::RequestError(empty)) + s@,
        repository_error_message(PromptRepositoryError::ApiError(s)) == repository_error_message(
            PromptRepositoryError::ApiError(empty),
        ) + s@,
        repository_error_message(PromptRepositoryError::SerializationError(s))
            == repository_error_message(PromptRepositoryError::SerializationError(empty)) + s@,
        repository_error_message(PromptRepositoryError::DeserializationError(s))
            == repository_error_message(PromptRepositoryError::DeserializationError(empty)) + s@,
{
    assert forall|label: Seq<char>| #[trigger] (label + Seq::<char>::empty()) == label by {
        assert(label + Seq::<char>::empty() =~= label);
    }
}

/// What errors, versions and project identifiers are written as, by the calls that write them.
pub proof fn law_texts_by_call<'a>(
    e: &PromptError,
    client_error: &PromptRepositoryError,
    version: &Version<'a>,
    project: &ProjectId,
)
    ensures
        forall|r: String| #[trigger]
            call_ensures(PromptError::message, (e,), r) ==> r@ == error_message(e@),
        forall|r: String| #[trigger]
            call_ensures(PromptRepositoryError::message, (client_error,), r) ==> r@
                == repository_error_message(*client_error),
        forall|r: bool| #[trigger]
            call_ensures(Version::is_latest, (version,), r) ==> (r <==> *version is Latest),
        forall|r: &'a str| #[trigger]
            call_ensures(Version::<'a>::as_text, (version,), r) ==> r@ == (match *version {
                Version::Latest => "latest"@,
                Version::Ref(reference) => reference@,
            }),
        forall|r: String| #[trigger]
            call_ensures(ProjectId::text, (project,), r) ==> r@ == (match *project {
                ProjectId::Number(n) => decimal(n as nat),
                ProjectId::Text(s) => s@,
            }),
{
}

/// A format name stands for f-string syntax exactly where it is `f-string`.
pub proof fn law_only_f_string_is_f_string<'a>(name: Option<&'a str>)
    ensures
        <TemplateSyntax as FromSpec<Option<&'a str>>>::obeys_from_spec(),
        <TemplateSyntax as FromSpec<Option<&'a str>>>::from_spec(name) == TemplateSyntax::FString
            <==> (name matches Some(s) && s@ == "f-string"@),
{
}

/// A status is a number from 100 to 999, and succeeds from 200 to 299.
pub proof fn law_statuses_by_call(code: u16, status: &Status)
    ensures
        forall|r: Option<Status>| #[trigger]
            call_ensures(Status::from_u16, (code,), r) ==> (r is Some <==> 100 <= code <= 999) && (
            r matches Some(s) ==> s@ == code),
        forall|r: u16| #[trigger] call_ensures(Status::as_u16, (status,), r) ==> r == status@,
        forall|r: bool| #[trigger]
            call_ensures(Status::is_success, (status,), r) ==> (r <==> 200 <= status@ <= 299),
        forall|r: String| #[trigger]
            call_ensures(Status::text, (status,), r) ==> r@ == decimal(status@ as nat) + " "@
                + reason_phrase(status@),
{
}

/// Going along some keys and then along others is going along all of them, and one key goes from
/// an object to its member and from anything else nowhere.
pub proof fn law_keys_are_followed_one_by_one(j: Json, a: Seq<Seq<char>>, b: Seq<Seq<char>>)
    ensures
        json_at(j, Seq::empty()) == Some(j),
        json_at(j, a + b) == (match json_at(j, a) {
            Some(found) => json_at(found, b),
            None => None,
        }),
        a.len() == 1 ==> match json_at(j, a) {
            Some(found) => j matches Json::Object(m) && m.contains_key(a[0]) && found == m[a[0]],
            None => j matches Json::Object(m) ==> !m.contains_key(a[0]),
        },
    decreases a.len(),
{
    if a.len() == 0 {
        assert(a + b =~= b);
        assert(a =~= Seq::empty());
    } else {
        assert((a + b).drop_first() =~= a.drop_first() + b);
        if let Json::Object(m) = j {
            if m.contains_key(a[0]) {
                law_keys_are_followed_one_by_one(m[a[0]], a.drop_first(), b);
                if a.len() == 1 {
                    assert(a.drop_first() =~= Seq::empty());
                }
            }
        }
    }
}

/// The trees of a list of values are those of its items, one for one.
pub proof fn law_values_are_shown_one_by_one(values: Seq<Value>)
    ensures
        jsons(values).len() == values.len(),
        forall|i: int| 0 <= i < values.len() ==> jsons(values)[i] == json(#[trigger] values[i]),
{
}

/// Metadata is empty at first; putting a value under a name changes what stands under that name
/// and nothing else; and a value is found under a name exactly where there is one.
pub proof fn law_metadata_by_call(name: String, value: Value, metadata: &Metadata, wanted: &str)
    ensures
        forall|r: Metadata| #[trigger]
            call_ensures(Metadata::new, (), r) ==> forall|other: Seq<char>| !#[trigger]
                r@.contains_key(other),
        forall|changed: &mut Metadata, r: ()|
            #![trigger call_ensures(Metadata::insert, (changed, name, value), r)]
            call_ensures(Metadata::insert, (changed, name, value), r) ==> {
                &&& final(changed)@.contains_key(name@)
                &&& final(changed)@[name@] == json(value)
                &&& forall|other: Seq<char>| #[trigger]
                    final(changed)@.contains_key(other) && other != name@
                        ==> changed@.contains_key(other) && final(changed)@[other]
                        == changed@[other]
                &&& forall|other: Seq<char>| #[trigger]
                    changed@.contains_key(other) ==> final(changed)@.contains_key(other)
            },
        forall|r: Option<&Value>| #[trigger]
            call_ensures(Metadata::get, (metadata, wanted), r) ==> (r is Some
                <==> metadata@.contains_key(wanted@)) && (r matches Some(v) ==> json(*v)
                == metadata@[wanted@]),
        forall|r: bool| #[trigger]
            call_ensures(Metadata::contains_key, (metadata, wanted), r) ==> (r
                <==> metadata@.contains_key(wanted@)),
{
}

} // verus!

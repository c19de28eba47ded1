//! What an OpenLIT prompt has to do with the answer that it comes from, and what the service is
//! asked.

use crate::error::ErrorView;
use crate::json::{debug_text, json, json_string, members, Json};
use crate::laws::law_openlit_bodies_tell_the_query;
use crate::openlit::{
    answer, no_error, request_body, ApiRequest, ApiResponse, OpenLit, OpenLitQuery, PromptResponse,
    QueryType, QueryTypeView,
};
use crate::repository::PromptRepository;
use crate::template::{TemplateSyntax, TemplateView};
use crate::version::{Version, VersionView};
use vstd::prelude::*;
use vstd::std_specs::convert::FromSpec;

verus! {

/// The members of a JSON object, name and value, with commas between them.
pub open spec fn listed(entries: Seq<(Seq<char>, Seq<char>)>) -> Seq<char>
    decreases entries.len(),
{
    if entries.len() == 0 {
        Seq::empty()
    } else {
        let entry = seq!['"'] + entries.last().0 + seq!['"', ':'] + entries.last().1;
        if entries.len() == 1 {
            entry
        } else {
            listed(entries.drop_last()) + seq![','] + entry
        }
    }
}

/// A JSON object with these members, of which each value is JSON already and each name stands in
/// quotes as it is.
pub open spec fn object(entries: Seq<(Seq<char>, Seq<char>)>) -> Seq<char> {
    seq!['{'] + listed(entries) + seq!['}']
}

/// What a request names: the identifier or the name, the version unless it is the latest, and
/// whether the prompt shall be filled in.
pub open spec fn asked(
    query: QueryTypeView,
    version: VersionView,
    compile: bool,
) -> Seq<(Seq<char>, Seq<char>)> {
    let key = match query {
        QueryTypeView::ById(id) => ("id"@, json_string(id)),
        QueryTypeView::ByName(name) => ("name"@, json_string(name)),
    };
    let flag = ("compile"@, if compile {
        "true"@
    } else {
        "false"@
    });
    match version {
        VersionView::Latest => seq![key, flag],
        VersionView::Ref(reference) => seq![key, ("version"@, json_string(reference)), flag],
    }
}

proof fn lemma_two(a: (Seq<char>, Seq<char>), b: (Seq<char>, Seq<char>))
    ensures
        listed(seq![a]) == seq!['"'] + a.0 + seq!['"', ':'] + a.1,
        listed(seq![a, b]) == listed(seq![a]) + seq![','] + (seq!['"'] + b.0 + seq!['"', ':']
            + b.1),
{
    assert(seq![a, b].drop_last() =~= seq![a]);
}

proof fn lemma_three(
    a: (Seq<char>, Seq<char>),
    b: (Seq<char>, Seq<char>),
    c: (Seq<char>, Seq<char>),
)
    ensures
        listed(seq![a, b, c]) == listed(seq![a, b]) + seq![','] + (seq!['"'] + c.0 + seq!['"', ':']
            + c.1),
{
    assert(seq![a, b, c].drop_last() =~= seq![a, b]);
}

/// The body of a request is a JSON object of what it asks: `id` with the identifier where the
/// prompt is found by identifier, `name` with the name where it is found by name, `version` with
/// the reference unless it is the latest, and `compile`.
pub proof fn law_openlit_bodies_are_objects(
    query: QueryTypeView,
    version: VersionView,
    compile: bool,
)
    ensures
        request_body(query, version, compile) == object(asked(query, version, compile)),
{
    reveal_strlit("{");
    reveal_strlit("}");
    reveal_strlit("id");
    reveal_strlit("name");
    reveal_strlit("version");
    reveal_strlit("compile");
    reveal_strlit("\"id\":");
    reveal_strlit("\"name\":");
    reveal_strlit(",\"version\":");
    reveal_strlit(",\"compile\":");
    let entries = asked(query, version, compile);
    let key = entries[0];
    match version {
        VersionView::Latest => {
            lemma_two(key, entries[1]);
            assert(entries =~= seq![key, entries[1]]);
        },
        VersionView::Ref(reference) => {
            lemma_two(key, entries[1]);
            lemma_three(key, entries[1], entries[2]);
            assert(entries =~= seq![key, entries[1], entries[2]]);
            assert(seq![','] + (seq!['"'] + "version"@ + seq!['"', ':'] + json_string(reference))
                =~= ",\"version\":"@ + json_string(reference));
        },
    }
    match query {
        QueryTypeView::ById(id) => {
            assert(seq!['"'] + "id"@ + seq!['"', ':'] =~= "\"id\":"@);
        },
        QueryTypeView::ByName(name) => {
            assert(seq!['"'] + "name"@ + seq!['"', ':'] =~= "\"name\":"@);
        },
    }
    assert(request_body(query, version, compile) =~= object(entries));
}

/// A query is posted to the service with a body that names its identifier or its name, as the
/// query does, its version unless it is the latest, and never asks to fill the prompt in.
pub proof fn law_openlit_is_asked_what_the_query_asks<'a>(repository: OpenLit, q: OpenLitQuery<'a>)
    ensures
        ({
            let request = repository.query_request_spec(q);
            &&& request.method is Post
            &&& request.url == repository.endpoint() + "/api/prompt/get-compiled"@
            &&& request.headers == seq![
                ("Authorization"@, "Bearer "@ + repository.key()),
                ("Content-Type"@, "application/json"@),
            ]
            &&& q.query_type matches QueryType::ById(id) ==> request.body == Some(
                object(asked(QueryTypeView::ById(id@), q.version@, false)),
            )
            &&& q.query_type matches QueryType::ByName(name) ==> request.body == Some(
                object(asked(QueryTypeView::ByName(name@), q.version@, false)),
            )
        }),
{
    law_openlit_bodies_are_objects(q.query_type@, q.version@, false);
}

/// A fetch is posted to the service with a body that asks for the prompt of that name.
pub proof fn law_openlit_is_asked_for_a_name(
    repository: OpenLit,
    name: Seq<char>,
    version: VersionView,
)
    ensures
        ({
            let request = repository.fetch_request_spec(name, version);
            &&& request.method is Post
            &&& request.url == repository.endpoint() + "/api/prompt/get-compiled"@
            &&& request.headers == seq![
                ("Authorization"@, "Bearer "@ + repository.key()),
                ("Content-Type"@, "application/json"@),
            ]
            &&& request.body == Some(object(asked(QueryTypeView::ByName(name), version, false)))
        }),
{
    law_openlit_bodies_are_objects(QueryTypeView::ByName(name), version, false);
}

/// Two queries with the same request body are the same query: both by identifier or both by name,
/// by the same one, at the same version.
pub proof fn law_openlit_requests_tell_the_query<'a, 'b>(
    repository: OpenLit,
    p: OpenLitQuery<'a>,
    q: OpenLitQuery<'b>,
)
    requires
        repository.query_request_spec(p).body == repository.query_request_spec(q).body,
    ensures
        p.query_type is ById <==> q.query_type is ById,
        p.query_type matches QueryType::ById(a) ==> (q.query_type matches QueryType::ById(b) && a@
            == b@),
        p.query_type matches QueryType::ByName(a) ==> (q.query_type matches QueryType::ByName(b)
            && a@ == b@),
        p.version is Latest <==> q.version is Latest,
        p.version matches Version::Ref(a) ==> (q.version matches Version::Ref(b) && a@ == b@),
{
    law_openlit_bodies_tell_the_query(
        repository,
        p.query_type@,
        p.version@,
        q.query_type@,
        q.version@,
    );
}

/// The request that is made of a query asks what the query asks, and not to fill the prompt in.
pub proof fn law_openlit_requests_keep_the_query<'a>(q: OpenLitQuery<'a>)
    ensures
        ({
            let request = <ApiRequest<'a> as FromSpec<OpenLitQuery<'a>>>::from_spec(q);
            request.query_type == q.query_type && request.version == q.version && !request.compile
        }),
{
}

/// Whether an answer names no error: its `err` is null, or an object without members.
pub open spec fn without_error(err: Json) -> bool {
    err is Null || (err matches Json::Object(m) && forall|name: Seq<char>| !#[trigger]
        m.contains_key(name))
}

proof fn lemma_without_error(err: Json)
    ensures
        without_error(err) <==> no_error(err),
{
    if let Json::Object(m) = err {
        if without_error(err) {
            assert(m =~= Map::empty());
        }
    }
}

/// The prompt of an answer is taken out exactly where the answer names no error and has one. An
/// error comes before the prompt: as its text where it is a text, and otherwise as it is written
/// for debugging. An answer with neither is an error that says so.
pub proof fn law_openlit_answers_are_read(api: ApiResponse)
    ensures
        answer(api) matches Ok(res) ==> without_error(json(api.err)) && api.res == Some(res),
        without_error(json(api.err)) && api.res is Some ==> answer(api) is Ok,
        without_error(json(api.err)) && api.res is None ==> answer(api) == Err::<
            PromptResponse,
            ErrorView,
        >(ErrorView::Other("Response missing payload"@)),
        json(api.err) matches Json::Text(words) ==> answer(api) == Err::<PromptResponse, ErrorView>(
            ErrorView::Api(words),
        ),
        !without_error(json(api.err)) && !(json(api.err) is Text) ==> answer(api) == Err::<
            PromptResponse,
            ErrorView,
        >(ErrorView::Api(debug_text(json(api.err)))),
{
    lemma_without_error(json(api.err));
}

/// Whether a template says what a stored prompt says: its text as the only segment, character for
/// character, spoken by the user in moustache syntax; its name and version; and both identifiers,
/// the tags and the properties beside it, and nothing else.
pub open spec fn tells_stored(res: PromptResponse, template: TemplateView) -> bool {
    &&& res.prompt matches Some(text) && template.segments.len() == 1
        && template.segments[0].template == text@
    &&& template.segments[0].role is User
    &&& template.segments[0].syntax == TemplateSyntax::Moustache
    &&& template.id == "openlit:"@ + res.name@
    &&& template.version == Some(res.version@)
    &&& forall|name: Seq<char>| #[trigger]
        template.metadata.contains_key(name) <==> name == "promptId"@ || name == "versionId"@
            || name == "tags"@ || name == "metaProperties"@
    &&& template.metadata["promptId"@] == Json::Text(res.prompt_id@)
    &&& template.metadata["versionId"@] == Json::Text(res.version_id@)
    &&& template.metadata["tags"@] matches Json::Array(tags) && tags.len() == res.tags@.len()
        && forall|i: int| 0 <= i < tags.len() ==> #[trigger] tags[i] == json(res.tags@[i])
    &&& template.metadata["metaProperties"@] == Json::Object(members(res.meta_properties))
}

/// A query or a fetch hands a prompt out exactly where the answer names no error and has a prompt
/// with a text, and then the template says what the stored prompt says.
pub proof fn law_openlit_prompts_tell_what_is_stored<'a>(
    repository: OpenLit,
    q: OpenLitQuery<'a>,
    name: Seq<char>,
    version: VersionView,
    api: ApiResponse,
)
    ensures
        match repository.query_result_spec(q, Ok(api)) {
            Ok(template) => without_error(json(api.err)) && (api.res matches Some(res)
                && tells_stored(res, template)),
            Err(_) => !without_error(json(api.err)) || api.res is None || api.res->0.prompt is None,
        },
        repository.fetch_result_spec(name, version, Ok(api)) == repository.query_result_spec(
            q,
            Ok(api),
        ),
{
    lemma_without_error(json(api.err));
    reveal_strlit("promptId");
    reveal_strlit("versionId");
    reveal_strlit("tags");
    reveal_strlit("metaProperties");
    assert("promptId"@.len() == 8 && "versionId"@.len() == 9 && "tags"@.len() == 4
        && "metaProperties"@.len() == 14);
}

/// Why a query or a fetch hands no prompt out: the error that the answer names, then the missing
/// prompt, then the missing text.
pub proof fn law_openlit_errors<'a>(
    repository: OpenLit,
    q: OpenLitQuery<'a>,
    name: Seq<char>,
    version: VersionView,
    api: ApiResponse,
    words: String,
)
    ensures
        json(api.err) matches Json::Text(said) ==> repository.query_result_spec(q, Ok(api)) == Err::<
            TemplateView,
            ErrorView,
        >(ErrorView::Api(said)),
        !without_error(json(api.err)) && !(json(api.err) is Text) ==> repository.query_result_spec(
            q,
            Ok(api),
        ) == Err::<TemplateView, ErrorView>(ErrorView::Api(debug_text(json(api.err)))),
        without_error(json(api.err)) && api.res is None ==> repository.query_result_spec(
            q,
            Ok(api),
        ) == Err::<TemplateView, ErrorView>(ErrorView::Other("Response missing payload"@)),
        without_error(json(api.err)) && (api.res matches Some(res) && res.prompt is None)
            ==> repository.query_result_spec(q, Ok(api)) == Err::<TemplateView, ErrorView>(
            ErrorView::PromptExtraction("`prompt` field missing in OpenLIT response"@),
        ),
        repository.query_result_spec(q, Err(words)) == Err::<TemplateView, ErrorView>(
            ErrorView::Deserialization(words@),
        ),
        repository.fetch_result_spec(name, version, Err(words)) == repository.query_result_spec(
            q,
            Err(words),
        ),
{
    lemma_without_error(json(api.err));
}

} // verus!

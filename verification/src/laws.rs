//! What holds of the repositories as a whole.

use crate::error::ErrorView;
use crate::haystack::{self, HaystackPromptHub, PromptPayload};
use crate::http::{success, Status};
use crate::json::{json, json_char, json_chars, json_string, Json};
use crate::langsmith::{
    ids_of, items_at, kwargs, lemma_head_is_readable, message_segment, readable, readable_head,
    CommitResponse, LangSmith,
};
use crate::openlit::{
    no_error, query_member, request_body, version_member, OpenLit, OpenLitQuery, QueryTypeView,
};
use crate::promthub::{self, PromptHub, PromptHubQuery};
use crate::repository::{
    fetch_outcome_spec, query_outcome_spec, refusal, Exchange, PromptRepository,
};
use crate::semver::semver;
use crate::template::{TemplateSyntax, TemplateView};
use crate::text::without_end_slashes;
use crate::version::{PromptQuery, VersionView};
use vstd::prelude::*;

verus! {

/// A fetch from Haystack PromptHub that names a version ends in a prompt of that version or in an
/// error; the prompt tells the version where it is a semantic one.
pub proof fn law_haystack_fetch_keeps_the_version(
    repository: HaystackPromptHub,
    id: Seq<char>,
    reference: Seq<char>,
    body: Result<PromptPayload, String>,
)
    ensures
        repository.fetch_result_spec(id, VersionView::Ref(reference), body) matches Ok(template)
            ==> {
            &&& body->Ok_0.version@ == reference
            &&& template.version == (if semver(reference) {
                Some(reference)
            } else {
                None
            })
        },
{
}

/// A fetch from PromptHub that names a version ends in that version or in an error.
pub proof fn law_prompthub_fetch_keeps_the_version(
    repository: PromptHub,
    id: Seq<char>,
    reference: Seq<char>,
    body: Result<promthub::ApiResponse, String>,
)
    ensures
        repository.fetch_result_spec(id, VersionView::Ref(reference), body) matches Ok(template)
            ==> template.version == Some(reference),
{
}

/// Haystack PromptHub and PromptHub refuse a fetch whose version is not the one that came back,
/// and say which two versions they are.
pub proof fn law_other_versions_are_refused(
    haystack: HaystackPromptHub,
    prompthub: PromptHub,
    id: Seq<char>,
    reference: Seq<char>,
    payload: PromptPayload,
    api: promthub::ApiResponse,
)
    ensures
        payload.version@ != reference ==> haystack.fetch_result_spec(
            id,
            VersionView::Ref(reference),
            Ok(payload),
        ) == Err::<TemplateView, ErrorView>(
            haystack::version_mismatch(reference, payload.version@),
        ),
        api.data.hash@ != reference ==> prompthub.fetch_result_spec(
            id,
            VersionView::Ref(reference),
            Ok(api),
        ) == Err::<TemplateView, ErrorView>(
            promthub::version_mismatch(reference, api.data.hash@),
        ),
{
}

/// A fetch that names the version that came back ends as the fetch of the latest does.
pub proof fn law_the_returned_version_is_the_latest(
    haystack: HaystackPromptHub,
    prompthub: PromptHub,
    id: Seq<char>,
    payload: PromptPayload,
    api: promthub::ApiResponse,
)
    ensures
        haystack.fetch_result_spec(id, VersionView::Ref(payload.version@), Ok(payload))
            == haystack.fetch_result_spec(id, VersionView::Latest, Ok(payload)),
        prompthub.fetch_result_spec(id, VersionView::Ref(api.data.hash@), Ok(api))
            == prompthub.fetch_result_spec(id, VersionView::Latest, Ok(api)),
{
}

/// With LangSmith and Haystack PromptHub, a query is a fetch by its identifier and version.
pub proof fn law_query_is_fetch<'a>(
    langsmith: LangSmith,
    haystack: HaystackPromptHub,
    q: PromptQuery<'a>,
    commit: Result<CommitResponse, String>,
    payload: Result<PromptPayload, String>,
)
    ensures
        langsmith.query_request_spec(q) == langsmith.fetch_request_spec(q.id@, q.version@),
        langsmith.query_result_spec(q, commit) == langsmith.fetch_result_spec(
            q.id@,
            q.version@,
            commit,
        ),
        haystack.query_request_spec(q) == haystack.fetch_request_spec(q.id@, q.version@),
        haystack.query_result_spec(q, payload) == haystack.fetch_result_spec(
            q.id@,
            q.version@,
            payload,
        ),
{
}

/// With OpenLIT, a fetch is a query by name.
pub proof fn law_openlit_fetch_is_query_by_name<'a>(
    repository: OpenLit,
    q: OpenLitQuery<'a>,
    name: Seq<char>,
    body: Result<crate::openlit::ApiResponse, String>,
)
    requires
        q.query_type@ == QueryTypeView::ByName(name),
    ensures
        repository.fetch_request_spec(name, q.version@) == repository.query_request_spec(q),
        repository.fetch_result_spec(name, q.version@, body) == repository.query_result_spec(
            q,
            body,
        ),
{
}

/// With PromptHub, a fetch asks for the head of the main line, and the fetch of the latest
/// version is that query.
pub proof fn law_prompthub_fetch_is_query_without_branch<'a>(
    repository: PromptHub,
    q: PromptHubQuery<'a>,
    version: VersionView,
    body: Result<promthub::ApiResponse, String>,
)
    requires
        q.branch is None,
    ensures
        repository.fetch_request_spec(q.id@, version) == repository.query_request_spec(q),
        repository.fetch_result_spec(q.id@, VersionView::Latest, body)
            == repository.query_result_spec(q, body),
{
}

/// To LangSmith, the latest version and the reference `latest` are the same request.
pub proof fn law_langsmith_latest_is_a_reference(repository: LangSmith, path: Seq<char>)
    ensures
        repository.fetch_request_spec(path, VersionView::Latest) == repository.fetch_request_spec(
            path,
            VersionView::Ref("latest"@),
        ),
{
}

/// Some slashes.
pub open spec fn slashes(n: nat) -> Seq<char> {
    Seq::new(n, |i: int| '/')
}

proof fn lemma_slashes_are_cut_off(s: Seq<char>, n: nat)
    ensures
        without_end_slashes(s + slashes(n)) == without_end_slashes(s),
    decreases n,
{
    if n == 0 {
        assert(s + slashes(0) =~= s);
    } else {
        assert((s + slashes(n)).drop_last() =~= s + slashes((n - 1) as nat));
        lemma_slashes_are_cut_off(s, (n - 1) as nat);
    }
}

/// Whether an address is another one without the slashes that it ends in.
pub open spec fn trimmed(address: Seq<char>, endpoint: Seq<char>) -> bool {
    &&& exists|n: nat| endpoint == address + #[trigger] slashes(n)
    &&& address.len() > 0 ==> address.last() != '/'
}

/// Every address can be trimmed, and in one way only.
pub proof fn law_trimmed_addresses(address: Seq<char>, endpoint: Seq<char>)
    ensures
        trimmed(without_end_slashes(endpoint), endpoint),
        trimmed(address, endpoint) ==> address == without_end_slashes(endpoint),
    decreases endpoint.len(),
{
    if endpoint.len() > 0 && endpoint.last() == '/' {
        let shorter = endpoint.drop_last();
        law_trimmed_addresses(address, shorter);
        let n = choose|n: nat| shorter == without_end_slashes(shorter) + #[trigger] slashes(n);
        assert(endpoint =~= shorter.push('/'));
        assert(slashes(n + 1) =~= slashes(n).push('/'));
        assert(endpoint =~= without_end_slashes(shorter) + slashes(n + 1));
    } else {
        assert(endpoint =~= endpoint + slashes(0));
    }
    if trimmed(address, endpoint) {
        let n = choose|n: nat| endpoint == address + #[trigger] slashes(n);
        lemma_slashes_are_cut_off(address, n);
    }
}

/// Slashes at the end of the address make no difference to LangSmith and Haystack PromptHub,
/// however many they are.
pub proof fn law_end_slashes_do_not_matter(
    langsmith: LangSmith,
    langsmith_with_slashes: LangSmith,
    haystack: HaystackPromptHub,
    haystack_with_slashes: HaystackPromptHub,
    n: nat,
    id: Seq<char>,
    version: VersionView,
)
    requires
        langsmith_with_slashes.endpoint() == langsmith.endpoint() + slashes(n),
        langsmith_with_slashes.key() == langsmith.key(),
        haystack_with_slashes.endpoint() == haystack.endpoint() + slashes(n),
    ensures
        langsmith_with_slashes.fetch_request_spec(id, version) == langsmith.fetch_request_spec(
            id,
            version,
        ),
        haystack_with_slashes.fetch_request_spec(id, version) == haystack.fetch_request_spec(
            id,
            version,
        ),
{
    lemma_slashes_are_cut_off(langsmith.endpoint(), n);
    lemma_slashes_are_cut_off(haystack.endpoint(), n);
}

/// Whether a template is one user segment in moustache syntax.
pub open spec fn single_user_segment(template: TemplateView) -> bool {
    &&& template.segments.len() == 1
    &&& template.segments[0].role is User
    &&& template.segments[0].syntax == TemplateSyntax::Moustache
}

/// Haystack PromptHub and OpenLIT hand out a single user segment.
pub proof fn law_single_strings_are_user_segments(
    haystack: HaystackPromptHub,
    openlit: OpenLit,
    id: Seq<char>,
    version: VersionView,
    payload: Result<PromptPayload, String>,
    api: Result<crate::openlit::ApiResponse, String>,
)
    ensures
        haystack.fetch_result_spec(id, version, payload) matches Ok(template)
            ==> single_user_segment(template),
        openlit.fetch_result_spec(id, version, api) matches Ok(template) ==> single_user_segment(
            template,
        ),
{
}

/// A LangSmith prompt that is no chat is a single user segment.
pub proof fn law_langsmith_instruct_is_a_user_segment(
    repository: LangSmith,
    path: Seq<char>,
    version: VersionView,
    commit: CommitResponse,
)
    requires
        ids_of(json(commit.manifest)) matches Ok(ids) && !ids.contains("ChatPromptTemplate"@),
    ensures
        repository.fetch_result_spec(path, version, Ok(commit)) matches Ok(template)
            ==> template.segments.len() == 1 && template.segments[0].role is User,
{
}

/// A LangSmith chat has one segment for each message, in the order of the messages; it is handed
/// out exactly where every message has a template.
pub proof fn law_langsmith_chat_follows_its_messages(
    repository: LangSmith,
    path: Seq<char>,
    version: VersionView,
    commit: CommitResponse,
    messages: Seq<Json>,
)
    requires
        ids_of(json(commit.manifest)) matches Ok(ids) && ids.contains("ChatPromptTemplate"@),
        items_at(json(commit.manifest), kwargs("messages"@)) == Some(messages),
    ensures
        repository.fetch_result_spec(path, version, Ok(commit)) is Ok <==> (forall|i: int|
            0 <= i < messages.len() ==> readable(#[trigger] messages[i])),
        repository.fetch_result_spec(path, version, Ok(commit)) matches Ok(template) ==> {
            &&& template.segments.len() == messages.len()
            &&& forall|i: int|
                0 <= i < messages.len() ==> #[trigger] template.segments[i] == message_segment(
                    messages[i],
                )
        },
{
    lemma_head_is_readable(messages);
    if readable_head(messages) < messages.len() {
        assert(!readable(messages[readable_head(messages) as int]));
    }
}

/// The commit hash of a LangSmith prompt is its version and stands in its metadata.
pub proof fn law_langsmith_keeps_the_commit_hash(
    repository: LangSmith,
    path: Seq<char>,
    version: VersionView,
    commit: CommitResponse,
)
    ensures
        repository.fetch_result_spec(path, version, Ok(commit)) matches Ok(template) ==> {
            &&& template.version == Some(commit.commit_hash@)
            &&& template.metadata.contains_key("commit_hash"@)
            &&& template.metadata["commit_hash"@] == Json::Text(commit.commit_hash@)
        },
{
}

/// A PromptHub prompt has its system message before its prompt, and nothing else.
pub proof fn law_prompthub_has_the_system_message_first(
    repository: PromptHub,
    id: Seq<char>,
    version: VersionView,
    api: promthub::ApiResponse,
)
    ensures
        repository.fetch_result_spec(id, version, Ok(api)) matches Ok(template) ==> {
            let system = if api.data.system_message is Some {
                1int
            } else {
                0
            };
            &&& template.segments.len() == system + (if api.data.prompt is Some {
                1int
            } else {
                0
            })
            &&& api.data.system_message matches Some(text) ==> template.segments[0].role is System
                && template.segments[0].template == text@
            &&& api.data.prompt matches Some(text) ==> template.segments[system].role is User
                && template.segments[system].template == text@
        },
{
}

/// Every prompt that is handed out has a version, with one exception: a prompt of Haystack
/// PromptHub has one exactly where the payload holds a semantic version.
pub proof fn law_prompts_have_versions(
    langsmith: LangSmith,
    haystack: HaystackPromptHub,
    prompthub: PromptHub,
    openlit: OpenLit,
    id: Seq<char>,
    version: VersionView,
    commit: Result<CommitResponse, String>,
    payload: PromptPayload,
    head: Result<promthub::ApiResponse, String>,
    api: Result<crate::openlit::ApiResponse, String>,
)
    ensures
        langsmith.fetch_result_spec(id, version, commit) matches Ok(t) ==> t.version is Some,
        haystack.fetch_result_spec(id, version, Ok(payload)) matches Ok(t) ==> (t.version is Some
            <==> semver(payload.version@)),
        prompthub.fetch_result_spec(id, version, head) matches Ok(t) ==> t.version is Some,
        openlit.fetch_result_spec(id, version, api) matches Ok(t) ==> t.version is Some,
{
}

/// The identifier of a prompt is what it is called in its repository, behind the name of the
/// repository.
pub proof fn law_identifiers_name_the_repository(
    langsmith: LangSmith,
    haystack: HaystackPromptHub,
    prompthub: PromptHub,
    openlit: OpenLit,
    id: Seq<char>,
    version: VersionView,
    commit: CommitResponse,
    payload: PromptPayload,
    head: promthub::ApiResponse,
    api: crate::openlit::ApiResponse,
)
    ensures
        langsmith.fetch_result_spec(id, version, Ok(commit)) matches Ok(t) ==> t.id == "langsmith:"@
            + id,
        haystack.fetch_result_spec(id, version, Ok(payload)) matches Ok(t) ==> t.id == "haystack:"@
            + payload.name@,
        prompthub.fetch_result_spec(id, version, Ok(head)) matches Ok(t) ==> t.id == "prompthub:"@
            + promthub::project_text(head.data.project_id),
        openlit.fetch_result_spec(id, version, Ok(api)) matches Ok(t) ==> api.res is Some && t.id
            == "openlit:"@ + api.res->0.name@,
{
}

/// Prompts of two repositories never have the same identifier.
pub proof fn law_identifiers_of_two_repositories_differ(a: Seq<char>, b: Seq<char>)
    ensures
        "langsmith:"@ + a != "haystack:"@ + b,
        "langsmith:"@ + a != "prompthub:"@ + b,
        "langsmith:"@ + a != "openlit:"@ + b,
        "haystack:"@ + a != "prompthub:"@ + b,
        "haystack:"@ + a != "openlit:"@ + b,
        "prompthub:"@ + a != "openlit:"@ + b,
{
    reveal_strlit("langsmith:");
    reveal_strlit("haystack:");
    reveal_strlit("prompthub:");
    reveal_strlit("openlit:");
    assert(("langsmith:"@ + a)[0] == 'l');
    assert(("haystack:"@ + a)[0] == 'h');
    assert(("haystack:"@ + b)[0] == 'h');
    assert(("prompthub:"@ + a)[0] == 'p');
    assert(("prompthub:"@ + b)[0] == 'p');
    assert(("openlit:"@ + b)[0] == 'o');
}

/// In every repository, a query or fetch without an answer ends in a network error with the words
/// of the network.
pub proof fn law_unanswered_exchanges_are_network_errors<'a, R: PromptRepository>(
    repository: R,
    q: R::Query<'a>,
    id: Seq<char>,
    version: VersionView,
    words: String,
)
    ensures
        query_outcome_spec(repository, q, Exchange::Unanswered(words)) == Err::<
            <R::Prompt as View>::V,
            ErrorView,
        >(ErrorView::Network(words@)),
        fetch_outcome_spec(repository, id, version, Exchange::Unanswered(words)) == Err::<
            <R::Prompt as View>::V,
            ErrorView,
        >(ErrorView::Network(words@)),
{
}

/// In every repository, an answer whose status is no success ends in the refusal with that status,
/// whatever its body.
pub proof fn law_the_status_is_judged_before_the_body<'a, R: PromptRepository>(
    repository: R,
    q: R::Query<'a>,
    id: Seq<char>,
    version: VersionView,
    status: Status,
    body: Result<R::Payload, String>,
)
    requires
        !success(status@),
    ensures
        query_outcome_spec(repository, q, Exchange::Answered(status, body)) == Err::<
            <R::Prompt as View>::V,
            ErrorView,
        >(refusal(repository.service(), status@)),
        fetch_outcome_spec(repository, id, version, Exchange::Answered(status, body)) == Err::<
            <R::Prompt as View>::V,
            ErrorView,
        >(refusal(repository.service(), status@)),
{
}

/// A body that does not decode ends in an error that carries the words of the decoder.
pub proof fn law_undecodable_answers_are_errors(
    langsmith: LangSmith,
    haystack: HaystackPromptHub,
    prompthub: PromptHub,
    openlit: OpenLit,
    id: Seq<char>,
    version: VersionView,
    words: String,
)
    ensures
        langsmith.fetch_result_spec(id, version, Err(words)) == Err::<TemplateView, ErrorView>(
            ErrorView::Deserialization(words@),
        ),
        haystack.fetch_result_spec(id, version, Err(words)) == Err::<TemplateView, ErrorView>(
            ErrorView::Deserialization(words@),
        ),
        prompthub.fetch_result_spec(id, version, Err(words)) == Err::<TemplateView, ErrorView>(
            ErrorView::Deserialization(words@),
        ),
        openlit.fetch_result_spec(id, version, Err(words)) == Err::<TemplateView, ErrorView>(
            ErrorView::Deserialization(words@),
        ),
{
}

/// OpenLIT hands out a prompt only where the answer names no error.
pub proof fn law_openlit_errors_give_no_prompt(
    repository: OpenLit,
    name: Seq<char>,
    version: VersionView,
    api: crate::openlit::ApiResponse,
)
    ensures
        !no_error(json(api.err)) ==> (repository.fetch_result_spec(name, version, Ok(api)) matches Err(
            e,
        ) && e is Api),
{
}

proof fn lemma_json_char_is_a_code(a: char, b: char, x: Seq<char>, y: Seq<char>)
    requires
        json_char(a) + x == json_char(b) + y,
    ensures
        a == b,
        x == y,
{
    let left = json_char(a) + x;
    let right = json_char(b) + y;
    assert(left[0] == json_char(a)[0] && right[0] == json_char(b)[0]);
    if json_char(a).len() > 1 {
        assert(left[1] == json_char(a)[1]);
    }
    if json_char(b).len() > 1 {
        assert(right[1] == json_char(b)[1]);
    }
    if json_char(a).len() == 6 && json_char(b).len() == 6 {
        assert(left[4] == json_char(a)[4] && left[5] == json_char(a)[5]);
        assert(right[4] == json_char(b)[4] && right[5] == json_char(b)[5]);
    }
    assert(a == b);
    assert(x =~= left.skip(json_char(a).len() as int));
    assert(y =~= right.skip(json_char(b).len() as int));
}

proof fn lemma_json_chars_end_at_the_quote(a: Seq<char>, b: Seq<char>, x: Seq<char>, y: Seq<char>)
    requires
        json_chars(a) + seq!['"'] + x == json_chars(b) + seq!['"'] + y,
    ensures
        a == b,
        x == y,
    decreases a.len(),
{
    let left = json_chars(a) + seq!['"'] + x;
    let right = json_chars(b) + seq!['"'] + y;
    if a.len() == 0 {
        assert(left[0] == '"');
        if b.len() > 0 {
            assert(right[0] == json_char(b[0])[0]);
            assert(false);
        }
        assert(x =~= left.skip(1));
        assert(y =~= right.skip(1));
        assert(a =~= b);
    } else if b.len() == 0 {
        assert(right[0] == '"');
        assert(left[0] == json_char(a[0])[0]);
        assert(false);
    } else {
        let left_rest = json_chars(a.drop_first()) + seq!['"'] + x;
        let right_rest = json_chars(b.drop_first()) + seq!['"'] + y;
        assert(left =~= json_char(a[0]) + left_rest);
        assert(right =~= json_char(b[0]) + right_rest);
        lemma_json_char_is_a_code(a[0], b[0], left_rest, right_rest);
        lemma_json_chars_end_at_the_quote(a.drop_first(), b.drop_first(), x, y);
        assert(a =~= seq![a[0]] + a.drop_first());
        assert(b =~= seq![b[0]] + b.drop_first());
    }
}

/// A JSON string tells its text, also with more text behind it.
pub proof fn law_json_strings_tell_their_text(a: Seq<char>, b: Seq<char>, x: Seq<char>, y: Seq<char>)
    requires
        json_string(a) + x == json_string(b) + y,
    ensures
        a == b,
        x == y,
{
    let left = json_chars(a) + seq!['"'] + x;
    let right = json_chars(b) + seq!['"'] + y;
    assert((json_string(a) + x).skip(1) =~= left);
    assert((json_string(b) + y).skip(1) =~= right);
    lemma_json_chars_end_at_the_quote(a, b, x, y);
}

proof fn lemma_version_members_differ(u: VersionView, v: VersionView, flag: Seq<char>)
    requires
        version_member(u) + ",\"compile\":"@ + flag == version_member(v) + ",\"compile\":"@ + flag,
    ensures
        u == v,
{
    let tail = ",\"compile\":"@ + flag;
    reveal_strlit(",\"compile\":");
    reveal_strlit(",\"version\":");
    let left = version_member(u) + ",\"compile\":"@ + flag;
    let right = version_member(v) + ",\"compile\":"@ + flag;
    match (u, v) {
        (VersionView::Latest, VersionView::Latest) => {},
        (VersionView::Latest, VersionView::Ref(b)) => {
            assert(left[2] == 'c');
            assert(right[2] == 'v');
        },
        (VersionView::Ref(a), VersionView::Latest) => {
            assert(left[2] == 'v');
            assert(right[2] == 'c');
        },
        (VersionView::Ref(a), VersionView::Ref(b)) => {
            let n = ",\"version\":"@.len() as int;
            assert(left.skip(n) =~= json_string(a) + tail);
            assert(right.skip(n) =~= json_string(b) + tail);
            law_json_strings_tell_their_text(a, b, tail, tail);
        },
    }
}

/// The body of an OpenLIT request tells what it asks for: two requests with the same body find
/// the prompt in the same way, by the same key, and at the same version.
pub proof fn law_openlit_bodies_tell_the_query(
    repository: OpenLit,
    p: QueryTypeView,
    u: VersionView,
    q: QueryTypeView,
    v: VersionView,
)
    requires
        repository.prompt_request_spec(p, u, false).body == repository.prompt_request_spec(
            q,
            v,
            false,
        ).body,
    ensures
        p == q,
        u == v,
{
    let flag = "false"@ + "}"@;
    let left = request_body(p, u, false);
    let right = request_body(q, v, false);
    let left_tail = version_member(u) + ",\"compile\":"@ + flag;
    let right_tail = version_member(v) + ",\"compile\":"@ + flag;
    reveal_strlit("{");
    reveal_strlit("\"id\":");
    reveal_strlit("\"name\":");
    assert(left =~= "{"@ + query_member(p) + left_tail);
    assert(right =~= "{"@ + query_member(q) + right_tail);
    let key_of = |k: QueryTypeView| match k {
        QueryTypeView::ById(id) => id,
        QueryTypeView::ByName(name) => name,
    };
    let label_len = |k: QueryTypeView| match k {
        QueryTypeView::ById(id) => 6int,
        QueryTypeView::ByName(name) => 8int,
    };
    assert(left[2] == (if p is ById {
        'i'
    } else {
        'n'
    }));
    assert(right[2] == (if q is ById {
        'i'
    } else {
        'n'
    }));
    assert(left.skip(label_len(p)) =~= json_string(key_of(p)) + left_tail);
    assert(right.skip(label_len(q)) =~= json_string(key_of(q)) + right_tail);
    law_json_strings_tell_their_text(key_of(p), key_of(q), left_tail, right_tail);
    lemma_version_members_differ(u, v, flag);
}

} // verus!

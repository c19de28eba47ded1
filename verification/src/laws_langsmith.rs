//! What a LangSmith prompt has to do with the manifest that it comes from, and what LangSmith is
//! asked.
//!
//! The laws speak of the values in the manifest by the keys that lead to them.

use crate::error::{ErrorView, PromptError};
use crate::json::{json, json_at, text_of, texts_among, Json};
use crate::langsmith::{
    ids_of, items_at, kwargs, lemma_head_is_readable, message_segment, message_segments,
    message_variables, names_at, readable, readable_head, role_of, CommitResponse, LangSmith,
};
use crate::laws::{law_trimmed_addresses, trimmed};
use crate::repository::PromptRepository;
use crate::template::{
    segment_views, PromptSegment, RoleView, SegmentView, TemplateSyntax, TemplateView,
};
use crate::version::{PromptQuery, VersionView};
use serde_json::Value;
use vstd::hash_set::StringHashSet;
use vstd::prelude::*;

verus! {

/// Whether the array at the key `id` of a value lists a name.
pub open spec fn lists_id(j: Json, name: Seq<char>) -> bool {
    exists|ids: Seq<Json>, i: int|
        json_at(j, seq!["id"@]) == Some(Json::Array(ids)) && 0 <= i < ids.len()
            && #[trigger] ids[i] == Json::Text(name)
}

/// Whether a role is the one that the identifiers of a message stand for: system before human
/// before AI, and unknown where none of the three is listed.
pub open spec fn speaks(message: Json, role: RoleView) -> bool {
    let system = lists_id(message, "SystemMessagePromptTemplate"@);
    let human = lists_id(message, "HumanMessagePromptTemplate"@);
    let ai = lists_id(message, "AIMessagePromptTemplate"@);
    &&& role is System <==> system
    &&& role is User <==> human && !system
    &&& role is Assistant <==> ai && !human && !system
    &&& role matches RoleView::Custom(name) ==> name == "unknown"@
}

/// Whether a message has a template.
pub open spec fn has_template(message: Json) -> bool {
    json_at(message, seq!["kwargs"@, "prompt"@, "kwargs"@, "template"@]) matches Some(Json::Text(_))
}

/// Whether a segment says what a message says: who speaks, the template itself, and the syntax
/// that the message declares.
pub open spec fn tells(message: Json, segment: SegmentView) -> bool {
    &&& speaks(message, segment.role)
    &&& json_at(message, seq!["kwargs"@, "prompt"@, "kwargs"@, "template"@]) == Some(
        Json::Text(segment.template),
    )
    &&& segment.syntax == TemplateSyntax::FString <==> json_at(
        message,
        seq!["kwargs"@, "prompt"@, "kwargs"@, "template_format"@],
    ) == Some(Json::Text("f-string"@))
}

proof fn lemma_texts_among(items: Seq<Json>, text: Seq<char>)
    ensures
        texts_among(items).contains(text) <==> items.contains(Json::Text(text)),
    decreases items.len(),
{
    let f = |j: Json| text_of(j);
    if items.len() > 0 {
        let rest = items.drop_last();
        lemma_texts_among(rest, text);
        assert(texts_among(items) == items.filter_map(f));
        let tail = match text_of(items.last()) {
            Some(t) => seq![t],
            None => Seq::empty(),
        };
        assert(texts_among(items) =~= texts_among(rest) + tail);
        if texts_among(rest).contains(text) {
            let k = choose|k: int|
                0 <= k < texts_among(rest).len() && texts_among(rest)[k] == text;
            assert(texts_among(items)[k] == text);
        }
        if rest.contains(Json::Text(text)) {
            let k = choose|k: int| 0 <= k < rest.len() && rest[k] == Json::Text(text);
            assert(items[k] == Json::Text(text));
        }
        if items.last() == Json::Text(text) {
            assert(texts_among(items)[texts_among(rest).len() as int] == text);
        }
        if items.contains(Json::Text(text)) {
            let k = choose|k: int| 0 <= k < items.len() && items[k] == Json::Text(text);
            if k < rest.len() {
                assert(rest[k] == Json::Text(text));
            }
        }
        if texts_among(items).contains(text) {
            let k = choose|k: int|
                0 <= k < texts_among(items).len() && texts_among(items)[k] == text;
            if k < texts_among(rest).len() {
                assert(texts_among(rest)[k] == text);
            }
        }
    }
}

proof fn lemma_speaks(message: Json)
    ensures
        speaks(message, role_of(items_at(message, seq!["id"@]))),
{
    reveal_strlit("SystemMessagePromptTemplate");
    reveal_strlit("HumanMessagePromptTemplate");
    reveal_strlit("AIMessagePromptTemplate");
    match json_at(message, seq!["id"@]) {
        Some(Json::Array(ids)) => {
            lemma_lists(message, ids, "SystemMessagePromptTemplate"@);
            lemma_lists(message, ids, "HumanMessagePromptTemplate"@);
            lemma_lists(message, ids, "AIMessagePromptTemplate"@);
        },
        _ => {},
    }
}

proof fn lemma_lists(j: Json, ids: Seq<Json>, name: Seq<char>)
    requires
        json_at(j, seq!["id"@]) == Some(Json::Array(ids)),
    ensures
        lists_id(j, name) <==> ids.contains(Json::Text(name)),
{
    if ids.contains(Json::Text(name)) {
        let i = choose|i: int| 0 <= i < ids.len() && ids[i] == Json::Text(name);
        assert(ids[i] == Json::Text(name));
    }
}

proof fn lemma_tells(message: Json)
    ensures
        has_template(message) <==> readable(message),
        has_template(message) ==> tells(message, message_segment(message)),
{
    lemma_speaks(message);
}

proof fn lemma_chat(manifest: Json)
    ensures
        ids_of(manifest) is Ok <==> json_at(manifest, seq!["id"@]) matches Some(Json::Array(_)),
        ids_of(manifest) matches Ok(ids) ==> (ids.contains("ChatPromptTemplate"@) <==> lists_id(
            manifest,
            "ChatPromptTemplate"@,
        )),
{
    if let Some(Json::Array(items)) = json_at(manifest, seq!["id"@]) {
        lemma_lists(manifest, items, "ChatPromptTemplate"@);
        lemma_texts_among(items, "ChatPromptTemplate"@);
    }
}

/// A chat is handed out exactly where every message has a template, and then segment by segment
/// it tells what the messages say, whoever speaks them. Otherwise the result says that a message
/// has no template.
pub proof fn law_langsmith_chats_tell_their_messages(
    repository: LangSmith,
    path: Seq<char>,
    version: VersionView,
    commit: CommitResponse,
    messages: Seq<Json>,
)
    requires
        lists_id(json(commit.manifest), "ChatPromptTemplate"@),
        json_at(json(commit.manifest), seq!["kwargs"@, "messages"@]) == Some(
            Json::Array(messages),
        ),
    ensures
        match repository.fetch_result_spec(path, version, Ok(commit)) {
            Ok(template) => {
                &&& template.segments.len() == messages.len()
                &&& forall|i: int|
                    0 <= i < messages.len() ==> has_template(messages[i]) && tells(
                        #[trigger] messages[i],
                        template.segments[i],
                    )
            },
            Err(e) => {
                &&& e == ErrorView::PromptExtraction("message missing template"@)
                &&& exists|i: int| 0 <= i < messages.len() && !has_template(#[trigger] messages[i])
            },
        },
{
    lemma_chat(json(commit.manifest));
    lemma_head_is_readable(messages);
    assert forall|i: int| 0 <= i < messages.len() implies (has_template(#[trigger] messages[i])
        <==> readable(messages[i])) && (has_template(messages[i]) ==> tells(
        messages[i],
        message_segment(messages[i]),
    )) by {
        lemma_tells(messages[i]);
    }
    if readable_head(messages) < messages.len() {
        assert(!has_template(messages[readable_head(messages) as int]));
    }
}

/// A prompt that is no chat is handed out exactly where it has a template: as one user segment
/// with that template, in the syntax that it declares.
pub proof fn law_langsmith_instruct_prompts_tell_their_template(
    repository: LangSmith,
    path: Seq<char>,
    version: VersionView,
    commit: CommitResponse,
)
    requires
        json_at(json(commit.manifest), seq!["id"@]) matches Some(Json::Array(_)),
        !lists_id(json(commit.manifest), "ChatPromptTemplate"@),
    ensures
        match repository.fetch_result_spec(path, version, Ok(commit)) {
            Ok(template) => {
                &&& template.segments.len() == 1
                &&& template.segments[0].role is User
                &&& json_at(json(commit.manifest), seq!["kwargs"@, "template"@]) == Some(
                    Json::Text(template.segments[0].template),
                )
                &&& template.segments[0].syntax == TemplateSyntax::FString <==> json_at(
                    json(commit.manifest),
                    seq!["kwargs"@, "template_format"@],
                ) == Some(Json::Text("f-string"@))
            },
            Err(e) => {
                &&& e == ErrorView::PromptExtraction("instruct prompt missing template"@)
                &&& !(json_at(
                    json(commit.manifest),
                    seq!["kwargs"@, "template"@],
                ) matches Some(Json::Text(_)))
            },
        },
{
    lemma_chat(json(commit.manifest));
}

/// A manifest without an array of identifiers, and a chat without an array of messages, end in
/// an error that says so.
pub proof fn law_langsmith_manifests_need_their_arrays(
    repository: LangSmith,
    path: Seq<char>,
    version: VersionView,
    commit: CommitResponse,
)
    ensures
        !(json_at(json(commit.manifest), seq!["id"@]) matches Some(Json::Array(_)))
            ==> repository.fetch_result_spec(path, version, Ok(commit)) == Err::<
            TemplateView,
            ErrorView,
        >(ErrorView::PromptExtraction("missing id array"@)),
        lists_id(json(commit.manifest), "ChatPromptTemplate"@) && !(json_at(
            json(commit.manifest),
            seq!["kwargs"@, "messages"@],
        ) matches Some(Json::Array(_))) ==> repository.fetch_result_spec(path, version, Ok(commit))
            == Err::<TemplateView, ErrorView>(
            ErrorView::PromptExtraction("chat prompt missing messages"@),
        ),
{
    lemma_chat(json(commit.manifest));
}

/// A LangSmith prompt is named by its path, tells its commit hash as its version, and has nothing
/// but that hash beside it, whatever version was asked for.
pub proof fn law_langsmith_prompts_tell_their_commit(
    repository: LangSmith,
    path: Seq<char>,
    version: VersionView,
    commit: CommitResponse,
)
    ensures
        repository.fetch_result_spec(path, version, Ok(commit)) matches Ok(template) ==> {
            &&& template.id == "langsmith:"@ + path
            &&& template.version == Some(commit.commit_hash@)
            &&& forall|name: Seq<char>| #[trigger]
                template.metadata.contains_key(name) <==> name == "commit_hash"@
            &&& template.metadata["commit_hash"@] == Json::Text(commit.commit_hash@)
        },
{
}

/// What a LangSmith answer comes to does not hang on the version that was asked for, nor on the
/// address and key of the repository, nor on the examples of the commit.
pub proof fn law_langsmith_results_hang_on_path_hash_and_manifest(
    first: LangSmith,
    second: LangSmith,
    path: Seq<char>,
    u: VersionView,
    v: VersionView,
    a: CommitResponse,
    b: CommitResponse,
)
    requires
        a.commit_hash@ == b.commit_hash@,
        json(a.manifest) == json(b.manifest),
    ensures
        first.fetch_result_spec(path, u, Ok(a)) == second.fetch_result_spec(path, v, Ok(b)),
{
}

/// The messages that are read of a chat are those before the first one without a template.
pub proof fn law_langsmith_chats_are_read_up_to_a_gap(messages: Seq<Json>)
    ensures
        readable_head(messages) <= messages.len(),
        forall|i: int|
            0 <= i < readable_head(messages) ==> has_template(#[trigger] messages[i]),
        readable_head(messages) < messages.len() ==> !has_template(
            messages[readable_head(messages) as int],
        ),
{
    lemma_head_is_readable(messages);
    assert forall|i: int| 0 <= i < readable_head(messages) implies has_template(
        #[trigger] messages[i],
    ) by {
        assert(readable(messages[i]));
        lemma_tells(messages[i]);
    }
    if readable_head(messages) < messages.len() {
        lemma_tells(messages[readable_head(messages) as int]);
    }
}

/// The segments of messages that have templates tell what the messages say, one for one.
pub proof fn law_langsmith_segments_tell_messages(messages: Seq<Json>)
    ensures
        message_segments(messages).len() == messages.len(),
        forall|i: int|
            0 <= i < messages.len() && has_template(#[trigger] messages[i]) ==> tells(
                messages[i],
                message_segments(messages)[i],
            ),
{
    assert forall|i: int| 0 <= i < messages.len() && has_template(#[trigger] messages[i]) implies tells(
        messages[i],
        message_segments(messages)[i],
    ) by {
        lemma_tells(messages[i]);
    }
}

/// Whether the array of input variables at the end of some keys lists a name.
pub open spec fn lists_variable(j: Json, keys: Seq<Seq<char>>, name: Seq<char>) -> bool {
    exists|items: Seq<Json>, i: int|
        json_at(j, keys) == Some(Json::Array(items)) && 0 <= i < items.len() && #[trigger] items[i]
            == Json::Text(name)
}

proof fn lemma_names(j: Json, keys: Seq<Seq<char>>, name: Seq<char>)
    ensures
        names_at(j, keys).contains(name) <==> lists_variable(j, keys, name),
{
    if let Some(Json::Array(items)) = json_at(j, keys) {
        lemma_texts_among(items, name);
        if items.contains(Json::Text(name)) {
            let i = choose|i: int| 0 <= i < items.len() && items[i] == Json::Text(name);
            assert(items[i] == Json::Text(name));
        }
    }
}

/// The variables of an instruct prompt are the texts that it lists as its input variables.
pub proof fn law_langsmith_instruct_variables_are_listed(manifest: Json, name: Seq<char>)
    ensures
        names_at(manifest, kwargs("input_variables"@)).contains(name) <==> lists_variable(
            manifest,
            seq!["kwargs"@, "input_variables"@],
            name,
        ),
{
    lemma_names(manifest, seq!["kwargs"@, "input_variables"@], name);
}

/// The variables of some messages are the texts that any of them lists as its input variables.
pub proof fn law_langsmith_chat_variables_are_listed(messages: Seq<Json>, name: Seq<char>)
    ensures
        message_variables(messages).contains(name) <==> exists|i: int|
            0 <= i < messages.len() && lists_variable(
                #[trigger] messages[i],
                seq!["kwargs"@, "prompt"@, "kwargs"@, "input_variables"@],
                name,
            ),
    decreases messages.len(),
{
    let keys = seq!["kwargs"@, "prompt"@, "kwargs"@, "input_variables"@];
    if messages.len() > 0 {
        let rest = messages.drop_last();
        law_langsmith_chat_variables_are_listed(rest, name);
        lemma_names(messages.last(), keys, name);
        assert(messages.last() == messages[messages.len() - 1]);
        if exists|i: int| 0 <= i < rest.len() && lists_variable(#[trigger] rest[i], keys, name) {
            let i = choose|i: int|
                0 <= i < rest.len() && lists_variable(#[trigger] rest[i], keys, name);
            assert(lists_variable(messages[i], keys, name));
        }
        if exists|i: int|
            0 <= i < messages.len() && lists_variable(#[trigger] messages[i], keys, name) {
            let i = choose|i: int|
                0 <= i < messages.len() && lists_variable(#[trigger] messages[i], keys, name);
            if i < rest.len() {
                assert(lists_variable(rest[i], keys, name));
            }
        }
    }
}

/// A role that is found by identifiers is the one that they stand for; without identifiers it is
/// unknown.
pub proof fn law_roles_follow_the_identifiers(ids: Seq<Json>)
    ensures
        ({
            let role = role_of(Some(ids));
            let system = exists|i: int|
                0 <= i < ids.len() && #[trigger] ids[i] == Json::Text(
                    "SystemMessagePromptTemplate"@,
                );
            let human = exists|i: int|
                0 <= i < ids.len() && #[trigger] ids[i] == Json::Text("HumanMessagePromptTemplate"@);
            let ai = exists|i: int|
                0 <= i < ids.len() && #[trigger] ids[i] == Json::Text("AIMessagePromptTemplate"@);
            &&& role is System <==> system
            &&& role is User <==> human && !system
            &&& role is Assistant <==> ai && !human && !system
            &&& role matches RoleView::Custom(name) ==> name == "unknown"@
        }),
        role_of(None) == RoleView::Custom("unknown"@),
{
    reveal_strlit("SystemMessagePromptTemplate");
    reveal_strlit("HumanMessagePromptTemplate");
    reveal_strlit("AIMessagePromptTemplate");
}

/// The identifiers that are read of a value are the texts in its array, in their order: a text
/// behind the others comes last, and anything else is passed over.
pub proof fn law_identifiers_are_the_texts_in_order(items: Seq<Json>, last: Json)
    ensures
        texts_among(Seq::empty()) == Seq::<Seq<char>>::empty(),
        last matches Json::Text(t) ==> texts_among(items.push(last)) == texts_among(items).push(t),
        !(last is Text) ==> texts_among(items.push(last)) == texts_among(items),
{
    assert(items.push(last).drop_last() =~= items);
}

/// The identifiers of a value are read from the array at its key `id`, and there are none without
/// that array.
pub proof fn law_identifiers_stand_at_id(j: Json)
    ensures
        match ids_of(j) {
            Ok(ids) => exists|items: Seq<Json>|
                json_at(j, seq!["id"@]) == Some(Json::Array(items)) && ids == #[trigger] texts_among(
                    items,
                ),
            Err(e) => !(json_at(j, seq!["id"@]) matches Some(Json::Array(_))) && e
                == ErrorView::PromptExtraction("missing id array"@),
        },
{
}

/// LangSmith is asked for the commit at a path, below the address without its end slashes, and
/// the latest commit is asked for as `latest`. A query asks what a fetch asks.
pub proof fn law_langsmith_is_asked_for_a_commit<'a>(
    repository: LangSmith,
    address: Seq<char>,
    q: PromptQuery<'a>,
    path: Seq<char>,
    version: VersionView,
)
    requires
        trimmed(address, repository.endpoint()),
        path == q.id@,
        version == q.version@,
    ensures
        ({
            let request = repository.fetch_request_spec(path, version);
            &&& request.method is Get
            &&& version is Latest ==> request.url == address + "/commits/"@ + path + "/latest"@
            &&& version matches VersionView::Ref(commit) ==> request.url == address + "/commits/"@
                + path + "/"@ + commit
            &&& request.headers == seq![("x-api-key"@, repository.key())]
            &&& request.body is None
            &&& repository.query_request_spec(q) == request
        }),
{
    law_trimmed_addresses(address, repository.endpoint());
    reveal_strlit("/latest");
    reveal_strlit("latest");
    reveal_strlit("/");
    assert(address + "/commits/"@ + path + "/"@ + "latest"@ =~= address + "/commits/"@ + path
        + "/latest"@);
}

/// Whether reading a chat has kept the segments that were there and added those of the first
/// messages, one for one.
pub open spec fn segments_read(
    before: Seq<PromptSegment>,
    after: Seq<PromptSegment>,
    messages: Seq<Json>,
) -> bool {
    &&& before.len() <= after.len() <= before.len() + messages.len()
    &&& forall|i: int| 0 <= i < before.len() ==> (#[trigger] after[i])@ == before[i]@
    &&& forall|i: int|
        0 <= i < after.len() - before.len() ==> tells(
            #[trigger] messages[i],
            after[before.len() + i]@,
        )
}

/// Reading a chat adds the segments of its messages, up to the first one without a template,
/// behind those that were there, and the variables that these messages list to those that were
/// there. It succeeds exactly where every message has a template.
pub proof fn law_langsmith_reading_a_chat(manifest: &Value)
    ensures
        forall|
            segments: &mut Vec<PromptSegment>,
            variables: &mut StringHashSet,
            r: Result<(), PromptError>,
        |
            #![trigger call_ensures(LangSmith::extract_chat_messages, (manifest, segments, variables), r)]
            call_ensures(LangSmith::extract_chat_messages, (manifest, segments, variables), r)
                ==> match json_at(json(*manifest), seq!["kwargs"@, "messages"@]) {
                Some(Json::Array(messages)) => {
                    let n = final(segments)@.len() - segments@.len();
                    &&& segments_read(segments@, final(segments)@, messages)
                    &&& r is Ok <==> n == messages.len()
                    &&& r matches Err(e) ==> !has_template(messages[n]) && e@
                        == ErrorView::PromptExtraction("message missing template"@)
                    &&& forall|name: Seq<char>| #[trigger]
                        final(variables)@.contains(name) <==> variables@.contains(name)
                            || exists|i: int|
                            0 <= i < n && lists_variable(
                                #[trigger] messages[i],
                                seq!["kwargs"@, "prompt"@, "kwargs"@, "input_variables"@],
                                name,
                            )
                },
                _ => {
                    &&& r matches Err(e) && e@ == ErrorView::PromptExtraction(
                        "chat prompt missing messages"@,
                    )
                    &&& segment_views(final(segments)@) == segment_views(segments@)
                    &&& final(variables)@ == variables@
                },
            },
{
    let keys = seq!["kwargs"@, "prompt"@, "kwargs"@, "input_variables"@];
    assert forall|
        segments: &mut Vec<PromptSegment>,
        variables: &mut StringHashSet,
        r: Result<(), PromptError>,
    |
        #![trigger call_ensures(LangSmith::extract_chat_messages, (manifest, segments, variables), r)]
        call_ensures(LangSmith::extract_chat_messages, (manifest, segments, variables), r) && (
        json_at(json(*manifest), seq!["kwargs"@, "messages"@]) matches Some(
            Json::Array(_),
        )) implies ({
        let messages = json_at(json(*manifest), seq!["kwargs"@, "messages"@])->0->Array_0;
        let n = final(segments)@.len() - segments@.len();
        &&& segments_read(segments@, final(segments)@, messages)
        &&& r is Ok <==> n == messages.len()
        &&& r matches Err(e) ==> !has_template(messages[n]) && e@ == ErrorView::PromptExtraction(
            "message missing template"@,
        )
        &&& forall|name: Seq<char>| #[trigger]
            final(variables)@.contains(name) <==> variables@.contains(name) || exists|i: int|
                0 <= i < n && lists_variable(#[trigger] messages[i], keys, name)
    }) by {
        let messages = json_at(json(*manifest), seq!["kwargs"@, "messages"@])->0->Array_0;
        let read = messages.take(readable_head(messages) as int);
        law_langsmith_chats_are_read_up_to_a_gap(messages);
        law_langsmith_segments_tell_messages(read);
        let before = segments@;
        let after = final(segments)@;
        let told = segment_views(before) + message_segments(read);
        assert(segment_views(after) == told);
        assert(segment_views(after).len() == after.len());
        assert forall|i: int| 0 <= i < before.len() implies (#[trigger] after[i])@
            == before[i]@ by {
            assert(segment_views(after)[i] == told[i]);
            assert(segment_views(before)[i] == before[i]@);
        }
        assert forall|i: int| 0 <= i < after.len() - before.len() implies tells(
            #[trigger] messages[i],
            after[before.len() + i]@,
        ) by {
            assert(read[i] == messages[i]);
            assert(has_template(read[i]));
            assert(segment_views(after)[before.len() + i] == told[before.len() + i]);
        }
        assert forall|name: Seq<char>| #[trigger]
            final(variables)@.contains(name) <==> variables@.contains(name) || exists|i: int|
                0 <= i < after.len() - before.len() && lists_variable(
                    #[trigger] messages[i],
                    keys,
                    name,
                ) by {
            law_langsmith_chat_variables_are_listed(read, name);
            if exists|i: int| 0 <= i < read.len() && lists_variable(#[trigger] read[i], keys, name) {
                let i = choose|i: int|
                    0 <= i < read.len() && lists_variable(#[trigger] read[i], keys, name);
                assert(lists_variable(messages[i], keys, name));
            }
            if exists|i: int|
                0 <= i < read.len() && lists_variable(#[trigger] messages[i], keys, name) {
                let i = choose|i: int|
                    0 <= i < read.len() && lists_variable(#[trigger] messages[i], keys, name);
                assert(lists_variable(read[i], keys, name));
            }
        }
    }
}

/// Reading an instruct prompt adds one user segment with its template, in the syntax that it
/// declares, behind those that were there, and the variables that it lists to those that were
/// there. Without a template it changes nothing and says so.
pub proof fn law_langsmith_reading_an_instruct_prompt(manifest: &Value)
    ensures
        forall|
            segments: &mut Vec<PromptSegment>,
            variables: &mut StringHashSet,
            r: Result<(), PromptError>,
        |
            #![trigger call_ensures(LangSmith::extract_instruct_prompt, (manifest, segments, variables), r)]
            call_ensures(LangSmith::extract_instruct_prompt, (manifest, segments, variables), r)
                ==> match json_at(json(*manifest), seq!["kwargs"@, "template"@]) {
                Some(Json::Text(template)) => {
                    let after = segment_views(final(segments)@);
                    &&& r is Ok
                    &&& after.len() > 0 && after.drop_last() == segment_views(segments@)
                    &&& after.last().role is User
                    &&& after.last().template == template
                    &&& after.last().syntax == TemplateSyntax::FString <==> json_at(
                        json(*manifest),
                        seq!["kwargs"@, "template_format"@],
                    ) == Some(Json::Text("f-string"@))
                    &&& forall|name: Seq<char>| #[trigger]
                        final(variables)@.contains(name) <==> variables@.contains(name)
                            || lists_variable(
                            json(*manifest),
                            seq!["kwargs"@, "input_variables"@],
                            name,
                        )
                },
                _ => {
                    &&& r matches Err(e) && e@ == ErrorView::PromptExtraction(
                        "instruct prompt missing template"@,
                    )
                    &&& segment_views(final(segments)@) == segment_views(segments@)
                    &&& final(variables)@ == variables@
                },
            },
{
    let keys = seq!["kwargs"@, "input_variables"@];
    assert forall|name: Seq<char>| #[trigger]
        names_at(json(*manifest), keys).contains(name) <==> lists_variable(
            json(*manifest),
            keys,
            name,
        ) by {
        lemma_names(json(*manifest), keys, name);
    }
    assert forall|
        segments: &mut Vec<PromptSegment>,
        variables: &mut StringHashSet,
        r: Result<(), PromptError>,
    |
        #![trigger call_ensures(LangSmith::extract_instruct_prompt, (manifest, segments, variables), r)]
        call_ensures(LangSmith::extract_instruct_prompt, (manifest, segments, variables), r) && (
        json_at(json(*manifest), seq!["kwargs"@, "template"@]) matches Some(
            Json::Text(_),
        )) implies segment_views(final(segments)@).drop_last() == segment_views(segments@) by {
        assert(segment_views(final(segments)@).drop_last() =~= segment_views(segments@));
    }
}

} // verus!

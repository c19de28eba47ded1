//! LangSmith: chat and instruct prompts, by the `/commits/{path}/{commit}` endpoint.
//!
//! - The identifier of a prompt is its path, such as `foo/bar`.
//! - A version is a commit hash.
//! - The commit hash of a prompt is its version, and stands in its metadata as `commit_hash`.
//! - A chat prompt has one segment for each message, whose role comes from the type of the
//!   message. An instruct prompt is a single user segment.
//! - The variables of a prompt are read from its `input_variables`.

use crate::error::{ErrorView, PromptError};
use crate::http::{HttpRequest, Method, RequestView};
use crate::json::{
    items_of, json, json_at, jsons, plain_key, pointer_text, text_of, text_value, texts_among, Json,
};
use crate::metadata::Metadata;
use crate::repository::{result_view, PromptRepository};
use crate::template::{
    segment_views, syntax_named, PromptSegment, PromptTemplate, Role, RoleView, SegmentView,
    TemplateSyntax, TemplateView,
};
use crate::text::{same_text, str_views, trim_end_slashes, without_end_slashes};
use crate::version::{version_text, PromptQuery, Version, VersionView};
use serde_json::Value;
use vstd::hash_set::StringHashSet;
use vstd::prelude::*;

verus! {

/// Where the hosted service answers.
pub const LANGSMITH_API_BASE_URL: &'static str = "https://api.smith.langchain.com";

/// The keys to an argument of a template.
pub open spec fn kwargs(name: Seq<char>) -> Seq<Seq<char>> {
    seq!["kwargs"@, name]
}

/// The keys to an argument of the template inside a chat message.
pub open spec fn prompt_kwargs(name: Seq<char>) -> Seq<Seq<char>> {
    seq!["kwargs"@, "prompt"@, "kwargs"@, name]
}

/// The text at the end of some keys.
pub open spec fn text_at(j: Json, keys: Seq<Seq<char>>) -> Option<Seq<char>> {
    match json_at(j, keys) {
        Some(v) => text_of(v),
        None => None,
    }
}

/// The items at the end of some keys.
pub open spec fn items_at(j: Json, keys: Seq<Seq<char>>) -> Option<Seq<Json>> {
    match json_at(j, keys) {
        Some(v) => items_of(v),
        None => None,
    }
}

/// The texts in the array at the end of some keys, none where there is no array.
pub open spec fn names_at(j: Json, keys: Seq<Seq<char>>) -> Set<Seq<char>> {
    match items_at(j, keys) {
        Some(items) => texts_among(items).to_set(),
        None => Set::empty(),
    }
}

/// A path of plain keys and the pointer that is written for it.
spec fn pointer_for(keys: Seq<Seq<char>>, pointer: Seq<char>) -> bool {
    &&& pointer_text(keys) == pointer
    &&& forall|i: int| 0 <= i < keys.len() ==> plain_key(#[trigger] keys[i])
}

proof fn lemma_pointers()
    ensures
        pointer_for(seq!["id"@], "/id"@),
        pointer_for(kwargs("template"@), "/kwargs/template"@),
        pointer_for(kwargs("template_format"@), "/kwargs/template_format"@),
        pointer_for(kwargs("input_variables"@), "/kwargs/input_variables"@),
        pointer_for(kwargs("messages"@), "/kwargs/messages"@),
        pointer_for(prompt_kwargs("template"@), "/kwargs/prompt/kwargs/template"@),
        pointer_for(prompt_kwargs("template_format"@), "/kwargs/prompt/kwargs/template_format"@),
        pointer_for(prompt_kwargs("input_variables"@), "/kwargs/prompt/kwargs/input_variables"@),
{
    reveal_strlit("/");
    reveal_strlit("id");
    reveal_strlit("kwargs");
    reveal_strlit("prompt");
    reveal_strlit("template");
    reveal_strlit("template_format");
    reveal_strlit("input_variables");
    reveal_strlit("messages");
    reveal_strlit("/id");
    reveal_strlit("/kwargs/template");
    reveal_strlit("/kwargs/template_format");
    reveal_strlit("/kwargs/input_variables");
    reveal_strlit("/kwargs/messages");
    reveal_strlit("/kwargs/prompt/kwargs/template");
    reveal_strlit("/kwargs/prompt/kwargs/template_format");
    reveal_strlit("/kwargs/prompt/kwargs/input_variables");
    lemma_one_key("id"@);
    lemma_two_keys("kwargs"@, "template"@);
    lemma_two_keys("kwargs"@, "template_format"@);
    lemma_two_keys("kwargs"@, "input_variables"@);
    lemma_two_keys("kwargs"@, "messages"@);
    lemma_four_keys("kwargs"@, "prompt"@, "kwargs"@, "template"@);
    lemma_four_keys("kwargs"@, "prompt"@, "kwargs"@, "template_format"@);
    lemma_four_keys("kwargs"@, "prompt"@, "kwargs"@, "input_variables"@);
    assert("/id"@ =~= "/"@ + "id"@);
    assert("/kwargs/template"@ =~= "/"@ + "kwargs"@ + "/"@ + "template"@);
    assert("/kwargs/template_format"@ =~= "/"@ + "kwargs"@ + "/"@ + "template_format"@);
    assert("/kwargs/input_variables"@ =~= "/"@ + "kwargs"@ + "/"@ + "input_variables"@);
    assert("/kwargs/messages"@ =~= "/"@ + "kwargs"@ + "/"@ + "messages"@);
    assert("/kwargs/prompt/kwargs/template"@ =~= "/"@ + "kwargs"@ + "/"@ + "prompt"@ + "/"@
        + "kwargs"@ + "/"@ + "template"@);
    assert("/kwargs/prompt/kwargs/template_format"@ =~= "/"@ + "kwargs"@ + "/"@ + "prompt"@ + "/"@
        + "kwargs"@ + "/"@ + "template_format"@);
    assert("/kwargs/prompt/kwargs/input_variables"@ =~= "/"@ + "kwargs"@ + "/"@ + "prompt"@ + "/"@
        + "kwargs"@ + "/"@ + "input_variables"@);
}

proof fn lemma_one_key(a: Seq<char>)
    ensures
        pointer_text(seq![a]) == "/"@ + a,
{
    assert(seq![a].drop_last() =~= Seq::<Seq<char>>::empty());
    assert(pointer_text(Seq::<Seq<char>>::empty()) =~= Seq::<char>::empty());
    assert(Seq::<char>::empty() + "/"@ =~= "/"@);
}

proof fn lemma_two_keys(a: Seq<char>, b: Seq<char>)
    ensures
        pointer_text(seq![a, b]) == "/"@ + a + "/"@ + b,
{
    assert(seq![a, b].drop_last() =~= seq![a]);
    lemma_one_key(a);
}

proof fn lemma_four_keys(a: Seq<char>, b: Seq<char>, c: Seq<char>, d: Seq<char>)
    ensures
        pointer_text(seq![a, b, c, d]) == "/"@ + a + "/"@ + b + "/"@ + c + "/"@ + d,
{
    assert(seq![a, b, c, d].drop_last() =~= seq![a, b, c]);
    assert(seq![a, b, c].drop_last() =~= seq![a, b]);
    assert(pointer_text(seq![a, b, c]) == pointer_text(seq![a, b]) + "/"@ + c);
    lemma_two_keys(a, b);
}

/// The role of a message whose type is among these identifiers.
pub open spec fn role_of(ids: Option<Seq<Json>>) -> RoleView {
    match ids {
        Some(items) => if items.contains(Json::Text("SystemMessagePromptTemplate"@)) {
            RoleView::System
        } else if items.contains(Json::Text("HumanMessagePromptTemplate"@)) {
            RoleView::User
        } else if items.contains(Json::Text("AIMessagePromptTemplate"@)) {
            RoleView::Assistant
        } else {
            RoleView::Custom("unknown"@)
        },
        None => RoleView::Custom("unknown"@),
    }
}

fn holds_text(items: &Vec<Value>, text: &str) -> (r: bool)
    ensures
        r == jsons(items@).contains(Json::Text(text@)),
{
    let mut i: usize = 0;
    while i < items.len()
        invariant
            i <= items@.len(),
            forall|j: int| 0 <= j < i ==> #[trigger] jsons(items@)[j] != Json::Text(text@),
        decreases items@.len() - i,
    {
        proof {
            assert(jsons(items@)[i as int] == json(items@[i as int]));
        }
        if let Some(s) = items[i].as_str() {
            if same_text(s, text) {
                return true;
            }
        }
        i = i + 1;
    }
    false
}

/// The role of a message, by its identifiers.
pub fn determine_role(ids: Option<&Vec<Value>>) -> (r: Role)
    ensures
        r@ == role_of(
            match ids {
                Some(items) => Some(jsons(items@)),
                None => None,
            },
        ),
{
    match ids {
        Some(items) => if holds_text(items, "SystemMessagePromptTemplate") {
            Role::System
        } else if holds_text(items, "HumanMessagePromptTemplate") {
            Role::User
        } else if holds_text(items, "AIMessagePromptTemplate") {
            Role::Assistant
        } else {
            Role::Custom("unknown".to_owned())
        },
        None => Role::Custom("unknown".to_owned()),
    }
}

/// The syntax of a template, by the value that names its format.
pub fn determine_syntax(p: Option<&Value>) -> (r: TemplateSyntax)
    ensures
        r == syntax_named(
            match p {
                Some(v) => text_of(json(*v)),
                None => None,
            },
        ),
{
    match p {
        Some(v) => TemplateSyntax::from(v.as_str()),
        None => TemplateSyntax::from(None),
    }
}

/// The identifiers of a manifest, or why there are none.
pub open spec fn ids_of(manifest: Json) -> Result<Seq<Seq<char>>, ErrorView> {
    match items_at(manifest, seq!["id"@]) {
        Some(items) => Ok(texts_among(items)),
        None => Err(ErrorView::PromptExtraction("missing id array"@)),
    }
}

/// Reads the identifiers of a value; items that are no texts are passed over.
pub fn extract_ids(v: &Value) -> (r: Result<Vec<&str>, PromptError>)
    ensures
        (match r {
            Ok(ids) => Ok(str_views(ids@)),
            Err(e) => Err(e@),
        }) == ids_of(json(*v)),
{
    proof {
        lemma_pointers();
    }
    let found = match v.pointer("/id") {
        Some(value) => value.as_array(),
        None => None,
    };
    let items = match found {
        Some(items) => items,
        None => return Err(PromptError::PromptExtraction("missing id array".to_owned())),
    };
    let mut ids: Vec<&str> = Vec::new();
    let mut i: usize = 0;
    proof {
        reveal(Seq::filter_map);
        assert(jsons(items@).take(0) =~= Seq::empty());
        assert(str_views(ids@) =~= texts_among(jsons(items@).take(0)));
    }
    while i < items.len()
        invariant
            i <= items@.len(),
            str_views(ids@) == texts_among(jsons(items@).take(i as int)),
        decreases items@.len() - i,
    {
        proof {
            jsons(items@).lemma_filter_map_take_succ(|j: Json| text_of(j), i as int);
            assert(jsons(items@)[i as int] == json(items@[i as int]));
        }
        let ghost before = ids@;
        if let Some(s) = items[i].as_str() {
            ids.push(s);
            proof {
                assert(str_views(ids@) =~= str_views(before).push(s@));
                assert(texts_among(jsons(items@).take(i + 1)) =~= texts_among(
                    jsons(items@).take(i as int),
                ).push(s@));
            }
        } else {
            proof {
                assert(texts_among(jsons(items@).take(i + 1)) =~= texts_among(
                    jsons(items@).take(i as int),
                ));
            }
        }
        i = i + 1;
    }
    proof {
        assert(jsons(items@).take(i as int) =~= jsons(items@));
    }
    Ok(ids)
}

/// Adds the texts among some values to a set.
fn collect_names(items: &Vec<Value>, names: &mut StringHashSet)
    ensures
        final(names)@ == old(names)@.union(texts_among(jsons(items@)).to_set()),
{
    let mut i: usize = 0;
    proof {
        assert(jsons(items@).take(0) =~= Seq::empty());
        assert(names@ =~= old(names)@.union(texts_among(jsons(items@).take(0)).to_set()));
    }
    while i < items.len()
        invariant
            i <= items@.len(),
            names@ == old(names)@.union(texts_among(jsons(items@).take(i as int)).to_set()),
        decreases items@.len() - i,
    {
        let ghost so_far = texts_among(jsons(items@).take(i as int));
        proof {
            jsons(items@).lemma_filter_map_take_succ(|j: Json| text_of(j), i as int);
            assert(jsons(items@)[i as int] == json(items@[i as int]));
        }
        if let Some(s) = items[i].as_str() {
            names.insert(s.to_owned());
            proof {
                assert(texts_among(jsons(items@).take(i + 1)) =~= so_far.push(s@));
                so_far.lemma_push_to_set_commute(s@);
                assert(names@ =~= old(names)@.union(so_far.push(s@).to_set()));
            }
        } else {
            proof {
                assert(texts_among(jsons(items@).take(i + 1)) =~= so_far);
            }
        }
        i = i + 1;
    }
    proof {
        assert(jsons(items@).take(i as int) =~= jsons(items@));
    }
}

/// The segment of an instruct prompt whose template is `template`.
pub open spec fn instruct_segment(manifest: Json, template: Seq<char>) -> SegmentView {
    SegmentView {
        role: RoleView::User,
        template,
        syntax: syntax_named(text_at(manifest, kwargs("template_format"@))),
    }
}

/// The error for an instruct prompt without a template.
pub open spec fn no_instruct_template() -> ErrorView {
    ErrorView::PromptExtraction("instruct prompt missing template"@)
}

/// The error for a chat prompt without messages.
pub open spec fn no_messages() -> ErrorView {
    ErrorView::PromptExtraction("chat prompt missing messages"@)
}

/// The error for a chat message without a template.
pub open spec fn no_message_template() -> ErrorView {
    ErrorView::PromptExtraction("message missing template"@)
}

/// Whether a chat message has a template.
pub open spec fn readable(message: Json) -> bool {
    text_at(message, prompt_kwargs("template"@)) is Some
}

/// The segment of a chat message that has a template.
pub open spec fn message_segment(message: Json) -> SegmentView
    recommends
        readable(message),
{
    SegmentView {
        role: role_of(items_at(message, seq!["id"@])),
        template: text_at(message, prompt_kwargs("template"@))->0,
        syntax: syntax_named(text_at(message, prompt_kwargs("template_format"@))),
    }
}

/// The segments of some chat messages.
pub open spec fn message_segments(messages: Seq<Json>) -> Seq<SegmentView> {
    messages.map_values(|m: Json| message_segment(m))
}

/// The variables of some chat messages.
pub open spec fn message_variables(messages: Seq<Json>) -> Set<Seq<char>>
    decreases messages.len(),
{
    if messages.len() == 0 {
        Set::empty()
    } else {
        message_variables(messages.drop_last()).union(
            names_at(messages.last(), prompt_kwargs("input_variables"@)),
        )
    }
}

/// How many messages at the head of a chat have a template.
pub open spec fn readable_head(messages: Seq<Json>) -> nat
    decreases messages.len(),
{
    if messages.len() > 0 && readable(messages[0]) {
        1 + readable_head(messages.drop_first())
    } else {
        0
    }
}

proof fn lemma_readable_head(messages: Seq<Json>, n: int)
    requires
        0 <= n <= messages.len(),
        forall|i: int| 0 <= i < n ==> readable(#[trigger] messages[i]),
        n < messages.len() ==> !readable(messages[n]),
    ensures
        readable_head(messages) == n,
    decreases n,
{
    if n > 0 {
        assert(readable(messages[0]));
        assert forall|i: int| 0 <= i < n - 1 implies readable(
            #[trigger] messages.drop_first()[i],
        ) by {
            assert(readable(messages[i + 1]));
        }
        lemma_readable_head(messages.drop_first(), n - 1);
    }
}

pub(crate) proof fn lemma_head_is_readable(messages: Seq<Json>)
    ensures
        readable_head(messages) <= messages.len(),
        forall|i: int| 0 <= i < readable_head(messages) ==> readable(#[trigger] messages[i]),
        readable_head(messages) < messages.len() ==> !readable(
            messages[readable_head(messages) as int],
        ),
    decreases messages.len(),
{
    if messages.len() > 0 && readable(messages[0]) {
        let rest = messages.drop_first();
        lemma_head_is_readable(rest);
        assert forall|i: int| 0 <= i < readable_head(messages) implies readable(
            #[trigger] messages[i],
        ) by {
            if i > 0 {
                assert(readable(rest[i - 1]));
            }
        }
    }
}

/// The segments of a manifest, or why they cannot be read.
pub open spec fn manifest_segments(manifest: Json) -> Result<Seq<SegmentView>, ErrorView> {
    match ids_of(manifest) {
        Err(e) => Err(e),
        Ok(ids) => if ids.contains("ChatPromptTemplate"@) {
            match items_at(manifest, kwargs("messages"@)) {
                None => Err(no_messages()),
                Some(messages) => if readable_head(messages) == messages.len() {
                    Ok(message_segments(messages))
                } else {
                    Err(no_message_template())
                },
            }
        } else {
            match text_at(manifest, kwargs("template"@)) {
                None => Err(no_instruct_template()),
                Some(template) => Ok(seq![instruct_segment(manifest, template)]),
            }
        },
    }
}

/// The template of a manifest at a commit, or why there is none.
pub open spec fn manifest_template(path: Seq<char>, commit: Seq<char>, manifest: Json) -> Result<
    TemplateView,
    ErrorView,
> {
    match manifest_segments(manifest) {
        Err(e) => Err(e),
        Ok(segments) => Ok(
            TemplateView {
                id: "langsmith:"@ + path,
                version: Some(commit),
                segments,
                metadata: Map::empty().insert("commit_hash"@, Json::Text(commit)),
            },
        ),
    }
}

/// A commit of a prompt, as the service answers it.
pub struct CommitResponse {
    pub commit_hash: String,
    pub manifest: Value,
    pub examples: Vec<Value>,
}

/// The LangSmith repository.
#[derive(Clone)]
pub struct LangSmith {
    base_url: String,
    api_key: String,
}

impl LangSmith {
    /// Where the service answers.
    pub closed spec fn endpoint(&self) -> Seq<char> {
        self.base_url@
    }

    /// The key that requests carry.
    pub closed spec fn key(&self) -> Seq<char> {
        self.api_key@
    }

    /// The hosted service.
    pub fn new(api_key: String) -> (r: Self)
        ensures
            r.endpoint() == LANGSMITH_API_BASE_URL@,
            r.key() == api_key@,
    {
        Self::from_url(api_key, LANGSMITH_API_BASE_URL.to_owned())
    }

    /// The service at another address.
    pub fn from_url(api_key: String, base_url: String) -> (r: Self)
        ensures
            r.endpoint() == base_url@,
            r.key() == api_key@,
    {
        LangSmith { base_url, api_key }
    }

    /// The request for a commit of the prompt at a path.
    pub open spec fn commit_request_spec(&self, path: Seq<char>, version: VersionView) -> RequestView {
        RequestView {
            method: Method::Get,
            url: without_end_slashes(self.endpoint()) + "/commits/"@ + path + "/"@ + version_text(
                version,
            ),
            headers: seq![("x-api-key"@, self.key())],
            body: None,
        }
    }

    /// Makes the request for a commit of the prompt at a path.
    pub fn commit_request<'a>(&self, path: &str, version: Version<'a>) -> (r: HttpRequest)
        ensures
            r@ == self.commit_request_spec(path@, version@),
    {
        let mut url = trim_end_slashes(self.base_url.as_str()).to_owned();
        url.append("/commits/");
        url.append(path);
        url.append("/");
        url.append(version.as_text());
        let mut headers: Vec<(String, String)> = Vec::new();
        headers.push(("x-api-key".to_owned(), self.api_key.clone()));
        let request = HttpRequest { method: Method::Get, url, headers, body: None };
        proof {
            assert(request@.headers =~= seq![("x-api-key"@, self.key())]);
        }
        request
    }

    /// Makes a template of a manifest.
    pub fn manifest_to_template(path: &str, commit_ref: &str, manifest: &Value) -> (r: Result<
        PromptTemplate,
        PromptError,
    >)
        ensures
            result_view(r) == manifest_template(path@, commit_ref@, json(*manifest)),
    {
        let ids = match extract_ids(manifest) {
            Ok(ids) => ids,
            Err(e) => return Err(e),
        };
        let mut segments: Vec<PromptSegment> = Vec::new();
        let mut variables = StringHashSet::new();
        proof {
            assert(segment_views(segments@) =~= Seq::empty());
        }
        let extracted = if contains_text(&ids, "ChatPromptTemplate") {
            Self::extract_chat_messages(manifest, &mut segments, &mut variables)
        } else {
            Self::extract_instruct_prompt(manifest, &mut segments, &mut variables)
        };
        proof {
            if let Some(messages) = items_at(json(*manifest), kwargs("messages"@)) {
                lemma_head_is_readable(messages);
            }
        }
        if let Err(e) = extracted {
            return Err(e);
        }
        proof {
            assert(Ok::<Seq<SegmentView>, ErrorView>(segment_views(segments@))
                == manifest_segments(json(*manifest))) by {
                if let Some(messages) = items_at(json(*manifest), kwargs("messages"@)) {
                    assert(messages.take(messages.len() as int) =~= messages);
                    assert(Seq::<SegmentView>::empty() + message_segments(messages)
                        =~= message_segments(messages));
                }
                if let Some(template) = text_at(json(*manifest), kwargs("template"@)) {
                    assert(Seq::<SegmentView>::empty().push(
                        instruct_segment(json(*manifest), template),
                    ) =~= seq![instruct_segment(json(*manifest), template)]);
                }
            }
        }
        let mut id = "langsmith:".to_owned();
        id.append(path);
        let mut metadata = Metadata::new();
        metadata.insert("commit_hash".to_owned(), text_value(commit_ref.to_owned()));
        Ok(PromptTemplate { id, version: Some(commit_ref.to_owned()), segments, metadata })
    }

    /// Reads an instruct prompt: adds its single segment and its variables.
    pub fn extract_instruct_prompt(
        manifest: &Value,
        segments: &mut Vec<PromptSegment>,
        variables: &mut StringHashSet,
    ) -> (r: Result<(), PromptError>)
        ensures
            match text_at(json(*manifest), kwargs("template"@)) {
                None => {
                    &&& r matches Err(e) && e@ == no_instruct_template()
                    &&& segment_views(final(segments)@) == segment_views(old(segments)@)
                    &&& final(variables)@ == old(variables)@
                },
                Some(template) => {
                    &&& r is Ok
                    &&& segment_views(final(segments)@) == segment_views(old(segments)@).push(
                        instruct_segment(json(*manifest), template),
                    )
                    &&& final(variables)@ == old(variables)@.union(
                        names_at(json(*manifest), kwargs("input_variables"@)),
                    )
                },
            },
    {
        proof {
            lemma_pointers();
        }
        let found = match manifest.pointer("/kwargs/template") {
            Some(v) => v.as_str(),
            None => None,
        };
        let template = match found {
            Some(s) => s.to_owned(),
            None => return Err(
                PromptError::PromptExtraction("instruct prompt missing template".to_owned()),
            ),
        };
        let syntax = determine_syntax(manifest.pointer("/kwargs/template_format"));
        let segment = PromptSegment { role: Role::User, template, syntax };
        segments.push(segment);
        proof {
            assert(segment_views(segments@) =~= segment_views(old(segments)@).push(segment@));
        }
        let listed = match manifest.pointer("/kwargs/input_variables") {
            Some(v) => v.as_array(),
            None => None,
        };
        match listed {
            Some(vars) => collect_names(vars, variables),
            None => {
                proof {
                    assert(variables@ =~= old(variables)@.union(Set::empty()));
                }
            },
        }
        Ok(())
    }

    /// Reads a chat prompt: adds the segments and the variables of its messages, in their order,
    /// up to the first message without a template.
    pub fn extract_chat_messages(
        manifest: &Value,
        segments: &mut Vec<PromptSegment>,
        variables: &mut StringHashSet,
    ) -> (r: Result<(), PromptError>)
        ensures
            match items_at(json(*manifest), kwargs("messages"@)) {
                None => {
                    &&& r matches Err(e) && e@ == no_messages()
                    &&& segment_views(final(segments)@) == segment_views(old(segments)@)
                    &&& final(variables)@ == old(variables)@
                },
                Some(messages) => {
                    let read = messages.take(readable_head(messages) as int);
                    &&& read.len() == messages.len() ==> r is Ok
                    &&& read.len() < messages.len() ==> (r matches Err(e) && e@
                        == no_message_template())
                    &&& segment_views(final(segments)@) == segment_views(old(segments)@)
                        + message_segments(read)
                    &&& final(variables)@ == old(variables)@.union(message_variables(read))
                },
            },
    {
        proof {
            lemma_pointers();
        }
        let found = match manifest.pointer("/kwargs/messages") {
            Some(v) => v.as_array(),
            None => None,
        };
        let messages = match found {
            Some(messages) => messages,
            None => return Err(
                PromptError::PromptExtraction("chat prompt missing messages".to_owned()),
            ),
        };
        let ghost all = jsons(messages@);
        let mut i: usize = 0;
        proof {
            assert(all.take(0) =~= Seq::empty());
            assert(segment_views(segments@) =~= segment_views(old(segments)@) + message_segments(
                all.take(0),
            ));
            assert(variables@ =~= old(variables)@.union(message_variables(all.take(0))));
        }
        while i < messages.len()
            invariant
                i <= messages@.len(),
                all == jsons(messages@),
                forall|j: int| 0 <= j < i ==> readable(#[trigger] all[j]),
                segment_views(segments@) == segment_views(old(segments)@) + message_segments(
                    all.take(i as int),
                ),
                variables@ == old(variables)@.union(message_variables(all.take(i as int))),
                items_at(json(*manifest), kwargs("messages"@)) == Some(all),
            decreases messages@.len() - i,
        {
            let message = &messages[i];
            proof {
                lemma_pointers();
                assert(all[i as int] == json(*message));
            }
            let ids = match message.pointer("/id") {
                Some(v) => v.as_array(),
                None => None,
            };
            let role = determine_role(ids);
            let syntax = determine_syntax(message.pointer("/kwargs/prompt/kwargs/template_format"));
            let found = match message.pointer("/kwargs/prompt/kwargs/template") {
                Some(v) => v.as_str(),
                None => None,
            };
            let template = match found {
                Some(s) => s.to_owned(),
                None => {
                    proof {
                        lemma_readable_head(all, i as int);
                    }
                    return Err(PromptError::PromptExtraction("message missing template".to_owned()));
                },
            };
            let ghost before = segments@;
            let ghost known = variables@;
            let segment = PromptSegment { role, template, syntax };
            segments.push(segment);
            let listed = match message.pointer("/kwargs/prompt/kwargs/input_variables") {
                Some(v) => v.as_array(),
                None => None,
            };
            match listed {
                Some(vars) => collect_names(vars, variables),
                None => {
                    proof {
                        assert(variables@ =~= known.union(Set::empty()));
                    }
                },
            }
            proof {
                let next = all.take(i + 1);
                assert(next.drop_last() =~= all.take(i as int));
                assert(next.last() == json(*message));
                assert(segment@ == message_segment(json(*message)));
                assert(segment_views(segments@) =~= segment_views(before).push(segment@));
                assert(message_segments(next) =~= message_segments(all.take(i as int)).push(
                    segment@,
                ));
                assert(segment_views(segments@) =~= segment_views(old(segments)@)
                    + message_segments(next));
                assert(variables@ =~= old(variables)@.union(message_variables(next)));
            }
            i = i + 1;
        }
        proof {
            lemma_readable_head(all, i as int);
        }
        Ok(())
    }
}

fn contains_text(texts: &Vec<&str>, text: &str) -> (r: bool)
    ensures
        r == str_views(texts@).contains(text@),
{
    let mut i: usize = 0;
    while i < texts.len()
        invariant
            i <= texts@.len(),
            forall|j: int|
                0 <= j < i ==> #[trigger] str_views(texts@)[j] != text@,
        decreases texts@.len() - i,
    {
        if same_text(texts[i], text) {
            proof {
                assert(str_views(texts@)[i as int] == text@);
            }
            return true;
        }
        i = i + 1;
    }
    false
}

/// What an answer of the service comes to, for the prompt at a path.
pub open spec fn commit_result(path: Seq<char>, body: Result<CommitResponse, String>) -> Result<
    TemplateView,
    ErrorView,
> {
    match body {
        Err(words) => Err(ErrorView::Deserialization(words@)),
        Ok(commit) => manifest_template(path, commit.commit_hash@, json(commit.manifest)),
    }
}

impl PromptRepository for LangSmith {
    type Query<'a> = PromptQuery<'a>;

    type Payload = CommitResponse;

    type Prompt = PromptTemplate;

    open spec fn service(&self) -> Seq<char> {
        "LangSmith"@
    }

    open spec fn query_request_spec<'a>(&self, q: PromptQuery<'a>) -> RequestView {
        self.commit_request_spec(q.id@, q.version@)
    }

    open spec fn fetch_request_spec(&self, id: Seq<char>, version: VersionView) -> RequestView {
        self.commit_request_spec(id, version)
    }

    open spec fn query_result_spec<'a>(
        &self,
        q: PromptQuery<'a>,
        body: Result<CommitResponse, String>,
    ) -> Result<TemplateView, ErrorView> {
        commit_result(q.id@, body)
    }

    open spec fn fetch_result_spec(
        &self,
        id: Seq<char>,
        version: VersionView,
        body: Result<CommitResponse, String>,
    ) -> Result<TemplateView, ErrorView> {
        commit_result(id, body)
    }

    fn service_name(&self) -> (r: &'static str) {
        "LangSmith"
    }

    fn query_request<'a>(&self, q: PromptQuery<'a>) -> (r: Result<HttpRequest, PromptError>) {
        self.fetch_request(q.id, q.version)
    }

    fn fetch_request<'a>(&self, id: &str, version: Version<'a>) -> (r: Result<
        HttpRequest,
        PromptError,
    >) {
        Ok(self.commit_request(id, version))
    }

    fn query_result<'a>(&self, q: PromptQuery<'a>, body: Result<CommitResponse, String>) -> (r:
        Result<PromptTemplate, PromptError>) {
        self.fetch_result(q.id, q.version, body)
    }

    fn fetch_result<'a>(
        &self,
        id: &str,
        version: Version<'a>,
        body: Result<CommitResponse, String>,
    ) -> (r: Result<PromptTemplate, PromptError>) {
        match body {
            Err(words) => Err(PromptError::Deserialization(words)),
            Ok(commit) => Self::manifest_to_template(
                id,
                commit.commit_hash.as_str(),
                &commit.manifest,
            ),
        }
    }
}

} // verus!

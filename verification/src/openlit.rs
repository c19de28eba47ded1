//! OpenLIT: a single prompt string, found by identifier or by name.
//!
//! The service can fill in a prompt on its side; the library always asks for the prompt as it
//! is stored.

use crate::error::{ErrorView, PromptError};
use crate::http::{HttpRequest, Method, RequestView};
use crate::json::{
    array_value, debug_text, debug_value, json, json_string, jsons, members, object_value,
    serialize_text, text_of, text_value, Json,
};
use crate::metadata::Metadata;
use crate::repository::{result_view, PromptRepository};
use crate::template::{
    segment_views, PromptSegment, PromptTemplate, Role, RoleView, SegmentView, TemplateSyntax,
    TemplateView,
};
use crate::version::{Version, VersionView};
use serde_json::Value;
use vstd::prelude::*;

verus! {

/// Where a local service answers.
pub const OPENLIT_API_BASE_URL: &'static str = "http://localhost:3000";

/// How a prompt is found.
#[derive(Debug, Clone, Copy)]
pub enum QueryType<'a> {
    ById(&'a str),
    ByName(&'a str),
}

/// A query by identifier or name, and by version.
#[derive(Debug, Clone, Copy)]
pub struct OpenLitQuery<'a> {
    pub query_type: QueryType<'a>,
    pub version: Version<'a>,
}

/// What a request asks of the service.
#[derive(Debug, Clone, Copy)]
pub struct ApiRequest<'a> {
    pub query_type: QueryType<'a>,
    pub version: Version<'a>,
    /// Whether the service shall fill the prompt in.
    pub compile: bool,
}

impl<'a> From<OpenLitQuery<'a>> for ApiRequest<'a> {
    fn from(q: OpenLitQuery<'a>) -> (r: Self) {
        ApiRequest { query_type: q.query_type, version: q.version, compile: false }
    }
}

impl<'a> vstd::std_specs::convert::FromSpecImpl<OpenLitQuery<'a>> for ApiRequest<'a> {
    open spec fn obeys_from_spec() -> bool {
        true
    }

    open spec fn from_spec(q: OpenLitQuery<'a>) -> Self {
        ApiRequest { query_type: q.query_type, version: q.version, compile: false }
    }
}

/// The view of a [`QueryType`].
pub enum QueryTypeView {
    ById(Seq<char>),
    ByName(Seq<char>),
}

impl<'a> View for QueryType<'a> {
    type V = QueryTypeView;

    open spec fn view(&self) -> QueryTypeView {
        match *self {
            QueryType::ById(id) => QueryTypeView::ById(id@),
            QueryType::ByName(name) => QueryTypeView::ByName(name@),
        }
    }
}

/// The member of a request that says how the prompt is found.
pub open spec fn query_member(query: QueryTypeView) -> Seq<char> {
    match query {
        QueryTypeView::ById(id) => "\"id\":"@ + json_string(id),
        QueryTypeView::ByName(name) => "\"name\":"@ + json_string(name),
    }
}

/// The member of a request that names the version; the latest is not named.
pub open spec fn version_member(version: VersionView) -> Seq<char> {
    match version {
        VersionView::Latest => Seq::empty(),
        VersionView::Ref(reference) => ",\"version\":"@ + json_string(reference),
    }
}

/// The body of a request: one JSON object without white space.
pub open spec fn request_body(query: QueryTypeView, version: VersionView, compile: bool) -> Seq<char> {
    "{"@ + query_member(query) + version_member(version) + ",\"compile\":"@ + (if compile {
        "true"@
    } else {
        "false"@
    }) + "}"@
}

impl<'a> ApiRequest<'a> {
    /// The request as JSON.
    pub fn body(&self) -> (r: Result<String, PromptError>)
        ensures
            r is Ok,
            r->Ok_0@ == request_body(self.query_type@, self.version@, self.compile),
    {
        let (label, key) = match self.query_type {
            QueryType::ById(id) => ("\"id\":", id),
            QueryType::ByName(name) => ("\"name\":", name),
        };
        let mut query = label.to_owned();
        match serialize_text(key) {
            Ok(t) => query.append(t.as_str()),
            Err(e) => return Err(PromptError::Serialization(e)),
        }
        let mut version = String::new();
        if let Version::Ref(reference) = self.version {
            version = ",\"version\":".to_owned();
            match serialize_text(reference) {
                Ok(t) => version.append(t.as_str()),
                Err(e) => return Err(PromptError::Serialization(e)),
            }
        }
        let mut body = "{".to_owned();
        body.append(query.as_str());
        body.append(version.as_str());
        body.append(",\"compile\":");
        body.append(
            if self.compile {
                "true"
            } else {
                "false"
            },
        );
        body.append("}");
        Ok(body)
    }
}

/// A prompt, as the service answers it.
pub struct PromptResponse {
    pub prompt_id: String,
    pub version_id: String,
    pub name: String,
    pub version: String,
    pub tags: Vec<Value>,
    pub meta_properties: serde_json::Map<String, Value>,
    pub prompt: Option<String>,
}

/// The answer of the service. Without an error, `err` is null or an object without members.
pub struct ApiResponse {
    pub err: Value,
    pub res: Option<PromptResponse>,
}

/// Whether the `err` of an answer says that there was no error.
pub open spec fn no_error(err: Json) -> bool {
    err is Null || err == Json::Object(Map::empty())
}

/// The error that the `err` of an answer stands for.
pub open spec fn api_error(err: Json) -> ErrorView {
    match text_of(err) {
        Some(s) => ErrorView::Api(s),
        None => ErrorView::Api(debug_text(err)),
    }
}

/// The prompt in an answer, or why there is none.
pub open spec fn answer(api: ApiResponse) -> Result<PromptResponse, ErrorView> {
    if !no_error(json(api.err)) {
        Err(api_error(json(api.err)))
    } else {
        match api.res {
            Some(res) => Ok(res),
            None => Err(ErrorView::Other("Response missing payload"@)),
        }
    }
}

/// What is kept of a prompt beside its text.
pub open spec fn response_metadata(res: PromptResponse) -> Map<Seq<char>, Json> {
    Map::empty().insert("promptId"@, Json::Text(res.prompt_id@)).insert(
        "versionId"@,
        Json::Text(res.version_id@),
    ).insert("tags"@, Json::Array(jsons(res.tags@))).insert(
        "metaProperties"@,
        Json::Object(members(res.meta_properties)),
    )
}

/// The template of a prompt, or why there is none.
pub open spec fn response_template(res: PromptResponse) -> Result<TemplateView, ErrorView> {
    match res.prompt {
        None => Err(ErrorView::PromptExtraction("`prompt` field missing in OpenLIT response"@)),
        Some(prompt) => Ok(
            TemplateView {
                id: "openlit:"@ + res.name@,
                version: Some(res.version@),
                segments: seq![
                    SegmentView {
                        role: RoleView::User,
                        template: prompt@,
                        syntax: TemplateSyntax::Moustache,
                    },
                ],
                metadata: response_metadata(res),
            },
        ),
    }
}

/// What an answer comes to.
pub open spec fn answer_result(body: Result<ApiResponse, String>) -> Result<TemplateView, ErrorView> {
    match body {
        Err(words) => Err(ErrorView::Deserialization(words@)),
        Ok(api) => match answer(api) {
            Err(e) => Err(e),
            Ok(res) => response_template(res),
        },
    }
}

/// The OpenLIT repository.
#[derive(Clone)]
pub struct OpenLit {
    base_url: String,
    api_key: String,
}

impl OpenLit {
    /// Where the service answers.
    pub closed spec fn endpoint(&self) -> Seq<char> {
        self.base_url@
    }

    /// The key that requests carry.
    pub closed spec fn key(&self) -> Seq<char> {
        self.api_key@
    }

    /// A service on this machine.
    pub fn new(api_key: String) -> (r: Self)
        ensures
            r.endpoint() == OPENLIT_API_BASE_URL@,
            r.key() == api_key@,
    {
        Self::from_url(api_key, OPENLIT_API_BASE_URL.to_owned())
    }

    /// The service at another address.
    pub fn from_url(api_key: String, base_url: String) -> (r: Self)
        ensures
            r.endpoint() == base_url@,
            r.key() == api_key@,
    {
        OpenLit { base_url, api_key }
    }

    /// The request for a prompt.
    pub open spec fn prompt_request_spec(
        &self,
        query: QueryTypeView,
        version: VersionView,
        compile: bool,
    ) -> RequestView {
        RequestView {
            method: Method::Post,
            url: self.endpoint() + "/api/prompt/get-compiled"@,
            headers: seq![
                ("Authorization"@, "Bearer "@ + self.key()),
                ("Content-Type"@, "application/json"@),
            ],
            body: Some(request_body(query, version, compile)),
        }
    }

    /// Makes the request for a prompt.
    pub fn prompt_request<'a>(&self, req: ApiRequest<'a>) -> (r: Result<HttpRequest, PromptError>)
        ensures
            result_view(r) == Ok::<RequestView, ErrorView>(
                self.prompt_request_spec(req.query_type@, req.version@, req.compile),
            ),
    {
        let mut url = self.base_url.clone();
        url.append("/api/prompt/get-compiled");
        let body = match req.body() {
            Ok(body) => body,
            Err(e) => return Err(e),
        };
        let mut authorization = "Bearer ".to_owned();
        authorization.append(self.api_key.as_str());
        let mut headers: Vec<(String, String)> = Vec::new();
        headers.push(("Authorization".to_owned(), authorization));
        headers.push(("Content-Type".to_owned(), "application/json".to_owned()));
        let request = HttpRequest { method: Method::Post, url, headers, body: Some(body) };
        proof {
            assert(request@.headers =~= seq![
                ("Authorization"@, "Bearer "@ + self.key()),
                ("Content-Type"@, "application/json"@),
            ]);
        }
        Ok(request)
    }

    /// Takes the prompt out of an answer.
    pub fn read_answer(api: ApiResponse) -> (r: Result<PromptResponse, PromptError>)
        ensures
            (match r {
                Ok(res) => Ok(res),
                Err(e) => Err(e@),
            }) == answer(api),
    {
        let mut fine = api.err.is_null();
        if let Some(m) = api.err.as_object() {
            fine = m.is_empty();
        }
        if fine {
            return match api.res {
                Some(res) => Ok(res),
                None => Err(PromptError::Other("Response missing payload".to_owned())),
            };
        }
        match api.err.as_str() {
            Some(s) => Err(PromptError::Api(s.to_owned())),
            None => Err(PromptError::Api(debug_value(&api.err))),
        }
    }

    /// Makes a template of a prompt.
    pub fn response_to_template(res: PromptResponse) -> (r: Result<PromptTemplate, PromptError>)
        ensures
            result_view(r) == response_template(res),
    {
        let template = match res.prompt {
            Some(prompt) => prompt,
            None => return Err(
                PromptError::PromptExtraction(
                    "`prompt` field missing in OpenLIT response".to_owned(),
                ),
            ),
        };
        let segment = PromptSegment {
            role: Role::User,
            template,
            syntax: TemplateSyntax::Moustache,
        };
        let mut segments: Vec<PromptSegment> = Vec::new();
        segments.push(segment);
        let mut metadata = Metadata::new();
        metadata.insert("promptId".to_owned(), text_value(res.prompt_id));
        metadata.insert("versionId".to_owned(), text_value(res.version_id));
        metadata.insert("tags".to_owned(), array_value(res.tags));
        metadata.insert("metaProperties".to_owned(), object_value(res.meta_properties));
        let mut id = "openlit:".to_owned();
        id.append(res.name.as_str());
        proof {
            assert(segment_views(segments@) =~= seq![segment@]);
        }
        Ok(PromptTemplate { id, version: Some(res.version), segments, metadata })
    }
}

impl PromptRepository for OpenLit {
    type Query<'a> = OpenLitQuery<'a>;

    type Payload = ApiResponse;

    type Prompt = PromptTemplate;

    open spec fn service(&self) -> Seq<char> {
        "OpenLIT"@
    }

    open spec fn query_request_spec<'a>(&self, q: OpenLitQuery<'a>) -> RequestView {
        self.prompt_request_spec(q.query_type@, q.version@, false)
    }

    open spec fn fetch_request_spec(&self, name: Seq<char>, version: VersionView) -> RequestView {
        self.prompt_request_spec(QueryTypeView::ByName(name), version, false)
    }

    open spec fn query_result_spec<'a>(
        &self,
        q: OpenLitQuery<'a>,
        body: Result<ApiResponse, String>,
    ) -> Result<TemplateView, ErrorView> {
        answer_result(body)
    }

    open spec fn fetch_result_spec(
        &self,
        name: Seq<char>,
        version: VersionView,
        body: Result<ApiResponse, String>,
    ) -> Result<TemplateView, ErrorView> {
        answer_result(body)
    }

    fn service_name(&self) -> (r: &'static str) {
        "OpenLIT"
    }

    fn query_request<'a>(&self, q: OpenLitQuery<'a>) -> (r: Result<HttpRequest, PromptError>) {
        self.prompt_request(ApiRequest::from(q))
    }

    fn fetch_request<'a>(&self, name: &str, version: Version<'a>) -> (r: Result<
        HttpRequest,
        PromptError,
    >) {
        self.query_request(OpenLitQuery { query_type: QueryType::ByName(name), version })
    }

    fn query_result<'a>(&self, q: OpenLitQuery<'a>, body: Result<ApiResponse, String>) -> (r:
        Result<PromptTemplate, PromptError>) {
        let api = match body {
            Ok(api) => api,
            Err(words) => return Err(PromptError::Deserialization(words)),
        };
        match Self::read_answer(api) {
            Ok(res) => Self::response_to_template(res),
            Err(e) => Err(e),
        }
    }

    fn fetch_result<'a>(
        &self,
        name: &str,
        version: Version<'a>,
        body: Result<ApiResponse, String>,
    ) -> (r: Result<PromptTemplate, PromptError>) {
        self.query_result(OpenLitQuery { query_type: QueryType::ByName(name), version }, body)
    }
}

} // verus!

//! PromptHub: a system message and a prompt, versioned by commit hash.
//!
//! The service hands out the head of a branch and has no way to ask for a version. A fetch that
//! names one compares it with the version that came back, and fails where they differ.

use crate::error::{ErrorView, PromptError};
use crate::http::{HttpRequest, Method, RequestView};
use crate::metadata::Metadata;
use crate::repository::{result_view, PromptRepository};
use crate::template::{
    optional_text, segment_views, PromptSegment, PromptTemplate, Role, RoleView, SegmentView,
    TemplateSyntax, TemplateView,
};
use crate::text::{decimal, decimal_text, same_text};
use crate::version::{Version, VersionView};
use vstd::prelude::*;

verus! {

/// Where the hosted service answers.
pub const PROMPTHUB_API_BASE_URL: &'static str = "https://app.prompthub.us/api/v1";

/// The identifier of a project, which the service answers as a number or as a text.
#[derive(Debug, Clone, PartialEq, Eq)]
pub enum ProjectId {
    Number(u32),
    Text(String),
}

/// How a project identifier is written.
pub open spec fn project_text(id: ProjectId) -> Seq<char> {
    match id {
        ProjectId::Number(n) => decimal(n as nat),
        ProjectId::Text(s) => s@,
    }
}

impl ProjectId {
    /// The identifier as it is written.
    pub fn text(&self) -> (r: String)
        ensures
            r@ == project_text(*self),
    {
        match self {
            ProjectId::Number(n) => decimal_text(*n),
            ProjectId::Text(s) => s.clone(),
        }
    }
}

/// A prompt, as the service answers it.
pub struct PromptResponse {
    pub project_id: ProjectId,
    pub hash: String,
    pub prompt: Option<String>,
    pub system_message: Option<String>,
}

/// The answer of the service.
pub struct ApiResponse {
    pub data: PromptResponse,
}

/// A query by project, at the head of a branch or of the main line.
#[derive(Debug, Clone, Copy)]
pub struct PromptHubQuery<'a> {
    pub id: &'a str,
    pub branch: Option<&'a str>,
}

/// The PromptHub repository.
#[derive(Clone)]
pub struct PromptHub {
    base_url: String,
    api_key: String,
}

/// The segment that a text makes, where there is one.
pub open spec fn segment_of(role: RoleView, text: Option<Seq<char>>) -> Seq<SegmentView> {
    match text {
        Some(template) => seq![SegmentView { role, template, syntax: TemplateSyntax::Moustache }],
        None => Seq::empty(),
    }
}

/// The template of a prompt: the system message first, the prompt behind it.
pub open spec fn response_template(res: PromptResponse) -> TemplateView {
    TemplateView {
        id: "prompthub:"@ + project_text(res.project_id),
        version: Some(res.hash@),
        segments: segment_of(RoleView::System, optional_text(res.system_message)) + segment_of(
            RoleView::User,
            optional_text(res.prompt),
        ),
        metadata: Map::empty(),
    }
}

/// What the answer to a query comes to.
pub open spec fn head_result(body: Result<ApiResponse, String>) -> Result<TemplateView, ErrorView> {
    match body {
        Err(words) => Err(ErrorView::Deserialization(words@)),
        Ok(api) => Ok(response_template(api.data)),
    }
}

/// The error for a version other than the one that came back.
pub open spec fn version_mismatch(requested: Seq<char>, returned: Seq<char>) -> ErrorView {
    ErrorView::Unsupported(
        "PromptHub does not expose the requested version '"@ + requested
            + "'. Returned version '"@ + returned + "'."@,
    )
}

/// A result held to the version that was asked for.
pub open spec fn at_version(version: VersionView, result: Result<TemplateView, ErrorView>) -> Result<
    TemplateView,
    ErrorView,
> {
    match result {
        Ok(template) => if version is Ref && template.version is Some && template.version->0
            != version->Ref_0 {
            Err(version_mismatch(version->Ref_0, template.version->0))
        } else {
            result
        },
        Err(_) => result,
    }
}

/// What stands behind the path of a request for a branch.
pub open spec fn branch_parameter(branch: Option<&str>) -> Seq<char> {
    match branch {
        Some(name) => "?branch="@ + name@,
        None => Seq::empty(),
    }
}

impl PromptHub {
    /// Where the service answers.
    pub closed spec fn endpoint(&self) -> Seq<char> {
        self.base_url@
    }

    /// The key that requests carry.
    pub closed spec fn key(&self) -> Seq<char> {
        self.api_key@
    }

    /// The hosted service.
    pub fn new(api_key: String) -> (r: Self)
        ensures
            r.endpoint() == PROMPTHUB_API_BASE_URL@,
            r.key() == api_key@,
    {
        Self::from_url(api_key, PROMPTHUB_API_BASE_URL.to_owned())
    }

    /// The service at another address.
    pub fn from_url(api_key: String, base_url: String) -> (r: Self)
        ensures
            r.endpoint() == base_url@,
            r.key() == api_key@,
    {
        PromptHub { base_url, api_key }
    }

    /// The request for the head of a project.
    pub open spec fn head_request_spec(&self, id: Seq<char>, branch: Option<&str>) -> RequestView {
        RequestView {
            method: Method::Get,
            url: self.endpoint() + "/projects/"@ + id + "/head"@ + branch_parameter(branch),
            headers: seq![
                ("Authorization"@, "Bearer "@ + self.key()),
                ("Accept"@, "application/json"@),
                ("Content-Type"@, "application/json"@),
            ],
            body: None,
        }
    }

    /// Makes the request for the head of a project.
    pub fn head_request<'a>(&self, q: PromptHubQuery<'a>) -> (r: HttpRequest)
        ensures
            r@ == self.head_request_spec(q.id@, q.branch),
    {
        let mut url = self.base_url.clone();
        url.append("/projects/");
        url.append(q.id);
        url.append("/head");
        match q.branch {
            Some(branch) => {
                let mut parameter = "?branch=".to_owned();
                parameter.append(branch);
                url.append(parameter.as_str());
            },
            None => {
                proof {
                    assert(url@ + Seq::<char>::empty() =~= url@);
                }
            },
        }
        let mut authorization = "Bearer ".to_owned();
        authorization.append(self.api_key.as_str());
        let mut headers: Vec<(String, String)> = Vec::new();
        headers.push(("Authorization".to_owned(), authorization));
        headers.push(("Accept".to_owned(), "application/json".to_owned()));
        headers.push(("Content-Type".to_owned(), "application/json".to_owned()));
        let request = HttpRequest { method: Method::Get, url, headers, body: None };
        proof {
            assert(request@.headers =~= self.head_request_spec(q.id@, q.branch).headers);
        }
        request
    }

    /// Makes a template of a prompt.
    pub fn response_to_template(res: PromptResponse) -> (r: PromptTemplate)
        ensures
            r@ == response_template(res),
    {
        let mut segments: Vec<PromptSegment> = Vec::with_capacity(2);
        if let Some(system) = res.system_message {
            segments.push(
                PromptSegment {
                    role: Role::System,
                    template: system,
                    syntax: TemplateSyntax::Moustache,
                },
            );
        }
        if let Some(user) = res.prompt {
            segments.push(
                PromptSegment {
                    role: Role::User,
                    template: user,
                    syntax: TemplateSyntax::Moustache,
                },
            );
        }
        proof {
            assert(segment_views(segments@) =~= response_template(res).segments);
        }
        let mut id = "prompthub:".to_owned();
        id.append(res.project_id.text().as_str());
        PromptTemplate { id, version: Some(res.hash), segments, metadata: Metadata::new() }
    }

    /// Holds a result to the version that was asked for.
    pub fn require_version<'a>(version: Version<'a>, result: Result<PromptTemplate, PromptError>) -> (r:
        Result<PromptTemplate, PromptError>)
        ensures
            result_view(r) == at_version(version@, result_view(result)),
    {
        let requested = match version {
            Version::Latest => return result,
            Version::Ref(requested) => requested,
        };
        if let Ok(template) = &result {
            if let Some(returned) = &template.version {
                if !same_text(requested, returned.as_str()) {
                    let mut message =
                        "PromptHub does not expose the requested version '".to_owned();
                    message.append(requested);
                    message.append("'. Returned version '");
                    message.append(returned.as_str());
                    message.append("'.");
                    return Err(PromptError::Unsupported(message));
                }
            }
        }
        result
    }
}

impl PromptRepository for PromptHub {
    type Query<'a> = PromptHubQuery<'a>;

    type Payload = ApiResponse;

    type Prompt = PromptTemplate;

    open spec fn service(&self) -> Seq<char> {
        "PromptHub"@
    }

    open spec fn query_request_spec<'a>(&self, q: PromptHubQuery<'a>) -> RequestView {
        self.head_request_spec(q.id@, q.branch)
    }

    open spec fn fetch_request_spec(&self, id: Seq<char>, version: VersionView) -> RequestView {
        self.head_request_spec(id, None)
    }

    open spec fn query_result_spec<'a>(
        &self,
        q: PromptHubQuery<'a>,
        body: Result<ApiResponse, String>,
    ) -> Result<TemplateView, ErrorView> {
        head_result(body)
    }

    open spec fn fetch_result_spec(
        &self,
        id: Seq<char>,
        version: VersionView,
        body: Result<ApiResponse, String>,
    ) -> Result<TemplateView, ErrorView> {
        at_version(version, head_result(body))
    }

    fn service_name(&self) -> (r: &'static str) {
        "PromptHub"
    }

    fn query_request<'a>(&self, q: PromptHubQuery<'a>) -> (r: Result<HttpRequest, PromptError>) {
        Ok(self.head_request(q))
    }

    fn fetch_request<'a>(&self, id: &str, version: Version<'a>) -> (r: Result<
        HttpRequest,
        PromptError,
    >) {
        Ok(self.head_request(PromptHubQuery { id, branch: None }))
    }

    fn query_result<'a>(&self, q: PromptHubQuery<'a>, body: Result<ApiResponse, String>) -> (r:
        Result<PromptTemplate, PromptError>) {
        match body {
            Err(words) => Err(PromptError::Deserialization(words)),
            Ok(api) => Ok(Self::response_to_template(api.data)),
        }
    }

    fn fetch_result<'a>(
        &self,
        id: &str,
        version: Version<'a>,
        body: Result<ApiResponse, String>,
    ) -> (r: Result<PromptTemplate, PromptError>) {
        let head = self.query_result(PromptHubQuery { id, branch: None }, body);
        Self::require_version(version, head)
    }
}

} // verus!

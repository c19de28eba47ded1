//! Haystack PromptHub: a single prompt string, with a version of its own.
//!
//! The version of a prompt is handed out where it is a semantic version.
//!
//! The service has no way to ask for a version. A fetch that names one compares it with the
//! version that came back, and fails where they differ.

use crate::error::{ErrorView, PromptError};
use crate::http::{HttpRequest, Method, RequestView};
use crate::json::{json, text_jsons, text_value, texts_value, Json};
use crate::metadata::Metadata;
use crate::repository::PromptRepository;
use crate::semver::{is_semver, semver};
use crate::template::{
    segment_views, PromptSegment, PromptTemplate, Role, RoleView, SegmentView, TemplateSyntax,
    TemplateView,
};
use crate::text::{same_text, trim_end_slashes, without_end_slashes};
use crate::version::{PromptQuery, Version, VersionView};
use serde_json::Value;
use vstd::prelude::*;

verus! {

/// Where the hosted service answers.
pub const HAYSTACK_PROMPTHUB_API_BASE_URL: &'static str = "https://api.prompthub.deepset.ai";

/// A prompt, as the service answers it.
pub struct PromptPayload {
    pub name: String,
    pub tags: Vec<String>,
    pub meta: Value,
    pub version: String,
    pub text: Option<String>,
    pub description: String,
}

/// The Haystack PromptHub repository.
#[derive(Clone)]
pub struct HaystackPromptHub {
    base_url: String,
}

/// What is kept of a prompt beside its text.
pub open spec fn payload_metadata(payload: PromptPayload) -> Map<Seq<char>, Json> {
    Map::empty().insert("description"@, Json::Text(payload.description@)).insert(
        "tags"@,
        Json::Array(text_jsons(payload.tags@)),
    ).insert("meta"@, json(payload.meta))
}

/// The error for a version other than the one that came back.
pub open spec fn version_mismatch(requested: Seq<char>, returned: Seq<char>) -> ErrorView {
    ErrorView::Unsupported(
        "Haystack PromptHub does not expose the requested version '"@ + requested
            + "'. Returned version '"@ + returned + "'."@,
    )
}

/// The template of a payload, or why there is none.
pub open spec fn payload_template(version: VersionView, payload: PromptPayload) -> Result<
    TemplateView,
    ErrorView,
> {
    if version is Ref && version->Ref_0 != payload.version@ {
        Err(version_mismatch(version->Ref_0, payload.version@))
    } else {
        match payload.text {
            None => Err(ErrorView::PromptExtraction("`text` field missing in Haystack response"@)),
            Some(text) => Ok(
                TemplateView {
                    id: "haystack:"@ + payload.name@,
                    version: if semver(payload.version@) {
                        Some(payload.version@)
                    } else {
                        None
                    },
                    segments: seq![
                        SegmentView {
                            role: RoleView::User,
                            template: text@,
                            syntax: TemplateSyntax::Moustache,
                        },
                    ],
                    metadata: payload_metadata(payload),
                },
            ),
        }
    }
}

/// What an answer of the service comes to.
pub open spec fn payload_result(version: VersionView, body: Result<PromptPayload, String>) -> Result<
    TemplateView,
    ErrorView,
> {
    match body {
        Err(words) => Err(ErrorView::Deserialization(words@)),
        Ok(payload) => payload_template(version, payload),
    }
}

impl HaystackPromptHub {
    /// Where the service answers.
    pub closed spec fn endpoint(&self) -> Seq<char> {
        self.base_url@
    }

    /// The hosted service.
    pub fn new() -> (r: Self)
        ensures
            r.endpoint() == HAYSTACK_PROMPTHUB_API_BASE_URL@,
    {
        Self::from_url(HAYSTACK_PROMPTHUB_API_BASE_URL.to_owned())
    }

    /// The service at another address.
    pub fn from_url(base_url: String) -> (r: Self)
        ensures
            r.endpoint() == base_url@,
    {
        HaystackPromptHub { base_url }
    }

    /// The request for the prompt at a path.
    pub open spec fn prompt_request_spec(&self, path: Seq<char>) -> RequestView {
        RequestView {
            method: Method::Get,
            url: without_end_slashes(self.endpoint()) + "/prompts/"@ + path,
            headers: Seq::empty(),
            body: None,
        }
    }

    /// Makes the request for the prompt at a path.
    pub fn prompt_request(&self, path: &str) -> (r: HttpRequest)
        ensures
            r@ == self.prompt_request_spec(path@),
    {
        let mut url = trim_end_slashes(self.base_url.as_str()).to_owned();
        url.append("/prompts/");
        url.append(path);
        let request = HttpRequest { method: Method::Get, url, headers: Vec::new(), body: None };
        proof {
            assert(request@.headers =~= Seq::empty());
        }
        request
    }

    /// Makes a template of a payload.
    pub fn payload_to_template<'a>(version: Version<'a>, payload: PromptPayload) -> (r: Result<
        PromptTemplate,
        PromptError,
    >)
        ensures
            crate::repository::result_view(r) == payload_template(version@, payload),
    {
        if let Version::Ref(requested) = version {
            if !same_text(requested, payload.version.as_str()) {
                let mut message =
                    "Haystack PromptHub does not expose the requested version '".to_owned();
                message.append(requested);
                message.append("'. Returned version '");
                message.append(payload.version.as_str());
                message.append("'.");
                return Err(PromptError::Unsupported(message));
            }
        }
        let text = match payload.text {
            Some(text) => text,
            None => return Err(
                PromptError::PromptExtraction("`text` field missing in Haystack response".to_owned()),
            ),
        };
        let segment = PromptSegment {
            role: Role::User,
            template: text,
            syntax: TemplateSyntax::Moustache,
        };
        let mut segments: Vec<PromptSegment> = Vec::new();
        segments.push(segment);
        let mut metadata = Metadata::new();
        metadata.insert("description".to_owned(), text_value(payload.description));
        metadata.insert("tags".to_owned(), texts_value(&payload.tags));
        metadata.insert("meta".to_owned(), payload.meta);
        let version = if is_semver(payload.version.as_str()) {
            Some(payload.version)
        } else {
            None
        };
        let mut id = "haystack:".to_owned();
        id.append(payload.name.as_str());
        proof {
            assert(segment_views(segments@) =~= seq![segment@]);
        }
        Ok(PromptTemplate { id, version, segments, metadata })
    }
}

impl PromptRepository for HaystackPromptHub {
    type Query<'a> = PromptQuery<'a>;

    type Payload = PromptPayload;

    type Prompt = PromptTemplate;

    open spec fn service(&self) -> Seq<char> {
        "Haystack PromptHub"@
    }

    open spec fn query_request_spec<'a>(&self, q: PromptQuery<'a>) -> RequestView {
        self.prompt_request_spec(q.id@)
    }

    open spec fn fetch_request_spec(&self, id: Seq<char>, version: VersionView) -> RequestView {
        self.prompt_request_spec(id)
    }

    open spec fn query_result_spec<'a>(
        &self,
        q: PromptQuery<'a>,
        body: Result<PromptPayload, String>,
    ) -> Result<TemplateView, ErrorView> {
        payload_result(q.version@, body)
    }

    open spec fn fetch_result_spec(
        &self,
        id: Seq<char>,
        version: VersionView,
        body: Result<PromptPayload, String>,
    ) -> Result<TemplateView, ErrorView> {
        payload_result(version, body)
    }

    fn service_name(&self) -> (r: &'static str) {
        "Haystack PromptHub"
    }

    fn query_request<'a>(&self, q: PromptQuery<'a>) -> (r: Result<HttpRequest, PromptError>) {
        self.fetch_request(q.id, q.version)
    }

    fn fetch_request<'a>(&self, id: &str, version: Version<'a>) -> (r: Result<
        HttpRequest,
        PromptError,
    >) {
        Ok(self.prompt_request(id))
    }

    fn query_result<'a>(&self, q: PromptQuery<'a>, body: Result<PromptPayload, String>) -> (r:
        Result<PromptTemplate, PromptError>) {
        self.fetch_result(q.id, q.version, body)
    }

    fn fetch_result<'a>(
        &self,
        id: &str,
        version: Version<'a>,
        body: Result<PromptPayload, String>,
    ) -> (r: Result<PromptTemplate, PromptError>) {
        match body {
            Err(words) => Err(PromptError::Deserialization(words)),
            Ok(payload) => Self::payload_to_template(version, payload),
        }
    }
}

} // verus!

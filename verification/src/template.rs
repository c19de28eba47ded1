//! Prompts as every repository hands them out.

use crate::json::Json;
use crate::metadata::Metadata;
use crate::text::same_text;
use vstd::prelude::*;

verus! {

/// How a template marks its variables.
#[derive(Debug, Clone, Copy, PartialEq, Eq, Structural)]
pub enum TemplateSyntax {
    /// `{foo}`
    FString,
    /// `{{ foo }}`
    Moustache,
}

/// The syntax that a format name stands for: `f-string` is itself, and everything else, no name
/// at all included, is moustache.
pub open spec fn syntax_named(name: Option<Seq<char>>) -> TemplateSyntax {
    if name == Some("f-string"@) {
        TemplateSyntax::FString
    } else {
        TemplateSyntax::Moustache
    }
}

impl<'a> From<Option<&'a str>> for TemplateSyntax {
    fn from(s: Option<&'a str>) -> (r: Self) {
        match s {
            Some(name) => if same_text(name, "f-string") {
                TemplateSyntax::FString
            } else {
                TemplateSyntax::Moustache
            },
            None => TemplateSyntax::Moustache,
        }
    }
}

impl<'a> vstd::std_specs::convert::FromSpecImpl<Option<&'a str>> for TemplateSyntax {
    open spec fn obeys_from_spec() -> bool {
        true
    }

    open spec fn from_spec(s: Option<&'a str>) -> Self {
        match s {
            Some(name) => syntax_named(Some(name@)),
            None => syntax_named(None),
        }
    }
}

/// Who speaks a segment.
#[derive(Debug, Clone, PartialEq, Eq)]
pub enum Role {
    System,
    User,
    Assistant,
    /// A role of one vendor (`"tool"`, `"function"` and the like).
    Custom(String),
}

/// The view of a [`Role`].
pub enum RoleView {
    System,
    User,
    Assistant,
    Custom(Seq<char>),
}

impl View for Role {
    type V = RoleView;

    open spec fn view(&self) -> RoleView {
        match *self {
            Role::System => RoleView::System,
            Role::User => RoleView::User,
            Role::Assistant => RoleView::Assistant,
            Role::Custom(name) => RoleView::Custom(name@),
        }
    }
}

/// A single message of a prompt.
#[derive(Debug, Clone, PartialEq, Eq)]
pub struct PromptSegment {
    pub role: Role,
    pub template: String,
    pub syntax: TemplateSyntax,
}

/// The view of a [`PromptSegment`].
pub struct SegmentView {
    pub role: RoleView,
    pub template: Seq<char>,
    pub syntax: TemplateSyntax,
}

impl View for PromptSegment {
    type V = SegmentView;

    open spec fn view(&self) -> SegmentView {
        SegmentView { role: self.role@, template: self.template@, syntax: self.syntax }
    }
}

/// The segments of a list, each by its view.
pub open spec fn segment_views(segments: Seq<PromptSegment>) -> Seq<SegmentView> {
    segments.map_values(|s: PromptSegment| s@)
}

/// A prompt as any repository returns it.
#[derive(Debug, Clone)]
pub struct PromptTemplate {
    pub id: String,
    pub version: Option<String>,
    pub segments: Vec<PromptSegment>,
    pub metadata: Metadata,
}

/// The view of a [`PromptTemplate`].
pub struct TemplateView {
    pub id: Seq<char>,
    pub version: Option<Seq<char>>,
    pub segments: Seq<SegmentView>,
    pub metadata: Map<Seq<char>, Json>,
}

/// A text that may be missing, by its view.
pub open spec fn optional_text(s: Option<String>) -> Option<Seq<char>> {
    match s {
        Some(t) => Some(t@),
        None => None,
    }
}

impl View for PromptTemplate {
    type V = TemplateView;

    open spec fn view(&self) -> TemplateView {
        TemplateView {
            id: self.id@,
            version: optional_text(self.version),
            segments: segment_views(self.segments@),
            metadata: self.metadata@,
        }
    }
}

/// What a repository tells of a prompt when it lists its prompts.
#[derive(Debug, Clone, PartialEq, Eq)]
pub struct PromptSummary {
    /// The identifier by which the repository fetches the prompt.
    pub id: String,
    /// The latest published version, where the repository has versions.
    pub latest_version: Option<String>,
    /// A description or title.
    pub description: Option<String>,
    /// Tags or categories of the repository.
    pub tags: Vec<String>,
}

} // verus!

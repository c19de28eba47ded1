//! Versions of a prompt, and the query by identifier and version.

use vstd::prelude::*;

verus! {

/// Which version of a prompt is wanted.
#[derive(Debug, Clone, Copy, PartialEq, Eq)]
pub enum Version<'a> {
    /// The latest version.
    Latest,
    /// A version by its reference: a commit hash, a tag, or whatever the repository understands,
    /// such as `head`, `v1.0.0` or `1234567890abcdef`.
    Ref(&'a str),
}

/// The view of a [`Version`].
pub enum VersionView {
    Latest,
    Ref(Seq<char>),
}

impl<'a> View for Version<'a> {
    type V = VersionView;

    open spec fn view(&self) -> VersionView {
        match *self {
            Version::Latest => VersionView::Latest,
            Version::Ref(reference) => VersionView::Ref(reference@),
        }
    }
}

/// How a version is written: the latest as `latest`, any other as its reference.
pub open spec fn version_text(v: VersionView) -> Seq<char> {
    match v {
        VersionView::Latest => "latest"@,
        VersionView::Ref(reference) => reference,
    }
}

impl<'a> Version<'a> {
    /// Whether this is the latest version, and not a reference.
    pub fn is_latest(&self) -> (r: bool)
        ensures
            r == (self@ is Latest),
    {
        match self {
            Version::Latest => true,
            Version::Ref(_) => false,
        }
    }

    /// The version as it is written.
    pub fn as_text(&self) -> (r: &'a str)
        ensures
            r@ == version_text(self@),
    {
        match *self {
            Version::Latest => "latest",
            Version::Ref(reference) => reference,
        }
    }
}

/// A query by identifier and version.
#[derive(Debug, Clone, Copy)]
pub struct PromptQuery<'a> {
    pub id: &'a str,
    pub version: Version<'a>,
}

} // verus!

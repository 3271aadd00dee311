//! Images.

use crate::domain::Labels;
use crate::domain::LabelsView;
use crate::time::Timestamp;
use vstd::prelude::*;

verus! {

/// The identifier of an image: opaque text, compared by equality.
#[derive(Debug, Clone, PartialEq, Eq, Hash)]
pub struct ImageId(pub String);

impl DeepView for ImageId {
    type V = Seq<char>;

    open spec fn deep_view(&self) -> Seq<char> {
        self.0@
    }
}

impl View for ImageId {
    type V = Seq<char>;

    open spec fn view(&self) -> Seq<char> {
        self.0@
    }
}

impl From<String> for ImageId {
    fn from(text: String) -> (id: ImageId) {
        ImageId(text)
    }
}

impl vstd::std_specs::convert::FromSpecImpl<String> for ImageId {
    open spec fn obeys_from_spec() -> bool {
        true
    }

    open spec fn from_spec(text: String) -> ImageId {
        ImageId(text)
    }
}

impl ImageId {
    /// The identifier as text.
    pub fn as_ref(&self) -> (text: &str)
        ensures
            text@ == self@,
    {
        self.0.as_str()
    }

    /// The identifier as an owned string.
    pub fn to_string(&self) -> (text: String)
        ensures
            text@ == self@,
    {
        self.0.clone()
    }
}

/// An image as list operations report it.
#[derive(Debug, Clone)]
pub struct Image {
    pub id: ImageId,
    pub repo_tags: Vec<String>,
    pub size: u64,
    pub created_at: Timestamp,
    pub labels: Labels,
}

/// What an [`Image`] holds.
pub struct ImageView {
    pub id: Seq<char>,
    pub repo_tags: Seq<Seq<char>>,
    pub size: u64,
    pub created_at: Timestamp,
    pub labels: LabelsView,
}

impl DeepView for Image {
    type V = ImageView;

    open spec fn deep_view(&self) -> ImageView {
        ImageView {
            id: self.id@,
            repo_tags: self.repo_tags.deep_view(),
            size: self.size,
            created_at: self.created_at,
            labels: self.labels@,
        }
    }
}

impl View for Image {
    type V = ImageView;

    open spec fn view(&self) -> ImageView {
        self.deep_view()
    }
}

/// An image as an inspection reports it: the summary and more.
#[derive(Debug, Clone)]
pub struct ImageDetail {
    pub id: ImageId,
    pub repo_tags: Vec<String>,
    pub size: u64,
    pub created_at: Timestamp,
    pub labels: Labels,
    pub architecture: String,
    pub os: String,
}

/// What an [`ImageDetail`] holds.
pub struct ImageDetailView {
    pub id: Seq<char>,
    pub repo_tags: Seq<Seq<char>>,
    pub size: u64,
    pub created_at: Timestamp,
    pub labels: LabelsView,
    pub architecture: Seq<char>,
    pub os: Seq<char>,
}

impl DeepView for ImageDetail {
    type V = ImageDetailView;

    open spec fn deep_view(&self) -> ImageDetailView {
        ImageDetailView {
            id: self.id@,
            repo_tags: self.repo_tags.deep_view(),
            size: self.size,
            created_at: self.created_at,
            labels: self.labels@,
            architecture: self.architecture@,
            os: self.os@,
        }
    }
}

impl View for ImageDetail {
    type V = ImageDetailView;

    open spec fn view(&self) -> ImageDetailView {
        self.deep_view()
    }
}

/// What a listing of images is asked to keep.
#[derive(Debug, Clone)]
pub struct ImageFilter {
    pub reference: Option<String>,
    pub dangling: Option<bool>,
}

impl Default for ImageFilter {
    fn default() -> (filter: ImageFilter)
        ensures
            filter.reference is None,
            filter.dangling is None,
    {
        ImageFilter { reference: None, dangling: None }
    }
}

} // verus!

//! Volumes.

use crate::domain::Labels;
use crate::domain::LabelsView;
use vstd::prelude::*;

verus! {

/// The name of a volume, which is what identifies it.
#[derive(Debug, Clone, PartialEq, Eq, Hash)]
pub struct VolumeName(pub String);

impl DeepView for VolumeName {
    type V = Seq<char>;

    open spec fn deep_view(&self) -> Seq<char> {
        self.0@
    }
}

impl View for VolumeName {
    type V = Seq<char>;

    open spec fn view(&self) -> Seq<char> {
        self.0@
    }
}

impl From<String> for VolumeName {
    fn from(text: String) -> (id: VolumeName) {
        VolumeName(text)
    }
}

impl vstd::std_specs::convert::FromSpecImpl<String> for VolumeName {
    open spec fn obeys_from_spec() -> bool {
        true
    }

    open spec fn from_spec(text: String) -> VolumeName {
        VolumeName(text)
    }
}

impl VolumeName {
    /// The identifier as text.
    pub fn as_ref(&self) -> (text: &str)
        ensures
            text@ == self@,
    {
        self.0.as_str()
    }

    /// The identifier as an owned string.
    pub fn to_string(&self) -> (text: String)
        ensures
            text@ == self@,
    {
        self.0.clone()
    }
}

/// A volume as list operations report it.
#[derive(Debug, Clone)]
pub struct Volume {
    pub name: VolumeName,
    pub driver: String,
    pub mountpoint: String,
    pub labels: Labels,
}

/// What a [`Volume`] holds.
pub struct VolumeView {
    pub name: Seq<char>,
    pub driver: Seq<char>,
    pub mountpoint: Seq<char>,
    pub labels: LabelsView,
}

impl DeepView for Volume {
    type V = VolumeView;

    open spec fn deep_view(&self) -> VolumeView {
        VolumeView {
            name: self.name@,
            driver: self.driver@,
            mountpoint: self.mountpoint@,
            labels: self.labels@,
        }
    }
}

impl View for Volume {
    type V = VolumeView;

    open spec fn view(&self) -> VolumeView {
        self.deep_view()
    }
}

/// A volume as an inspection reports it: the summary and more.
#[derive(Debug, Clone)]
pub struct VolumeDetail {
    pub name: VolumeName,
    pub driver: String,
    pub mountpoint: String,
    pub labels: Labels,
    pub scope: String,
}

/// What a [`VolumeDetail`] holds.
pub struct VolumeDetailView {
    pub name: Seq<char>,
    pub driver: Seq<char>,
    pub mountpoint: Seq<char>,
    pub labels: LabelsView,
    pub scope: Seq<char>,
}

impl DeepView for VolumeDetail {
    type V = VolumeDetailView;

    open spec fn deep_view(&self) -> VolumeDetailView {
        VolumeDetailView {
            name: self.name@,
            driver: self.driver@,
            mountpoint: self.mountpoint@,
            labels: self.labels@,
            scope: self.scope@,
        }
    }
}

impl View for VolumeDetail {
    type V = VolumeDetailView;

    open spec fn view(&self) -> VolumeDetailView {
        self.deep_view()
    }
}

/// What a listing of volumes is asked to keep.
#[derive(Debug, Clone)]
pub struct VolumeFilter {
    pub name: Option<String>,
    pub dangling: Option<bool>,
}

impl Default for VolumeFilter {
    fn default() -> (filter: VolumeFilter)
        ensures
            filter.name is None,
            filter.dangling is None,
    {
        VolumeFilter { name: None, dangling: None }
    }
}

} // verus!

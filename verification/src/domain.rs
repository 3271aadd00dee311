//! The daemon-independent vocabulary: containers, images, volumes and
//! networks, each as a summary and as a detail, with the filters that list
//! operations take.

pub mod container;
pub mod image;
pub mod network;
pub mod volume;

use vstd::prelude::*;

verus! {

/// Labels of a resource: text keys, each once, walked in the order of the
/// keys.
pub type Labels = crate::strmap::StringMap<String>;

/// What a [`Labels`] value holds: its entries in the order of their keys.
pub type LabelsView = Seq<(Seq<char>, Seq<char>)>;

} // verus!

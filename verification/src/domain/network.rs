//! Networks.

use crate::domain::Labels;
use crate::domain::LabelsView;
use vstd::prelude::*;

verus! {

/// The identifier of a network: opaque text, compared by equality.
#[derive(Debug, Clone, PartialEq, Eq, Hash)]
pub struct NetworkId(pub String);

impl DeepView for NetworkId {
    type V = Seq<char>;

    open spec fn deep_view(&self) -> Seq<char> {
        self.0@
    }
}

impl View for NetworkId {
    type V = Seq<char>;

    open spec fn view(&self) -> Seq<char> {
        self.0@
    }
}

impl From<String> for NetworkId {
    fn from(text: String) -> (id: NetworkId) {
        NetworkId(text)
    }
}

impl vstd::std_specs::convert::FromSpecImpl<String> for NetworkId {
    open spec fn obeys_from_spec() -> bool {
        true
    }

    open spec fn from_spec(text: String) -> NetworkId {
        NetworkId(text)
    }
}

impl NetworkId {
    /// The identifier as text.
    pub fn as_ref(&self) -> (text: &str)
        ensures
            text@ == self@,
    {
        self.0.as_str()
    }

    /// The identifier as an owned string.
    pub fn to_string(&self) -> (text: String)
        ensures
            text@ == self@,
    {
        self.0.clone()
    }
}

/// A network as list operations report it.
#[derive(Debug, Clone)]
pub struct Network {
    pub id: NetworkId,
    pub name: String,
    pub driver: String,
    pub scope: String,
    pub internal: bool,
    pub labels: Labels,
}

/// What a [`Network`] holds.
pub struct NetworkView {
    pub id: Seq<char>,
    pub name: Seq<char>,
    pub driver: Seq<char>,
    pub scope: Seq<char>,
    pub internal: bool,
    pub labels: LabelsView,
}

impl DeepView for Network {
    type V = NetworkView;

    open spec fn deep_view(&self) -> NetworkView {
        NetworkView {
            id: self.id@,
            name: self.name@,
            driver: self.driver@,
            scope: self.scope@,
            internal: self.internal,
            labels: self.labels@,
        }
    }
}

impl View for Network {
    type V = NetworkView;

    open spec fn view(&self) -> NetworkView {
        self.deep_view()
    }
}

/// One address range of a network.
#[derive(Debug, Clone)]
pub struct IpamSubnet {
    pub subnet: String,
    pub gateway: Option<String>,
}

/// What an [`IpamSubnet`] holds.
pub struct IpamSubnetView {
    pub subnet: Seq<char>,
    pub gateway: Option<Seq<char>>,
}

impl DeepView for IpamSubnet {
    type V = IpamSubnetView;

    open spec fn deep_view(&self) -> IpamSubnetView {
        IpamSubnetView {
            subnet: self.subnet@,
            gateway: self.gateway.deep_view(),
        }
    }
}

impl View for IpamSubnet {
    type V = IpamSubnetView;

    open spec fn view(&self) -> IpamSubnetView {
        self.deep_view()
    }
}

/// How addresses are handed out on a network.
#[derive(Debug, Clone)]
pub struct IpamConfig {
    pub driver: String,
    pub config: Vec<IpamSubnet>,
}

/// What an [`IpamConfig`] holds.
pub struct IpamConfigView {
    pub driver: Seq<char>,
    pub config: Seq<IpamSubnetView>,
}

impl DeepView for IpamConfig {
    type V = IpamConfigView;

    open spec fn deep_view(&self) -> IpamConfigView {
        IpamConfigView {
            driver: self.driver@,
            config: self.config.deep_view(),
        }
    }
}

impl View for IpamConfig {
    type V = IpamConfigView;

    open spec fn view(&self) -> IpamConfigView {
        self.deep_view()
    }
}

/// A network as an inspection reports it: the summary and more.
#[derive(Debug, Clone)]
pub struct NetworkDetail {
    pub id: NetworkId,
    pub name: String,
    pub driver: String,
    pub scope: String,
    pub internal: bool,
    pub labels: Labels,
    pub ipam: Option<IpamConfig>,
}

/// What a [`NetworkDetail`] holds.
pub struct NetworkDetailView {
    pub id: Seq<char>,
    pub name: Seq<char>,
    pub driver: Seq<char>,
    pub scope: Seq<char>,
    pub internal: bool,
    pub labels: LabelsView,
    pub ipam: Option<IpamConfigView>,
}

impl DeepView for NetworkDetail {
    type V = NetworkDetailView;

    open spec fn deep_view(&self) -> NetworkDetailView {
        NetworkDetailView {
            id: self.id@,
            name: self.name@,
            driver: self.driver@,
            scope: self.scope@,
            internal: self.internal,
            labels: self.labels@,
            ipam: self.ipam.deep_view(),
        }
    }
}

impl View for NetworkDetail {
    type V = NetworkDetailView;

    open spec fn view(&self) -> NetworkDetailView {
        self.deep_view()
    }
}

/// What a listing of networks is asked to keep.
#[derive(Debug, Clone)]
pub struct NetworkFilter {
    pub name: Option<String>,
}

impl Default for NetworkFilter {
    fn default() -> (filter: NetworkFilter)
        ensures
            filter.name is None,
    {
        NetworkFilter { name: None }
    }
}

} // verus!

//! Containers.

use crate::domain::Labels;
use crate::domain::LabelsView;
use crate::time::Timestamp;
use vstd::prelude::*;

verus! {

/// The identifier of a container: opaque text, compared by equality.
#[derive(Debug, Clone, PartialEq, Eq, Hash)]
pub struct ContainerId(pub String);

impl DeepView for ContainerId {
    type V = Seq<char>;

    open spec fn deep_view(&self) -> Seq<char> {
        self.0@
    }
}

impl View for ContainerId {
    type V = Seq<char>;

    open spec fn view(&self) -> Seq<char> {
        self.0@
    }
}

impl From<String> for ContainerId {
    fn from(text: String) -> (id: ContainerId) {
        ContainerId(text)
    }
}

impl vstd::std_specs::convert::FromSpecImpl<String> for ContainerId {
    open spec fn obeys_from_spec() -> bool {
        true
    }

    open spec fn from_spec(text: String) -> ContainerId {
        ContainerId(text)
    }
}

impl ContainerId {
    /// The identifier as text.
    pub fn as_ref(&self) -> (text: &str)
        ensures
            text@ == self@,
    {
        self.0.as_str()
    }

    /// The identifier as an owned string.
    pub fn to_string(&self) -> (text: String)
        ensures
            text@ == self@,
    {
        self.0.clone()
    }
}

/// The state of a container: a closed set, with `Unknown` for whatever the
/// daemon reports that is none of the others.
#[derive(Debug, Clone, Copy, PartialEq, Eq, Structural)]
pub enum ContainerState {
    Running,
    Exited,
    Paused,
    Restarting,
    Dead,
    Unknown,
}

impl DeepView for ContainerState {
    type V = ContainerState;

    open spec fn deep_view(&self) -> ContainerState {
        *self
    }
}

impl ContainerState {
    /// The name under which a state is shown.
    pub open spec fn name(self) -> Seq<char> {
        match self {
            ContainerState::Running => "Running"@,
            ContainerState::Exited => "Exited"@,
            ContainerState::Paused => "Paused"@,
            ContainerState::Restarting => "Restarting"@,
            ContainerState::Dead => "Dead"@,
            ContainerState::Unknown => "Unknown"@,
        }
    }

    /// The name under which the state is shown.
    pub fn to_string(&self) -> (text: String)
        ensures
            text@ == self.name(),
    {
        match self {
            ContainerState::Running => "Running".to_owned(),
            ContainerState::Exited => "Exited".to_owned(),
            ContainerState::Paused => "Paused".to_owned(),
            ContainerState::Restarting => "Restarting".to_owned(),
            ContainerState::Dead => "Dead".to_owned(),
            ContainerState::Unknown => "Unknown".to_owned(),
        }
    }
}

/// The transport protocol of a published port.
#[derive(Debug, Clone, Copy, PartialEq, Eq, Structural)]
pub enum PortProtocol {
    Tcp,
    Udp,
}

impl DeepView for PortProtocol {
    type V = PortProtocol;

    open spec fn deep_view(&self) -> PortProtocol {
        *self
    }
}

impl PortProtocol {
    /// The token under which a protocol is shown.
    pub open spec fn name(self) -> Seq<char> {
        match self {
            PortProtocol::Tcp => "tcp"@,
            PortProtocol::Udp => "udp"@,
        }
    }

    /// The token under which the protocol is shown.
    pub fn to_string(&self) -> (text: String)
        ensures
            text@ == self.name(),
    {
        match self {
            PortProtocol::Tcp => "tcp".to_owned(),
            PortProtocol::Udp => "udp".to_owned(),
        }
    }
}

/// A port of a container and where on the host it is published, if at all.
#[derive(Debug, Clone, PartialEq, Eq)]
pub struct PortMapping {
    pub container_port: u16,
    pub host_port: Option<u16>,
    pub host_ip: Option<String>,
    pub protocol: PortProtocol,
}

/// What a [`PortMapping`] holds.
pub struct PortMappingView {
    pub container_port: u16,
    pub host_port: Option<u16>,
    pub host_ip: Option<Seq<char>>,
    pub protocol: PortProtocol,
}

impl DeepView for PortMapping {
    type V = PortMappingView;

    open spec fn deep_view(&self) -> PortMappingView {
        PortMappingView {
            container_port: self.container_port,
            host_port: self.host_port,
            host_ip: self.host_ip.deep_view(),
            protocol: self.protocol,
        }
    }
}

impl View for PortMapping {
    type V = PortMappingView;

    open spec fn view(&self) -> PortMappingView {
        self.deep_view()
    }
}

/// A container as list operations report it.
#[derive(Debug, Clone)]
pub struct Container {
    pub id: ContainerId,
    pub name: String,
    pub image: String,
    pub state: ContainerState,
    pub status: String,
    pub created_at: Timestamp,
    pub labels: Labels,
    pub ports: Vec<PortMapping>,
}

/// What a [`Container`] holds.
pub struct ContainerView {
    pub id: Seq<char>,
    pub name: Seq<char>,
    pub image: Seq<char>,
    pub state: ContainerState,
    pub status: Seq<char>,
    pub created_at: Timestamp,
    pub labels: LabelsView,
    pub ports: Seq<PortMappingView>,
}

impl DeepView for Container {
    type V = ContainerView;

    open spec fn deep_view(&self) -> ContainerView {
        ContainerView {
            id: self.id@,
            name: self.name@,
            image: self.image@,
            state: self.state,
            status: self.status@,
            created_at: self.created_at,
            labels: self.labels@,
            ports: self.ports.deep_view(),
        }
    }
}

impl View for Container {
    type V = ContainerView;

    open spec fn view(&self) -> ContainerView {
        self.deep_view()
    }
}

/// A place of the host made visible inside a container.
#[derive(Debug, Clone)]
pub struct Mount {
    pub source: String,
    pub destination: String,
    pub mode: String,
    pub rw: bool,
}

/// What a [`Mount`] holds.
pub struct MountView {
    pub source: Seq<char>,
    pub destination: Seq<char>,
    pub mode: Seq<char>,
    pub rw: bool,
}

impl DeepView for Mount {
    type V = MountView;

    open spec fn deep_view(&self) -> MountView {
        MountView {
            source: self.source@,
            destination: self.destination@,
            mode: self.mode@,
            rw: self.rw,
        }
    }
}

impl View for Mount {
    type V = MountView;

    open spec fn view(&self) -> MountView {
        self.deep_view()
    }
}

/// The networks a container is attached to and its address, if it has one.
#[derive(Debug, Clone)]
pub struct NetworkSettings {
    pub networks: Vec<String>,
    pub ip_address: Option<String>,
}

/// What a [`NetworkSettings`] holds.
pub struct NetworkSettingsView {
    pub networks: Seq<Seq<char>>,
    pub ip_address: Option<Seq<char>>,
}

impl DeepView for NetworkSettings {
    type V = NetworkSettingsView;

    open spec fn deep_view(&self) -> NetworkSettingsView {
        NetworkSettingsView {
            networks: self.networks.deep_view(),
            ip_address: self.ip_address.deep_view(),
        }
    }
}

impl View for NetworkSettings {
    type V = NetworkSettingsView;

    open spec fn view(&self) -> NetworkSettingsView {
        self.deep_view()
    }
}

/// A container as an inspection reports it: the summary and more.
#[derive(Debug, Clone)]
pub struct ContainerDetail {
    pub id: ContainerId,
    pub name: String,
    pub image: String,
    pub state: ContainerState,
    pub status: String,
    pub created_at: Timestamp,
    pub labels: Labels,
    pub ports: Vec<PortMapping>,
    pub command: Vec<String>,
    pub entrypoint: Vec<String>,
    pub env: Vec<String>,
    pub mounts: Vec<Mount>,
    pub network_settings: NetworkSettings,
}

/// What a [`ContainerDetail`] holds.
pub struct ContainerDetailView {
    pub id: Seq<char>,
    pub name: Seq<char>,
    pub image: Seq<char>,
    pub state: ContainerState,
    pub status: Seq<char>,
    pub created_at: Timestamp,
    pub labels: LabelsView,
    pub ports: Seq<PortMappingView>,
    pub command: Seq<Seq<char>>,
    pub entrypoint: Seq<Seq<char>>,
    pub env: Seq<Seq<char>>,
    pub mounts: Seq<MountView>,
    pub network_settings: NetworkSettingsView,
}

impl DeepView for ContainerDetail {
    type V = ContainerDetailView;

    open spec fn deep_view(&self) -> ContainerDetailView {
        ContainerDetailView {
            id: self.id@,
            name: self.name@,
            image: self.image@,
            state: self.state,
            status: self.status@,
            created_at: self.created_at,
            labels: self.labels@,
            ports: self.ports.deep_view(),
            command: self.command.deep_view(),
            entrypoint: self.entrypoint.deep_view(),
            env: self.env.deep_view(),
            mounts: self.mounts.deep_view(),
            network_settings: self.network_settings@,
        }
    }
}

impl View for ContainerDetail {
    type V = ContainerDetailView;

    open spec fn view(&self) -> ContainerDetailView {
        self.deep_view()
    }
}

/// What a listing of containers is asked to keep.
#[derive(Debug, Clone)]
pub struct ContainerFilter {
    pub name: Option<String>,
    pub state: Option<ContainerState>,
    pub labels: Vec<(String, String)>,
}

impl Default for ContainerFilter {
    fn default() -> (filter: ContainerFilter)
        ensures
            filter.name is None,
            filter.state is None,
            filter.labels@.len() == 0,
    {
        ContainerFilter { name: None, state: None, labels: Vec::new() }
    }
}

/// How a container is to be deleted.
#[derive(Debug, Clone, Copy)]
pub struct DeleteContainerOpts {
    pub force: bool,
    pub remove_volumes: bool,
}

impl Default for DeleteContainerOpts {
    fn default() -> (opts: DeleteContainerOpts)
        ensures
            !opts.force,
            !opts.remove_volumes,
    {
        DeleteContainerOpts { force: false, remove_volumes: false }
    }
}

} // verus!

//! The mapping from what the daemon sends to the domain vocabulary. Every
//! function here is total: a field that the wire leaves out gets its
//! default, a state that is not known becomes `Unknown`, and an instant that
//! cannot be read becomes the epoch.

use crate::domain::container::Container;
use crate::domain::container::ContainerDetail;
use crate::domain::container::ContainerDetailView;
use crate::domain::container::ContainerId;
use crate::domain::container::ContainerState;
use crate::domain::container::ContainerView;
use crate::domain::container::Mount;
use crate::domain::container::MountView;
use crate::domain::container::NetworkSettings;
use crate::domain::container::NetworkSettingsView;
use crate::domain::container::PortMapping;
use crate::domain::container::PortMappingView;
use crate::domain::container::PortProtocol;
use crate::domain::image::Image;
use crate::domain::image::ImageDetail;
use crate::domain::image::ImageDetailView;
use crate::domain::image::ImageId;
use crate::domain::image::ImageView;
use crate::domain::network::IpamConfig;
use crate::domain::network::IpamConfigView;
use crate::domain::network::IpamSubnet;
use crate::domain::network::IpamSubnetView;
use crate::domain::network::Network;
use crate::domain::network::NetworkDetail;
use crate::domain::network::NetworkDetailView;
use crate::domain::network::NetworkId;
use crate::domain::network::NetworkView;
use crate::domain::volume::Volume;
use crate::domain::volume::VolumeDetail;
use crate::domain::volume::VolumeDetailView;
use crate::domain::volume::VolumeName;
use crate::domain::volume::VolumeView;
use crate::domain::Labels;
use crate::domain::LabelsView;
use crate::strmap::keys_of;
use crate::strmap::StringMap;
use crate::text::ascii_lowered;
use crate::text::chars_of;
use crate::text::chars_spell;
use crate::text::lowered_chars;
use crate::text::push_chars;
use crate::text::same_text;
use crate::time::in_four_digit_years;
use crate::time::instant_of_epoch_seconds;
use crate::time::instant_of_rfc3339;
use crate::time::Timestamp;
use vstd::prelude::*;

verus! {

/// A published port as a container summary lists it.
#[derive(Debug, Clone)]
pub struct DockerPort {
    pub private_port: u16,
    pub public_port: Option<u16>,
    pub port_type: String,
    pub ip: Option<String>,
}

/// What a [`DockerPort`] holds.
pub struct DockerPortView {
    pub private_port: u16,
    pub public_port: Option<u16>,
    pub port_type: Seq<char>,
    pub ip: Option<Seq<char>>,
}

impl DeepView for DockerPort {
    type V = DockerPortView;

    open spec fn deep_view(&self) -> DockerPortView {
        DockerPortView {
            private_port: self.private_port,
            public_port: self.public_port,
            port_type: self.port_type@,
            ip: self.ip.deep_view(),
        }
    }
}

impl View for DockerPort {
    type V = DockerPortView;

    open spec fn view(&self) -> DockerPortView {
        self.deep_view()
    }
}

/// A container as the daemon lists it.
#[derive(Debug, Clone)]
pub struct DockerContainer {
    pub id: String,
    pub names: Vec<String>,
    pub image: String,
    pub state: String,
    pub status: String,
    pub created: i64,
    pub labels: Labels,
    pub ports: Vec<DockerPort>,
}

/// What a [`DockerContainer`] holds.
pub struct DockerContainerView {
    pub id: Seq<char>,
    pub names: Seq<Seq<char>>,
    pub image: Seq<char>,
    pub state: Seq<char>,
    pub status: Seq<char>,
    pub created: i64,
    pub labels: LabelsView,
    pub ports: Seq<DockerPortView>,
}

impl DeepView for DockerContainer {
    type V = DockerContainerView;

    open spec fn deep_view(&self) -> DockerContainerView {
        DockerContainerView {
            id: self.id@,
            names: self.names.deep_view(),
            image: self.image@,
            state: self.state@,
            status: self.status@,
            created: self.created,
            labels: self.labels@,
            ports: self.ports.deep_view(),
        }
    }
}

impl View for DockerContainer {
    type V = DockerContainerView;

    open spec fn view(&self) -> DockerContainerView {
        self.deep_view()
    }
}

/// The configuration part of a container inspection.
#[derive(Debug, Clone)]
pub struct DockerConfig {
    pub image: String,
    pub cmd: Vec<String>,
    pub entrypoint: Vec<String>,
    pub env: Vec<String>,
    pub labels: Labels,
    pub exposed_ports: Option<Vec<String>>,
}

/// What a [`DockerConfig`] holds.
pub struct DockerConfigView {
    pub image: Seq<char>,
    pub cmd: Seq<Seq<char>>,
    pub entrypoint: Seq<Seq<char>>,
    pub env: Seq<Seq<char>>,
    pub labels: LabelsView,
    pub exposed_ports: Option<Seq<Seq<char>>>,
}

impl DeepView for DockerConfig {
    type V = DockerConfigView;

    open spec fn deep_view(&self) -> DockerConfigView {
        DockerConfigView {
            image: self.image@,
            cmd: self.cmd.deep_view(),
            entrypoint: self.entrypoint.deep_view(),
            env: self.env.deep_view(),
            labels: self.labels@,
            exposed_ports: self.exposed_ports.deep_view(),
        }
    }
}

impl View for DockerConfig {
    type V = DockerConfigView;

    open spec fn view(&self) -> DockerConfigView {
        self.deep_view()
    }
}

/// The state part of a container inspection.
#[derive(Debug, Clone)]
pub struct DockerState {
    pub status: String,
    pub running: bool,
    pub paused: bool,
    pub restarting: bool,
    pub dead: bool,
}

/// What a [`DockerState`] holds.
pub struct DockerStateView {
    pub status: Seq<char>,
    pub running: bool,
    pub paused: bool,
    pub restarting: bool,
    pub dead: bool,
}

impl DeepView for DockerState {
    type V = DockerStateView;

    open spec fn deep_view(&self) -> DockerStateView {
        DockerStateView {
            status: self.status@,
            running: self.running,
            paused: self.paused,
            restarting: self.restarting,
            dead: self.dead,
        }
    }
}

impl View for DockerState {
    type V = DockerStateView;

    open spec fn view(&self) -> DockerStateView {
        self.deep_view()
    }
}

/// A mount as a container inspection lists it.
#[derive(Debug, Clone)]
pub struct DockerMount {
    pub source: String,
    pub destination: String,
    pub mode: String,
    pub rw: bool,
}

/// What a [`DockerMount`] holds.
pub struct DockerMountView {
    pub source: Seq<char>,
    pub destination: Seq<char>,
    pub mode: Seq<char>,
    pub rw: bool,
}

impl DeepView for DockerMount {
    type V = DockerMountView;

    open spec fn deep_view(&self) -> DockerMountView {
        DockerMountView {
            source: self.source@,
            destination: self.destination@,
            mode: self.mode@,
            rw: self.rw,
        }
    }
}

impl View for DockerMount {
    type V = DockerMountView;

    open spec fn view(&self) -> DockerMountView {
        self.deep_view()
    }
}

/// One network attachment of a container inspection.
#[derive(Debug, Clone)]
pub struct DockerNetwork {
    pub network_id: String,
    pub ip_address: Option<String>,
}

/// What a [`DockerNetwork`] holds.
pub struct DockerNetworkView {
    pub network_id: Seq<char>,
    pub ip_address: Option<Seq<char>>,
}

impl DeepView for DockerNetwork {
    type V = DockerNetworkView;

    open spec fn deep_view(&self) -> DockerNetworkView {
        DockerNetworkView {
            network_id: self.network_id@,
            ip_address: self.ip_address.deep_view(),
        }
    }
}

impl View for DockerNetwork {
    type V = DockerNetworkView;

    open spec fn view(&self) -> DockerNetworkView {
        self.deep_view()
    }
}

/// The network part of a container inspection.
#[derive(Debug, Clone)]
pub struct DockerNetworkSettings {
    pub networks: StringMap<DockerNetwork>,
    pub ip_address: Option<String>,
}

/// What a [`DockerNetworkSettings`] holds.
pub struct DockerNetworkSettingsView {
    pub networks: Seq<(Seq<char>, DockerNetworkView)>,
    pub ip_address: Option<Seq<char>>,
}

impl DeepView for DockerNetworkSettings {
    type V = DockerNetworkSettingsView;

    open spec fn deep_view(&self) -> DockerNetworkSettingsView {
        DockerNetworkSettingsView {
            networks: self.networks@,
            ip_address: self.ip_address.deep_view(),
        }
    }
}

impl View for DockerNetworkSettings {
    type V = DockerNetworkSettingsView;

    open spec fn view(&self) -> DockerNetworkSettingsView {
        self.deep_view()
    }
}

/// A container as the daemon describes it on inspection.
#[derive(Debug, Clone)]
pub struct DockerContainerDetail {
    pub id: String,
    pub name: String,
    pub config: DockerConfig,
    pub state: DockerState,
    pub created: String,
    pub mounts: Vec<DockerMount>,
    pub network_settings: DockerNetworkSettings,
}

/// What a [`DockerContainerDetail`] holds.
pub struct DockerContainerDetailView {
    pub id: Seq<char>,
    pub name: Seq<char>,
    pub config: DockerConfigView,
    pub state: DockerStateView,
    pub created: Seq<char>,
    pub mounts: Seq<DockerMountView>,
    pub network_settings: DockerNetworkSettingsView,
}

impl DeepView for DockerContainerDetail {
    type V = DockerContainerDetailView;

    open spec fn deep_view(&self) -> DockerContainerDetailView {
        DockerContainerDetailView {
            id: self.id@,
            name: self.name@,
            config: self.config@,
            state: self.state@,
            created: self.created@,
            mounts: self.mounts.deep_view(),
            network_settings: self.network_settings@,
        }
    }
}

impl View for DockerContainerDetail {
    type V = DockerContainerDetailView;

    open spec fn view(&self) -> DockerContainerDetailView {
        self.deep_view()
    }
}

/// An image as the daemon lists it.
#[derive(Debug, Clone)]
pub struct DockerImage {
    pub id: String,
    pub repo_tags: Vec<String>,
    pub size: u64,
    pub created: i64,
    pub labels: Option<Labels>,
}

/// What a [`DockerImage`] holds.
pub struct DockerImageView {
    pub id: Seq<char>,
    pub repo_tags: Seq<Seq<char>>,
    pub size: u64,
    pub created: i64,
    pub labels: Option<LabelsView>,
}

impl DeepView for DockerImage {
    type V = DockerImageView;

    open spec fn deep_view(&self) -> DockerImageView {
        DockerImageView {
            id: self.id@,
            repo_tags: self.repo_tags.deep_view(),
            size: self.size,
            created: self.created,
            labels: self.labels.deep_view(),
        }
    }
}

impl View for DockerImage {
    type V = DockerImageView;

    open spec fn view(&self) -> DockerImageView {
        self.deep_view()
    }
}

/// An image as the daemon describes it on inspection.
#[derive(Debug, Clone)]
pub struct DockerImageInspect {
    pub id: String,
    pub repo_tags: Vec<String>,
    pub size: u64,
    pub created: String,
    pub labels: Option<Labels>,
    pub architecture: String,
    pub os: String,
}

/// What a [`DockerImageInspect`] holds.
pub struct DockerImageInspectView {
    pub id: Seq<char>,
    pub repo_tags: Seq<Seq<char>>,
    pub size: u64,
    pub created: Seq<char>,
    pub labels: Option<LabelsView>,
    pub architecture: Seq<char>,
    pub os: Seq<char>,
}

impl DeepView for DockerImageInspect {
    type V = DockerImageInspectView;

    open spec fn deep_view(&self) -> DockerImageInspectView {
        DockerImageInspectView {
            id: self.id@,
            repo_tags: self.repo_tags.deep_view(),
            size: self.size,
            created: self.created@,
            labels: self.labels.deep_view(),
            architecture: self.architecture@,
            os: self.os@,
        }
    }
}

impl View for DockerImageInspect {
    type V = DockerImageInspectView;

    open spec fn view(&self) -> DockerImageInspectView {
        self.deep_view()
    }
}

/// A volume as the daemon lists it.
#[derive(Debug, Clone)]
pub struct DockerVolume {
    pub name: String,
    pub driver: String,
    pub mountpoint: String,
    pub labels: Option<Labels>,
}

/// What a [`DockerVolume`] holds.
pub struct DockerVolumeView {
    pub name: Seq<char>,
    pub driver: Seq<char>,
    pub mountpoint: Seq<char>,
    pub labels: Option<LabelsView>,
}

impl DeepView for DockerVolume {
    type V = DockerVolumeView;

    open spec fn deep_view(&self) -> DockerVolumeView {
        DockerVolumeView {
            name: self.name@,
            driver: self.driver@,
            mountpoint: self.mountpoint@,
            labels: self.labels.deep_view(),
        }
    }
}

impl View for DockerVolume {
    type V = DockerVolumeView;

    open spec fn view(&self) -> DockerVolumeView {
        self.deep_view()
    }
}

/// The daemon's listing of volumes.
#[derive(Debug, Clone)]
pub struct DockerVolumeList {
    pub volumes: Option<Vec<DockerVolume>>,
}

/// What a [`DockerVolumeList`] holds.
pub struct DockerVolumeListView {
    pub volumes: Option<Seq<DockerVolumeView>>,
}

impl DeepView for DockerVolumeList {
    type V = DockerVolumeListView;

    open spec fn deep_view(&self) -> DockerVolumeListView {
        DockerVolumeListView {
            volumes: self.volumes.deep_view(),
        }
    }
}

impl View for DockerVolumeList {
    type V = DockerVolumeListView;

    open spec fn view(&self) -> DockerVolumeListView {
        self.deep_view()
    }
}

/// A volume as the daemon describes it on inspection.
#[derive(Debug, Clone)]
pub struct DockerVolumeInspect {
    pub name: String,
    pub driver: String,
    pub mountpoint: String,
    pub labels: Option<Labels>,
    pub scope: String,
}

/// What a [`DockerVolumeInspect`] holds.
pub struct DockerVolumeInspectView {
    pub name: Seq<char>,
    pub driver: Seq<char>,
    pub mountpoint: Seq<char>,
    pub labels: Option<LabelsView>,
    pub scope: Seq<char>,
}

impl DeepView for DockerVolumeInspect {
    type V = DockerVolumeInspectView;

    open spec fn deep_view(&self) -> DockerVolumeInspectView {
        DockerVolumeInspectView {
            name: self.name@,
            driver: self.driver@,
            mountpoint: self.mountpoint@,
            labels: self.labels.deep_view(),
            scope: self.scope@,
        }
    }
}

impl View for DockerVolumeInspect {
    type V = DockerVolumeInspectView;

    open spec fn view(&self) -> DockerVolumeInspectView {
        self.deep_view()
    }
}

/// A network as the daemon lists it.
#[derive(Debug, Clone)]
pub struct DockerNetworkInfo {
    pub id: String,
    pub name: String,
    pub driver: String,
    pub scope: String,
    pub internal: bool,
    pub labels: Option<Labels>,
}

/// What a [`DockerNetworkInfo`] holds.
pub struct DockerNetworkInfoView {
    pub id: Seq<char>,
    pub name: Seq<char>,
    pub driver: Seq<char>,
    pub scope: Seq<char>,
    pub internal: bool,
    pub labels: Option<LabelsView>,
}

impl DeepView for DockerNetworkInfo {
    type V = DockerNetworkInfoView;

    open spec fn deep_view(&self) -> DockerNetworkInfoView {
        DockerNetworkInfoView {
            id: self.id@,
            name: self.name@,
            driver: self.driver@,
            scope: self.scope@,
            internal: self.internal,
            labels: self.labels.deep_view(),
        }
    }
}

impl View for DockerNetworkInfo {
    type V = DockerNetworkInfoView;

    open spec fn view(&self) -> DockerNetworkInfoView {
        self.deep_view()
    }
}

/// One address range of a network inspection.
#[derive(Debug, Clone)]
pub struct DockerIpamSubnet {
    pub subnet: String,
    pub gateway: Option<String>,
}

/// What a [`DockerIpamSubnet`] holds.
pub struct DockerIpamSubnetView {
    pub subnet: Seq<char>,
    pub gateway: Option<Seq<char>>,
}

impl DeepView for DockerIpamSubnet {
    type V = DockerIpamSubnetView;

    open spec fn deep_view(&self) -> DockerIpamSubnetView {
        DockerIpamSubnetView {
            subnet: self.subnet@,
            gateway: self.gateway.deep_view(),
        }
    }
}

impl View for DockerIpamSubnet {
    type V = DockerIpamSubnetView;

    open spec fn view(&self) -> DockerIpamSubnetView {
        self.deep_view()
    }
}

/// The address settings of a network inspection.
#[derive(Debug, Clone)]
pub struct DockerIpam {
    pub driver: String,
    pub config: Option<Vec<DockerIpamSubnet>>,
}

/// What a [`DockerIpam`] holds.
pub struct DockerIpamView {
    pub driver: Seq<char>,
    pub config: Option<Seq<DockerIpamSubnetView>>,
}

impl DeepView for DockerIpam {
    type V = DockerIpamView;

    open spec fn deep_view(&self) -> DockerIpamView {
        DockerIpamView {
            driver: self.driver@,
            config: self.config.deep_view(),
        }
    }
}

impl View for DockerIpam {
    type V = DockerIpamView;

    open spec fn view(&self) -> DockerIpamView {
        self.deep_view()
    }
}

/// A network as the daemon describes it on inspection.
#[derive(Debug, Clone)]
pub struct DockerNetworkInspect {
    pub id: String,
    pub name: String,
    pub driver: String,
    pub scope: String,
    pub internal: bool,
    pub labels: Option<Labels>,
    pub ipam: Option<DockerIpam>,
}

/// What a [`DockerNetworkInspect`] holds.
pub struct DockerNetworkInspectView {
    pub id: Seq<char>,
    pub name: Seq<char>,
    pub driver: Seq<char>,
    pub scope: Seq<char>,
    pub internal: bool,
    pub labels: Option<LabelsView>,
    pub ipam: Option<DockerIpamView>,
}

impl DeepView for DockerNetworkInspect {
    type V = DockerNetworkInspectView;

    open spec fn deep_view(&self) -> DockerNetworkInspectView {
        DockerNetworkInspectView {
            id: self.id@,
            name: self.name@,
            driver: self.driver@,
            scope: self.scope@,
            internal: self.internal,
            labels: self.labels.deep_view(),
            ipam: self.ipam.deep_view(),
        }
    }
}

impl View for DockerNetworkInspect {
    type V = DockerNetworkInspectView;

    open spec fn view(&self) -> DockerNetworkInspectView {
        self.deep_view()
    }
}

/// `s` without its first character where that is the path separator; one
/// separator is taken off, never more.
pub open spec fn without_leading_separator(s: Seq<char>) -> Seq<char> {
    if s.len() > 0 && s[0] == '/' {
        s.skip(1)
    } else {
        s
    }
}

/// The name under which a container is shown: the first of the names the
/// daemon lists, without its leading separator; empty where it lists none.
pub open spec fn display_name(names: Seq<Seq<char>>) -> Seq<char> {
    if names.len() == 0 {
        Seq::empty()
    } else {
        without_leading_separator(names[0])
    }
}

/// The state that a summary's status token stands for, whatever its case.
pub open spec fn state_of_token(token: Seq<char>) -> ContainerState {
    let word = ascii_lowered(token);
    if word == "running"@ {
        ContainerState::Running
    } else if word == "exited"@ {
        ContainerState::Exited
    } else if word == "paused"@ {
        ContainerState::Paused
    } else if word == "restarting"@ {
        ContainerState::Restarting
    } else if word == "dead"@ {
        ContainerState::Dead
    } else {
        ContainerState::Unknown
    }
}

/// The state that the flags of an inspection stand for. Where several are
/// set, running wins over paused, paused over restarting, restarting over
/// dead; with none set the container has exited.
pub open spec fn state_of_flags(flags: DockerStateView) -> ContainerState {
    if flags.running {
        ContainerState::Running
    } else if flags.paused {
        ContainerState::Paused
    } else if flags.restarting {
        ContainerState::Restarting
    } else if flags.dead {
        ContainerState::Dead
    } else {
        ContainerState::Exited
    }
}

/// The protocol of a port: TCP unless the wire says exactly `udp`.
pub open spec fn protocol_of(port_type: Seq<char>) -> PortProtocol {
    if port_type == "udp"@ {
        PortProtocol::Udp
    } else {
        PortProtocol::Tcp
    }
}

/// The labels of a resource: those on the wire, none where the wire has no
/// label object.
pub open spec fn labels_of(wire: Option<LabelsView>) -> LabelsView {
    match wire {
        Some(labels) => labels,
        None => Seq::empty(),
    }
}

/// The entries of a list on the wire: none where the wire has no list.
pub open spec fn list_of<T>(wire: Option<Seq<T>>) -> Seq<T> {
    match wire {
        Some(list) => list,
        None => Seq::empty(),
    }
}

/// The entries of a keyed object on the wire: none where the wire has no
/// such object.
pub open spec fn entries_of<T>(wire: Option<Seq<(Seq<char>, T)>>) -> Seq<(Seq<char>, T)> {
    match wire {
        Some(entries) => entries,
        None => Seq::empty(),
    }
}

/// The port mapping that a wire port stands for.
pub open spec fn port_of(wire: DockerPortView) -> PortMappingView {
    PortMappingView {
        container_port: wire.private_port,
        host_port: wire.public_port,
        host_ip: wire.ip,
        protocol: protocol_of(wire.port_type),
    }
}

/// The mount that a wire mount stands for.
pub open spec fn mount_of(wire: DockerMountView) -> MountView {
    MountView { source: wire.source, destination: wire.destination, mode: wire.mode, rw: wire.rw }
}

/// The container summary that a wire summary stands for.
pub open spec fn container_of(wire: DockerContainerView) -> ContainerView {
    ContainerView {
        id: wire.id,
        name: display_name(wire.names),
        image: wire.image,
        state: state_of_token(wire.state),
        status: wire.status,
        created_at: Timestamp::settled(instant_of_epoch_seconds(wire.created)),
        labels: wire.labels,
        ports: wire.ports.map_values(|p: DockerPortView| port_of(p)),
    }
}

/// The container detail that a wire inspection stands for.
pub open spec fn container_detail_of(wire: DockerContainerDetailView) -> ContainerDetailView {
    ContainerDetailView {
        id: wire.id,
        name: without_leading_separator(wire.name),
        image: wire.config.image,
        state: state_of_flags(wire.state),
        status: wire.state.status,
        created_at: Timestamp::settled(instant_of_rfc3339(wire.created)),
        labels: wire.config.labels,
        ports: Seq::empty(),
        command: wire.config.cmd,
        entrypoint: wire.config.entrypoint,
        env: wire.config.env,
        mounts: wire.mounts.map_values(|m: DockerMountView| mount_of(m)),
        network_settings: NetworkSettingsView {
            networks: keys_of(wire.network_settings.networks),
            ip_address: wire.network_settings.ip_address,
        },
    }
}

/// The image summary that a wire summary stands for.
pub open spec fn image_of(wire: DockerImageView) -> ImageView {
    ImageView {
        id: wire.id,
        repo_tags: wire.repo_tags,
        size: wire.size,
        created_at: Timestamp::settled(instant_of_epoch_seconds(wire.created)),
        labels: labels_of(wire.labels),
    }
}

/// The image detail that a wire inspection stands for.
pub open spec fn image_detail_of(wire: DockerImageInspectView) -> ImageDetailView {
    ImageDetailView {
        id: wire.id,
        repo_tags: wire.repo_tags,
        size: wire.size,
        created_at: Timestamp::settled(instant_of_rfc3339(wire.created)),
        labels: labels_of(wire.labels),
        architecture: wire.architecture,
        os: wire.os,
    }
}

/// The volume summary that a wire volume stands for.
pub open spec fn volume_of(wire: DockerVolumeView) -> VolumeView {
    VolumeView {
        name: wire.name,
        driver: wire.driver,
        mountpoint: wire.mountpoint,
        labels: labels_of(wire.labels),
    }
}

/// The volume detail that a wire inspection stands for.
pub open spec fn volume_detail_of(wire: DockerVolumeInspectView) -> VolumeDetailView {
    VolumeDetailView {
        name: wire.name,
        driver: wire.driver,
        mountpoint: wire.mountpoint,
        labels: labels_of(wire.labels),
        scope: wire.scope,
    }
}

/// The volumes that a wire listing stands for: none where the wire has no
/// list.
pub open spec fn volumes_of(wire: DockerVolumeListView) -> Seq<VolumeView> {
    match wire.volumes {
        Some(volumes) => volumes.map_values(|v: DockerVolumeView| volume_of(v)),
        None => Seq::empty(),
    }
}

/// The network summary that a wire network stands for.
pub open spec fn network_of(wire: DockerNetworkInfoView) -> NetworkView {
    NetworkView {
        id: wire.id,
        name: wire.name,
        driver: wire.driver,
        scope: wire.scope,
        internal: wire.internal,
        labels: labels_of(wire.labels),
    }
}

/// The address range that a wire range stands for.
pub open spec fn subnet_of(wire: DockerIpamSubnetView) -> IpamSubnetView {
    IpamSubnetView { subnet: wire.subnet, gateway: wire.gateway }
}

/// The address settings that the wire settings stand for: no range where
/// the wire lists none.
pub open spec fn ipam_of(wire: DockerIpamView) -> IpamConfigView {
    IpamConfigView {
        driver: wire.driver,
        config: match wire.config {
            Some(ranges) => ranges.map_values(|r: DockerIpamSubnetView| subnet_of(r)),
            None => Seq::empty(),
        },
    }
}

/// The network detail that a wire inspection stands for.
pub open spec fn network_detail_of(wire: DockerNetworkInspectView) -> NetworkDetailView {
    NetworkDetailView {
        id: wire.id,
        name: wire.name,
        driver: wire.driver,
        scope: wire.scope,
        internal: wire.internal,
        labels: labels_of(wire.labels),
        ipam: match wire.ipam {
            Some(ipam) => Some(ipam_of(ipam)),
            None => None,
        },
    }
}

/// `s` without one leading path separator.
pub fn strip_leading_separator(s: &str) -> (rest: String)
    ensures
        rest@ == without_leading_separator(s@),
{
    let chars = chars_of(s);
    let from: usize = if chars.len() > 0 && chars[0] == '/' {
        1
    } else {
        0
    };
    let mut rest = String::new();
    push_chars(&mut rest, &chars, from, chars.len());
    assert(chars@.subrange(0, chars@.len() as int) == chars@);
    rest
}

/// The name under which a container with these names is shown.
pub fn display_name_of(names: &Vec<String>) -> (name: String)
    ensures
        name@ == display_name(names.deep_view()),
{
    if names.len() == 0 {
        String::new()
    } else {
        strip_leading_separator(names[0].as_str())
    }
}

/// The state that a summary's status token stands for.
pub fn state_from_token(token: &str) -> (state: ContainerState)
    ensures
        state == state_of_token(token@),
{
    let word = lowered_chars(token);
    if chars_spell(&word, "running") {
        ContainerState::Running
    } else if chars_spell(&word, "exited") {
        ContainerState::Exited
    } else if chars_spell(&word, "paused") {
        ContainerState::Paused
    } else if chars_spell(&word, "restarting") {
        ContainerState::Restarting
    } else if chars_spell(&word, "dead") {
        ContainerState::Dead
    } else {
        ContainerState::Unknown
    }
}

/// The state that the flags of an inspection stand for.
pub fn state_from_flags(flags: &DockerState) -> (state: ContainerState)
    ensures
        state == state_of_flags(flags@),
{
    if flags.running {
        ContainerState::Running
    } else if flags.paused {
        ContainerState::Paused
    } else if flags.restarting {
        ContainerState::Restarting
    } else if flags.dead {
        ContainerState::Dead
    } else {
        ContainerState::Exited
    }
}

/// The protocol that a wire port type stands for.
pub fn protocol_from(port_type: &str) -> (protocol: PortProtocol)
    ensures
        protocol == protocol_of(port_type@),
{
    if same_text(port_type, "udp") {
        PortProtocol::Udp
    } else {
        PortProtocol::Tcp
    }
}

/// The labels on the wire, or no labels where the wire has no label object.
pub fn labels_or_empty(wire: Option<Labels>) -> (labels: Labels)
    ensures
        labels@ == labels_of(wire.deep_view()),
        wire is None ==> labels@.len() == 0,
{
    match wire {
        Some(labels) => labels,
        None => Labels::new(),
    }
}

/// The list on the wire, or an empty list where the wire has none: a list
/// that is absent or null is no failure.
pub fn list_or_empty<T: DeepView>(wire: Option<Vec<T>>) -> (list: Vec<T>)
    ensures
        list.deep_view() == list_of(wire.deep_view()),
        wire is None ==> list@.len() == 0,
{
    match wire {
        Some(list) => list,
        None => {
            let none: Vec<T> = Vec::new();
            assert(none.deep_view() =~= Seq::<T::V>::empty());
            none
        },
    }
}

/// The keyed object on the wire, or one without entries where the wire has
/// none.
pub fn entries_or_empty<V: DeepView>(wire: Option<StringMap<V>>) -> (entries: StringMap<V>)
    ensures
        entries@ == entries_of(wire.deep_view()),
        wire is None ==> entries@.len() == 0,
{
    match wire {
        Some(entries) => entries,
        None => StringMap::new(),
    }
}

impl DockerPort {
    /// The port mapping that this wire port stands for.
    pub fn into_domain(self) -> (port: PortMapping)
        ensures
            port@ == port_of(self@),
    {
        let protocol = protocol_from(self.port_type.as_str());
        PortMapping {
            container_port: self.private_port,
            host_port: self.public_port,
            host_ip: self.ip,
            protocol,
        }
    }
}

impl DockerMount {
    /// The mount that this wire mount stands for.
    pub fn into_domain(self) -> (mount: Mount)
        ensures
            mount@ == mount_of(self@),
    {
        Mount { source: self.source, destination: self.destination, mode: self.mode, rw: self.rw }
    }
}

/// The port mappings that the wire ports stand for, in the same order.
pub fn ports_into_domain(wire: Vec<DockerPort>) -> (ports: Vec<PortMapping>)
    ensures
        ports.deep_view() == wire.deep_view().map_values(|p: DockerPortView| port_of(p)),
{
    let ghost all = wire.deep_view();
    let mut ports: Vec<PortMapping> = Vec::new();
    for port in it: wire
        invariant
            it.seq().len() == all.len(),
            forall|j: int| 0 <= j < all.len() ==> (#[trigger] it.seq()[j])@ == all[j],
            ports@.len() == it.index(),
            forall|j: int| 0 <= j < ports@.len() ==> (#[trigger] ports@[j])@ == port_of(all[j]),
    {
        ports.push(port.into_domain());
    }
    assert(ports.deep_view() =~= all.map_values(|p: DockerPortView| port_of(p)));
    ports
}

impl DockerContainer {
    /// The container summary that this wire summary stands for. Created
    /// between the epoch and the end of the year 9999, it has that very
    /// second as its instant.
    pub fn into_domain(self) -> (container: Container)
        ensures
            container@ == container_of(self@),
            in_four_digit_years(self.created) ==> container.created_at == (Timestamp {
                secs: self.created,
                nanos: 0,
            }),
    {
        let name = display_name_of(&self.names);
        let state = state_from_token(self.state.as_str());
        let created_at = Timestamp::from_epoch_seconds(self.created);
        let ports = ports_into_domain(self.ports);
        Container {
            id: ContainerId(self.id),
            name,
            image: self.image,
            state,
            status: self.status,
            created_at,
            labels: self.labels,
            ports,
        }
    }
}

impl DockerContainerDetail {
    /// The container detail that this wire inspection stands for.
    pub fn into_domain(self) -> (detail: ContainerDetail)
        ensures
            detail@ == container_detail_of(self@),
    {
        let name = strip_leading_separator(self.name.as_str());
        let state = state_from_flags(&self.state);
        let created_at = Timestamp::from_rfc3339(self.created.as_str());
        let mounts = mounts_into_domain(self.mounts);
        let networks = self.network_settings.networks.keys();
        let ports: Vec<PortMapping> = Vec::new();
        assert(ports.deep_view() =~= Seq::<PortMappingView>::empty());
        ContainerDetail {
            id: ContainerId(self.id),
            name,
            image: self.config.image,
            state,
            status: self.state.status,
            created_at,
            labels: self.config.labels,
            ports,
            command: self.config.cmd,
            entrypoint: self.config.entrypoint,
            env: self.config.env,
            mounts,
            network_settings: NetworkSettings {
                networks,
                ip_address: self.network_settings.ip_address,
            },
        }
    }
}

impl DockerImage {
    /// The image summary that this wire summary stands for. Created
    /// between the epoch and the end of the year 9999, it has that very
    /// second as its instant.
    pub fn into_domain(self) -> (image: Image)
        ensures
            image@ == image_of(self@),
            in_four_digit_years(self.created) ==> image.created_at == (Timestamp {
                secs: self.created,
                nanos: 0,
            }),
    {
        Image {
            id: ImageId(self.id),
            repo_tags: self.repo_tags,
            size: self.size,
            created_at: Timestamp::from_epoch_seconds(self.created),
            labels: labels_or_empty(self.labels),
        }
    }
}

impl DockerImageInspect {
    /// The image detail that this wire inspection stands for.
    pub fn into_domain(self) -> (detail: ImageDetail)
        ensures
            detail@ == image_detail_of(self@),
    {
        let created_at = Timestamp::from_rfc3339(self.created.as_str());
        ImageDetail {
            id: ImageId(self.id),
            repo_tags: self.repo_tags,
            size: self.size,
            created_at,
            labels: labels_or_empty(self.labels),
            architecture: self.architecture,
            os: self.os,
        }
    }
}

impl DockerVolume {
    /// The volume summary that this wire volume stands for.
    pub fn into_domain(self) -> (volume: Volume)
        ensures
            volume@ == volume_of(self@),
    {
        Volume {
            name: VolumeName(self.name),
            driver: self.driver,
            mountpoint: self.mountpoint,
            labels: labels_or_empty(self.labels),
        }
    }
}

impl DockerVolumeInspect {
    /// The volume detail that this wire inspection stands for.
    pub fn into_domain(self) -> (detail: VolumeDetail)
        ensures
            detail@ == volume_detail_of(self@),
    {
        VolumeDetail {
            name: VolumeName(self.name),
            driver: self.driver,
            mountpoint: self.mountpoint,
            labels: labels_or_empty(self.labels),
            scope: self.scope,
        }
    }
}

impl DockerVolumeList {
    /// The volumes that this wire listing stands for.
    pub fn into_domain(self) -> (volumes: Vec<Volume>)
        ensures
            volumes.deep_view() == volumes_of(self@),
    {
        match self.volumes {
            Some(listed) => volumes_into_domain(listed),
            None => {
                let none: Vec<Volume> = Vec::new();
                assert(none.deep_view() =~= Seq::<VolumeView>::empty());
                none
            },
        }
    }
}

impl DockerNetworkInfo {
    /// The network summary that this wire network stands for.
    pub fn into_domain(self) -> (network: Network)
        ensures
            network@ == network_of(self@),
    {
        Network {
            id: NetworkId(self.id),
            name: self.name,
            driver: self.driver,
            scope: self.scope,
            internal: self.internal,
            labels: labels_or_empty(self.labels),
        }
    }
}

impl DockerIpamSubnet {
    /// The address range that this wire range stands for.
    pub fn into_domain(self) -> (subnet: IpamSubnet)
        ensures
            subnet@ == subnet_of(self@),
    {
        IpamSubnet { subnet: self.subnet, gateway: self.gateway }
    }
}

impl DockerIpam {
    /// The address settings that these wire settings stand for.
    pub fn into_domain(self) -> (ipam: IpamConfig)
        ensures
            ipam@ == ipam_of(self@),
    {
        let config = match self.config {
            Some(ranges) => subnets_into_domain(ranges),
            None => {
                let none: Vec<IpamSubnet> = Vec::new();
                assert(none.deep_view() =~= Seq::<IpamSubnetView>::empty());
                none
            },
        };
        IpamConfig { driver: self.driver, config }
    }
}

impl DockerNetworkInspect {
    /// The network detail that this wire inspection stands for.
    pub fn into_domain(self) -> (detail: NetworkDetail)
        ensures
            detail@ == network_detail_of(self@),
    {
        let ipam = match self.ipam {
            Some(settings) => Some(settings.into_domain()),
            None => None,
        };
        NetworkDetail {
            id: NetworkId(self.id),
            name: self.name,
            driver: self.driver,
            scope: self.scope,
            internal: self.internal,
            labels: labels_or_empty(self.labels),
            ipam,
        }
    }
}

/// The mounts that the wire mounts stand for, in the same order.
pub fn mounts_into_domain(wire: Vec<DockerMount>) -> (all: Vec<Mount>)
    ensures
        all.deep_view() == wire.deep_view().map_values(|w: DockerMountView| mount_of(w)),
{
    let ghost given = wire.deep_view();
    let mut all: Vec<Mount> = Vec::new();
    for one in it: wire
        invariant
            it.seq().len() == given.len(),
            forall|j: int| 0 <= j < given.len() ==> (#[trigger] it.seq()[j])@ == given[j],
            all@.len() == it.index(),
            forall|j: int| 0 <= j < all@.len() ==> (#[trigger] all@[j])@ == mount_of(given[j]),
    {
        all.push(one.into_domain());
    }
    assert(all.deep_view() =~= given.map_values(|w: DockerMountView| mount_of(w)));
    all
}

/// The container summaries that a wire listing stands for, in the same order.
pub fn containers_into_domain(wire: Vec<DockerContainer>) -> (all: Vec<Container>)
    ensures
        all.deep_view() == wire.deep_view().map_values(|w: DockerContainerView| container_of(w)),
{
    let ghost given = wire.deep_view();
    let mut all: Vec<Container> = Vec::new();
    for one in it: wire
        invariant
            it.seq().len() == given.len(),
            forall|j: int| 0 <= j < given.len() ==> (#[trigger] it.seq()[j])@ == given[j],
            all@.len() == it.index(),
            forall|j: int| 0 <= j < all@.len() ==> (#[trigger] all@[j])@ == container_of(given[j]),
    {
        all.push(one.into_domain());
    }
    assert(all.deep_view() =~= given.map_values(|w: DockerContainerView| container_of(w)));
    all
}

/// The image summaries that a wire listing stands for, in the same order.
pub fn images_into_domain(wire: Vec<DockerImage>) -> (all: Vec<Image>)
    ensures
        all.deep_view() == wire.deep_view().map_values(|w: DockerImageView| image_of(w)),
{
    let ghost given = wire.deep_view();
    let mut all: Vec<Image> = Vec::new();
    for one in it: wire
        invariant
            it.seq().len() == given.len(),
            forall|j: int| 0 <= j < given.len() ==> (#[trigger] it.seq()[j])@ == given[j],
            all@.len() == it.index(),
            forall|j: int| 0 <= j < all@.len() ==> (#[trigger] all@[j])@ == image_of(given[j]),
    {
        all.push(one.into_domain());
    }
    assert(all.deep_view() =~= given.map_values(|w: DockerImageView| image_of(w)));
    all
}

/// The volume summaries that the wire volumes stand for, in the same order.
pub fn volumes_into_domain(wire: Vec<DockerVolume>) -> (all: Vec<Volume>)
    ensures
        all.deep_view() == wire.deep_view().map_values(|w: DockerVolumeView| volume_of(w)),
{
    let ghost given = wire.deep_view();
    let mut all: Vec<Volume> = Vec::new();
    for one in it: wire
        invariant
            it.seq().len() == given.len(),
            forall|j: int| 0 <= j < given.len() ==> (#[trigger] it.seq()[j])@ == given[j],
            all@.len() == it.index(),
            forall|j: int| 0 <= j < all@.len() ==> (#[trigger] all@[j])@ == volume_of(given[j]),
    {
        all.push(one.into_domain());
    }
    assert(all.deep_view() =~= given.map_values(|w: DockerVolumeView| volume_of(w)));
    all
}

/// The network summaries that a wire listing stands for, in the same order.
pub fn networks_into_domain(wire: Vec<DockerNetworkInfo>) -> (all: Vec<Network>)
    ensures
        all.deep_view() == wire.deep_view().map_values(|w: DockerNetworkInfoView| network_of(w)),
{
    let ghost given = wire.deep_view();
    let mut all: Vec<Network> = Vec::new();
    for one in it: wire
        invariant
            it.seq().len() == given.len(),
            forall|j: int| 0 <= j < given.len() ==> (#[trigger] it.seq()[j])@ == given[j],
            all@.len() == it.index(),
            forall|j: int| 0 <= j < all@.len() ==> (#[trigger] all@[j])@ == network_of(given[j]),
    {
        all.push(one.into_domain());
    }
    assert(all.deep_view() =~= given.map_values(|w: DockerNetworkInfoView| network_of(w)));
    all
}

/// The address ranges that the wire ranges stand for, in the same order.
pub fn subnets_into_domain(wire: Vec<DockerIpamSubnet>) -> (all: Vec<IpamSubnet>)
    ensures
        all.deep_view() == wire.deep_view().map_values(|w: DockerIpamSubnetView| subnet_of(w)),
{
    let ghost given = wire.deep_view();
    let mut all: Vec<IpamSubnet> = Vec::new();
    for one in it: wire
        invariant
            it.seq().len() == given.len(),
            forall|j: int| 0 <= j < given.len() ==> (#[trigger] it.seq()[j])@ == given[j],
            all@.len() == it.index(),
            forall|j: int| 0 <= j < all@.len() ==> (#[trigger] all@[j])@ == subnet_of(given[j]),
    {
        all.push(one.into_domain());
    }
    assert(all.deep_view() =~= given.map_values(|w: DockerIpamSubnetView| subnet_of(w)));
    all
}

/// Reveals what the five status tokens spell.
proof fn reveal_status_tokens()
    ensures
        "running"@ == seq!['r', 'u', 'n', 'n', 'i', 'n', 'g'],
        "exited"@ == seq!['e', 'x', 'i', 't', 'e', 'd'],
        "paused"@ == seq!['p', 'a', 'u', 's', 'e', 'd'],
        "restarting"@ == seq!['r', 'e', 's', 't', 'a', 'r', 't', 'i', 'n', 'g'],
        "dead"@ == seq!['d', 'e', 'a', 'd'],
{
    reveal_strlit("running");
    reveal_strlit("exited");
    reveal_strlit("paused");
    reveal_strlit("restarting");
    reveal_strlit("dead");
    assert("running"@ =~= seq!['r', 'u', 'n', 'n', 'i', 'n', 'g']);
    assert("exited"@ =~= seq!['e', 'x', 'i', 't', 'e', 'd']);
    assert("paused"@ =~= seq!['p', 'a', 'u', 's', 'e', 'd']);
    assert("restarting"@ =~= seq!['r', 'e', 's', 't', 'a', 'r', 't', 'i', 'n', 'g']);
    assert("dead"@ =~= seq!['d', 'e', 'a', 'd']);
}

/// A status token stands for its state whatever the case of its letters:
/// a text that reads `running`, `exited`, `paused`, `restarting` or `dead`
/// once its ASCII capitals are lowered stands for that state, and every
/// other text stands for `Unknown`.
pub proof fn lemma_status_token_table(token: Seq<char>)
    ensures
        ascii_lowered(token) == "running"@ <==> state_of_token(token) == ContainerState::Running,
        ascii_lowered(token) == "exited"@ <==> state_of_token(token) == ContainerState::Exited,
        ascii_lowered(token) == "paused"@ <==> state_of_token(token) == ContainerState::Paused,
        ascii_lowered(token) == "restarting"@ <==> state_of_token(token)
            == ContainerState::Restarting,
        ascii_lowered(token) == "dead"@ <==> state_of_token(token) == ContainerState::Dead,
        (ascii_lowered(token) != "running"@ && ascii_lowered(token) != "exited"@ && ascii_lowered(
            token,
        ) != "paused"@ && ascii_lowered(token) != "restarting"@ && ascii_lowered(token) != "dead"@)
            <==> state_of_token(token) == ContainerState::Unknown,
{
    reveal_status_tokens();
    assert("running"@.len() == 7 && "exited"@.len() == 6 && "paused"@.len() == 6);
    assert("restarting"@.len() == 10 && "dead"@.len() == 4);
    assert("exited"@[0] != "paused"@[0]);
}

/// The five status tokens, spelled in lower case, stand for their states.
pub proof fn lemma_status_tokens_spelled()
    ensures
        state_of_token("running"@) == ContainerState::Running,
        state_of_token("exited"@) == ContainerState::Exited,
        state_of_token("paused"@) == ContainerState::Paused,
        state_of_token("restarting"@) == ContainerState::Restarting,
        state_of_token("dead"@) == ContainerState::Dead,
{
    reveal_status_tokens();
    assert(ascii_lowered("running"@) =~= "running"@);
    assert(ascii_lowered("exited"@) =~= "exited"@);
    assert(ascii_lowered("paused"@) =~= "paused"@);
    assert(ascii_lowered("restarting"@) =~= "restarting"@);
    assert(ascii_lowered("dead"@) =~= "dead"@);
    lemma_status_token_table("running"@);
    lemma_status_token_table("exited"@);
    lemma_status_token_table("paused"@);
    lemma_status_token_table("restarting"@);
    lemma_status_token_table("dead"@);
}

/// Two texts that differ in the case of their ASCII letters only stand for
/// the same state.
pub proof fn lemma_status_token_ignores_case(a: Seq<char>, b: Seq<char>)
    requires
        ascii_lowered(a) == ascii_lowered(b),
    ensures
        state_of_token(a) == state_of_token(b),
{
}

/// Exactly one leading separator is taken off a name: a name that begins
/// with the separator is the separator followed by what is left, and any
/// other name is left as it is.
pub proof fn lemma_one_separator_stripped(name: Seq<char>)
    ensures
        name.len() > 0 && name[0] == '/' ==> name == seq!['/'] + without_leading_separator(name),
        !(name.len() > 0 && name[0] == '/') ==> without_leading_separator(name) == name,
{
    if name.len() > 0 && name[0] == '/' {
        assert(name =~= seq!['/'] + name.skip(1));
    }
}

/// Mapping is a function of what is on the wire: two wire summaries that
/// hold the same map to containers that hold the same.
pub proof fn lemma_container_mapping_repeats(
    first: DockerContainer,
    second: DockerContainer,
    mapped_first: Container,
    mapped_second: Container,
)
    requires
        first@ == second@,
        mapped_first@ == container_of(first@),
        mapped_second@ == container_of(second@),
    ensures
        mapped_first@ == mapped_second@,
{
}

/// Two wire inspections that hold the same map to container details that
/// hold the same.
pub proof fn lemma_container_detail_mapping_repeats(
    first: DockerContainerDetail,
    second: DockerContainerDetail,
    mapped_first: ContainerDetail,
    mapped_second: ContainerDetail,
)
    requires
        first@ == second@,
        mapped_first@ == container_detail_of(first@),
        mapped_second@ == container_detail_of(second@),
    ensures
        mapped_first@ == mapped_second@,
{
}

/// Two wire images that hold the same map to images that hold the same.
pub proof fn lemma_image_mapping_repeats(
    first: DockerImage,
    second: DockerImage,
    mapped_first: Image,
    mapped_second: Image,
)
    requires
        first@ == second@,
        mapped_first@ == image_of(first@),
        mapped_second@ == image_of(second@),
    ensures
        mapped_first@ == mapped_second@,
{
}

/// A resource whose wire form has no label object has no labels: the
/// mapping neither fails nor makes any up.
pub proof fn lemma_absent_labels_are_empty(
    image: DockerImageView,
    inspected: DockerImageInspectView,
    volume: DockerVolumeView,
    network: DockerNetworkInfoView,
)
    ensures
        image.labels is None ==> image_of(image).labels.len() == 0,
        inspected.labels is None ==> image_detail_of(inspected).labels.len() == 0,
        volume.labels is None ==> volume_of(volume).labels.len() == 0,
        network.labels is None ==> network_of(network).labels.len() == 0,
{
}

/// A container keeps the address that the wire gives it, and has none
/// where the wire gives none.
pub proof fn lemma_address_is_kept(wire: DockerContainerDetailView)
    ensures
        container_detail_of(wire).network_settings.ip_address == wire.network_settings.ip_address,
        wire.network_settings.ip_address is None ==> container_detail_of(
            wire,
        ).network_settings.ip_address is None,
{
}

} // verus!

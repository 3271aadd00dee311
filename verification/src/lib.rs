//! A uniform model of a container runtime and the rules of a client that
//! speaks a container daemon's HTTP API over a local socket.

pub mod docker;
pub mod domain;
pub mod engine;
pub mod error;
pub mod strmap;
pub mod text;
pub mod time;
pub mod tui;

pub use crate::docker::client::DockerClient;
pub use crate::docker::context::get_current_context;
pub use crate::docker::context::parse_host_to_socket;
pub use crate::docker::context::DockerContext;
pub use crate::docker::engine_impl::DockerEngine;
pub use crate::docker::ConnectionTarget;
pub use crate::domain::container::Container;
pub use crate::domain::container::ContainerDetail;
pub use crate::domain::container::ContainerFilter;
pub use crate::domain::container::ContainerId;
pub use crate::domain::container::ContainerState;
pub use crate::domain::container::DeleteContainerOpts;
pub use crate::domain::container::Mount;
pub use crate::domain::container::NetworkSettings;
pub use crate::domain::container::PortMapping;
pub use crate::domain::container::PortProtocol;
pub use crate::domain::image::Image;
pub use crate::domain::image::ImageDetail;
pub use crate::domain::image::ImageFilter;
pub use crate::domain::image::ImageId;
pub use crate::domain::network::IpamConfig;
pub use crate::domain::network::IpamSubnet;
pub use crate::domain::network::Network;
pub use crate::domain::network::NetworkDetail;
pub use crate::domain::network::NetworkFilter;
pub use crate::domain::network::NetworkId;
pub use crate::domain::volume::Volume;
pub use crate::domain::volume::VolumeDetail;
pub use crate::domain::volume::VolumeFilter;
pub use crate::domain::volume::VolumeName;
pub use crate::domain::Labels;
pub use crate::engine::EngineInfo;
pub use crate::engine::ExecHandle;
pub use crate::engine::ExecSpec;
pub use crate::engine::LogEvent;
pub use crate::engine::LogOpts;
pub use crate::engine::LogStream;
pub use crate::error::EngineError;
pub use crate::time::Timestamp;

//! The connection target that the Docker command line is configured with.
//! Running the command is the caller's part; what its outcome means is
//! decided here.

use crate::docker::path_from_text;
use crate::docker::path_of;
use crate::error::EngineError;
use crate::error::Failure;
use crate::text::has_prefix;
use crate::text::text_after;
use std::path::PathBuf;
use vstd::prelude::*;

verus! {

/// Where the daemon of a context listens.
#[derive(Debug)]
pub struct DockerEndpoint {
    pub host: String,
}

/// What a [`DockerEndpoint`] holds.
pub struct DockerEndpointView {
    pub host: Seq<char>,
}

impl DeepView for DockerEndpoint {
    type V = DockerEndpointView;

    open spec fn deep_view(&self) -> DockerEndpointView {
        DockerEndpointView {
            host: self.host@,
        }
    }
}

impl View for DockerEndpoint {
    type V = DockerEndpointView;

    open spec fn view(&self) -> DockerEndpointView {
        self.deep_view()
    }
}

/// The endpoints of a context.
#[derive(Debug)]
pub struct ContextEndpoints {
    pub docker: DockerEndpoint,
}

/// What a [`ContextEndpoints`] holds.
pub struct ContextEndpointsView {
    pub docker: DockerEndpointView,
}

impl DeepView for ContextEndpoints {
    type V = ContextEndpointsView;

    open spec fn deep_view(&self) -> ContextEndpointsView {
        ContextEndpointsView {
            docker: self.docker@,
        }
    }
}

impl View for ContextEndpoints {
    type V = ContextEndpointsView;

    open spec fn view(&self) -> ContextEndpointsView {
        self.deep_view()
    }
}

/// A context of the Docker command line.
#[derive(Debug)]
pub struct DockerContext {
    pub name: String,
    pub endpoints: ContextEndpoints,
}

/// What a [`DockerContext`] holds.
pub struct DockerContextView {
    pub name: Seq<char>,
    pub endpoints: ContextEndpointsView,
}

impl DeepView for DockerContext {
    type V = DockerContextView;

    open spec fn deep_view(&self) -> DockerContextView {
        DockerContextView {
            name: self.name@,
            endpoints: self.endpoints@,
        }
    }
}

impl View for DockerContext {
    type V = DockerContextView;

    open spec fn view(&self) -> DockerContextView {
        self.deep_view()
    }
}

/// How asking the command line for its contexts ended.
#[derive(Debug)]
pub enum ContextProbe {
    /// The command could not be run.
    NotRun { cause: String },
    /// The command ran and reported failure; `stderr` is what it wrote.
    Failed { stderr: String },
    /// The command succeeded, but what it wrote is no list of contexts.
    Unparsed { cause: String },
    /// The contexts that the command listed.
    Listed { contexts: Vec<DockerContext> },
}

/// What a [`ContextProbe`] holds.
pub enum ContextProbeView {
    NotRun { cause: Seq<char> },
    Failed { stderr: Seq<char> },
    Unparsed { cause: Seq<char> },
    Listed { contexts: Seq<DockerContextView> },
}

impl DeepView for ContextProbe {
    type V = ContextProbeView;

    open spec fn deep_view(&self) -> ContextProbeView {
        match *self {
            ContextProbe::NotRun { cause } => ContextProbeView::NotRun { cause: cause@ },
            ContextProbe::Failed { stderr } => ContextProbeView::Failed { stderr: stderr@ },
            ContextProbe::Unparsed { cause } => ContextProbeView::Unparsed { cause: cause@ },
            ContextProbe::Listed { contexts } => ContextProbeView::Listed {
                contexts: contexts.deep_view(),
            },
        }
    }
}

impl View for ContextProbe {
    type V = ContextProbeView;

    open spec fn view(&self) -> ContextProbeView {
        self.deep_view()
    }
}

/// The context in use, or why there is none: the first context listed.
pub open spec fn current_context(probe: ContextProbeView) -> Result<DockerContextView, Failure> {
    match probe {
        ContextProbeView::NotRun { cause } => Err(
            Failure::UserActionable {
                message: "Failed to execute docker context inspect"@,
                hint: Some("Make sure Docker CLI is installed and in PATH"@),
                source: Some(cause),
            },
        ),
        ContextProbeView::Failed { stderr } => Err(
            Failure::UserActionable {
                message: "Docker context inspect failed: "@ + stderr,
                hint: Some("Check if Docker is installed and configured"@),
                source: None,
            },
        ),
        ContextProbeView::Unparsed { cause } => Err(
            Failure::Bug {
                message: "Failed to parse docker context output"@,
                source: Some(cause),
            },
        ),
        ContextProbeView::Listed { contexts } => if contexts.len() > 0 {
            Ok(contexts[0])
        } else {
            Err(
                Failure::UserActionable {
                    message: "No Docker context found"@,
                    hint: None,
                    source: None,
                },
            )
        },
    }
}

/// The context in use, from what asking the command line came to.
pub fn get_current_context(probe: ContextProbe) -> (found: Result<DockerContext, EngineError>)
    ensures
        match found {
            Ok(context) => current_context(probe@) == Ok::<DockerContextView, Failure>(context@),
            Err(e) => current_context(probe@) == Err::<DockerContextView, Failure>(e@),
        },
{
    match probe {
        ContextProbe::NotRun { cause } => Err(
            EngineError::user_actionable_with_source(
                "Failed to execute docker context inspect",
                Some("Make sure Docker CLI is installed and in PATH".to_owned()),
                cause,
            ),
        ),
        ContextProbe::Failed { stderr } => {
            let mut message = "Docker context inspect failed: ".to_owned();
            message.append(stderr.as_str());
            Err(
                EngineError::user_actionable(
                    message.as_str(),
                    Some("Check if Docker is installed and configured".to_owned()),
                ),
            )
        },
        ContextProbe::Unparsed { cause } => Err(
            EngineError::bug_with_source("Failed to parse docker context output", cause),
        ),
        ContextProbe::Listed { contexts } => {
            let mut contexts = contexts;
            if contexts.len() > 0 {
                let ghost all = contexts.deep_view();
                let first = contexts.swap_remove(0);
                assert(first@ == all[0]);
                Ok(first)
            } else {
                Err(EngineError::user_actionable("No Docker context found", None))
            }
        },
    }
}

/// The prefix of a host that names a Unix domain socket.
pub open spec fn unix_scheme() -> Seq<char> {
    "unix://"@
}

/// Whether a host names a daemon reached over the network, in the clear or
/// over TLS, which this client does not speak to.
pub open spec fn names_network_host(host: Seq<char>) -> bool {
    "tcp://"@.is_prefix_of(host) || "http://"@.is_prefix_of(host) || "https://"@.is_prefix_of(
        host,
    )
}

/// The socket that a host names: what follows the `unix://` scheme, or the
/// host itself where it has no scheme. A network host names no socket.
pub open spec fn socket_of(host: Seq<char>) -> Result<PathBuf, Failure> {
    if unix_scheme().is_prefix_of(host) {
        Ok(path_of(host.skip(unix_scheme().len() as int)))
    } else if names_network_host(host) {
        Err(
            Failure::UserActionable {
                message: "TCP connections not yet supported: "@ + host,
                hint: Some("Only Unix sockets are currently supported"@),
                source: None,
            },
        )
    } else {
        Ok(path_of(host))
    }
}

/// The socket that `host` names, or the failure for a network host.
pub fn parse_host_to_socket(host: &str) -> (socket: Result<PathBuf, EngineError>)
    ensures
        match socket {
            Ok(path) => socket_of(host@) == Ok::<PathBuf, Failure>(path),
            Err(e) => socket_of(host@) == Err::<PathBuf, Failure>(e@),
        },
{
    if has_prefix(host, "unix://") {
        proof {
            reveal_strlit("unix://");
        }
        let rest = text_after(host, 7);
        Ok(path_from_text(rest.as_str()))
    } else if has_prefix(host, "tcp://") || has_prefix(host, "http://") || has_prefix(
        host,
        "https://",
    ) {
        let mut message = "TCP connections not yet supported: ".to_owned();
        message.append(host);
        Err(
            EngineError::user_actionable(
                message.as_str(),
                Some("Only Unix sockets are currently supported".to_owned()),
            ),
        )
    } else {
        Ok(path_from_text(host))
    }
}

} // verus!

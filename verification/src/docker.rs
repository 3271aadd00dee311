//! The adapter for the Docker daemon: the wire types, their mapping to the
//! domain, the requests that each operation makes and the classification of
//! what comes back.

pub mod client;
pub mod context;
pub mod engine_impl;
pub mod mapper;

use crate::docker::context::current_context;
use crate::docker::context::get_current_context;
use crate::docker::context::parse_host_to_socket;
use crate::docker::context::socket_of;
use crate::docker::context::ContextProbe;
use crate::docker::context::ContextProbeView;
use crate::error::EngineError;
use crate::error::Failure;
use std::path::PathBuf;
use vstd::prelude::*;

verus! {

/// `std::path::PathBuf`, carried through as it is: nothing is read from it.
#[verifier::external_type_specification]
#[verifier::external_body]
pub struct ExPathBuf(PathBuf);

/// The path that `PathBuf::from` makes of a text.
pub uninterp spec fn path_of(text: Seq<char>) -> PathBuf;

/// Calls `PathBuf::from`, which takes the text as a path without looking at
/// the file system.
#[verifier::external_body]
pub(crate) fn path_from_text(text: &str) -> (path: PathBuf)
    ensures
        path == path_of(text@),
{
    PathBuf::from(text)
}

/// The clone of a path is the same path.
pub assume_specification[ <PathBuf as Clone>::clone ](path: &PathBuf) -> (copy: PathBuf)
    ensures
        copy == *path,
;

/// Where the daemon listens.
#[derive(Debug, Clone)]
pub enum ConnectionTarget {
    UnixSocket(PathBuf),
}

/// The target that the command line is configured with, or why there is
/// none: the socket that the host of the context in use names.
pub open spec fn configured_target(probe: ContextProbeView) -> Result<ConnectionTarget, Failure> {
    match current_context(probe) {
        Ok(context) => match socket_of(context.endpoints.docker.host) {
            Ok(path) => Ok(ConnectionTarget::UnixSocket(path)),
            Err(failure) => Err(failure),
        },
        Err(failure) => Err(failure),
    }
}

impl ConnectionTarget {
    /// The socket at which the daemon listens where nothing else is
    /// configured.
    pub open spec fn default_socket() -> Seq<char> {
        "/var/run/docker.sock"@
    }

    /// The target that the command line is configured with, from what
    /// asking it for its contexts came to.
    pub fn from_current_context(probe: ContextProbe) -> (target: Result<Self, EngineError>)
        ensures
            match target {
                Ok(t) => configured_target(probe@) == Ok::<ConnectionTarget, Failure>(t),
                Err(e) => configured_target(probe@) == Err::<ConnectionTarget, Failure>(e@),
            },
    {
        match get_current_context(probe) {
            Ok(context) => match parse_host_to_socket(context.endpoints.docker.host.as_str()) {
                Ok(path) => Ok(ConnectionTarget::UnixSocket(path)),
                Err(e) => Err(e),
            },
            Err(e) => Err(e),
        }
    }

    /// The target that the command line is configured with; the default
    /// target where it names none that can be used.
    pub fn from_context_or_default(probe: ContextProbe) -> (target: Self)
        ensures
            target == match configured_target(probe@) {
                Ok(t) => t,
                Err(_) => ConnectionTarget::UnixSocket(path_of(ConnectionTarget::default_socket())),
            },
    {
        match ConnectionTarget::from_current_context(probe) {
            Ok(target) => target,
            Err(_) => ConnectionTarget::default(),
        }
    }
}

impl Default for ConnectionTarget {
    fn default() -> (target: ConnectionTarget)
        ensures
            target == ConnectionTarget::UnixSocket(path_of(ConnectionTarget::default_socket())),
    {
        ConnectionTarget::UnixSocket(path_from_text("/var/run/docker.sock"))
    }
}

} // verus!

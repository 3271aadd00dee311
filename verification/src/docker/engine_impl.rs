//! The requests that the operations of an engine come to at the Docker
//! daemon. Each operation names one request; the caller performs it, settles
//! its outcome with the client, and maps the reply with the mapper.

use crate::docker::client::DockerClient;
use crate::docker::client::Method;
use crate::docker::client::Request;
use crate::docker::client::RequestView;
use crate::docker::mapper::lemma_status_tokens_spelled;
use crate::docker::mapper::state_of_token;
use crate::domain::container::ContainerFilter;
use crate::domain::container::ContainerId;
use crate::domain::container::ContainerState;
use crate::domain::container::DeleteContainerOpts;
use crate::domain::image::ImageFilter;
use crate::domain::image::ImageId;
use crate::domain::network::NetworkFilter;
use crate::domain::network::NetworkId;
use crate::domain::volume::VolumeFilter;
use crate::domain::volume::VolumeName;
use crate::engine::EngineInfo;
use crate::engine::EngineInfoView;
use crate::engine::ExecHandle;
use crate::engine::ExecSpec;
use crate::engine::LogEvent;
use crate::engine::LogEventView;
use crate::engine::LogOpts;
use crate::error::EngineError;
use crate::error::Failure;
use crate::text::decimal;
use crate::text::push_decimal;
use crate::time::whole_seconds;
use std::time::Duration;
use vstd::prelude::*;

verus! {

/// The token by which the daemon filters on a state. The table is closed;
/// `Unknown` has no token, since it is no state of the daemon's.
pub open spec fn status_filter_token(state: ContainerState) -> Option<Seq<char>> {
    match state {
        ContainerState::Running => Some("running"@),
        ContainerState::Exited => Some("exited"@),
        ContainerState::Paused => Some("paused"@),
        ContainerState::Restarting => Some("restarting"@),
        ContainerState::Dead => Some("dead"@),
        ContainerState::Unknown => None,
    }
}

/// The filter parameter that restricts a listing to one status.
pub open spec fn status_filter(token: Seq<char>) -> Seq<char> {
    "filters={\"status\":[\""@ + token + "\"]}"@
}

/// The parameters of a listing of containers: all of them, stopped ones
/// too, restricted to a state where the filter names one that the daemon
/// knows.
pub open spec fn list_containers_params(state: Option<ContainerState>) -> Seq<Seq<char>> {
    match state {
        Some(s) => match status_filter_token(s) {
            Some(token) => seq!["all=true"@, status_filter(token)],
            None => seq!["all=true"@],
        },
        None => seq!["all=true"@],
    }
}

/// The parameters of a deletion of a container.
pub open spec fn delete_container_params(force: bool, remove_volumes: bool) -> Seq<Seq<char>> {
    let forced: Seq<Seq<char>> = if force {
        seq!["force=true"@]
    } else {
        seq![]
    };
    if remove_volumes {
        forced.push("v=true"@)
    } else {
        forced
    }
}

/// The parameters joined by `&`.
pub open spec fn joined(params: Seq<Seq<char>>) -> Seq<char>
    decreases params.len(),
{
    if params.len() == 0 {
        Seq::empty()
    } else if params.len() == 1 {
        params[0]
    } else {
        joined(params.drop_last()) + "&"@ + params.last()
    }
}

/// `path` with the query that the parameters make; `path` alone where there
/// is no parameter.
pub open spec fn with_query(path: Seq<char>, params: Seq<Seq<char>>) -> Seq<char> {
    if params.len() == 0 {
        path
    } else {
        path + "?"@ + joined(params)
    }
}

/// `path`, with the grace period in whole seconds as the parameter `t`
/// where one is given.
pub open spec fn with_timeout(path: Seq<char>, timeout: Option<Duration>) -> Seq<char> {
    match timeout {
        Some(grace) => path + "?t="@ + decimal(whole_seconds(grace) as nat),
        None => path,
    }
}

/// `path`, with `force=true` as its query where `force` is set.
pub open spec fn with_force(path: Seq<char>, force: bool) -> Seq<char> {
    if force {
        path + "?force=true"@
    } else {
        path
    }
}

/// The path of one resource: a prefix, the identifier, a suffix.
pub open spec fn resource_path(prefix: Seq<char>, id: Seq<char>, suffix: Seq<char>) -> Seq<char> {
    prefix + id + suffix
}

/// A request for a reply: `GET` without a body.
pub open spec fn reading(path: Seq<char>) -> RequestView {
    RequestView { method: Method::Get, path, body: None, json: false, wants_reply: true }
}

/// A request that acts and wants no reply: `POST` without a body.
pub open spec fn acting(path: Seq<char>) -> RequestView {
    RequestView { method: Method::Post, path, body: None, json: false, wants_reply: false }
}

/// A request that deletes and wants no reply.
pub open spec fn deleting(path: Seq<char>) -> RequestView {
    RequestView { method: Method::Delete, path, body: None, json: false, wants_reply: false }
}

/// The token by which the daemon filters on `state`, if it has one.
pub fn status_filter_token_of(state: ContainerState) -> (token: Option<&'static str>)
    ensures
        token.deep_view() == status_filter_token(state),
{
    match state {
        ContainerState::Running => Some("running"),
        ContainerState::Exited => Some("exited"),
        ContainerState::Paused => Some("paused"),
        ContainerState::Restarting => Some("restarting"),
        ContainerState::Dead => Some("dead"),
        ContainerState::Unknown => None,
    }
}

/// `path` with the query that `params` make.
pub fn path_with_query(path: &str, params: &Vec<String>) -> (whole: String)
    ensures
        whole@ == with_query(path@, params.deep_view()),
{
    let mut whole = path.to_owned();
    if params.len() == 0 {
        return whole;
    }
    whole.append("?");
    let ghost all = params.deep_view();
    whole.append(params[0].as_str());
    assert(all.take(1) =~= seq![all[0]]);
    let mut i: usize = 1;
    while i < params.len()
        invariant
            1 <= i <= params.len(),
            all == params.deep_view(),
            whole@ == path@ + "?"@ + joined(all.take(i as int)),
        decreases params.len() - i,
    {
        whole.append("&");
        whole.append(params[i].as_str());
        proof {
            let upto = all.take(i + 1);
            assert(upto.drop_last() =~= all.take(i as int));
            assert(upto.last() == all[i as int]);
            assert(whole@ =~= path@ + "?"@ + joined(upto));
        }
        i += 1;
    }
    assert(all.take(params.len() as int) =~= all);
    whole
}

/// `prefix`, `id` and `suffix` in a row.
fn path_of_resource(prefix: &str, id: &str, suffix: &str) -> (path: String)
    ensures
        path@ == resource_path(prefix@, id@, suffix@),
{
    let mut path = prefix.to_owned();
    path.append(id);
    path.append(suffix);
    path
}

/// `path` with the grace period as its query, where one is given.
fn path_with_timeout(path: String, timeout: Option<Duration>) -> (whole: String)
    ensures
        whole@ == with_timeout(path@, timeout),
{
    match timeout {
        Some(grace) => {
            let mut whole = path;
            whole.append("?t=");
            push_decimal(&mut whole, grace.as_secs());
            whole
        },
        None => path,
    }
}

/// `path` with `force=true` as its query, where `force` is set.
fn path_with_force(path: String, force: bool) -> (whole: String)
    ensures
        whole@ == with_force(path@, force),
{
    if force {
        let mut whole = path;
        whole.append("?force=true");
        whole
    } else {
        path
    }
}

/// What the daemon answers when asked for its version.
#[derive(Debug, Clone)]
pub struct VersionResponse {
    pub version: String,
    pub api_version: String,
    pub os: String,
    pub arch: String,
}

impl VersionResponse {
    /// The description of the daemon that this answer stands for.
    pub fn into_domain(self) -> (info: EngineInfo)
        ensures
            info@ == (EngineInfoView {
                version: self.version@,
                api_version: self.api_version@,
                os: self.os@,
                arch: self.arch@,
            }),
    {
        EngineInfo {
            version: self.version,
            api_version: self.api_version,
            os: self.os,
            arch: self.arch,
        }
    }
}

/// The engine that speaks to a Docker daemon through one client.
#[derive(Debug, Clone)]
pub struct DockerEngine {
    client: DockerClient,
}

impl DockerEngine {
    /// The client that the engine speaks through.
    pub closed spec fn client_of(&self) -> DockerClient {
        self.client
    }

    /// An engine that speaks through `client`.
    pub fn new(client: DockerClient) -> (engine: Self)
        ensures
            engine.client_of() == client,
    {
        DockerEngine { client }
    }

    /// The client that the engine speaks through.
    pub fn client(&self) -> (client: &DockerClient)
        ensures
            *client == self.client_of(),
    {
        &self.client
    }

    /// Lists containers, stopped ones too. A state in the filter restricts
    /// the listing to that state; `Unknown` restricts nothing.
    pub fn list_containers(&self, filter: ContainerFilter) -> (request: Request)
        ensures
            request@ == reading(
                with_query("/containers/json"@, list_containers_params(filter.state)),
            ),
    {
        let mut params: Vec<String> = Vec::new();
        params.push("all=true".to_owned());
        assert(params.deep_view() =~= seq!["all=true"@]);
        match filter.state {
            Some(state) => {
                match status_filter_token_of(state) {
                    Some(token) => {
                        let mut param = "filters={\"status\":[\"".to_owned();
                        param.append(token);
                        param.append("\"]}");
                        params.push(param);
                        assert(params.deep_view() =~= seq!["all=true"@, status_filter(token@)]);
                    },
                    None => {},
                }
            },
            None => {},
        }
        let path = path_with_query("/containers/json", &params);
        self.client.get(path.as_str())
    }

    /// Inspects one container.
    pub fn inspect_container(&self, id: &ContainerId) -> (request: Request)
        ensures
            request@ == reading(resource_path("/containers/"@, id@, "/json"@)),
    {
        let path = path_of_resource("/containers/", id.as_ref(), "/json");
        self.client.get(path.as_str())
    }

    /// Starts a container.
    pub fn start_container(&self, id: &ContainerId) -> (request: Request)
        ensures
            request@ == acting(resource_path("/containers/"@, id@, "/start"@)),
    {
        let path = path_of_resource("/containers/", id.as_ref(), "/start");
        self.client.post_no_response(path.as_str())
    }

    /// Stops a container, after the grace period where one is given and
    /// after the daemon's own where none is.
    pub fn stop_container(&self, id: &ContainerId, timeout: Option<Duration>) -> (request: Request)
        ensures
            request@ == acting(
                with_timeout(resource_path("/containers/"@, id@, "/stop"@), timeout),
            ),
    {
        let path = path_of_resource("/containers/", id.as_ref(), "/stop");
        let path = path_with_timeout(path, timeout);
        self.client.post_no_response(path.as_str())
    }

    /// Restarts a container, with the grace period as for stopping.
    pub fn restart_container(&self, id: &ContainerId, timeout: Option<Duration>) -> (request:
        Request)
        ensures
            request@ == acting(
                with_timeout(resource_path("/containers/"@, id@, "/restart"@), timeout),
            ),
    {
        let path = path_of_resource("/containers/", id.as_ref(), "/restart");
        let path = path_with_timeout(path, timeout);
        self.client.post_no_response(path.as_str())
    }

    /// Deletes a container: by force where `force` is set, with its
    /// volumes where `remove_volumes` is set.
    pub fn delete_container(&self, id: &ContainerId, opts: DeleteContainerOpts) -> (request:
        Request)
        ensures
            request@ == deleting(
                with_query(
                    resource_path("/containers/"@, id@, ""@),
                    delete_container_params(opts.force, opts.remove_volumes),
                ),
            ),
    {
        let mut params: Vec<String> = Vec::new();
        assert(params.deep_view() =~= Seq::<Seq<char>>::empty());
        if opts.force {
            params.push("force=true".to_owned());
            assert(params.deep_view() =~= seq!["force=true"@]);
        }
        let ghost forced = params.deep_view();
        if opts.remove_volumes {
            params.push("v=true".to_owned());
            assert(params.deep_view() =~= forced.push("v=true"@));
        }
        let path = path_of_resource("/containers/", id.as_ref(), "");
        let path = path_with_query(path.as_str(), &params);
        self.client.delete(path.as_str())
    }

    /// The log of a container. Streaming is not there yet: the log is
    /// empty, which a caller can tell from a failure.
    pub fn stream_logs(&self, id: &ContainerId, opts: LogOpts) -> (events: Result<
        Vec<LogEvent>,
        EngineError,
    >)
        ensures
            events matches Ok(lines) && lines.deep_view() == Seq::<LogEventView>::empty(),
    {
        let lines: Vec<LogEvent> = Vec::new();
        assert(lines.deep_view() =~= Seq::<LogEventView>::empty());
        Ok(lines)
    }

    /// Prepares an exec session. This is not there yet, and says so.
    pub fn create_exec(&self, id: &ContainerId, spec: ExecSpec) -> (handle: Result<
        ExecHandle,
        EngineError,
    >)
        ensures
            handle matches Err(e) && e@ == (Failure::UserActionable {
                message: "Exec not yet implemented"@,
                hint: None,
                source: None,
            }),
    {
        Err(EngineError::user_actionable("Exec not yet implemented", None))
    }

    /// Lists images.
    pub fn list_images(&self, filter: ImageFilter) -> (request: Request)
        ensures
            request@ == reading("/images/json"@),
    {
        self.client.get("/images/json")
    }

    /// Inspects one image.
    pub fn inspect_image(&self, id: &ImageId) -> (request: Request)
        ensures
            request@ == reading(resource_path("/images/"@, id@, "/json"@)),
    {
        let path = path_of_resource("/images/", id.as_ref(), "/json");
        self.client.get(path.as_str())
    }

    /// Removes an image, by force where `force` is set.
    pub fn remove_image(&self, id: &ImageId, force: bool) -> (request: Request)
        ensures
            request@ == deleting(with_force(resource_path("/images/"@, id@, ""@), force)),
    {
        let path = path_of_resource("/images/", id.as_ref(), "");
        let path = path_with_force(path, force);
        self.client.delete(path.as_str())
    }

    /// Pulls the image that `reference` names.
    pub fn pull_image(&self, reference: &str) -> (request: Request)
        ensures
            request@ == acting(resource_path("/images/create?fromImage="@, reference@, ""@)),
    {
        let path = path_of_resource("/images/create?fromImage=", reference, "");
        self.client.post_no_response(path.as_str())
    }

    /// Lists volumes.
    pub fn list_volumes(&self, filter: VolumeFilter) -> (request: Request)
        ensures
            request@ == reading("/volumes"@),
    {
        self.client.get("/volumes")
    }

    /// Inspects one volume.
    pub fn inspect_volume(&self, name: &VolumeName) -> (request: Request)
        ensures
            request@ == reading(resource_path("/volumes/"@, name@, ""@)),
    {
        let path = path_of_resource("/volumes/", name.as_ref(), "");
        self.client.get(path.as_str())
    }

    /// Removes a volume, by force where `force` is set.
    pub fn remove_volume(&self, name: &VolumeName, force: bool) -> (request: Request)
        ensures
            request@ == deleting(with_force(resource_path("/volumes/"@, name@, ""@), force)),
    {
        let path = path_of_resource("/volumes/", name.as_ref(), "");
        let path = path_with_force(path, force);
        self.client.delete(path.as_str())
    }

    /// Lists networks.
    pub fn list_networks(&self, filter: NetworkFilter) -> (request: Request)
        ensures
            request@ == reading("/networks"@),
    {
        self.client.get("/networks")
    }

    /// Inspects one network.
    pub fn inspect_network(&self, id: &NetworkId) -> (request: Request)
        ensures
            request@ == reading(resource_path("/networks/"@, id@, ""@)),
    {
        let path = path_of_resource("/networks/", id.as_ref(), "");
        self.client.get(path.as_str())
    }

    /// Removes a network.
    pub fn remove_network(&self, id: &NetworkId) -> (request: Request)
        ensures
            request@ == deleting(resource_path("/networks/"@, id@, ""@)),
    {
        let path = path_of_resource("/networks/", id.as_ref(), "");
        self.client.delete(path.as_str())
    }

    /// Probes whether the daemon is alive. Any successful response says
    /// that it is; what the response holds is not looked at.
    pub fn ping(&self) -> (request: Request)
        ensures
            request@ == (RequestView {
                method: Method::Get,
                path: "/_ping"@,
                body: None,
                json: false,
                wants_reply: false,
            }),
    {
        let mut request = self.client.get("/_ping");
        request.wants_reply = false;
        request
    }

    /// Asks the daemon to describe itself.
    pub fn engine_info(&self) -> (request: Request)
        ensures
            request@ == reading("/version"@),
    {
        self.client.get("/version")
    }
}

/// A listing filtered by `Unknown` is the unfiltered listing; a listing
/// filtered by any other state carries the filter with that state's token
/// and no other.
pub proof fn lemma_state_filter(state: ContainerState)
    ensures
        list_containers_params(Some(ContainerState::Unknown)) == list_containers_params(None),
        list_containers_params(None) == seq!["all=true"@],
        state != ContainerState::Unknown ==> list_containers_params(Some(state)) == seq![
            "all=true"@,
            status_filter(status_filter_token(state).unwrap()),
        ],
{
}

/// Without a grace period the path has no query; with one, the path ends
/// with the parameter `t` and the whole seconds of the period.
pub proof fn lemma_timeout_parameter(path: Seq<char>, grace: Duration)
    ensures
        with_timeout(path, None) == path,
        with_timeout(path, Some(grace)) == path + "?t="@ + decimal(whole_seconds(grace) as nat),
{
}

/// The token by which a listing is filtered on a state is a token that the
/// mapping reads as that very state: what such a listing holds maps back
/// to the state that was asked for.
pub proof fn lemma_filter_token_names_its_state(state: ContainerState)
    requires
        state != ContainerState::Unknown,
    ensures
        status_filter_token(state) is Some,
        state_of_token(status_filter_token(state).unwrap()) == state,
{
    lemma_status_tokens_spelled();
}

} // verus!

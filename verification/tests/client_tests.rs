use std::path::PathBuf;
use std::time::Duration;
use tenor::docker::client::handle_error_response;
use tenor::docker::client::HttpStatus;
use tenor::docker::client::Method;
use tenor::docker::client::Outcome;
use tenor::docker::engine_impl::path_with_query;
use tenor::docker::engine_impl::status_filter_token_of;
use tenor::docker::engine_impl::VersionResponse;
use tenor::ConnectionTarget;
use tenor::ContainerFilter;
use tenor::ContainerId;
use tenor::ContainerState;
use tenor::DeleteContainerOpts;
use tenor::DockerClient;
use tenor::DockerEngine;
use tenor::EngineError;
use tenor::ExecSpec;
use tenor::ImageFilter;
use tenor::ImageId;
use tenor::LogOpts;
use tenor::NetworkFilter;
use tenor::NetworkId;
use tenor::VolumeFilter;
use tenor::VolumeName;

fn status(code: u16) -> HttpStatus {
    HttpStatus::from_u16(code).unwrap()
}

fn client() -> DockerClient {
    DockerClient::new(ConnectionTarget::UnixSocket(PathBuf::from("/var/run/docker.sock"))).unwrap()
}

fn engine() -> DockerEngine {
    DockerEngine::new(client())
}

fn id() -> ContainerId {
    ContainerId("abc".to_string())
}

fn filter(state: Option<ContainerState>) -> ContainerFilter {
    ContainerFilter { name: None, state, labels: vec![] }
}

#[test]
fn statuses_have_three_digits() {
    assert!(HttpStatus::from_u16(99).is_none());
    assert!(HttpStatus::from_u16(0).is_none());
    assert!(HttpStatus::from_u16(1000).is_none());
    assert!(HttpStatus::from_u16(u16::MAX).is_none());
    assert_eq!(status(100).as_u16(), 100);
    assert_eq!(status(999).as_u16(), 999);
    assert_eq!(status(404).as_u16(), 404);
}

#[test]
fn success_is_the_two_hundreds() {
    assert!(!status(199).is_success());
    assert!(status(200).is_success());
    assert!(status(204).is_success());
    assert!(status(299).is_success());
    assert!(!status(300).is_success());
    assert!(!status(404).is_success());
}

#[test]
fn the_status_table_is_fixed() {
    match handle_error_response(status(404), "no such container") {
        EngineError::UserActionable { message, hint, source } => {
            assert_eq!(message, "Resource not found: no such container");
            assert_eq!(hint, None);
            assert_eq!(source, None);
        }
        other => panic!("unexpected: {:?}", other),
    }
    for code in [401, 403] {
        match handle_error_response(status(code), "ignored") {
            EngineError::UserActionable { message, hint, source } => {
                assert_eq!(message, "Permission denied");
                assert_eq!(
                    hint,
                    Some("Check Docker socket permissions or authentication".to_string())
                );
                assert_eq!(source, None);
            }
            other => panic!("unexpected: {:?}", other),
        }
    }
    match handle_error_response(status(409), "in use") {
        EngineError::UserActionable { message, hint, .. } => {
            assert_eq!(message, "Conflict: in use");
            assert_eq!(hint, None);
        }
        other => panic!("unexpected: {:?}", other),
    }
    match handle_error_response(status(500), "oops") {
        EngineError::Retryable { message, source } => {
            assert_eq!(message, "Docker daemon error: oops");
            assert_eq!(source, None);
        }
        other => panic!("unexpected: {:?}", other),
    }
}

#[test]
fn every_other_status_is_a_bug() {
    for code in [100, 200, 204, 301, 400, 402, 405, 408, 410, 418, 499, 501, 502, 503, 599, 999] {
        assert!(
            matches!(handle_error_response(status(code), "b"), EngineError::Bug { .. }),
            "status {}",
            code
        );
    }
    match handle_error_response(status(418), "short and stout") {
        EngineError::Bug { message, source } => {
            assert_eq!(message, "Unexpected status 418 I'm a teapot: short and stout");
            assert_eq!(source, None);
        }
        other => panic!("unexpected: {:?}", other),
    }
    match handle_error_response(status(503), "") {
        EngineError::Bug { message, .. } => {
            assert_eq!(message, "Unexpected status 503 Service Unavailable: ");
        }
        other => panic!("unexpected: {:?}", other),
    }
    match handle_error_response(status(999), "x") {
        EngineError::Bug { message, .. } => {
            assert_eq!(message, "Unexpected status 999 <unknown status code>: x");
        }
        other => panic!("unexpected: {:?}", other),
    }
}

#[test]
fn a_missing_resource_reports_the_raw_body() {
    let body = "{\"message\":\"No such container: abc\"}";
    let engine = engine();
    let requests = [
        engine.delete_container(&id(), DeleteContainerOpts::default()),
        engine.remove_image(&ImageId("img".to_string()), false),
        engine.remove_volume(&VolumeName("vol".to_string()), false),
        engine.remove_network(&NetworkId("net".to_string())),
    ];
    for request in requests {
        assert_eq!(request.method, Method::Delete);
        let answer = status(404);
        assert!(request.reads_body(answer));
        let outcome = Outcome::Answered { status: answer, body: Some(body.to_string()) };
        match DockerClient::settle(outcome) {
            Err(EngineError::UserActionable { message, .. }) => {
                assert!(message.contains(body));
                assert!(message.ends_with(body));
            }
            other => panic!("unexpected: {:?}", other),
        }
    }
}

#[test]
fn outcomes_settle_by_kind() {
    match DockerClient::settle(Outcome::Unbuilt { cause: "bad uri".to_string() }) {
        Err(EngineError::Bug { message, source }) => {
            assert_eq!(message, "Failed to build request");
            assert_eq!(source, Some("bad uri".to_string()));
        }
        other => panic!("unexpected: {:?}", other),
    }
    match DockerClient::settle(Outcome::Unanswered { cause: "refused".to_string() }) {
        Err(EngineError::Retryable { message, source }) => {
            assert_eq!(message, "Network error");
            assert_eq!(source, Some("refused".to_string()));
        }
        other => panic!("unexpected: {:?}", other),
    }
    match DockerClient::settle(Outcome::Unread { cause: "reset".to_string() }) {
        Err(EngineError::Retryable { message, source }) => {
            assert_eq!(message, "Failed to read response body");
            assert_eq!(source, Some("reset".to_string()));
        }
        other => panic!("unexpected: {:?}", other),
    }
    let answered = Outcome::Answered { status: status(200), body: Some("[]".to_string()) };
    assert_eq!(DockerClient::settle(answered).unwrap(), Some("[]".to_string()));
    let answered = Outcome::Answered { status: status(204), body: None };
    assert_eq!(DockerClient::settle(answered).unwrap(), None);
    let answered = Outcome::Answered { status: status(409), body: None };
    match DockerClient::settle(answered) {
        Err(EngineError::UserActionable { message, .. }) => assert_eq!(message, "Conflict: "),
        other => panic!("unexpected: {:?}", other),
    }
    match DockerClient::map_hyper_error("gone".to_string()) {
        EngineError::Retryable { message, source } => {
            assert_eq!(message, "Network error");
            assert_eq!(source, Some("gone".to_string()));
        }
        other => panic!("unexpected: {:?}", other),
    }
}

#[test]
fn a_body_of_the_wrong_shape_is_a_bug() {
    assert_eq!(DockerClient::decoded::<u8>(Ok(7)).unwrap(), 7);
    match DockerClient::decoded::<u8>(Err("expected value at line 1".to_string())) {
        Err(EngineError::Bug { message, source }) => {
            assert_eq!(message, "Failed to parse response");
            assert_eq!(source, Some("expected value at line 1".to_string()));
        }
        other => panic!("unexpected: {:?}", other),
    }
}

#[test]
fn requests_say_what_is_sent() {
    let client = client();
    let get = client.get("/x");
    assert_eq!(get.method, Method::Get);
    assert_eq!(get.path, "/x");
    assert_eq!(get.body, None);
    assert!(!get.json);
    assert!(get.wants_reply);

    let post = client.post("/x", Some("{}".to_string()));
    assert_eq!(post.method, Method::Post);
    assert_eq!(post.body, Some("{}".to_string()));
    assert!(post.json);
    assert!(post.wants_reply);
    assert_eq!(client.post("/x", None).body, Some(String::new()));

    let post = client.post_no_response("/y");
    assert_eq!(post.method, Method::Post);
    assert_eq!(post.path, "/y");
    assert_eq!(post.body, None);
    assert!(!post.json);
    assert!(!post.wants_reply);

    let delete = client.delete("/z");
    assert_eq!(delete.method, Method::Delete);
    assert_eq!(delete.path, "/z");
    assert!(!delete.wants_reply);
}

#[test]
fn the_body_of_a_failure_is_always_read() {
    let client = client();
    for code in [200, 204, 299] {
        assert!(client.get("/x").reads_body(status(code)));
        assert!(client.post("/x", None).reads_body(status(code)));
        assert!(!client.post_no_response("/x").reads_body(status(code)));
        assert!(!client.delete("/x").reads_body(status(code)));
    }
    for code in [100, 304, 404, 409, 500] {
        assert!(client.get("/x").reads_body(status(code)));
        assert!(client.post_no_response("/x").reads_body(status(code)));
        assert!(client.delete("/x").reads_body(status(code)));
    }
}

#[test]
fn listing_by_state_filters_on_the_status() {
    let engine = engine();
    let request = engine.list_containers(filter(Some(ContainerState::Running)));
    assert_eq!(request.method, Method::Get);
    assert!(request.wants_reply);
    assert_eq!(request.path, "/containers/json?all=true&filters={\"status\":[\"running\"]}");
    let table = [
        (ContainerState::Exited, "exited"),
        (ContainerState::Paused, "paused"),
        (ContainerState::Restarting, "restarting"),
        (ContainerState::Dead, "dead"),
    ];
    for (state, token) in table {
        assert_eq!(
            engine.list_containers(filter(Some(state))).path,
            format!("/containers/json?all=true&filters={{\"status\":[\"{}\"]}}", token)
        );
        assert_eq!(status_filter_token_of(state), Some(token));
    }
}

#[test]
fn listing_by_unknown_state_is_unfiltered() {
    let engine = engine();
    let unknown = engine.list_containers(filter(Some(ContainerState::Unknown)));
    assert_eq!(unknown.path, "/containers/json?all=true");
    assert!(!unknown.path.contains("filters"));
    assert_eq!(engine.list_containers(filter(None)).path, "/containers/json?all=true");
    assert_eq!(engine.list_containers(ContainerFilter::default()).path, "/containers/json?all=true");
    assert_eq!(status_filter_token_of(ContainerState::Unknown), None);
}

#[test]
fn stopping_gives_the_grace_period_in_whole_seconds() {
    let engine = engine();
    let request = engine.stop_container(&id(), Some(Duration::from_secs(5)));
    assert_eq!(request.method, Method::Post);
    assert!(!request.wants_reply);
    assert_eq!(request.path, "/containers/abc/stop?t=5");
    assert!(request.path.contains("t=5"));
    let request = engine.stop_container(&id(), None);
    assert_eq!(request.path, "/containers/abc/stop");
    assert!(!request.path.contains("t="));
    assert_eq!(
        engine.stop_container(&id(), Some(Duration::from_millis(5999))).path,
        "/containers/abc/stop?t=5"
    );
    assert_eq!(
        engine.stop_container(&id(), Some(Duration::from_millis(999))).path,
        "/containers/abc/stop?t=0"
    );
    assert_eq!(
        engine.stop_container(&id(), Some(Duration::from_secs(u64::MAX))).path,
        "/containers/abc/stop?t=18446744073709551615"
    );
    assert_eq!(
        engine.restart_container(&id(), Some(Duration::from_secs(120))).path,
        "/containers/abc/restart?t=120"
    );
    assert_eq!(engine.restart_container(&id(), None).path, "/containers/abc/restart");
}

#[test]
fn deleting_a_container_names_its_options() {
    let engine = engine();
    let opts = |force, remove_volumes| DeleteContainerOpts { force, remove_volumes };
    assert_eq!(engine.delete_container(&id(), opts(false, false)).path, "/containers/abc");
    assert_eq!(engine.delete_container(&id(), opts(true, false)).path, "/containers/abc?force=true");
    assert_eq!(engine.delete_container(&id(), opts(false, true)).path, "/containers/abc?v=true");
    assert_eq!(
        engine.delete_container(&id(), opts(true, true)).path,
        "/containers/abc?force=true&v=true"
    );
    assert_eq!(engine.delete_container(&id(), opts(true, true)).method, Method::Delete);
}

#[test]
fn queries_join_their_parameters() {
    let params = |p: &[&str]| p.iter().map(|s| s.to_string()).collect::<Vec<String>>();
    assert_eq!(path_with_query("/p", &params(&[])), "/p");
    assert_eq!(path_with_query("/p", &params(&["a=1"])), "/p?a=1");
    assert_eq!(path_with_query("/p", &params(&["a=1", "b=2", "c=3"])), "/p?a=1&b=2&c=3");
    assert_eq!(path_with_query("", &params(&["", ""])), "?&");
}

#[test]
fn every_operation_has_its_path() {
    let engine = engine();
    let image = ImageId("sha256:1".to_string());
    let volume = VolumeName("data".to_string());
    let network = NetworkId("n1".to_string());

    let inspect = engine.inspect_container(&id());
    assert_eq!((inspect.method, inspect.path.as_str()), (Method::Get, "/containers/abc/json"));
    let start = engine.start_container(&id());
    assert_eq!((start.method, start.path.as_str()), (Method::Post, "/containers/abc/start"));
    assert!(!start.wants_reply);

    let list = engine.list_images(ImageFilter::default());
    assert_eq!((list.method, list.path.as_str()), (Method::Get, "/images/json"));
    assert_eq!(engine.inspect_image(&image).path, "/images/sha256:1/json");
    assert_eq!(engine.remove_image(&image, false).path, "/images/sha256:1");
    assert_eq!(engine.remove_image(&image, true).path, "/images/sha256:1?force=true");
    let pull = engine.pull_image("nginx:latest");
    assert_eq!((pull.method, pull.path.as_str()), (Method::Post, "/images/create?fromImage=nginx:latest"));

    assert_eq!(engine.list_volumes(VolumeFilter::default()).path, "/volumes");
    assert_eq!(engine.inspect_volume(&volume).path, "/volumes/data");
    assert_eq!(engine.remove_volume(&volume, false).path, "/volumes/data");
    assert_eq!(engine.remove_volume(&volume, true).path, "/volumes/data?force=true");

    assert_eq!(engine.list_networks(NetworkFilter::default()).path, "/networks");
    assert_eq!(engine.inspect_network(&network).path, "/networks/n1");
    let remove = engine.remove_network(&network);
    assert_eq!((remove.method, remove.path.as_str()), (Method::Delete, "/networks/n1"));

    let ping = engine.ping();
    assert_eq!((ping.method, ping.path.as_str()), (Method::Get, "/_ping"));
    assert!(!ping.wants_reply);
    let info = engine.engine_info();
    assert_eq!((info.method, info.path.as_str()), (Method::Get, "/version"));
    assert!(info.wants_reply);
}

#[test]
fn what_is_not_there_yet_says_so() {
    let engine = engine();
    let spec = ExecSpec { cmd: vec![], tty: false, attach_stdin: false, env: vec![], user: None };
    match engine.create_exec(&id(), spec) {
        Err(EngineError::UserActionable { message, hint, source }) => {
            assert_eq!(message, "Exec not yet implemented");
            assert_eq!(hint, None);
            assert_eq!(source, None);
        }
        other => panic!("unexpected: {:?}", other),
    }
    let log = engine.stream_logs(&id(), LogOpts::default()).unwrap();
    assert!(log.is_empty());
}

#[test]
fn the_version_answer_describes_the_daemon() {
    let info = VersionResponse {
        version: "27.0".to_string(),
        api_version: "1.46".to_string(),
        os: "linux".to_string(),
        arch: "amd64".to_string(),
    }
    .into_domain();
    assert_eq!(info.version, "27.0");
    assert_eq!(info.api_version, "1.46");
    assert_eq!(info.os, "linux");
    assert_eq!(info.arch, "amd64");
}

#[test]
fn errors_show_their_message() {
    let e = EngineError::user_actionable("m", Some("h".to_string()));
    assert_eq!(e.to_string(), "m");
    assert_eq!(e.hint(), Some(&"h".to_string()));
    let e = EngineError::user_actionable_with_source("m", None, "s".to_string());
    assert!(matches!(&e, EngineError::UserActionable { source: Some(s), .. } if s == "s"));
    assert_eq!(e.hint(), None);
    let e = EngineError::retryable_with_source("r", "s".to_string());
    assert_eq!(e.to_string(), "r");
    assert_eq!(e.hint(), None);
    assert!(matches!(&e, EngineError::Retryable { source: Some(s), .. } if s == "s"));
    let e = EngineError::bug_with_source("b", "s".to_string());
    assert_eq!(e.to_string(), "b");
    assert!(matches!(&e, EngineError::Bug { source: Some(s), .. } if s == "s"));
    assert_eq!(EngineError::retryable("").to_string(), "");
    assert_eq!(EngineError::bug("x").hint(), None);
}

use tenor::docker::mapper::containers_into_domain;
use tenor::docker::mapper::display_name_of;
use tenor::docker::mapper::entries_or_empty;
use tenor::docker::mapper::images_into_domain;
use tenor::docker::mapper::networks_into_domain;
use tenor::docker::mapper::labels_or_empty;
use tenor::docker::mapper::list_or_empty;
use tenor::docker::mapper::protocol_from;
use tenor::docker::mapper::state_from_flags;
use tenor::docker::mapper::state_from_token;
use tenor::docker::mapper::strip_leading_separator;
use tenor::docker::mapper::DockerConfig;
use tenor::docker::mapper::DockerContainer;
use tenor::docker::mapper::DockerContainerDetail;
use tenor::docker::mapper::DockerImage;
use tenor::docker::mapper::DockerImageInspect;
use tenor::docker::mapper::DockerIpam;
use tenor::docker::mapper::DockerIpamSubnet;
use tenor::docker::mapper::DockerMount;
use tenor::docker::mapper::DockerNetwork;
use tenor::docker::mapper::DockerNetworkInfo;
use tenor::docker::mapper::DockerNetworkInspect;
use tenor::docker::mapper::DockerNetworkSettings;
use tenor::docker::mapper::DockerPort;
use tenor::docker::mapper::DockerState;
use tenor::docker::mapper::DockerVolume;
use tenor::docker::mapper::DockerVolumeInspect;
use tenor::docker::mapper::DockerVolumeList;
use tenor::strmap::StringMap;
use tenor::ContainerState;
use tenor::Labels;
use tenor::PortProtocol;
use tenor::Timestamp;

fn summary(names: Vec<&str>, state: &str) -> DockerContainer {
    DockerContainer {
        id: "test".to_string(),
        names: names.into_iter().map(|n| n.to_string()).collect(),
        image: "test:latest".to_string(),
        state: state.to_string(),
        status: "test".to_string(),
        created: 1700000000,
        labels: Labels::new(),
        ports: vec![],
    }
}

fn inspection(ip_address: Option<&str>) -> DockerContainerDetail {
    DockerContainerDetail {
        id: "abc123".to_string(),
        name: "/test-container".to_string(),
        created: "2024-01-01T00:00:00.000000000Z".to_string(),
        config: DockerConfig {
            image: "nginx:latest".to_string(),
            cmd: vec!["nginx".to_string()],
            entrypoint: vec!["/docker-entrypoint.sh".to_string()],
            env: vec!["PATH=/usr/bin".to_string()],
            labels: Labels::new(),
            exposed_ports: None,
        },
        state: DockerState {
            status: "running".to_string(),
            running: true,
            paused: false,
            restarting: false,
            dead: false,
        },
        mounts: vec![],
        network_settings: DockerNetworkSettings {
            networks: StringMap::new(),
            ip_address: ip_address.map(|a| a.to_string()),
        },
    }
}

#[test]
fn test_docker_container_to_domain() {
    let docker_container = DockerContainer {
        id: "abc123".to_string(),
        names: vec!["/test-container".to_string()],
        image: "nginx:latest".to_string(),
        state: "running".to_string(),
        status: "Up 5 minutes".to_string(),
        created: 1700000000,
        labels: Labels::new(),
        ports: vec![],
    };

    let container = docker_container.into_domain();
    assert_eq!(container.id.0, "abc123");
    assert_eq!(container.name, "test-container");
    assert_eq!(container.image, "nginx:latest");
    assert!(matches!(container.state, ContainerState::Running));
}

#[test]
fn test_docker_container_state_mapping() {
    let states = vec![
        ("running", ContainerState::Running),
        ("exited", ContainerState::Exited),
        ("paused", ContainerState::Paused),
        ("restarting", ContainerState::Restarting),
        ("dead", ContainerState::Dead),
        ("unknown", ContainerState::Unknown),
    ];

    for (state_str, expected_state) in states {
        let docker_container = DockerContainer {
            id: "test".to_string(),
            names: vec!["/test".to_string()],
            image: "test:latest".to_string(),
            state: state_str.to_string(),
            status: "test".to_string(),
            created: 1700000000,
            labels: Labels::new(),
            ports: vec![],
        };
        let container = docker_container.into_domain();
        assert!(
            matches!(container.state, ref s if std::mem::discriminant(s) == std::mem::discriminant(&expected_state)),
            "State '{}' should map to {:?}, got {:?}",
            state_str,
            expected_state,
            container.state
        );
    }
}

#[test]
fn test_docker_image_to_domain() {
    let mut labels = Labels::new();
    labels.insert("version".to_string(), "1.0".to_string());

    let docker_image = DockerImage {
        id: "sha256:abc123".to_string(),
        repo_tags: vec!["nginx:latest".to_string(), "nginx:1.0".to_string()],
        size: 1024 * 1024,
        created: 1700000000,
        labels: Some(labels),
    };

    let image = docker_image.into_domain();
    assert_eq!(image.id.0, "sha256:abc123");
    assert_eq!(image.repo_tags.len(), 2);
    assert_eq!(image.size, 1024 * 1024);
    assert_eq!(image.labels.get("version"), Some(&"1.0".to_string()));
}

#[test]
fn test_docker_container_detail_to_domain() {
    let docker_detail = DockerContainerDetail {
        id: "abc123".to_string(),
        name: "/test-container".to_string(),
        created: "2024-01-01T00:00:00.000000000Z".to_string(),
        config: DockerConfig {
            image: "nginx:latest".to_string(),
            cmd: vec!["nginx".to_string()],
            entrypoint: vec!["/docker-entrypoint.sh".to_string()],
            env: vec!["PATH=/usr/bin".to_string()],
            labels: Labels::new(),
            exposed_ports: None,
        },
        state: DockerState {
            status: "running".to_string(),
            running: true,
            paused: false,
            restarting: false,
            dead: false,
        },
        mounts: vec![],
        network_settings: DockerNetworkSettings {
            networks: StringMap::new(),
            ip_address: Some("172.17.0.2".to_string()),
        },
    };

    let detail = docker_detail.into_domain();
    assert_eq!(detail.id.0, "abc123");
    assert_eq!(detail.name, "test-container");
    assert_eq!(detail.image, "nginx:latest");
    assert!(matches!(detail.state, ContainerState::Running));
    assert_eq!(detail.command, vec!["nginx".to_string()]);
}

#[test]
fn test_docker_port_to_domain() {
    let docker_port = DockerPort {
        private_port: 80,
        public_port: Some(8080),
        port_type: "tcp".to_string(),
        ip: Some("0.0.0.0".to_string()),
    };

    let docker_container = DockerContainer {
        id: "test".to_string(),
        names: vec!["/test".to_string()],
        image: "nginx:latest".to_string(),
        state: "running".to_string(),
        status: "Up".to_string(),
        created: 1700000000,
        labels: Labels::new(),
        ports: vec![docker_port],
    };

    let container = docker_container.into_domain();
    assert_eq!(container.ports.len(), 1);
    assert_eq!(container.ports[0].container_port, 80);
    assert_eq!(container.ports[0].host_port, Some(8080));
    assert_eq!(container.ports[0].protocol, PortProtocol::Tcp);
    assert_eq!(container.ports[0].host_ip, Some("0.0.0.0".to_string()));
}

#[test]
fn status_tokens_map_whatever_their_case() {
    let table = [
        ("running", ContainerState::Running),
        ("exited", ContainerState::Exited),
        ("paused", ContainerState::Paused),
        ("restarting", ContainerState::Restarting),
        ("dead", ContainerState::Dead),
    ];
    for (token, state) in table {
        assert_eq!(state_from_token(token), state);
        assert_eq!(state_from_token(&token.to_uppercase()), state);
        let mut mixed = token.to_string();
        let first = mixed.remove(0).to_ascii_uppercase();
        mixed.insert(0, first);
        assert_eq!(state_from_token(&mixed), state);
    }
}

#[test]
fn other_status_tokens_map_to_unknown() {
    for token in ["", "unknown", "created", "runnin", "running ", " running", "removing", "déad"] {
        assert_eq!(state_from_token(token), ContainerState::Unknown, "token {:?}", token);
    }
}

#[test]
fn one_leading_separator_is_stripped_and_no_more() {
    assert_eq!(summary(vec!["/foo"], "running").into_domain().name, "foo");
    assert_eq!(strip_leading_separator("/foo"), "foo");
    assert_eq!(strip_leading_separator("//foo"), "/foo");
    assert_eq!(strip_leading_separator("foo"), "foo");
    assert_eq!(strip_leading_separator("foo/"), "foo/");
    assert_eq!(strip_leading_separator("/"), "");
    assert_eq!(strip_leading_separator(""), "");
    assert_eq!(strip_leading_separator("/é/x"), "é/x");
}

#[test]
fn the_first_name_is_the_display_name() {
    assert_eq!(display_name_of(&vec![]), "");
    assert_eq!(display_name_of(&vec!["/a".to_string(), "/b".to_string()]), "a");
    assert_eq!(summary(vec![], "running").into_domain().name, "");
    assert_eq!(summary(vec!["/a", "/b/c"], "running").into_domain().name, "a");
}

#[test]
fn mapping_twice_gives_equal_values() {
    let first = summary(vec!["/foo"], "Paused").into_domain();
    let second = summary(vec!["/foo"], "Paused").into_domain();
    assert_eq!(first.id, second.id);
    assert_eq!(first.name, second.name);
    assert_eq!(first.image, second.image);
    assert_eq!(first.state, second.state);
    assert_eq!(first.status, second.status);
    assert_eq!(first.created_at, second.created_at);
    assert_eq!(first.labels.len(), second.labels.len());
    assert_eq!(first.ports, second.ports);

    let first = inspection(Some("172.17.0.2")).into_domain();
    let second = inspection(Some("172.17.0.2")).into_domain();
    assert_eq!(first.id, second.id);
    assert_eq!(first.name, second.name);
    assert_eq!(first.state, second.state);
    assert_eq!(first.created_at, second.created_at);
    assert_eq!(first.command, second.command);
    assert_eq!(first.network_settings.ip_address, second.network_settings.ip_address);
}

#[test]
fn absent_labels_map_to_no_labels() {
    let image = DockerImage {
        id: "sha256:abc".to_string(),
        repo_tags: vec![],
        size: 1,
        created: 0,
        labels: None,
    }
    .into_domain();
    assert!(image.labels.is_empty());
    assert_eq!(image.labels.len(), 0);
    assert!(labels_or_empty(None).is_empty());

    let volume = DockerVolume {
        name: "v".to_string(),
        driver: "local".to_string(),
        mountpoint: "/v".to_string(),
        labels: None,
    }
    .into_domain();
    assert!(volume.labels.is_empty());

    let network = DockerNetworkInfo {
        id: "n".to_string(),
        name: "bridge".to_string(),
        driver: "bridge".to_string(),
        scope: "local".to_string(),
        internal: false,
        labels: None,
    }
    .into_domain();
    assert!(network.labels.is_empty());
}

#[test]
fn labels_on_the_wire_are_kept() {
    let mut labels = Labels::new();
    labels.insert("b".to_string(), "2".to_string());
    labels.insert("a".to_string(), "1".to_string());
    let kept = labels_or_empty(Some(labels));
    assert_eq!(kept.len(), 2);
    assert_eq!(kept.get("a"), Some(&"1".to_string()));
    assert_eq!(kept.get("b"), Some(&"2".to_string()));
}

#[test]
fn a_detail_without_an_address_has_none() {
    let detail = inspection(None).into_domain();
    assert_eq!(detail.network_settings.ip_address, None);
    let detail = inspection(Some("172.17.0.2")).into_domain();
    assert_eq!(detail.network_settings.ip_address, Some("172.17.0.2".to_string()));
}

#[test]
fn the_flags_of_a_detail_have_a_precedence() {
    let flags = |running, paused, restarting, dead| DockerState {
        status: String::new(),
        running,
        paused,
        restarting,
        dead,
    };
    assert_eq!(state_from_flags(&flags(true, true, true, true)), ContainerState::Running);
    assert_eq!(state_from_flags(&flags(false, true, true, true)), ContainerState::Paused);
    assert_eq!(state_from_flags(&flags(false, false, true, true)), ContainerState::Restarting);
    assert_eq!(state_from_flags(&flags(false, false, false, true)), ContainerState::Dead);
    assert_eq!(state_from_flags(&flags(false, false, false, false)), ContainerState::Exited);
    assert_eq!(state_from_flags(&flags(true, false, false, false)), ContainerState::Running);
}

#[test]
fn only_udp_is_udp() {
    assert_eq!(protocol_from("udp"), PortProtocol::Udp);
    assert_eq!(protocol_from("tcp"), PortProtocol::Tcp);
    assert_eq!(protocol_from("UDP"), PortProtocol::Tcp);
    assert_eq!(protocol_from("sctp"), PortProtocol::Tcp);
    assert_eq!(protocol_from(""), PortProtocol::Tcp);
    assert_eq!(protocol_from("udp "), PortProtocol::Tcp);
}

#[test]
fn ports_keep_their_order() {
    let port = |private_port: u16, port_type: &str| DockerPort {
        private_port,
        public_port: None,
        port_type: port_type.to_string(),
        ip: None,
    };
    let mut wire = summary(vec!["/p"], "running");
    wire.ports = vec![port(1, "tcp"), port(2, "udp"), port(3, "tcp")];
    let ports = wire.into_domain().ports;
    assert_eq!(ports.len(), 3);
    assert_eq!(ports[0].container_port, 1);
    assert_eq!(ports[1].container_port, 2);
    assert_eq!(ports[1].protocol, PortProtocol::Udp);
    assert_eq!(ports[2].container_port, 3);
    assert_eq!(ports[2].host_port, None);
    assert_eq!(ports[2].host_ip, None);
}

#[test]
fn summaries_take_their_instant_from_epoch_seconds() {
    let container = summary(vec!["/c"], "running").into_domain();
    assert_eq!(container.created_at, Timestamp { secs: 1700000000, nanos: 0 });
    let mut wire = summary(vec!["/c"], "running");
    wire.created = -1;
    assert_eq!(wire.into_domain().created_at, Timestamp { secs: -1, nanos: 0 });
    let mut wire = summary(vec!["/c"], "running");
    wire.created = i64::MAX;
    assert_eq!(wire.into_domain().created_at, Timestamp { secs: 0, nanos: 0 });
}

#[test]
fn details_take_their_instant_from_text() {
    let detail = inspection(None).into_domain();
    assert_eq!(detail.created_at, Timestamp { secs: 1704067200, nanos: 0 });
    let mut wire = inspection(None);
    wire.created = "2024-01-01T01:00:00.5+01:00".to_string();
    assert_eq!(wire.into_domain().created_at, Timestamp { secs: 1704067200, nanos: 500_000_000 });
    let mut wire = inspection(None);
    wire.created = "yesterday".to_string();
    assert_eq!(wire.into_domain().created_at, Timestamp { secs: 0, nanos: 0 });
}

#[test]
fn a_detail_holds_what_the_wire_holds() {
    let mut labels = Labels::new();
    labels.insert("k".to_string(), "v".to_string());
    let mut networks = StringMap::new();
    networks.insert(
        "host".to_string(),
        DockerNetwork { network_id: "2".to_string(), ip_address: None },
    );
    networks.insert(
        "bridge".to_string(),
        DockerNetwork { network_id: "1".to_string(), ip_address: Some("10.0.0.2".to_string()) },
    );
    let mut wire = inspection(Some("10.0.0.2"));
    wire.name = "//odd".to_string();
    wire.config.labels = labels;
    wire.state = DockerState {
        status: "paused".to_string(),
        running: false,
        paused: true,
        restarting: false,
        dead: true,
    };
    wire.mounts = vec![DockerMount {
        source: "/src".to_string(),
        destination: "/dst".to_string(),
        mode: "ro".to_string(),
        rw: false,
    }];
    wire.network_settings.networks = networks;
    let detail = wire.into_domain();
    assert_eq!(detail.name, "/odd");
    assert_eq!(detail.state, ContainerState::Paused);
    assert_eq!(detail.status, "paused");
    assert_eq!(detail.labels.get("k"), Some(&"v".to_string()));
    assert!(detail.ports.is_empty());
    assert_eq!(detail.entrypoint, vec!["/docker-entrypoint.sh".to_string()]);
    assert_eq!(detail.env, vec!["PATH=/usr/bin".to_string()]);
    assert_eq!(detail.mounts.len(), 1);
    assert_eq!(detail.mounts[0].source, "/src");
    assert_eq!(detail.mounts[0].destination, "/dst");
    assert_eq!(detail.mounts[0].mode, "ro");
    assert!(!detail.mounts[0].rw);
    assert_eq!(detail.network_settings.networks, vec!["bridge".to_string(), "host".to_string()]);
}

#[test]
fn image_inspections_map_to_details() {
    let detail = DockerImageInspect {
        id: "sha256:abc".to_string(),
        repo_tags: vec!["nginx:latest".to_string()],
        size: 42,
        created: "2024-01-01T00:00:00Z".to_string(),
        labels: None,
        architecture: "amd64".to_string(),
        os: "linux".to_string(),
    }
    .into_domain();
    assert_eq!(detail.id.0, "sha256:abc");
    assert_eq!(detail.repo_tags, vec!["nginx:latest".to_string()]);
    assert_eq!(detail.size, 42);
    assert_eq!(detail.created_at, Timestamp { secs: 1704067200, nanos: 0 });
    assert!(detail.labels.is_empty());
    assert_eq!(detail.architecture, "amd64");
    assert_eq!(detail.os, "linux");
}

#[test]
fn volume_listings_map_to_volumes() {
    let volume = |name: &str| DockerVolume {
        name: name.to_string(),
        driver: "local".to_string(),
        mountpoint: format!("/volumes/{}", name),
        labels: None,
    };
    assert!(DockerVolumeList { volumes: None }.into_domain().is_empty());
    let volumes = DockerVolumeList { volumes: Some(vec![volume("a"), volume("b")]) }.into_domain();
    assert_eq!(volumes.len(), 2);
    assert_eq!(volumes[0].name.0, "a");
    assert_eq!(volumes[1].name.0, "b");
    assert_eq!(volumes[1].driver, "local");
    assert_eq!(volumes[1].mountpoint, "/volumes/b");

    let detail = DockerVolumeInspect {
        name: "a".to_string(),
        driver: "local".to_string(),
        mountpoint: "/volumes/a".to_string(),
        labels: None,
        scope: "global".to_string(),
    }
    .into_domain();
    assert_eq!(detail.name.0, "a");
    assert_eq!(detail.scope, "global");
}

#[test]
fn network_inspections_map_to_details() {
    let wire = |ipam: Option<DockerIpam>| DockerNetworkInspect {
        id: "n1".to_string(),
        name: "bridge".to_string(),
        driver: "bridge".to_string(),
        scope: "local".to_string(),
        internal: true,
        labels: None,
        ipam,
    };
    let detail = wire(None).into_domain();
    assert_eq!(detail.id.0, "n1");
    assert!(detail.internal);
    assert!(detail.ipam.is_none());

    let detail = wire(Some(DockerIpam { driver: "default".to_string(), config: None })).into_domain();
    let ipam = detail.ipam.unwrap();
    assert_eq!(ipam.driver, "default");
    assert!(ipam.config.is_empty());

    let ranges = vec![
        DockerIpamSubnet { subnet: "10.0.0.0/8".to_string(), gateway: Some("10.0.0.1".to_string()) },
        DockerIpamSubnet { subnet: "fd00::/8".to_string(), gateway: None },
    ];
    let detail =
        wire(Some(DockerIpam { driver: "default".to_string(), config: Some(ranges) })).into_domain();
    let ipam = detail.ipam.unwrap();
    assert_eq!(ipam.config.len(), 2);
    assert_eq!(ipam.config[0].subnet, "10.0.0.0/8");
    assert_eq!(ipam.config[0].gateway, Some("10.0.0.1".to_string()));
    assert_eq!(ipam.config[1].subnet, "fd00::/8");
    assert_eq!(ipam.config[1].gateway, None);
}

#[test]
fn an_empty_listing_maps_to_an_empty_list() {
    assert!(containers_into_domain(vec![]).is_empty());
    assert!(images_into_domain(vec![]).is_empty());
    assert!(networks_into_domain(vec![]).is_empty());
    assert!(DockerVolumeList { volumes: Some(vec![]) }.into_domain().is_empty());
}

#[test]
fn a_listing_keeps_its_order() {
    let listed = containers_into_domain(vec![
        summary(vec!["/b"], "exited"),
        summary(vec!["/a"], "running"),
        summary(vec![], "weird"),
    ]);
    assert_eq!(listed.len(), 3);
    assert_eq!(listed[0].name, "b");
    assert_eq!(listed[0].state, ContainerState::Exited);
    assert_eq!(listed[1].name, "a");
    assert_eq!(listed[1].state, ContainerState::Running);
    assert_eq!(listed[2].name, "");
    assert_eq!(listed[2].state, ContainerState::Unknown);
}

fn state_by_unicode_lowering(token: &str) -> ContainerState {
    match token.to_lowercase().as_str() {
        "running" => ContainerState::Running,
        "exited" => ContainerState::Exited,
        "paused" => ContainerState::Paused,
        "restarting" => ContainerState::Restarting,
        "dead" => ContainerState::Dead,
        _ => ContainerState::Unknown,
    }
}

#[test]
fn lowering_ascii_capitals_is_enough_for_status_tokens() {
    let letters = "runigextdpas";
    for code in 0..=0x10FFFFu32 {
        let Some(c) = char::from_u32(code) else { continue };
        let lowered: String = c.to_lowercase().collect();
        if lowered.len() == 1 && letters.contains(lowered.as_str()) {
            assert!(c.is_ascii(), "{:?} lowers to {:?}", c, lowered);
        }
    }
    let tokens = [
        "RUNNING", "Running", "rUNNING", "RUNNİNG", "runnıng", "PAUSED", "pauſed", "PAUſED",
        "DEAD", "ＤＥＡＤ", "Exited", "EXİTED", "RESTARTING", "ReStArTiNg", "ΡΥΝΝΙΝΓ", "dead\u{307}",
        "K", "\u{212A}", "running\u{0}", "",
    ];
    for token in tokens {
        assert_eq!(state_from_token(token), state_by_unicode_lowering(token), "token {:?}", token);
    }
}

#[test]
fn absent_lists_and_objects_map_to_empty_ones() {
    assert!(list_or_empty::<String>(None).is_empty());
    assert!(list_or_empty::<String>(Some(vec![])).is_empty());
    assert_eq!(
        list_or_empty(Some(vec!["sh".to_string(), "-c".to_string()])),
        vec!["sh".to_string(), "-c".to_string()]
    );
    assert!(entries_or_empty::<DockerNetwork>(None).is_empty());
    let mut networks = StringMap::new();
    networks.insert(
        "bridge".to_string(),
        DockerNetwork { network_id: "1".to_string(), ip_address: None },
    );
    let kept = entries_or_empty(Some(networks));
    assert_eq!(kept.len(), 1);
    assert_eq!(kept.get("bridge").unwrap().network_id, "1");

    let mut wire = summary(vec!["/c"], "running");
    wire.labels = labels_or_empty(None);
    assert!(wire.into_domain().labels.is_empty());
}

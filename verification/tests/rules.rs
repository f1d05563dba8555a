use sysmon_subgraph_generator::rules::{
    map_file_create, map_inbound_connection, map_outbound_connection, map_process_start,
};
use sysmon_subgraph_generator::{
    handle_file_create, handle_inbound_connection, handle_outbound_connection,
    handle_process_start, map_event, Edge, EdgeLabel, EventField, EventKind, FileCreateEvent,
    HostId, MappingError, MappingFailure, NetworkEvent, Node, NodeKey, NodeState,
    ProcessCreateEvent, TelemetryEvent, TimestampError,
};

const TS: u64 = 1493417302025;

fn process_start() -> ProcessCreateEvent {
    ProcessCreateEvent {
        host: "rfsH.lab.local".to_string(),
        utc_time: "2017-04-28 22:08:22.025".to_string(),
        process_id: 6228,
        parent_process_id: 13220,
        image: "C:\\Program Files (x86)\\Google\\Chrome\\Application\\chrome.exe".to_string(),
    }
}

fn file_create() -> FileCreateEvent {
    FileCreateEvent {
        host: "rfsH.lab.local".to_string(),
        creation_utc_time: "2017-05-13 19:44:55.313".to_string(),
        process_id: 19200,
        target_filename: "C:\\Windows\\Temp\\AxImp.exe".to_string(),
    }
}

fn network(destination: &str) -> NetworkEvent {
    NetworkEvent {
        host: "rfsH.lab.local".to_string(),
        utc_time: "2017-04-28 22:08:22.025".to_string(),
        process_id: 13220,
        source_hostname: Some("192.168.1.250".to_string()),
        source_port: 3328,
        destination_hostname: Some(destination.to_string()),
        destination_port: 443,
    }
}

fn asset() -> HostId {
    HostId::Asset("rfsH.lab.local".to_string())
}

fn edge(label: EdgeLabel, source: &Node, destination: &Node) -> Edge {
    Edge { label, source: source.clone_key(), destination: destination.clone_key() }
}

fn labels(edges: &Vec<Edge>) -> Vec<&'static str> {
    edges.iter().map(|e| e.label.as_str()).collect()
}

#[test]
fn process_start_gives_three_nodes_and_two_edges() {
    let graph = handle_process_start(process_start()).expect("a well-formed event maps");
    let image = "C:\\Program Files (x86)\\Google\\Chrome\\Application\\chrome.exe".to_string();
    let parent = Node::process(asset(), 13220, NodeState::Existing, TS, None);
    let child = Node::process(asset(), 6228, NodeState::Created, TS, Some(image.clone()));
    let child_exe = Node::file("rfsH.lab.local".to_string(), image, NodeState::Existing, TS);
    assert_eq!(graph.timestamp(), TS);
    assert_eq!(graph.nodes().len(), 3);
    assert_eq!(graph.edges().len(), 2);
    assert_eq!(labels(graph.edges()), vec!["bin_file", "children"]);
    assert_eq!(graph.nodes(), &vec![child_exe.clone(), parent.clone(), child.clone()]);
    assert_eq!(
        graph.edges(),
        &vec![
            edge(EdgeLabel::BinFile, &child, &child_exe),
            edge(EdgeLabel::Children, &parent, &child),
        ]
    );
    assert_eq!(parent.last_seen_timestamp(), Some(TS));
    assert_eq!(child.created_timestamp(), Some(TS));
    assert_eq!(child_exe.last_seen_timestamp(), Some(TS));
}

#[test]
fn process_that_is_its_own_parent_gives_two_nodes() {
    let mut event = process_start();
    event.parent_process_id = event.process_id;
    let graph = handle_process_start(event).expect("the event maps");
    assert_eq!(graph.nodes().len(), 2);
    assert_eq!(graph.nodes()[1].state, NodeState::Created);
    assert_eq!(labels(graph.edges()), vec!["bin_file", "children"]);
    assert_eq!(graph.edges()[1].source, graph.edges()[1].destination);
}

#[test]
fn file_create_gives_two_nodes_and_one_edge() {
    let graph = handle_file_create(file_create()).expect("a well-formed event maps");
    let creator = Node::process(asset(), 19200, NodeState::Existing, 1494704695313, None);
    let file = Node::file(
        "rfsH.lab.local".to_string(),
        "C:\\Windows\\Temp\\AxImp.exe".to_string(),
        NodeState::Created,
        1494704695313,
    );
    assert_eq!(graph.timestamp(), 1494704695313);
    assert_eq!(graph.nodes(), &vec![creator.clone(), file.clone()]);
    assert_eq!(graph.edges(), &vec![edge(EdgeLabel::CreatedFiles, &creator, &file)]);
    assert_eq!(labels(graph.edges()), vec!["created_files"]);
}

#[test]
fn inbound_from_internal_host_pairs_two_connections() {
    let graph = handle_inbound_connection(network("10.0.0.5")).expect("the event maps");
    let source = "192.168.1.250".to_string();
    let process = Node::process(HostId::Ip(source.clone()), 13220, NodeState::Existing, TS, None);
    let inbound = Node::inbound_connection(source, 3328, NodeState::Created, TS);
    let remote = Node::inbound_connection("10.0.0.5".to_string(), 3328, NodeState::Created, TS);
    assert_eq!(graph.nodes(), &vec![remote.clone(), inbound.clone(), process.clone()]);
    assert_eq!(
        graph.edges(),
        &vec![
            edge(EdgeLabel::Connection, &remote, &inbound),
            edge(EdgeLabel::BoundConnection, &process, &inbound),
        ]
    );
    assert!(labels(graph.edges()).contains(&"connection"));
    assert!(!labels(graph.edges()).contains(&"external_connection"));
    assert!(!graph.nodes().iter().any(|n| matches!(n.key, NodeKey::IpAddress { .. })));
}

#[test]
fn inbound_from_external_host_gives_an_address() {
    let graph = handle_inbound_connection(network("8.8.8.8")).expect("the event maps");
    let source = "192.168.1.250".to_string();
    let process = Node::process(HostId::Ip(source.clone()), 13220, NodeState::Existing, TS, None);
    let inbound = Node::inbound_connection(source, 3328, NodeState::Created, TS);
    let external_ip = Node::ip_address("8.8.8.8".to_string(), TS);
    assert_eq!(graph.nodes(), &vec![external_ip.clone(), inbound.clone(), process.clone()]);
    assert_eq!(
        graph.edges(),
        &vec![
            edge(EdgeLabel::ExternalConnection, &inbound, &external_ip),
            edge(EdgeLabel::BoundConnection, &process, &inbound),
        ]
    );
    assert!(!labels(graph.edges()).contains(&"connection"));
}

#[test]
fn inbound_from_the_same_host_gives_one_connection() {
    let graph = handle_inbound_connection(network("192.168.1.250")).expect("the event maps");
    assert_eq!(graph.nodes().len(), 2);
    assert_eq!(labels(graph.edges()), vec!["connection", "bound_connection"]);
    assert_eq!(graph.edges()[0].source, graph.edges()[0].destination);
}

#[test]
fn outbound_to_internal_host_pairs_two_connections() {
    let graph = handle_outbound_connection(network("10.0.0.5")).expect("the event maps");
    let source = "192.168.1.250".to_string();
    let process = Node::process(HostId::Ip(source.clone()), 13220, NodeState::Existing, TS, None);
    let outbound = Node::outbound_connection(source, 3328, NodeState::Created, TS);
    let inbound = Node::inbound_connection("10.0.0.5".to_string(), 443, NodeState::Existing, TS);
    assert_eq!(graph.timestamp(), TS);
    assert_eq!(graph.nodes(), &vec![inbound.clone(), outbound.clone(), process.clone()]);
    assert_eq!(
        graph.edges(),
        &vec![
            edge(EdgeLabel::Connection, &outbound, &inbound),
            edge(EdgeLabel::CreatedConnection, &process, &outbound),
        ]
    );
    assert_eq!(inbound.last_seen_timestamp(), Some(TS));
    assert_eq!(outbound.created_timestamp(), Some(TS));
}

#[test]
fn outbound_to_external_host_gives_an_address() {
    let graph = handle_outbound_connection(network("104.130.229.150")).expect("the event maps");
    let source = "192.168.1.250".to_string();
    let process = Node::process(HostId::Ip(source.clone()), 13220, NodeState::Existing, TS, None);
    let outbound = Node::outbound_connection(source, 3328, NodeState::Created, TS);
    let external_ip = Node::ip_address("104.130.229.150".to_string(), TS);
    assert_eq!(graph.nodes(), &vec![external_ip.clone(), outbound.clone(), process.clone()]);
    assert_eq!(
        graph.edges(),
        &vec![
            edge(EdgeLabel::ExternalConnection, &outbound, &external_ip),
            edge(EdgeLabel::CreatedConnection, &process, &outbound),
        ]
    );
    assert_eq!(labels(graph.edges()), vec!["external_connection", "created_connection"]);
    assert!(graph.nodes().iter().any(|n| matches!(n.key, NodeKey::IpAddress { .. })));
}

#[test]
fn outbound_to_the_same_host_keeps_three_nodes() {
    let graph = handle_outbound_connection(network("192.168.1.250")).expect("the event maps");
    assert_eq!(graph.nodes().len(), 3);
    assert_eq!(labels(graph.edges()), vec!["connection", "created_connection"]);
}

#[test]
fn host_name_that_is_no_address_is_external() {
    let graph = handle_outbound_connection(network("updates.example.com")).expect("the event maps");
    assert_eq!(graph.nodes()[0], Node::ip_address("updates.example.com".to_string(), TS));
}

#[test]
fn every_edge_joins_nodes_of_its_fragment() {
    let graphs = vec![
        handle_process_start(process_start()).expect("maps"),
        handle_file_create(file_create()).expect("maps"),
        handle_inbound_connection(network("10.0.0.5")).expect("maps"),
        handle_inbound_connection(network("8.8.8.8")).expect("maps"),
        handle_outbound_connection(network("10.0.0.5")).expect("maps"),
        handle_outbound_connection(network("8.8.8.8")).expect("maps"),
    ];
    for graph in graphs.iter() {
        for e in graph.edges().iter() {
            assert!(graph.has_node(&e.source));
            assert!(graph.has_node(&e.destination));
        }
        for n in graph.nodes().iter() {
            assert_eq!(n.timestamp, graph.timestamp());
        }
    }
}

#[test]
fn rules_give_the_same_fragment_every_time() {
    assert_eq!(handle_process_start(process_start()), handle_process_start(process_start()));
    assert_eq!(handle_file_create(file_create()), handle_file_create(file_create()));
    assert_eq!(
        handle_inbound_connection(network("10.0.0.5")),
        handle_inbound_connection(network("10.0.0.5"))
    );
    assert_eq!(
        handle_outbound_connection(network("8.8.8.8")),
        handle_outbound_connection(network("8.8.8.8"))
    );
    let mut broken = process_start();
    broken.utc_time = "yesterday".to_string();
    assert_eq!(handle_process_start(broken.clone()), handle_process_start(broken));
}

#[test]
fn unreadable_instant_is_a_mapping_error() {
    let mut event = process_start();
    event.utc_time = "2017-04-28T22:08:22.025Z".to_string();
    assert_eq!(
        handle_process_start(event),
        Err(MappingError {
            kind: EventKind::ProcessCreate,
            field: EventField::UtcTime,
            failure: MappingFailure::Timestamp(TimestampError::Format),
        })
    );
    let mut event = file_create();
    event.creation_utc_time = "1969-12-31 23:59:59.999".to_string();
    assert_eq!(
        handle_file_create(event),
        Err(MappingError {
            kind: EventKind::FileCreate,
            field: EventField::UtcTime,
            failure: MappingFailure::Timestamp(TimestampError::Range),
        })
    );
    let mut event = network("10.0.0.5");
    event.utc_time = String::new();
    assert_eq!(
        handle_inbound_connection(event.clone()),
        Err(MappingError {
            kind: EventKind::InboundNetwork,
            field: EventField::UtcTime,
            failure: MappingFailure::Timestamp(TimestampError::Format),
        })
    );
    assert_eq!(
        handle_outbound_connection(event),
        Err(MappingError {
            kind: EventKind::OutboundNetwork,
            field: EventField::UtcTime,
            failure: MappingFailure::Timestamp(TimestampError::Format),
        })
    );
}

#[test]
fn missing_host_name_is_a_mapping_error() {
    let mut event = network("10.0.0.5");
    event.destination_hostname = None;
    assert_eq!(
        handle_outbound_connection(event.clone()),
        Err(MappingError {
            kind: EventKind::OutboundNetwork,
            field: EventField::DestinationHostname,
            failure: MappingFailure::Missing,
        })
    );
    event.source_hostname = None;
    assert_eq!(
        handle_inbound_connection(event.clone()),
        Err(MappingError {
            kind: EventKind::InboundNetwork,
            field: EventField::SourceHostname,
            failure: MappingFailure::Missing,
        })
    );
    event.utc_time = "no instant".to_string();
    assert_eq!(
        handle_inbound_connection(event).map_err(|e| e.field),
        Err(EventField::UtcTime)
    );
}

#[test]
fn events_go_to_the_rule_of_their_kind() {
    assert_eq!(
        map_event(TelemetryEvent::ProcessCreate(process_start())),
        handle_process_start(process_start())
    );
    assert_eq!(
        map_event(TelemetryEvent::FileCreate(file_create())),
        handle_file_create(file_create())
    );
    assert_eq!(
        map_event(TelemetryEvent::InboundNetwork(network("10.0.0.5"))),
        handle_inbound_connection(network("10.0.0.5"))
    );
    assert_eq!(
        map_event(TelemetryEvent::OutboundNetwork(network("10.0.0.5"))),
        handle_outbound_connection(network("10.0.0.5"))
    );
    assert_ne!(
        map_event(TelemetryEvent::InboundNetwork(network("10.0.0.5"))),
        map_event(TelemetryEvent::OutboundNetwork(network("10.0.0.5")))
    );
    assert_eq!(TelemetryEvent::FileCreate(file_create()).kind(), EventKind::FileCreate);
    assert_eq!(
        TelemetryEvent::OutboundNetwork(network("10.0.0.5")).kind(),
        EventKind::OutboundNetwork
    );
}

#[test]
fn builders_take_the_instant_and_the_classification_as_given() {
    let graph = map_process_start(process_start(), 5);
    assert_eq!(graph.timestamp(), 5);
    assert_eq!(graph.nodes().len(), 3);
    let graph = map_file_create(file_create(), 6);
    assert_eq!(graph.timestamp(), 6);
    assert_eq!(graph.nodes().len(), 2);
    let internal =
        map_inbound_connection(1, "a".to_string(), 2, "8.8.8.8".to_string(), 7, true);
    assert_eq!(labels(internal.edges()), vec!["connection", "bound_connection"]);
    let external =
        map_inbound_connection(1, "a".to_string(), 2, "10.0.0.5".to_string(), 7, false);
    assert_eq!(labels(external.edges()), vec!["external_connection", "bound_connection"]);
    let internal =
        map_outbound_connection(1, "a".to_string(), 2, "8.8.8.8".to_string(), 3, 7, true);
    assert_eq!(
        internal.nodes()[0],
        Node::inbound_connection("8.8.8.8".to_string(), 3, NodeState::Existing, 7)
    );
    let external =
        map_outbound_connection(1, "a".to_string(), 2, "10.0.0.5".to_string(), 3, 7, false);
    assert_eq!(external.nodes()[0], Node::ip_address("10.0.0.5".to_string(), 7));
}

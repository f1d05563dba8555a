use sysmon_subgraph_generator::{
    Edge, EdgeLabel, GraphFragment, HostId, Node, NodeKey, NodeState,
};

fn process(pid: u64, state: NodeState) -> Node {
    Node::process(HostId::Asset("host".to_string()), pid, state, 7, None)
}

#[test]
fn new_fragment_is_empty() {
    let graph = GraphFragment::new(42);
    assert_eq!(graph.timestamp(), 42);
    assert!(graph.nodes().is_empty());
    assert!(graph.edges().is_empty());
}

#[test]
fn nodes_keep_the_order_of_arrival() {
    let mut graph = GraphFragment::new(7);
    graph.add_node(process(1, NodeState::Existing));
    graph.add_node(process(2, NodeState::Created));
    graph.add_node(Node::ip_address("8.8.8.8".to_string(), 7));
    assert_eq!(
        graph.nodes(),
        &vec![
            process(1, NodeState::Existing),
            process(2, NodeState::Created),
            Node::ip_address("8.8.8.8".to_string(), 7),
        ]
    );
}

#[test]
fn node_with_a_known_key_takes_the_place_of_the_old_one() {
    let mut graph = GraphFragment::new(7);
    graph.add_node(process(1, NodeState::Existing));
    graph.add_node(process(2, NodeState::Existing));
    graph.add_node(process(1, NodeState::Created));
    assert_eq!(
        graph.nodes(),
        &vec![process(1, NodeState::Created), process(2, NodeState::Existing)]
    );
}

#[test]
fn has_node_goes_by_key() {
    let mut graph = GraphFragment::new(7);
    graph.add_node(process(1, NodeState::Existing));
    assert!(graph.has_node(&process(1, NodeState::Created).clone_key()));
    assert!(!graph.has_node(&process(2, NodeState::Existing).clone_key()));
    assert!(!graph.has_node(&NodeKey::Process { host: HostId::Ip("host".to_string()), pid: 1 }));
    assert!(!graph.has_node(&NodeKey::IpAddress { address: "host".to_string() }));
}

#[test]
fn edge_needs_both_ends() {
    let mut graph = GraphFragment::new(7);
    let a = process(1, NodeState::Existing);
    let b = process(2, NodeState::Created);
    graph.add_node(a.clone());
    assert!(!graph.add_edge(EdgeLabel::Children, a.clone_key(), b.clone_key()));
    assert!(!graph.add_edge(EdgeLabel::Children, b.clone_key(), a.clone_key()));
    assert!(graph.edges().is_empty());
    graph.add_node(b.clone());
    assert!(graph.add_edge(EdgeLabel::Children, a.clone_key(), b.clone_key()));
    assert_eq!(
        graph.edges(),
        &vec![Edge { label: EdgeLabel::Children, source: a.clone_key(), destination: b.clone_key() }]
    );
}

#[test]
fn edge_is_not_repeated() {
    let mut graph = GraphFragment::new(7);
    let a = process(1, NodeState::Existing);
    let b = process(2, NodeState::Created);
    graph.add_node(a.clone());
    graph.add_node(b.clone());
    assert!(graph.add_edge(EdgeLabel::Children, a.clone_key(), b.clone_key()));
    assert!(graph.add_edge(EdgeLabel::Children, a.clone_key(), b.clone_key()));
    assert_eq!(graph.edges().len(), 1);
    assert!(graph.add_edge(EdgeLabel::Children, b.clone_key(), a.clone_key()));
    assert!(graph.add_edge(EdgeLabel::Connection, a.clone_key(), b.clone_key()));
    assert_eq!(graph.edges().len(), 3);
    assert!(graph.has_edge(&Edge {
        label: EdgeLabel::Connection,
        source: a.clone_key(),
        destination: b.clone_key(),
    }));
    assert!(!graph.has_edge(&Edge {
        label: EdgeLabel::BinFile,
        source: a.clone_key(),
        destination: b.clone_key(),
    }));
}

#[test]
fn keys_tell_kinds_and_hosts_apart() {
    let inbound = NodeKey::InboundConnection { host_ip: "10.0.0.1".to_string(), port: 80 };
    let outbound = NodeKey::OutboundConnection { host_ip: "10.0.0.1".to_string(), port: 80 };
    assert!(inbound.same(&inbound.duplicate()));
    assert!(!inbound.same(&outbound));
    assert!(!inbound.same(&NodeKey::InboundConnection { host_ip: "10.0.0.1".to_string(), port: 81 }));
    assert!(!inbound.same(&NodeKey::InboundConnection { host_ip: "10.0.0.2".to_string(), port: 80 }));
    let file = NodeKey::File { host: HostId::Asset("a".to_string()), path: "p".to_string() };
    assert!(file.same(&file.duplicate()));
    assert!(!file.same(&NodeKey::File { host: HostId::Asset("a".to_string()), path: "q".to_string() }));
    assert!(!file.same(&NodeKey::File { host: HostId::Asset("b".to_string()), path: "p".to_string() }));
    assert!(HostId::Asset("a".to_string()).same(&HostId::Asset("a".to_string())));
    assert!(!HostId::Asset("a".to_string()).same(&HostId::Ip("a".to_string())));
    assert_eq!(HostId::Ip("a".to_string()).duplicate(), HostId::Ip("a".to_string()));
}

#[test]
fn state_decides_which_timestamp_a_node_has() {
    let created = process(1, NodeState::Created);
    assert_eq!(created.created_timestamp(), Some(7));
    assert_eq!(created.last_seen_timestamp(), None);
    let existing = process(1, NodeState::Existing);
    assert_eq!(existing.created_timestamp(), None);
    assert_eq!(existing.last_seen_timestamp(), Some(7));
    let address = Node::ip_address("8.8.8.8".to_string(), 9);
    assert_eq!(address.state, NodeState::Existing);
    assert_eq!(address.last_seen_timestamp(), Some(9));
}

#[test]
fn labels_are_written_as_in_the_stored_graph() {
    assert_eq!(EdgeLabel::BinFile.as_str(), "bin_file");
    assert_eq!(EdgeLabel::Children.as_str(), "children");
    assert_eq!(EdgeLabel::CreatedFiles.as_str(), "created_files");
    assert_eq!(EdgeLabel::Connection.as_str(), "connection");
    assert_eq!(EdgeLabel::ExternalConnection.as_str(), "external_connection");
    assert_eq!(EdgeLabel::BoundConnection.as_str(), "bound_connection");
    assert_eq!(EdgeLabel::CreatedConnection.as_str(), "created_connection");
}

#[test]
fn node_constructors_fill_the_key() {
    assert_eq!(
        Node::file("h".to_string(), "p".to_string(), NodeState::Created, 3),
        Node {
            key: NodeKey::File { host: HostId::Asset("h".to_string()), path: "p".to_string() },
            state: NodeState::Created,
            timestamp: 3,
            image_name: None,
        }
    );
    assert_eq!(
        Node::inbound_connection("h".to_string(), 5, NodeState::Existing, 3).key,
        NodeKey::InboundConnection { host_ip: "h".to_string(), port: 5 }
    );
    assert_eq!(
        Node::outbound_connection("h".to_string(), 5, NodeState::Created, 3).key,
        NodeKey::OutboundConnection { host_ip: "h".to_string(), port: 5 }
    );
    assert_eq!(
        Node::process(HostId::Ip("h".to_string()), 9, NodeState::Created, 3, Some("i".to_string())),
        Node {
            key: NodeKey::Process { host: HostId::Ip("h".to_string()), pid: 9 },
            state: NodeState::Created,
            timestamp: 3,
            image_name: Some("i".to_string()),
        }
    );
}

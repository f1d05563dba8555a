//! What holds of every fragment and every batch, stated over the models that
//! the contracts of the rules and of the batch mapper use.

use vstd::prelude::*;
use crate::batch::{batch_of, fragment_of};
use crate::event::{
    FileCreateEventView, NetworkEventView, ProcessCreateEventView, TelemetryEventView,
};
use crate::graph::{
    edge_between, file_node, inbound_connection_node, ip_address_node, outbound_connection_node,
    process_node, EdgeLabel, EdgeView, GraphFragment, GraphFragmentView, HostIdView, NodeState,
    NodeView,
};
use crate::rules::{
    event_outcome, file_create_graph, inbound_connection_graph, outbound_connection_graph,
    outcome_view, process_start_graph, MappingError,
};

verus! {

/// Whether every node of `graph` carries the instant of the fragment.
pub open spec fn stamped(graph: GraphFragmentView) -> bool {
    forall|i: int|
        0 <= i < graph.nodes.len() ==> (#[trigger] graph.nodes[i]).timestamp == graph.timestamp
}

/// Two nodes with different keys and one edge between them make a fragment of
/// exactly those.
proof fn lemma_two_nodes_one_edge(timestamp: u64, a: NodeView, b: NodeView, e: EdgeView)
    requires
        a.key != b.key,
        e.source == a.key || e.source == b.key,
        e.destination == a.key || e.destination == b.key,
    ensures
        GraphFragmentView::empty(timestamp).with_node(a).with_node(b).with_edge(e)
            == (GraphFragmentView { timestamp, nodes: seq![a, b], edges: seq![e] }),
        (GraphFragmentView { timestamp, nodes: seq![a, b], edges: seq![e] }).well_formed(),
{
    let g0 = GraphFragmentView::empty(timestamp);
    let g1 = g0.with_node(a);
    assert(!g0.has_node(a.key));
    assert(g1.nodes =~= seq![a]);
    let g2 = g1.with_node(b);
    assert(!g1.has_node(b.key));
    assert(g2.nodes =~= seq![a, b]);
    assert(g2.nodes[0].key == a.key && g2.nodes[1].key == b.key);
    assert(g2.has_node(a.key) && g2.has_node(b.key));
    let g3 = g2.with_edge(e);
    assert(!g2.has_edge(e));
    assert(g3.edges =~= seq![e]);
    assert(g3.nodes == g2.nodes);
    assert(g3.has_node(a.key) && g3.has_node(b.key));
    assert(g3 == (GraphFragmentView { timestamp, nodes: seq![a, b], edges: seq![e] }));
}

/// Three nodes with different keys and two different edges between them make a
/// fragment of exactly those.
proof fn lemma_three_nodes_two_edges(
    timestamp: u64,
    a: NodeView,
    b: NodeView,
    c: NodeView,
    e1: EdgeView,
    e2: EdgeView,
)
    requires
        a.key != b.key,
        a.key != c.key,
        b.key != c.key,
        e1 != e2,
        e1.source == a.key || e1.source == b.key || e1.source == c.key,
        e1.destination == a.key || e1.destination == b.key || e1.destination == c.key,
        e2.source == a.key || e2.source == b.key || e2.source == c.key,
        e2.destination == a.key || e2.destination == b.key || e2.destination == c.key,
    ensures
        GraphFragmentView::empty(timestamp).with_node(a).with_node(b).with_node(c).with_edge(
            e1,
        ).with_edge(e2) == (GraphFragmentView {
            timestamp,
            nodes: seq![a, b, c],
            edges: seq![e1, e2],
        }),
        (GraphFragmentView { timestamp, nodes: seq![a, b, c], edges: seq![e1, e2] }).well_formed(),
{
    let g0 = GraphFragmentView::empty(timestamp);
    let g1 = g0.with_node(a);
    assert(!g0.has_node(a.key));
    assert(g1.nodes =~= seq![a]);
    let g2 = g1.with_node(b);
    assert(!g1.has_node(b.key));
    assert(g2.nodes =~= seq![a, b]);
    let g3 = g2.with_node(c);
    assert(!g2.has_node(c.key));
    assert(g3.nodes =~= seq![a, b, c]);
    assert(g3.nodes[0].key == a.key && g3.nodes[1].key == b.key && g3.nodes[2].key == c.key);
    assert(g3.has_node(a.key) && g3.has_node(b.key) && g3.has_node(c.key));
    let g4 = g3.with_edge(e1);
    assert(!g3.has_edge(e1));
    assert(g4.edges =~= seq![e1]);
    assert(g4.nodes == g3.nodes);
    assert(g4.has_node(a.key) && g4.has_node(b.key) && g4.has_node(c.key));
    let g5 = g4.with_edge(e2);
    assert(!g4.has_edge(e2));
    assert(g5.edges =~= seq![e1, e2]);
    assert(g5.nodes == g3.nodes);
    assert(g5.has_node(a.key) && g5.has_node(b.key) && g5.has_node(c.key));
    assert(g5 == (GraphFragmentView { timestamp, nodes: seq![a, b, c], edges: seq![e1, e2] }));
}

/// Two nodes that share a key and a third with another key make a fragment of
/// two nodes: the second took the place of the first.
proof fn lemma_shared_key_two_edges(
    timestamp: u64,
    a: NodeView,
    b: NodeView,
    c: NodeView,
    e1: EdgeView,
    e2: EdgeView,
    first: bool,
)
    requires
        first ==> a.key == b.key && a.key != c.key,
        !first ==> b.key == c.key && a.key != b.key,
        e1 != e2,
        e1.source == a.key || e1.source == b.key || e1.source == c.key,
        e1.destination == a.key || e1.destination == b.key || e1.destination == c.key,
        e2.source == a.key || e2.source == b.key || e2.source == c.key,
        e2.destination == a.key || e2.destination == b.key || e2.destination == c.key,
    ensures
        GraphFragmentView::empty(timestamp).with_node(a).with_node(b).with_node(c).with_edge(
            e1,
        ).with_edge(e2) == (GraphFragmentView {
            timestamp,
            nodes: if first {
                seq![b, c]
            } else {
                seq![a, c]
            },
            edges: seq![e1, e2],
        }),
        GraphFragmentView::empty(timestamp).with_node(a).with_node(b).with_node(c).with_edge(
            e1,
        ).with_edge(e2).well_formed(),
{
    let g0 = GraphFragmentView::empty(timestamp);
    let g1 = g0.with_node(a);
    assert(!g0.has_node(a.key));
    assert(g1.nodes =~= seq![a]);
    let g2 = g1.with_node(b);
    let g3 = g2.with_node(c);
    if first {
        assert(g1.nodes[0].key == b.key);
        assert(g1.has_node(b.key));
        assert(g2.nodes =~= seq![b]);
        assert(!g2.has_node(c.key));
        assert(g3.nodes =~= seq![b, c]);
    } else {
        assert(!g1.has_node(b.key));
        assert(g2.nodes =~= seq![a, b]);
        assert(g2.nodes[1].key == c.key);
        assert(g2.has_node(c.key));
        let at = choose|i: int| 0 <= i < g2.nodes.len() && (#[trigger] g2.nodes[i]).key == c.key;
        assert(at == 1);
        assert(g3.nodes =~= seq![a, c]);
    }
    assert(g3.nodes[0].key == a.key && g3.nodes[1].key == c.key);
    assert(g3.has_node(a.key) && g3.has_node(b.key) && g3.has_node(c.key));
    let g4 = g3.with_edge(e1);
    assert(!g3.has_edge(e1));
    assert(g4.edges =~= seq![e1]);
    assert(g4.nodes == g3.nodes);
    assert(g4.has_node(a.key) && g4.has_node(b.key) && g4.has_node(c.key));
    let g5 = g4.with_edge(e2);
    assert(!g4.has_edge(e2));
    assert(g5.edges =~= seq![e1, e2]);
    assert(g5.nodes == g3.nodes);
    assert(g5.has_node(a.key) && g5.has_node(b.key) && g5.has_node(c.key));
}

/// A process start whose child is not its own parent maps to exactly three
/// nodes, the child's executable, the parent and the child, and exactly two
/// edges: `bin_file` from the child to its executable and `children` from the
/// parent to the child.
pub proof fn lemma_process_start_shape(event: ProcessCreateEventView, timestamp: u64)
    requires
        event.process_id != event.parent_process_id,
    ensures
        ({
            let host = HostIdView::Asset(event.host);
            let parent = process_node(
                host,
                event.parent_process_id,
                NodeState::Existing,
                timestamp,
                None,
            );
            let child = process_node(
                host,
                event.process_id,
                NodeState::Created,
                timestamp,
                Some(event.image),
            );
            let child_exe = file_node(event.host, event.image, NodeState::Existing, timestamp);
            process_start_graph(event, timestamp) == (GraphFragmentView {
                timestamp,
                nodes: seq![child_exe, parent, child],
                edges: seq![
                    edge_between(EdgeLabel::BinFile, child, child_exe),
                    edge_between(EdgeLabel::Children, parent, child),
                ],
            })
        }),
        process_start_graph(event, timestamp).nodes.len() == 3,
        process_start_graph(event, timestamp).edges.len() == 2,
        process_start_graph(event, timestamp).well_formed(),
{
    let host = HostIdView::Asset(event.host);
    let parent = process_node(host, event.parent_process_id, NodeState::Existing, timestamp, None);
    let child = process_node(
        host,
        event.process_id,
        NodeState::Created,
        timestamp,
        Some(event.image),
    );
    let child_exe = file_node(event.host, event.image, NodeState::Existing, timestamp);
    lemma_three_nodes_two_edges(
        timestamp,
        child_exe,
        parent,
        child,
        edge_between(EdgeLabel::BinFile, child, child_exe),
        edge_between(EdgeLabel::Children, parent, child),
    );
}

/// A process start whose child claims to be its own parent maps to two nodes:
/// the child stands in the place of the parent.
pub proof fn lemma_process_start_own_parent(event: ProcessCreateEventView, timestamp: u64)
    requires
        event.process_id == event.parent_process_id,
    ensures
        ({
            let child = process_node(
                HostIdView::Asset(event.host),
                event.process_id,
                NodeState::Created,
                timestamp,
                Some(event.image),
            );
            let child_exe = file_node(event.host, event.image, NodeState::Existing, timestamp);
            process_start_graph(event, timestamp) == (GraphFragmentView {
                timestamp,
                nodes: seq![child_exe, child],
                edges: seq![
                    edge_between(EdgeLabel::BinFile, child, child_exe),
                    edge_between(EdgeLabel::Children, child, child),
                ],
            })
        }),
        process_start_graph(event, timestamp).well_formed(),
{
    let host = HostIdView::Asset(event.host);
    let parent = process_node(host, event.parent_process_id, NodeState::Existing, timestamp, None);
    let child = process_node(
        host,
        event.process_id,
        NodeState::Created,
        timestamp,
        Some(event.image),
    );
    let child_exe = file_node(event.host, event.image, NodeState::Existing, timestamp);
    lemma_shared_key_two_edges(
        timestamp,
        child_exe,
        parent,
        child,
        edge_between(EdgeLabel::BinFile, child, child_exe),
        edge_between(EdgeLabel::Children, parent, child),
        false,
    );
}

/// Every file creation maps to exactly two nodes, the creating process and the
/// file, and exactly one edge: `created_files` from the process to the file.
pub proof fn lemma_file_create_shape(event: FileCreateEventView, timestamp: u64)
    ensures
        ({
            let creator = process_node(
                HostIdView::Asset(event.host),
                event.process_id,
                NodeState::Existing,
                timestamp,
                None,
            );
            let file = file_node(event.host, event.target_filename, NodeState::Created, timestamp);
            file_create_graph(event, timestamp) == (GraphFragmentView {
                timestamp,
                nodes: seq![creator, file],
                edges: seq![edge_between(EdgeLabel::CreatedFiles, creator, file)],
            })
        }),
        file_create_graph(event, timestamp).nodes.len() == 2,
        file_create_graph(event, timestamp).edges.len() == 1,
        file_create_graph(event, timestamp).well_formed(),
{
    let creator = process_node(
        HostIdView::Asset(event.host),
        event.process_id,
        NodeState::Existing,
        timestamp,
        None,
    );
    let file = file_node(event.host, event.target_filename, NodeState::Created, timestamp);
    lemma_two_nodes_one_edge(
        timestamp,
        creator,
        file,
        edge_between(EdgeLabel::CreatedFiles, creator, file),
    );
}

/// An inbound connection from an internal host other than the listening one
/// maps to exactly three nodes, the remote half, the local half and the
/// process, with `connection` from the remote half to the local one and
/// `bound_connection` from the process to the local half. No address node and
/// no `external_connection` edge is part of it.
pub proof fn lemma_inbound_internal_shape(
    process_id: u64,
    source: Seq<char>,
    source_port: u16,
    destination: Seq<char>,
    timestamp: u64,
)
    requires
        source != destination,
    ensures
        ({
            let process = process_node(
                HostIdView::Ip(source),
                process_id,
                NodeState::Existing,
                timestamp,
                None,
            );
            let inbound = inbound_connection_node(
                source,
                source_port,
                NodeState::Created,
                timestamp,
            );
            let remote = inbound_connection_node(
                destination,
                source_port,
                NodeState::Created,
                timestamp,
            );
            inbound_connection_graph(
                process_id,
                source,
                source_port,
                destination,
                timestamp,
                true,
            ) == (GraphFragmentView {
                timestamp,
                nodes: seq![remote, inbound, process],
                edges: seq![
                    edge_between(EdgeLabel::Connection, remote, inbound),
                    edge_between(EdgeLabel::BoundConnection, process, inbound),
                ],
            })
        }),
        inbound_connection_graph(process_id, source, source_port, destination, timestamp, true).well_formed(),
{
    let process = process_node(
        HostIdView::Ip(source),
        process_id,
        NodeState::Existing,
        timestamp,
        None,
    );
    let inbound = inbound_connection_node(source, source_port, NodeState::Created, timestamp);
    let remote = inbound_connection_node(destination, source_port, NodeState::Created, timestamp);
    lemma_three_nodes_two_edges(
        timestamp,
        remote,
        inbound,
        process,
        edge_between(EdgeLabel::Connection, remote, inbound),
        edge_between(EdgeLabel::BoundConnection, process, inbound),
    );
}

/// An inbound connection that a host makes to itself maps to two nodes: both
/// halves are the same connection.
pub proof fn lemma_inbound_internal_same_host(
    process_id: u64,
    host: Seq<char>,
    source_port: u16,
    timestamp: u64,
)
    ensures
        ({
            let process = process_node(
                HostIdView::Ip(host),
                process_id,
                NodeState::Existing,
                timestamp,
                None,
            );
            let inbound = inbound_connection_node(host, source_port, NodeState::Created, timestamp);
            inbound_connection_graph(process_id, host, source_port, host, timestamp, true) == (
            GraphFragmentView {
                timestamp,
                nodes: seq![inbound, process],
                edges: seq![
                    edge_between(EdgeLabel::Connection, inbound, inbound),
                    edge_between(EdgeLabel::BoundConnection, process, inbound),
                ],
            })
        }),
        inbound_connection_graph(process_id, host, source_port, host, timestamp, true).well_formed(),
{
    let process = process_node(HostIdView::Ip(host), process_id, NodeState::Existing, timestamp, None);
    let inbound = inbound_connection_node(host, source_port, NodeState::Created, timestamp);
    lemma_shared_key_two_edges(
        timestamp,
        inbound,
        inbound,
        process,
        edge_between(EdgeLabel::Connection, inbound, inbound),
        edge_between(EdgeLabel::BoundConnection, process, inbound),
        true,
    );
}

/// An inbound connection from an external host maps to exactly three nodes,
/// the remote address, the local half and the process, with
/// `external_connection` from the local half to the address and
/// `bound_connection` from the process to the local half. No second
/// connection node and no `connection` edge is part of it.
pub proof fn lemma_inbound_external_shape(
    process_id: u64,
    source: Seq<char>,
    source_port: u16,
    destination: Seq<char>,
    timestamp: u64,
)
    ensures
        ({
            let process = process_node(
                HostIdView::Ip(source),
                process_id,
                NodeState::Existing,
                timestamp,
                None,
            );
            let inbound = inbound_connection_node(
                source,
                source_port,
                NodeState::Created,
                timestamp,
            );
            let external_ip = ip_address_node(destination, timestamp);
            inbound_connection_graph(
                process_id,
                source,
                source_port,
                destination,
                timestamp,
                false,
            ) == (GraphFragmentView {
                timestamp,
                nodes: seq![external_ip, inbound, process],
                edges: seq![
                    edge_between(EdgeLabel::ExternalConnection, inbound, external_ip),
                    edge_between(EdgeLabel::BoundConnection, process, inbound),
                ],
            })
        }),
        inbound_connection_graph(process_id, source, source_port, destination, timestamp, false).well_formed(),
{
    let process = process_node(
        HostIdView::Ip(source),
        process_id,
        NodeState::Existing,
        timestamp,
        None,
    );
    let inbound = inbound_connection_node(source, source_port, NodeState::Created, timestamp);
    let external_ip = ip_address_node(destination, timestamp);
    lemma_three_nodes_two_edges(
        timestamp,
        external_ip,
        inbound,
        process,
        edge_between(EdgeLabel::ExternalConnection, inbound, external_ip),
        edge_between(EdgeLabel::BoundConnection, process, inbound),
    );
}

/// Every outbound connection maps to exactly three nodes and two edges. To an
/// internal host: the receiving half, the local half and the process, with
/// `connection` from the local half to the receiving one. To an external host:
/// the remote address, the local half and the process, with
/// `external_connection` from the local half to the address. Either way
/// `created_connection` leads from the process to the local half, and nothing
/// of the other branch is part of the fragment.
pub proof fn lemma_outbound_shape(
    process_id: u64,
    source: Seq<char>,
    source_port: u16,
    destination: Seq<char>,
    destination_port: u16,
    timestamp: u64,
    internal: bool,
)
    ensures
        ({
            let process = process_node(
                HostIdView::Ip(source),
                process_id,
                NodeState::Existing,
                timestamp,
                None,
            );
            let outbound = outbound_connection_node(
                source,
                source_port,
                NodeState::Created,
                timestamp,
            );
            let inbound = inbound_connection_node(
                destination,
                destination_port,
                NodeState::Existing,
                timestamp,
            );
            let external_ip = ip_address_node(destination, timestamp);
            let created = edge_between(EdgeLabel::CreatedConnection, process, outbound);
            outbound_connection_graph(
                process_id,
                source,
                source_port,
                destination,
                destination_port,
                timestamp,
                internal,
            ) == if internal {
                GraphFragmentView {
                    timestamp,
                    nodes: seq![inbound, outbound, process],
                    edges: seq![edge_between(EdgeLabel::Connection, outbound, inbound), created],
                }
            } else {
                GraphFragmentView {
                    timestamp,
                    nodes: seq![external_ip, outbound, process],
                    edges: seq![
                        edge_between(EdgeLabel::ExternalConnection, outbound, external_ip),
                        created,
                    ],
                }
            }
        }),
        outbound_connection_graph(process_id, source, source_port, destination, destination_port, timestamp, internal).well_formed(),
{
    let process = process_node(
        HostIdView::Ip(source),
        process_id,
        NodeState::Existing,
        timestamp,
        None,
    );
    let outbound = outbound_connection_node(source, source_port, NodeState::Created, timestamp);
    let created = edge_between(EdgeLabel::CreatedConnection, process, outbound);
    if internal {
        let inbound = inbound_connection_node(
            destination,
            destination_port,
            NodeState::Existing,
            timestamp,
        );
        lemma_three_nodes_two_edges(
            timestamp,
            inbound,
            outbound,
            process,
            edge_between(EdgeLabel::Connection, outbound, inbound),
            created,
        );
    } else {
        let external_ip = ip_address_node(destination, timestamp);
        lemma_three_nodes_two_edges(
            timestamp,
            external_ip,
            outbound,
            process,
            edge_between(EdgeLabel::ExternalConnection, outbound, external_ip),
            created,
        );
    }
}

/// Every fragment that a rule gives is well formed, and each of its nodes
/// carries the instant of the fragment.
pub proof fn lemma_rules_give_sound_fragments(event: TelemetryEventView, graph: GraphFragmentView)
    requires
        event_outcome(event) == Ok::<GraphFragmentView, MappingError>(graph),
    ensures
        graph.well_formed(),
        stamped(graph),
{
    let timestamp = graph.timestamp;
    match event {
        TelemetryEventView::ProcessCreate(e) => {
            assert(graph == process_start_graph(e, timestamp));
            if e.process_id == e.parent_process_id {
                lemma_process_start_own_parent(e, timestamp);
            } else {
                lemma_process_start_shape(e, timestamp);
            }
        },
        TelemetryEventView::FileCreate(e) => {
            assert(graph == file_create_graph(e, timestamp));
            lemma_file_create_shape(e, timestamp);
        },
        TelemetryEventView::InboundNetwork(e) => {
            lemma_network_parts(e);
            let source = e.source_hostname->0;
            let destination = e.destination_hostname->0;
            if source != destination {
                lemma_inbound_internal_shape(
                    e.process_id,
                    source,
                    e.source_port,
                    destination,
                    timestamp,
                );
            } else {
                lemma_inbound_internal_same_host(e.process_id, source, e.source_port, timestamp);
            }
            lemma_inbound_external_shape(
                e.process_id,
                source,
                e.source_port,
                destination,
                timestamp,
            );
        },
        TelemetryEventView::OutboundNetwork(e) => {
            lemma_network_parts(e);
            let source = e.source_hostname->0;
            let destination = e.destination_hostname->0;
            lemma_outbound_shape(
                e.process_id,
                source,
                e.source_port,
                destination,
                e.destination_port,
                timestamp,
                true,
            );
            lemma_outbound_shape(
                e.process_id,
                source,
                e.source_port,
                destination,
                e.destination_port,
                timestamp,
                false,
            );
        },
    }
}

/// A network event that a rule accepts names both of its hosts.
proof fn lemma_network_parts(event: NetworkEventView)
    ensures
        crate::rules::inbound_connection_outcome(event) is Ok ==> event.source_hostname is Some
            && event.destination_hostname is Some,
        crate::rules::outbound_connection_outcome(event) is Ok ==> event.source_hostname is Some
            && event.destination_hostname is Some,
{
}

/// The key of a node is made of its kind and of what tells one entity of that
/// kind from another, and of nothing else. Two nodes of one kind share a key
/// exactly where they agree on every identifying attribute, whatever their
/// state, instant or image; nodes of different kinds never share one.
pub proof fn lemma_keys_identify_entities(
    host: HostIdView,
    other_host: HostIdView,
    pid: u64,
    other_pid: u64,
    name: Seq<char>,
    other_name: Seq<char>,
    path: Seq<char>,
    other_path: Seq<char>,
    port: u16,
    other_port: u16,
    state: NodeState,
    other_state: NodeState,
    timestamp: u64,
    other_timestamp: u64,
    image: Option<Seq<char>>,
    other_image: Option<Seq<char>>,
)
    ensures
        process_node(host, pid, state, timestamp, image).key == process_node(
            other_host,
            other_pid,
            other_state,
            other_timestamp,
            other_image,
        ).key <==> host == other_host && pid == other_pid,
        file_node(name, path, state, timestamp).key == file_node(
            other_name,
            other_path,
            other_state,
            other_timestamp,
        ).key <==> name == other_name && path == other_path,
        inbound_connection_node(name, port, state, timestamp).key == inbound_connection_node(
            other_name,
            other_port,
            other_state,
            other_timestamp,
        ).key <==> name == other_name && port == other_port,
        outbound_connection_node(name, port, state, timestamp).key == outbound_connection_node(
            other_name,
            other_port,
            other_state,
            other_timestamp,
        ).key <==> name == other_name && port == other_port,
        ip_address_node(name, timestamp).key == ip_address_node(other_name, other_timestamp).key
            <==> name == other_name,
        process_node(host, pid, state, timestamp, image).key != file_node(
            other_name,
            other_path,
            other_state,
            other_timestamp,
        ).key,
        inbound_connection_node(name, port, state, timestamp).key != outbound_connection_node(
            other_name,
            other_port,
            other_state,
            other_timestamp,
        ).key,
        ip_address_node(name, timestamp).key != inbound_connection_node(
            other_name,
            other_port,
            other_state,
            other_timestamp,
        ).key,
        ip_address_node(name, timestamp).key != outbound_connection_node(
            other_name,
            other_port,
            other_state,
            other_timestamp,
        ).key,
        ip_address_node(name, timestamp).key != process_node(
            other_host,
            other_pid,
            other_state,
            other_timestamp,
            other_image,
        ).key,
        inbound_connection_node(name, port, state, timestamp).key != process_node(
            other_host,
            other_pid,
            other_state,
            other_timestamp,
            other_image,
        ).key,
        outbound_connection_node(name, port, state, timestamp).key != process_node(
            other_host,
            other_pid,
            other_state,
            other_timestamp,
            other_image,
        ).key,
{
}

/// A rule maps the same event to the same outcome every time: two results for
/// one event agree on success, and where they succeed on the instant, on the
/// nodes with their keys and on the edges.
pub proof fn lemma_rules_are_repeatable(
    event: TelemetryEventView,
    first: Result<GraphFragment, MappingError>,
    second: Result<GraphFragment, MappingError>,
)
    requires
        outcome_view(first) == event_outcome(event),
        outcome_view(second) == event_outcome(event),
    ensures
        first is Ok <==> second is Ok,
        first is Ok ==> first->Ok_0@ == second->Ok_0@,
        first is Err ==> first->Err_0 == second->Err_0,
{
}

/// How many of the decoded records give no fragment: those that were not
/// decoded and those whose rule failed.
pub open spec fn dropped(decoded: Seq<Option<TelemetryEventView>>) -> nat
    decreases decoded.len(),
{
    if decoded.len() == 0 {
        0
    } else {
        dropped(decoded.drop_last()) + if fragment_of(decoded.last()) is None {
            1nat
        } else {
            0nat
        }
    }
}

/// A batch holds one fragment for each record but those that failed to decode
/// or to map.
pub proof fn lemma_batch_size(decoded: Seq<Option<TelemetryEventView>>)
    ensures
        batch_of(decoded).len() + dropped(decoded) == decoded.len(),
    decreases decoded.len(),
{
    if decoded.len() > 0 {
        lemma_batch_size(decoded.drop_last());
    }
}

/// Where every record fails, the batch is empty.
pub proof fn lemma_all_dropped_batch_is_empty(decoded: Seq<Option<TelemetryEventView>>)
    requires
        forall|i: int| 0 <= i < decoded.len() ==> fragment_of(#[trigger] decoded[i]) is None,
    ensures
        batch_of(decoded) == Seq::<GraphFragmentView>::empty(),
    decreases decoded.len(),
{
    if decoded.len() > 0 {
        let before = decoded.drop_last();
        assert forall|i: int| 0 <= i < before.len() implies fragment_of(#[trigger] before[i])
            is None by {
            assert(before[i] == decoded[i]);
        }
        lemma_all_dropped_batch_is_empty(before);
        assert(decoded.last() == decoded[decoded.len() - 1]);
    }
}

/// Every fragment of a batch is the fragment of one of the records, and the
/// fragments keep the order of their records.
pub proof fn lemma_batch_holds_fragments_of_records(
    decoded: Seq<Option<TelemetryEventView>>,
    at: int,
)
    requires
        0 <= at < batch_of(decoded).len(),
    ensures
        exists|i: int|
            0 <= i < decoded.len() && fragment_of(#[trigger] decoded[i]) == Some(
                batch_of(decoded)[at],
            ),
    decreases decoded.len(),
{
    let before = decoded.drop_last();
    let last = decoded.len() - 1;
    if fragment_of(decoded.last()) is Some && at == batch_of(before).len() {
        assert(fragment_of(decoded[last]) == Some(batch_of(decoded)[at]));
    } else {
        lemma_batch_holds_fragments_of_records(before, at);
        let i = choose|i: int|
            0 <= i < before.len() && fragment_of(#[trigger] before[i]) == Some(
                batch_of(before)[at],
            );
        assert(before[i] == decoded[i]);
        assert(fragment_of(decoded[i]) == Some(batch_of(decoded)[at]));
    }
}

} // verus!

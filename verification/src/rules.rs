//! The construction rules: one per kind of telemetry event, each giving the
//! graph fragment that the event stands for.

use vstd::prelude::*;
use vstd::utf8::encode_utf8;
use crate::endpoint::{internal_address, is_internal_ip};
use crate::event::{
    EventKind, FileCreateEvent, FileCreateEventView, NetworkEvent, NetworkEventView,
    ProcessCreateEvent, ProcessCreateEventView, TelemetryEvent, TelemetryEventView,
};
use crate::graph::{
    edge_between, file_node, inbound_connection_node, ip_address_node, outbound_connection_node,
    process_node, EdgeLabel, GraphFragment, GraphFragmentView, HostId, HostIdView, Node,
    NodeState,
};
use crate::timestamp::{epoch_millis, utc_to_epoch, TimestampError};

verus! {

/// The field of an event that a rule could not use.
#[derive(Clone, Copy, Debug, PartialEq, Eq, Structural)]
pub enum EventField {
    UtcTime,
    SourceHostname,
    DestinationHostname,
}

/// What was wrong with the field.
#[derive(Clone, Copy, Debug, PartialEq, Eq, Structural)]
pub enum MappingFailure {
    /// The record does not carry the field.
    Missing,
    /// The field is no usable instant.
    Timestamp(TimestampError),
}

/// Why a rule gave no fragment for an event. The event is dropped; nothing of
/// it reaches the batch.
#[derive(Clone, Copy, Debug, PartialEq, Eq, Structural)]
pub struct MappingError {
    pub kind: EventKind,
    pub field: EventField,
    pub failure: MappingFailure,
}

/// The error of an event whose instant cannot be normalised.
pub open spec fn bad_timestamp(kind: EventKind, error: TimestampError) -> MappingError {
    MappingError { kind, field: EventField::UtcTime, failure: MappingFailure::Timestamp(error) }
}

/// The error of an event that lacks `field`.
pub open spec fn missing_field(kind: EventKind, field: EventField) -> MappingError {
    MappingError { kind, field, failure: MappingFailure::Missing }
}

/// The fragment of a process start at `timestamp`: the executable of the new
/// process, its parent and the new process itself, with `bin_file` from the
/// child to its executable and `children` from the parent to the child.
pub open spec fn process_start_graph(
    event: ProcessCreateEventView,
    timestamp: u64,
) -> GraphFragmentView {
    let host = HostIdView::Asset(event.host);
    let parent = process_node(
        host,
        event.parent_process_id,
        NodeState::Existing,
        timestamp,
        None,
    );
    let child = process_node(
        host,
        event.process_id,
        NodeState::Created,
        timestamp,
        Some(event.image),
    );
    let child_exe = file_node(event.host, event.image, NodeState::Existing, timestamp);
    GraphFragmentView::empty(timestamp).with_node(child_exe).with_node(parent).with_node(
        child,
    ).with_edge(edge_between(EdgeLabel::BinFile, child, child_exe)).with_edge(
        edge_between(EdgeLabel::Children, parent, child),
    )
}

/// The fragment of a file creation at `timestamp`: the creating process and the
/// new file, with `created_files` from the process to the file.
pub open spec fn file_create_graph(event: FileCreateEventView, timestamp: u64) -> GraphFragmentView {
    let creator = process_node(
        HostIdView::Asset(event.host),
        event.process_id,
        NodeState::Existing,
        timestamp,
        None,
    );
    let file = file_node(event.host, event.target_filename, NodeState::Created, timestamp);
    GraphFragmentView::empty(timestamp).with_node(creator).with_node(file).with_edge(
        edge_between(EdgeLabel::CreatedFiles, creator, file),
    )
}

/// The fragment of an inbound connection at `timestamp`. The listening process
/// is bound to the local half of the connection. An internal remote end is the
/// other half, connected to the local one; an external remote end is a bare
/// address that the local half is connected to.
pub open spec fn inbound_connection_graph(
    process_id: u64,
    source: Seq<char>,
    source_port: u16,
    destination: Seq<char>,
    timestamp: u64,
    internal: bool,
) -> GraphFragmentView {
    let process = process_node(
        HostIdView::Ip(source),
        process_id,
        NodeState::Existing,
        timestamp,
        None,
    );
    let inbound = inbound_connection_node(source, source_port, NodeState::Created, timestamp);
    let bound = edge_between(EdgeLabel::BoundConnection, process, inbound);
    if internal {
        let remote = inbound_connection_node(
            destination,
            source_port,
            NodeState::Created,
            timestamp,
        );
        GraphFragmentView::empty(timestamp).with_node(remote).with_node(inbound).with_node(
            process,
        ).with_edge(edge_between(EdgeLabel::Connection, remote, inbound)).with_edge(bound)
    } else {
        let external_ip = ip_address_node(destination, timestamp);
        GraphFragmentView::empty(timestamp).with_node(external_ip).with_node(inbound).with_node(
            process,
        ).with_edge(edge_between(EdgeLabel::ExternalConnection, inbound, external_ip)).with_edge(
            bound,
        )
    }
}

/// The fragment of an outbound connection at `timestamp`. The originating
/// process created the local half of the connection. An internal remote end is
/// the receiving half, which the local one is connected to; an external remote
/// end is a bare address.
pub open spec fn outbound_connection_graph(
    process_id: u64,
    source: Seq<char>,
    source_port: u16,
    destination: Seq<char>,
    destination_port: u16,
    timestamp: u64,
    internal: bool,
) -> GraphFragmentView {
    let process = process_node(
        HostIdView::Ip(source),
        process_id,
        NodeState::Existing,
        timestamp,
        None,
    );
    let outbound = outbound_connection_node(source, source_port, NodeState::Created, timestamp);
    let created = edge_between(EdgeLabel::CreatedConnection, process, outbound);
    if internal {
        let inbound = inbound_connection_node(
            destination,
            destination_port,
            NodeState::Existing,
            timestamp,
        );
        GraphFragmentView::empty(timestamp).with_node(inbound).with_node(outbound).with_node(
            process,
        ).with_edge(edge_between(EdgeLabel::Connection, outbound, inbound)).with_edge(created)
    } else {
        let external_ip = ip_address_node(destination, timestamp);
        GraphFragmentView::empty(timestamp).with_node(external_ip).with_node(outbound).with_node(
            process,
        ).with_edge(edge_between(EdgeLabel::ExternalConnection, outbound, external_ip)).with_edge(
            created,
        )
    }
}

/// Whether the host `name`, taken as the bytes of its text, is internal.
pub open spec fn internal_host(name: Seq<char>) -> bool {
    internal_address(encode_utf8(name))
}

/// What the rule for process starts gives for `event`.
pub open spec fn process_start_outcome(event: ProcessCreateEventView) -> Result<
    GraphFragmentView,
    MappingError,
> {
    match epoch_millis(event.utc_time) {
        Ok(timestamp) => Ok(process_start_graph(event, timestamp)),
        Err(error) => Err(bad_timestamp(EventKind::ProcessCreate, error)),
    }
}

/// What the rule for file creations gives for `event`.
pub open spec fn file_create_outcome(event: FileCreateEventView) -> Result<
    GraphFragmentView,
    MappingError,
> {
    match epoch_millis(event.creation_utc_time) {
        Ok(timestamp) => Ok(file_create_graph(event, timestamp)),
        Err(error) => Err(bad_timestamp(EventKind::FileCreate, error)),
    }
}

/// What the rule for inbound connections gives for `event`. The instant is
/// looked at first, then the source, then the destination.
pub open spec fn inbound_connection_outcome(event: NetworkEventView) -> Result<
    GraphFragmentView,
    MappingError,
> {
    match epoch_millis(event.utc_time) {
        Err(error) => Err(bad_timestamp(EventKind::InboundNetwork, error)),
        Ok(timestamp) => match event.source_hostname {
            None => Err(missing_field(EventKind::InboundNetwork, EventField::SourceHostname)),
            Some(source) => match event.destination_hostname {
                None => Err(
                    missing_field(EventKind::InboundNetwork, EventField::DestinationHostname),
                ),
                Some(destination) => Ok(
                    inbound_connection_graph(
                        event.process_id,
                        source,
                        event.source_port,
                        destination,
                        timestamp,
                        internal_host(destination),
                    ),
                ),
            },
        },
    }
}

/// What the rule for outbound connections gives for `event`. The instant is
/// looked at first, then the source, then the destination.
pub open spec fn outbound_connection_outcome(event: NetworkEventView) -> Result<
    GraphFragmentView,
    MappingError,
> {
    match epoch_millis(event.utc_time) {
        Err(error) => Err(bad_timestamp(EventKind::OutboundNetwork, error)),
        Ok(timestamp) => match event.source_hostname {
            None => Err(missing_field(EventKind::OutboundNetwork, EventField::SourceHostname)),
            Some(source) => match event.destination_hostname {
                None => Err(
                    missing_field(EventKind::OutboundNetwork, EventField::DestinationHostname),
                ),
                Some(destination) => Ok(
                    outbound_connection_graph(
                        event.process_id,
                        source,
                        event.source_port,
                        destination,
                        event.destination_port,
                        timestamp,
                        internal_host(destination),
                    ),
                ),
            },
        },
    }
}

/// What the rule for the kind of `event` gives for it.
pub open spec fn event_outcome(event: TelemetryEventView) -> Result<
    GraphFragmentView,
    MappingError,
> {
    match event {
        TelemetryEventView::ProcessCreate(e) => process_start_outcome(e),
        TelemetryEventView::FileCreate(e) => file_create_outcome(e),
        TelemetryEventView::InboundNetwork(e) => inbound_connection_outcome(e),
        TelemetryEventView::OutboundNetwork(e) => outbound_connection_outcome(e),
    }
}

/// The model of what a rule returned.
pub open spec fn outcome_view(outcome: Result<GraphFragment, MappingError>) -> Result<
    GraphFragmentView,
    MappingError,
> {
    match outcome {
        Ok(graph) => Ok(graph@),
        Err(error) => Err(error),
    }
}

/// Builds the fragment of a process start whose instant is `timestamp`.
pub fn map_process_start(event: ProcessCreateEvent, timestamp: u64) -> (graph: GraphFragment)
    ensures
        graph@ == process_start_graph(event@, timestamp),
        graph@.well_formed(),
{
    let ProcessCreateEvent { host, utc_time: _, process_id, parent_process_id, image } = event;
    let parent = Node::process(
        HostId::Asset(host.clone()),
        parent_process_id,
        NodeState::Existing,
        timestamp,
        None,
    );
    let child = Node::process(
        HostId::Asset(host.clone()),
        process_id,
        NodeState::Created,
        timestamp,
        Some(image.clone()),
    );
    let child_exe = Node::file(host, image, NodeState::Existing, timestamp);
    let child_key = child.clone_key();
    let child_exe_key = child_exe.clone_key();
    let parent_key = parent.clone_key();
    let child_key_again = child.clone_key();

    let mut graph = GraphFragment::new(timestamp);
    graph.add_node(child_exe);
    graph.add_node(parent);
    graph.add_node(child);
    graph.add_edge(EdgeLabel::BinFile, child_key, child_exe_key);
    graph.add_edge(EdgeLabel::Children, parent_key, child_key_again);
    graph
}

/// Builds the fragment of a file creation whose instant is `timestamp`.
pub fn map_file_create(event: FileCreateEvent, timestamp: u64) -> (graph: GraphFragment)
    ensures
        graph@ == file_create_graph(event@, timestamp),
        graph@.well_formed(),
{
    let FileCreateEvent { host, creation_utc_time: _, process_id, target_filename } = event;
    let creator = Node::process(
        HostId::Asset(host.clone()),
        process_id,
        NodeState::Existing,
        timestamp,
        None,
    );
    let file = Node::file(host, target_filename, NodeState::Created, timestamp);
    let creator_key = creator.clone_key();
    let file_key = file.clone_key();

    let mut graph = GraphFragment::new(timestamp);
    graph.add_node(creator);
    graph.add_node(file);
    graph.add_edge(EdgeLabel::CreatedFiles, creator_key, file_key);
    graph
}

/// Builds the fragment of an inbound connection whose instant is `timestamp`
/// and whose remote end is internal or not, as `internal` says.
pub fn map_inbound_connection(
    process_id: u64,
    source: String,
    source_port: u16,
    destination: String,
    timestamp: u64,
    internal: bool,
) -> (graph: GraphFragment)
    ensures
        graph@ == inbound_connection_graph(
            process_id,
            source@,
            source_port,
            destination@,
            timestamp,
            internal,
        ),
        graph@.well_formed(),
{
    let process = Node::process(
        HostId::Ip(source.clone()),
        process_id,
        NodeState::Existing,
        timestamp,
        None,
    );
    let inbound = Node::inbound_connection(source, source_port, NodeState::Created, timestamp);
    let process_key = process.clone_key();
    let inbound_key = inbound.clone_key();
    let inbound_key_again = inbound.clone_key();

    let mut graph = GraphFragment::new(timestamp);
    if internal {
        let remote = Node::inbound_connection(
            destination,
            source_port,
            NodeState::Created,
            timestamp,
        );
        let remote_key = remote.clone_key();
        graph.add_node(remote);
        graph.add_node(inbound);
        graph.add_node(process);
        graph.add_edge(EdgeLabel::Connection, remote_key, inbound_key);
    } else {
        let external_ip = Node::ip_address(destination, timestamp);
        let external_ip_key = external_ip.clone_key();
        graph.add_node(external_ip);
        graph.add_node(inbound);
        graph.add_node(process);
        graph.add_edge(EdgeLabel::ExternalConnection, inbound_key, external_ip_key);
    }
    graph.add_edge(EdgeLabel::BoundConnection, process_key, inbound_key_again);
    graph
}

/// Builds the fragment of an outbound connection whose instant is `timestamp`
/// and whose remote end is internal or not, as `internal` says.
pub fn map_outbound_connection(
    process_id: u64,
    source: String,
    source_port: u16,
    destination: String,
    destination_port: u16,
    timestamp: u64,
    internal: bool,
) -> (graph: GraphFragment)
    ensures
        graph@ == outbound_connection_graph(
            process_id,
            source@,
            source_port,
            destination@,
            destination_port,
            timestamp,
            internal,
        ),
        graph@.well_formed(),
{
    let process = Node::process(
        HostId::Ip(source.clone()),
        process_id,
        NodeState::Existing,
        timestamp,
        None,
    );
    let outbound = Node::outbound_connection(source, source_port, NodeState::Created, timestamp);
    let process_key = process.clone_key();
    let outbound_key = outbound.clone_key();
    let outbound_key_again = outbound.clone_key();

    let mut graph = GraphFragment::new(timestamp);
    if internal {
        let inbound = Node::inbound_connection(
            destination,
            destination_port,
            NodeState::Existing,
            timestamp,
        );
        let inbound_key = inbound.clone_key();
        graph.add_node(inbound);
        graph.add_node(outbound);
        graph.add_node(process);
        graph.add_edge(EdgeLabel::Connection, outbound_key, inbound_key);
    } else {
        let external_ip = Node::ip_address(destination, timestamp);
        let external_ip_key = external_ip.clone_key();
        graph.add_node(external_ip);
        graph.add_node(outbound);
        graph.add_node(process);
        graph.add_edge(EdgeLabel::ExternalConnection, outbound_key, external_ip_key);
    }
    graph.add_edge(EdgeLabel::CreatedConnection, process_key, outbound_key_again);
    graph
}

/// The rule for process starts: normalises the instant of `process_start` and
/// builds its fragment.
pub fn handle_process_start(process_start: ProcessCreateEvent) -> (outcome: Result<
    GraphFragment,
    MappingError,
>)
    ensures
        outcome_view(outcome) == process_start_outcome(process_start@),
        outcome matches Ok(graph) ==> graph@.well_formed(),
{
    match utc_to_epoch(process_start.utc_time.as_str()) {
        Ok(timestamp) => Ok(map_process_start(process_start, timestamp)),
        Err(error) => Err(
            MappingError {
                kind: EventKind::ProcessCreate,
                field: EventField::UtcTime,
                failure: MappingFailure::Timestamp(error),
            },
        ),
    }
}

/// The rule for file creations: normalises the instant of `file_create` and
/// builds its fragment.
pub fn handle_file_create(file_create: FileCreateEvent) -> (outcome: Result<
    GraphFragment,
    MappingError,
>)
    ensures
        outcome_view(outcome) == file_create_outcome(file_create@),
        outcome matches Ok(graph) ==> graph@.well_formed(),
{
    match utc_to_epoch(file_create.creation_utc_time.as_str()) {
        Ok(timestamp) => Ok(map_file_create(file_create, timestamp)),
        Err(error) => Err(
            MappingError {
                kind: EventKind::FileCreate,
                field: EventField::UtcTime,
                failure: MappingFailure::Timestamp(error),
            },
        ),
    }
}

/// The rule for inbound connections: normalises the instant, asks for both
/// host names, classifies the remote end and builds the fragment.
pub fn handle_inbound_connection(inbound_connection: NetworkEvent) -> (outcome: Result<
    GraphFragment,
    MappingError,
>)
    ensures
        outcome_view(outcome) == inbound_connection_outcome(inbound_connection@),
        outcome matches Ok(graph) ==> graph@.well_formed(),
{
    let kind = EventKind::InboundNetwork;
    let NetworkEvent {
        host: _,
        utc_time,
        process_id,
        source_hostname,
        source_port,
        destination_hostname,
        destination_port: _,
    } = inbound_connection;
    let timestamp = match utc_to_epoch(utc_time.as_str()) {
        Ok(timestamp) => timestamp,
        Err(error) => {
            return Err(
                MappingError {
                    kind,
                    field: EventField::UtcTime,
                    failure: MappingFailure::Timestamp(error),
                },
            );
        },
    };
    let source = match source_hostname {
        Some(source) => source,
        None => {
            return Err(
                MappingError {
                    kind,
                    field: EventField::SourceHostname,
                    failure: MappingFailure::Missing,
                },
            );
        },
    };
    let destination = match destination_hostname {
        Some(destination) => destination,
        None => {
            return Err(
                MappingError {
                    kind,
                    field: EventField::DestinationHostname,
                    failure: MappingFailure::Missing,
                },
            );
        },
    };
    let internal = is_internal_ip(destination.as_str().as_bytes());
    Ok(map_inbound_connection(process_id, source, source_port, destination, timestamp, internal))
}

/// The rule for outbound connections: normalises the instant, asks for both
/// host names, classifies the remote end and builds the fragment.
pub fn handle_outbound_connection(outbound_connection: NetworkEvent) -> (outcome: Result<
    GraphFragment,
    MappingError,
>)
    ensures
        outcome_view(outcome) == outbound_connection_outcome(outbound_connection@),
        outcome matches Ok(graph) ==> graph@.well_formed(),
{
    let kind = EventKind::OutboundNetwork;
    let NetworkEvent {
        host: _,
        utc_time,
        process_id,
        source_hostname,
        source_port,
        destination_hostname,
        destination_port,
    } = outbound_connection;
    let timestamp = match utc_to_epoch(utc_time.as_str()) {
        Ok(timestamp) => timestamp,
        Err(error) => {
            return Err(
                MappingError {
                    kind,
                    field: EventField::UtcTime,
                    failure: MappingFailure::Timestamp(error),
                },
            );
        },
    };
    let source = match source_hostname {
        Some(source) => source,
        None => {
            return Err(
                MappingError {
                    kind,
                    field: EventField::SourceHostname,
                    failure: MappingFailure::Missing,
                },
            );
        },
    };
    let destination = match destination_hostname {
        Some(destination) => destination,
        None => {
            return Err(
                MappingError {
                    kind,
                    field: EventField::DestinationHostname,
                    failure: MappingFailure::Missing,
                },
            );
        },
    };
    let internal = is_internal_ip(destination.as_str().as_bytes());
    Ok(
        map_outbound_connection(
            process_id,
            source,
            source_port,
            destination,
            destination_port,
            timestamp,
            internal,
        ),
    )
}

/// Hands `event` to the rule for its kind.
pub fn map_event(event: TelemetryEvent) -> (outcome: Result<GraphFragment, MappingError>)
    ensures
        outcome_view(outcome) == event_outcome(event@),
        outcome matches Ok(graph) ==> graph@.well_formed(),
{
    match event {
        TelemetryEvent::ProcessCreate(e) => handle_process_start(e),
        TelemetryEvent::FileCreate(e) => handle_file_create(e),
        TelemetryEvent::InboundNetwork(e) => handle_inbound_connection(e),
        TelemetryEvent::OutboundNetwork(e) => handle_outbound_connection(e),
    }
}

} // verus!

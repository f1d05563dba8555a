//! Maps host telemetry (process starts, file creations, network connections)
//! into fragments of a provenance graph.
//!
//! Every record of a batch is decoded, classified and turned into a small,
//! self-contained graph of typed nodes and labelled edges. Records that cannot
//! be decoded or mapped are dropped without disturbing their neighbours.

pub mod batch;
pub mod endpoint;
pub mod event;
pub mod graph;
pub mod laws;
pub mod rules;
pub mod timestamp;

pub use timestamp::utc_to_epoch;
pub use batch::{SinkError, SysmonSubgraphGenerator};
pub use endpoint::is_internal_ip;
pub use event::{
    DecodeError, EventKind, FileCreateEvent, NetworkEvent, ProcessCreateEvent, TelemetryEvent,
};
pub use graph::{Edge, EdgeLabel, GraphFragment, HostId, Node, NodeKey, NodeState};
pub use rules::{
    handle_file_create, handle_inbound_connection, handle_outbound_connection,
    handle_process_start, map_event, EventField, MappingError, MappingFailure,
};
pub use timestamp::TimestampError;

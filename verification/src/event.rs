//! Telemetry events as the mapping rules read them.

use vstd::prelude::*;
use crate::graph::text_view;

verus! {

/// The four kinds of telemetry that are mapped.
#[derive(Clone, Copy, Debug, PartialEq, Eq, Structural)]
pub enum EventKind {
    ProcessCreate,
    FileCreate,
    InboundNetwork,
    OutboundNetwork,
}

/// A process was started.
#[derive(Clone, Debug, PartialEq, Eq)]
pub struct ProcessCreateEvent {
    /// The asset that reported the event.
    pub host: String,
    /// When the process started: `YYYY-MM-DD HH:MM:SS.fff`, UTC.
    pub utc_time: String,
    pub process_id: u64,
    pub parent_process_id: u64,
    /// Path of the executable that the process runs.
    pub image: String,
}

/// Mathematical model of a [`ProcessCreateEvent`].
pub struct ProcessCreateEventView {
    pub host: Seq<char>,
    pub utc_time: Seq<char>,
    pub process_id: u64,
    pub parent_process_id: u64,
    pub image: Seq<char>,
}

impl View for ProcessCreateEvent {
    type V = ProcessCreateEventView;

    open spec fn view(&self) -> ProcessCreateEventView {
        ProcessCreateEventView {
            host: self.host@,
            utc_time: self.utc_time@,
            process_id: self.process_id,
            parent_process_id: self.parent_process_id,
            image: self.image@,
        }
    }
}

/// A process created a file.
#[derive(Clone, Debug, PartialEq, Eq)]
pub struct FileCreateEvent {
    /// The asset that reported the event.
    pub host: String,
    /// When the file was created: `YYYY-MM-DD HH:MM:SS.fff`, UTC.
    pub creation_utc_time: String,
    /// The process that created the file.
    pub process_id: u64,
    pub target_filename: String,
}

/// Mathematical model of a [`FileCreateEvent`].
pub struct FileCreateEventView {
    pub host: Seq<char>,
    pub creation_utc_time: Seq<char>,
    pub process_id: u64,
    pub target_filename: Seq<char>,
}

impl View for FileCreateEvent {
    type V = FileCreateEventView;

    open spec fn view(&self) -> FileCreateEventView {
        FileCreateEventView {
            host: self.host@,
            creation_utc_time: self.creation_utc_time@,
            process_id: self.process_id,
            target_filename: self.target_filename@,
        }
    }
}

/// A process took part in a network connection. The source is the side that
/// the reporting asset observed; a host name may be missing from the record.
#[derive(Clone, Debug, PartialEq, Eq)]
pub struct NetworkEvent {
    /// The asset that reported the event.
    pub host: String,
    /// When the connection was seen: `YYYY-MM-DD HH:MM:SS.fff`, UTC.
    pub utc_time: String,
    pub process_id: u64,
    pub source_hostname: Option<String>,
    pub source_port: u16,
    pub destination_hostname: Option<String>,
    pub destination_port: u16,
}

/// Mathematical model of a [`NetworkEvent`].
pub struct NetworkEventView {
    pub host: Seq<char>,
    pub utc_time: Seq<char>,
    pub process_id: u64,
    pub source_hostname: Option<Seq<char>>,
    pub source_port: u16,
    pub destination_hostname: Option<Seq<char>>,
    pub destination_port: u16,
}

impl View for NetworkEvent {
    type V = NetworkEventView;

    open spec fn view(&self) -> NetworkEventView {
        NetworkEventView {
            host: self.host@,
            utc_time: self.utc_time@,
            process_id: self.process_id,
            source_hostname: text_view(self.source_hostname),
            source_port: self.source_port,
            destination_hostname: text_view(self.destination_hostname),
            destination_port: self.destination_port,
        }
    }
}

/// One decoded telemetry record.
#[derive(Clone, Debug, PartialEq, Eq)]
pub enum TelemetryEvent {
    ProcessCreate(ProcessCreateEvent),
    FileCreate(FileCreateEvent),
    InboundNetwork(NetworkEvent),
    OutboundNetwork(NetworkEvent),
}

/// Mathematical model of a [`TelemetryEvent`].
pub enum TelemetryEventView {
    ProcessCreate(ProcessCreateEventView),
    FileCreate(FileCreateEventView),
    InboundNetwork(NetworkEventView),
    OutboundNetwork(NetworkEventView),
}

impl TelemetryEventView {
    /// The kind of the event.
    pub open spec fn kind(self) -> EventKind {
        match self {
            TelemetryEventView::ProcessCreate(_) => EventKind::ProcessCreate,
            TelemetryEventView::FileCreate(_) => EventKind::FileCreate,
            TelemetryEventView::InboundNetwork(_) => EventKind::InboundNetwork,
            TelemetryEventView::OutboundNetwork(_) => EventKind::OutboundNetwork,
        }
    }
}

impl View for TelemetryEvent {
    type V = TelemetryEventView;

    open spec fn view(&self) -> TelemetryEventView {
        match self {
            TelemetryEvent::ProcessCreate(e) => TelemetryEventView::ProcessCreate(e@),
            TelemetryEvent::FileCreate(e) => TelemetryEventView::FileCreate(e@),
            TelemetryEvent::InboundNetwork(e) => TelemetryEventView::InboundNetwork(e@),
            TelemetryEvent::OutboundNetwork(e) => TelemetryEventView::OutboundNetwork(e@),
        }
    }
}

impl TelemetryEvent {
    /// The kind of the event.
    pub fn kind(&self) -> (r: EventKind)
        ensures
            r == self@.kind(),
    {
        match self {
            TelemetryEvent::ProcessCreate(_) => EventKind::ProcessCreate,
            TelemetryEvent::FileCreate(_) => EventKind::FileCreate,
            TelemetryEvent::InboundNetwork(_) => EventKind::InboundNetwork,
            TelemetryEvent::OutboundNetwork(_) => EventKind::OutboundNetwork,
        }
    }
}

/// A record that is no telemetry event of a known kind.
#[derive(Clone, Copy, Debug, PartialEq, Eq, Structural)]
pub struct DecodeError;

} // verus!

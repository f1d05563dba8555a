//! Graph fragments: typed nodes keyed by identity, joined by labelled edges.

use vstd::prelude::*;

verus! {

/// Whether an entity came into being with the event or was merely seen by it.
#[derive(Clone, Copy, Debug, PartialEq, Eq, Structural)]
pub enum NodeState {
    /// Inferred from the event; it existed before.
    Existing,
    /// Brought into being by the event.
    Created,
}

/// The machine that an entity lives on.
#[derive(Clone, Debug, PartialEq, Eq)]
pub enum HostId {
    /// The name under which the asset reports its telemetry.
    Asset(String),
    /// The address or host name seen on the wire.
    Ip(String),
}

/// Mathematical model of a [`HostId`].
pub enum HostIdView {
    Asset(Seq<char>),
    Ip(Seq<char>),
}

impl View for HostId {
    type V = HostIdView;

    open spec fn view(&self) -> HostIdView {
        match self {
            HostId::Asset(name) => HostIdView::Asset(name@),
            HostId::Ip(address) => HostIdView::Ip(address@),
        }
    }
}

impl HostId {
    /// Whether two hosts are the same one.
    pub fn same(&self, other: &HostId) -> (r: bool)
        ensures
            r == (self@ == other@),
    {
        match (self, other) {
            (HostId::Asset(a), HostId::Asset(b)) => *a == *b,
            (HostId::Ip(a), HostId::Ip(b)) => *a == *b,
            _ => false,
        }
    }

    /// A copy of this host.
    pub fn duplicate(&self) -> (r: HostId)
        ensures
            r@ == self@,
    {
        match self {
            HostId::Asset(name) => HostId::Asset(name.clone()),
            HostId::Ip(address) => HostId::Ip(address.clone()),
        }
    }
}

/// The identity of a node: its kind together with the attributes that tell one
/// entity of that kind from another. Two keys are equal exactly when they name
/// the same entity, so a key can neither drift nor collide.
#[derive(Clone, Debug, PartialEq, Eq)]
pub enum NodeKey {
    Process { host: HostId, pid: u64 },
    File { host: HostId, path: String },
    IpAddress { address: String },
    InboundConnection { host_ip: String, port: u16 },
    OutboundConnection { host_ip: String, port: u16 },
}

/// Mathematical model of a [`NodeKey`].
pub enum NodeKeyView {
    Process { host: HostIdView, pid: u64 },
    File { host: HostIdView, path: Seq<char> },
    IpAddress { address: Seq<char> },
    InboundConnection { host_ip: Seq<char>, port: u16 },
    OutboundConnection { host_ip: Seq<char>, port: u16 },
}

impl View for NodeKey {
    type V = NodeKeyView;

    open spec fn view(&self) -> NodeKeyView {
        match self {
            NodeKey::Process { host, pid } => NodeKeyView::Process { host: host@, pid: *pid },
            NodeKey::File { host, path } => NodeKeyView::File { host: host@, path: path@ },
            NodeKey::IpAddress { address } => NodeKeyView::IpAddress { address: address@ },
            NodeKey::InboundConnection { host_ip, port } => NodeKeyView::InboundConnection {
                host_ip: host_ip@,
                port: *port,
            },
            NodeKey::OutboundConnection { host_ip, port } => NodeKeyView::OutboundConnection {
                host_ip: host_ip@,
                port: *port,
            },
        }
    }
}

impl NodeKey {
    /// Whether two keys name the same entity.
    pub fn same(&self, other: &NodeKey) -> (r: bool)
        ensures
            r == (self@ == other@),
    {
        match (self, other) {
            (NodeKey::Process { host: h1, pid: p1 }, NodeKey::Process { host: h2, pid: p2 }) => {
                h1.same(h2) && *p1 == *p2
            },
            (NodeKey::File { host: h1, path: p1 }, NodeKey::File { host: h2, path: p2 }) => {
                h1.same(h2) && *p1 == *p2
            },
            (NodeKey::IpAddress { address: a1 }, NodeKey::IpAddress { address: a2 }) => *a1 == *a2,
            (
                NodeKey::InboundConnection { host_ip: h1, port: p1 },
                NodeKey::InboundConnection { host_ip: h2, port: p2 },
            ) => *h1 == *h2 && *p1 == *p2,
            (
                NodeKey::OutboundConnection { host_ip: h1, port: p1 },
                NodeKey::OutboundConnection { host_ip: h2, port: p2 },
            ) => *h1 == *h2 && *p1 == *p2,
            _ => false,
        }
    }

    /// A copy of this key.
    pub fn duplicate(&self) -> (r: NodeKey)
        ensures
            r@ == self@,
    {
        match self {
            NodeKey::Process { host, pid } => NodeKey::Process { host: host.duplicate(), pid: *pid },
            NodeKey::File { host, path } => NodeKey::File {
                host: host.duplicate(),
                path: path.clone(),
            },
            NodeKey::IpAddress { address } => NodeKey::IpAddress { address: address.clone() },
            NodeKey::InboundConnection { host_ip, port } => NodeKey::InboundConnection {
                host_ip: host_ip.clone(),
                port: *port,
            },
            NodeKey::OutboundConnection { host_ip, port } => NodeKey::OutboundConnection {
                host_ip: host_ip.clone(),
                port: *port,
            },
        }
    }
}

/// One entity as one event saw it.
#[derive(Clone, Debug, PartialEq, Eq)]
pub struct Node {
    /// Which entity this is.
    pub key: NodeKey,
    /// Whether the event created the entity or only saw it.
    pub state: NodeState,
    /// Epoch milliseconds of the event that saw or created the entity.
    pub timestamp: u64,
    /// The executable image, where the entity is a process whose image is known.
    pub image_name: Option<String>,
}

/// Mathematical model of a [`Node`].
pub struct NodeView {
    pub key: NodeKeyView,
    pub state: NodeState,
    pub timestamp: u64,
    pub image_name: Option<Seq<char>>,
}

impl NodeView {
    /// When the entity was created, where the event created it.
    pub open spec fn created_timestamp(self) -> Option<u64> {
        if self.state == NodeState::Created {
            Some(self.timestamp)
        } else {
            None
        }
    }

    /// When the entity was last seen, where the event only saw it.
    pub open spec fn last_seen_timestamp(self) -> Option<u64> {
        if self.state == NodeState::Existing {
            Some(self.timestamp)
        } else {
            None
        }
    }
}

/// The model of an optional text.
pub open spec fn text_view(text: Option<String>) -> Option<Seq<char>> {
    match text {
        Some(t) => Some(t@),
        None => None,
    }
}

impl View for Node {
    type V = NodeView;

    open spec fn view(&self) -> NodeView {
        NodeView {
            key: self.key@,
            state: self.state,
            timestamp: self.timestamp,
            image_name: text_view(self.image_name),
        }
    }
}

/// A process on `host`.
pub open spec fn process_node(
    host: HostIdView,
    pid: u64,
    state: NodeState,
    timestamp: u64,
    image_name: Option<Seq<char>>,
) -> NodeView {
    NodeView { key: NodeKeyView::Process { host, pid }, state, timestamp, image_name }
}

/// The file at `path` on the asset `host`.
pub open spec fn file_node(
    host: Seq<char>,
    path: Seq<char>,
    state: NodeState,
    timestamp: u64,
) -> NodeView {
    NodeView {
        key: NodeKeyView::File { host: HostIdView::Asset(host), path },
        state,
        timestamp,
        image_name: None,
    }
}

/// The receiving half of a connection, at `port` of `host_ip`.
pub open spec fn inbound_connection_node(
    host_ip: Seq<char>,
    port: u16,
    state: NodeState,
    timestamp: u64,
) -> NodeView {
    NodeView {
        key: NodeKeyView::InboundConnection { host_ip, port },
        state,
        timestamp,
        image_name: None,
    }
}

/// The initiating half of a connection, at `port` of `host_ip`.
pub open spec fn outbound_connection_node(
    host_ip: Seq<char>,
    port: u16,
    state: NodeState,
    timestamp: u64,
) -> NodeView {
    NodeView {
        key: NodeKeyView::OutboundConnection { host_ip, port },
        state,
        timestamp,
        image_name: None,
    }
}

/// An address outside the observed network. It is never created by an event,
/// only seen.
pub open spec fn ip_address_node(address: Seq<char>, timestamp: u64) -> NodeView {
    NodeView {
        key: NodeKeyView::IpAddress { address },
        state: NodeState::Existing,
        timestamp,
        image_name: None,
    }
}

impl Node {
    /// A process on `host`.
    pub fn process(
        host: HostId,
        pid: u64,
        state: NodeState,
        timestamp: u64,
        image_name: Option<String>,
    ) -> (r: Node)
        ensures
            r@ == process_node(host@, pid, state, timestamp, text_view(image_name)),
    {
        Node { key: NodeKey::Process { host, pid }, state, timestamp, image_name }
    }

    /// The file at `path` on the asset `host`.
    pub fn file(host: String, path: String, state: NodeState, timestamp: u64) -> (r: Node)
        ensures
            r@ == file_node(host@, path@, state, timestamp),
    {
        Node {
            key: NodeKey::File { host: HostId::Asset(host), path },
            state,
            timestamp,
            image_name: None,
        }
    }

    /// The receiving half of a connection, at `port` of `host_ip`.
    pub fn inbound_connection(host_ip: String, port: u16, state: NodeState, timestamp: u64) -> (r:
        Node)
        ensures
            r@ == inbound_connection_node(host_ip@, port, state, timestamp),
    {
        Node {
            key: NodeKey::InboundConnection { host_ip, port },
            state,
            timestamp,
            image_name: None,
        }
    }

    /// The initiating half of a connection, at `port` of `host_ip`.
    pub fn outbound_connection(host_ip: String, port: u16, state: NodeState, timestamp: u64) -> (r:
        Node)
        ensures
            r@ == outbound_connection_node(host_ip@, port, state, timestamp),
    {
        Node {
            key: NodeKey::OutboundConnection { host_ip, port },
            state,
            timestamp,
            image_name: None,
        }
    }

    /// An address outside the observed network.
    pub fn ip_address(address: String, timestamp: u64) -> (r: Node)
        ensures
            r@ == ip_address_node(address@, timestamp),
    {
        Node {
            key: NodeKey::IpAddress { address },
            state: NodeState::Existing,
            timestamp,
            image_name: None,
        }
    }

    /// A copy of this node's key.
    pub fn clone_key(&self) -> (r: NodeKey)
        ensures
            r@ == self@.key,
    {
        self.key.duplicate()
    }

    /// When the entity was created, where the event created it.
    pub fn created_timestamp(&self) -> (r: Option<u64>)
        ensures
            r == self@.created_timestamp(),
    {
        match self.state {
            NodeState::Created => Some(self.timestamp),
            NodeState::Existing => None,
        }
    }

    /// When the entity was last seen, where the event only saw it.
    pub fn last_seen_timestamp(&self) -> (r: Option<u64>)
        ensures
            r == self@.last_seen_timestamp(),
    {
        match self.state {
            NodeState::Existing => Some(self.timestamp),
            NodeState::Created => None,
        }
    }
}

/// What an edge says of its two ends.
#[derive(Clone, Copy, Debug, PartialEq, Eq, Structural)]
pub enum EdgeLabel {
    BinFile,
    Children,
    CreatedFiles,
    Connection,
    ExternalConnection,
    BoundConnection,
    CreatedConnection,
}

impl EdgeLabel {
    /// The label as it is written in a stored graph.
    pub open spec fn text(self) -> Seq<char> {
        match self {
            EdgeLabel::BinFile => "bin_file"@,
            EdgeLabel::Children => "children"@,
            EdgeLabel::CreatedFiles => "created_files"@,
            EdgeLabel::Connection => "connection"@,
            EdgeLabel::ExternalConnection => "external_connection"@,
            EdgeLabel::BoundConnection => "bound_connection"@,
            EdgeLabel::CreatedConnection => "created_connection"@,
        }
    }

    /// The label as it is written in a stored graph.
    pub fn as_str(&self) -> (r: &'static str)
        ensures
            r@ == self.text(),
    {
        match self {
            EdgeLabel::BinFile => "bin_file",
            EdgeLabel::Children => "children",
            EdgeLabel::CreatedFiles => "created_files",
            EdgeLabel::Connection => "connection",
            EdgeLabel::ExternalConnection => "external_connection",
            EdgeLabel::BoundConnection => "bound_connection",
            EdgeLabel::CreatedConnection => "created_connection",
        }
    }
}

/// A directed, labelled edge between two nodes of one fragment.
#[derive(Clone, Debug, PartialEq, Eq)]
pub struct Edge {
    pub label: EdgeLabel,
    pub source: NodeKey,
    pub destination: NodeKey,
}

/// Mathematical model of an [`Edge`].
pub struct EdgeView {
    pub label: EdgeLabel,
    pub source: NodeKeyView,
    pub destination: NodeKeyView,
}

impl View for Edge {
    type V = EdgeView;

    open spec fn view(&self) -> EdgeView {
        EdgeView { label: self.label, source: self.source@, destination: self.destination@ }
    }
}

/// The edge `label` from `source` to `destination`.
pub open spec fn edge_between(label: EdgeLabel, source: NodeView, destination: NodeView) -> EdgeView {
    EdgeView { label, source: source.key, destination: destination.key }
}

/// The models of a run of nodes, in order.
pub open spec fn node_views(nodes: Seq<Node>) -> Seq<NodeView> {
    nodes.map_values(|n: Node| n@)
}

/// The models of a run of edges, in order.
pub open spec fn edge_views(edges: Seq<Edge>) -> Seq<EdgeView> {
    edges.map_values(|e: Edge| e@)
}

/// Mathematical model of a [`GraphFragment`]: its nodes and edges in the order
/// in which they were first added.
pub struct GraphFragmentView {
    pub timestamp: u64,
    pub nodes: Seq<NodeView>,
    pub edges: Seq<EdgeView>,
}

impl GraphFragmentView {
    /// The fragment of an event at `timestamp`, before anything is added.
    pub open spec fn empty(timestamp: u64) -> GraphFragmentView {
        GraphFragmentView { timestamp, nodes: Seq::empty(), edges: Seq::empty() }
    }

    /// Whether a node with this key is part of the fragment.
    pub open spec fn has_node(self, key: NodeKeyView) -> bool {
        exists|i: int| 0 <= i < self.nodes.len() && (#[trigger] self.nodes[i]).key == key
    }

    /// Whether this edge is part of the fragment.
    pub open spec fn has_edge(self, edge: EdgeView) -> bool {
        self.edges.contains(edge)
    }

    /// No key occurs twice, no edge occurs twice, and every edge joins two nodes
    /// of this fragment.
    pub open spec fn well_formed(self) -> bool {
        &&& forall|i: int, j: int|
            0 <= i < j < self.nodes.len() ==> (#[trigger] self.nodes[i]).key != (
            #[trigger] self.nodes[j]).key
        &&& forall|i: int, j: int|
            0 <= i < j < self.edges.len() ==> #[trigger] self.edges[i] != #[trigger] self.edges[j]
        &&& forall|i: int|
            0 <= i < self.edges.len() ==> self.has_node((#[trigger] self.edges[i]).source)
                && self.has_node(self.edges[i].destination)
    }

    /// The fragment with `node` in it: in the place of the node that had its key,
    /// or behind all others where no node had.
    pub open spec fn with_node(self, node: NodeView) -> GraphFragmentView {
        if self.has_node(node.key) {
            let at = choose|i: int|
                0 <= i < self.nodes.len() && (#[trigger] self.nodes[i]).key == node.key;
            GraphFragmentView {
                timestamp: self.timestamp,
                nodes: self.nodes.update(at, node),
                edges: self.edges,
            }
        } else {
            GraphFragmentView {
                timestamp: self.timestamp,
                nodes: self.nodes.push(node),
                edges: self.edges,
            }
        }
    }

    /// Whether both ends of `edge` are nodes of the fragment.
    pub open spec fn accepts_edge(self, edge: EdgeView) -> bool {
        self.has_node(edge.source) && self.has_node(edge.destination)
    }

    /// The fragment with `edge` in it. An edge whose ends are not both in the
    /// fragment is not taken, and an edge that is there already is not repeated.
    pub open spec fn with_edge(self, edge: EdgeView) -> GraphFragmentView {
        if self.accepts_edge(edge) && !self.has_edge(edge) {
            GraphFragmentView {
                timestamp: self.timestamp,
                nodes: self.nodes,
                edges: self.edges.push(edge),
            }
        } else {
            self
        }
    }
}

/// The graph that one event gives rise to.
#[derive(Debug, PartialEq, Eq)]
pub struct GraphFragment {
    timestamp: u64,
    nodes: Vec<Node>,
    edges: Vec<Edge>,
}

impl View for GraphFragment {
    type V = GraphFragmentView;

    closed spec fn view(&self) -> GraphFragmentView {
        GraphFragmentView {
            timestamp: self.timestamp,
            nodes: node_views(self.nodes@),
            edges: edge_views(self.edges@),
        }
    }
}

impl GraphFragment {
    #[verifier::type_invariant]
    spec fn sound(self) -> bool {
        self@.well_formed()
    }

    /// The fragment of an event at `timestamp`, with no node and no edge yet.
    pub fn new(timestamp: u64) -> (r: GraphFragment)
        ensures
            r@ == GraphFragmentView::empty(timestamp),
            r@.well_formed(),
    {
        let r = GraphFragment { timestamp, nodes: Vec::new(), edges: Vec::new() };
        assert(r@.nodes =~= Seq::empty());
        assert(r@.edges =~= Seq::empty());
        r
    }

    /// Epoch milliseconds of the event that the fragment came from.
    pub fn timestamp(&self) -> (r: u64)
        ensures
            r == self@.timestamp,
    {
        self.timestamp
    }

    /// The nodes, in the order in which their keys were first added.
    pub fn nodes(&self) -> (r: &Vec<Node>)
        ensures
            node_views(r@) == self@.nodes,
    {
        &self.nodes
    }

    /// The edges, in the order in which they were added.
    pub fn edges(&self) -> (r: &Vec<Edge>)
        ensures
            edge_views(r@) == self@.edges,
    {
        &self.edges
    }

    /// Whether a node with this key is part of the fragment.
    pub fn has_node(&self, key: &NodeKey) -> (r: bool)
        ensures
            r == self@.has_node(key@),
    {
        let n = self.nodes.len();
        let mut i: usize = 0;
        while i < n
            invariant
                n == self.nodes.len(),
                i <= n,
                forall|j: int| 0 <= j < i ==> (#[trigger] self@.nodes[j]).key != key@,
            decreases n - i,
        {
            if self.nodes[i].key.same(key) {
                assert(self@.nodes[i as int].key == key@);
                return true;
            }
            i += 1;
        }
        false
    }

    /// Whether this edge is part of the fragment.
    pub fn has_edge(&self, edge: &Edge) -> (r: bool)
        ensures
            r == self@.has_edge(edge@),
    {
        let n = self.edges.len();
        let mut i: usize = 0;
        while i < n
            invariant
                n == self.edges.len(),
                i <= n,
                forall|j: int| 0 <= j < i ==> #[trigger] self@.edges[j] != edge@,
            decreases n - i,
        {
            let e = &self.edges[i];
            if e.label == edge.label && e.source.same(&edge.source) && e.destination.same(
                &edge.destination,
            ) {
                assert(self@.edges[i as int] == edge@);
                return true;
            }
            i += 1;
        }
        false
    }

    /// Puts `node` into the fragment. A node that had the same key gives way to
    /// it and keeps its place; otherwise `node` comes last.
    pub fn add_node(&mut self, node: Node)
        ensures
            final(self)@ == old(self)@.with_node(node@),
            final(self)@.well_formed(),
    {
        proof {
            use_type_invariant(&*self);
        }
        let ghost before = self@;
        let ghost added = node@;
        // The fragment is taken apart and put together again at the end, so that
        // it is never there half changed.
        let mut taken = GraphFragment::new(0);
        core::mem::swap(self, &mut taken);
        let GraphFragment { timestamp, mut nodes, edges } = taken;
        let n = nodes.len();
        let mut i: usize = 0;
        while i < n && !nodes[i].key.same(&node.key)
            invariant
                n == nodes.len(),
                i <= n,
                added == node@,
                node_views(nodes@) == before.nodes,
                forall|j: int| 0 <= j < i ==> (#[trigger] before.nodes[j]).key != added.key,
            decreases n - i,
        {
            assert(before.nodes[i as int] == nodes@[i as int]@);
            i += 1;
        }
        if i < n {
            assert(before.nodes[i as int] == nodes@[i as int]@);
            nodes.set(i, node);
            assert(node_views(nodes@) =~= before.nodes.update(i as int, added));
        } else {
            nodes.push(node);
            assert(node_views(nodes@) =~= before.nodes.push(added));
        }
        let ghost after = GraphFragmentView {
            timestamp,
            nodes: node_views(nodes@),
            edges: edge_views(edges@),
        };
        proof {
            assert(after == before.with_node(added));
            assert forall|k: int| 0 <= k < after.edges.len() implies after.has_node(
                (#[trigger] after.edges[k]).source,
            ) && after.has_node(after.edges[k].destination) by {
                if i < n {
                    lemma_update_keeps_keys(before.nodes, i as int, added, after.edges[k].source);
                    lemma_update_keeps_keys(
                        before.nodes,
                        i as int,
                        added,
                        after.edges[k].destination,
                    );
                } else {
                    lemma_push_keeps_keys(before.nodes, added, after.edges[k].source);
                    lemma_push_keeps_keys(before.nodes, added, after.edges[k].destination);
                }
            }
            assert(after.well_formed());
        }
        *self = GraphFragment { timestamp, nodes, edges };
    }

    /// Puts the edge `label` from `source` to `destination` into the fragment and
    /// says whether both ends are nodes of it. Where one is not, the fragment
    /// stays as it was.
    pub fn add_edge(&mut self, label: EdgeLabel, source: NodeKey, destination: NodeKey) -> (accepted:
        bool)
        ensures
            final(self)@ == old(self)@.with_edge(
                (EdgeView { label, source: source@, destination: destination@ }),
            ),
            accepted == old(self)@.accepts_edge(
                (EdgeView { label, source: source@, destination: destination@ }),
            ),
            final(self)@.well_formed(),
    {
        proof {
            use_type_invariant(&*self);
        }
        if !self.has_node(&source) || !self.has_node(&destination) {
            return false;
        }
        let edge = Edge { label, source, destination };
        if self.has_edge(&edge) {
            return true;
        }
        let ghost before = self@;
        let ghost added = edge@;
        let mut taken = GraphFragment::new(0);
        core::mem::swap(self, &mut taken);
        let GraphFragment { timestamp, nodes, mut edges } = taken;
        edges.push(edge);
        let ghost after = GraphFragmentView {
            timestamp,
            nodes: node_views(nodes@),
            edges: edge_views(edges@),
        };
        proof {
            assert(after.edges =~= before.edges.push(added));
            assert(after == before.with_edge(added));
            assert forall|i: int, j: int| 0 <= i < j < after.edges.len() implies #[trigger] after.edges[i]
                != #[trigger] after.edges[j] by {
                if j == before.edges.len() {
                    assert(before.edges[i] != added);
                }
            }
            assert(after.well_formed());
        }
        *self = GraphFragment { timestamp, nodes, edges };
        true
    }
}

/// Replacing a node by one with the same key leaves every key where it was.
proof fn lemma_update_keeps_keys(nodes: Seq<NodeView>, at: int, node: NodeView, key: NodeKeyView)
    requires
        0 <= at < nodes.len(),
        nodes[at].key == node.key,
        exists|i: int| 0 <= i < nodes.len() && (#[trigger] nodes[i]).key == key,
    ensures
        exists|i: int|
            0 <= i < nodes.update(at, node).len() && (#[trigger] nodes.update(at, node)[i]).key
                == key,
{
    let i = choose|i: int| 0 <= i < nodes.len() && (#[trigger] nodes[i]).key == key;
    assert(nodes.update(at, node)[i].key == key);
}

/// Adding a node leaves every key where it was.
proof fn lemma_push_keeps_keys(nodes: Seq<NodeView>, node: NodeView, key: NodeKeyView)
    requires
        exists|i: int| 0 <= i < nodes.len() && (#[trigger] nodes[i]).key == key,
    ensures
        exists|i: int|
            0 <= i < nodes.push(node).len() && (#[trigger] nodes.push(node)[i]).key == key,
{
    let i = choose|i: int| 0 <= i < nodes.len() && (#[trigger] nodes[i]).key == key;
    assert(nodes.push(node)[i].key == key);
}

} // verus!

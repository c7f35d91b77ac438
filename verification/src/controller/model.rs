//! The registry as a mathematical value, and what a message and a discovery
//! scan do to it.

use crate::clock::Timestamp;
use crate::gateway::message::{
    Command, Internal, Kind, MessageView, PayloadView, Sensor as SensorType,
};
use crate::persistence::{BatchRows, NodeRow, ReadingRow, SensorRow};
use vstd::prelude::*;

verus! {

/// The latest value of a sensor.
pub struct ReadingView {
    pub timestamp: Timestamp,
    pub value: PayloadView,
    pub kind: Kind,
}

pub struct SensorView {
    pub id: u32,
    pub sensor_type: Option<SensorType>,
    pub description: Seq<char>,
    pub last_reading: Option<ReadingView>,
}

pub struct NodeView {
    pub id: u32,
    pub name: Seq<char>,
    pub version: Seq<char>,
    pub sensors: Seq<SensorView>,
}

/// All that the controller knows: its nodes in the order in which they came,
/// and the number of discovery scans that it will still let pass in silence.
pub struct Registry {
    pub nodes: Seq<NodeView>,
    pub skips: nat,
}

/// An entry that is found by a number.
pub trait Identified {
    spec fn ident(&self) -> u32;
}

impl Identified for SensorView {
    open spec fn ident(&self) -> u32 {
        self.id
    }
}

impl Identified for NodeView {
    open spec fn ident(&self) -> u32 {
        self.id
    }
}

/// The index of the first entry of `s` with the id `id`; the length of `s`
/// where there is none.
pub open spec fn position<T: Identified>(s: Seq<T>, id: u32) -> int
    decreases s.len(),
{
    if s.len() == 0 {
        0
    } else if s[0].ident() == id {
        0
    } else {
        1 + position(s.skip(1), id)
    }
}

/// `position` gives an index up to the length, the entry there has the id,
/// and no entry before it has.
pub proof fn lemma_position<T: Identified>(s: Seq<T>, id: u32)
    ensures
        0 <= position(s, id) <= s.len(),
        position(s, id) < s.len() ==> s[position(s, id)].ident() == id,
        forall|j: int| 0 <= j < position(s, id) ==> (#[trigger] s[j]).ident() != id,
    decreases s.len(),
{
    if s.len() > 0 && s[0].ident() != id {
        let rest = s.skip(1);
        lemma_position(rest, id);
        assert forall|j: int| 0 <= j < position(s, id) implies (#[trigger] s[j]).ident() != id by {
            if j > 0 {
                assert(s[j] == rest[j - 1]);
            }
        }
    }
}

/// An index with these three properties is the one that `position` gives.
pub proof fn lemma_position_is<T: Identified>(s: Seq<T>, id: u32, k: int)
    requires
        0 <= k <= s.len(),
        k < s.len() ==> s[k].ident() == id,
        forall|j: int| 0 <= j < k ==> (#[trigger] s[j]).ident() != id,
    ensures
        position(s, id) == k,
{
    lemma_position(s, id);
    let p = position(s, id);
    if p < k {
        assert(s[p].ident() != id);
    }
}

/// No two entries have the same id.
pub open spec fn distinct<T: Identified>(s: Seq<T>) -> bool {
    forall|i: int, j: int|
        0 <= i < j < s.len() ==> (#[trigger] s[i]).ident() != (#[trigger] s[j]).ident()
}

/// The entry with the id `id`, if there is one.
pub open spec fn lookup<T: Identified>(s: Seq<T>, id: u32) -> Option<T> {
    let p = position(s, id);
    if p < s.len() {
        Some(s[p])
    } else {
        None
    }
}

/// `s` with `entry` in the place of the entry with the id `id`, or behind
/// the others where there was none.
pub open spec fn upsert<T: Identified>(s: Seq<T>, id: u32, entry: T) -> Seq<T> {
    let p = position(s, id);
    if p < s.len() {
        s.update(p, entry)
    } else {
        s.push(entry)
    }
}

/// A sensor of which nothing is known but its id.
pub open spec fn fresh_sensor(id: u32) -> SensorView {
    SensorView { id, sensor_type: None, description: Seq::empty(), last_reading: None }
}

/// A node of which nothing is known but its id.
pub open spec fn fresh_node(id: u32) -> NodeView {
    NodeView { id, name: Seq::empty(), version: Seq::empty(), sensors: Seq::empty() }
}

pub open spec fn sensor_or_fresh(sensors: Seq<SensorView>, id: u32) -> SensorView {
    match lookup(sensors, id) {
        Some(s) => s,
        None => fresh_sensor(id),
    }
}

pub open spec fn node_or_fresh(nodes: Seq<NodeView>, id: u32) -> NodeView {
    match lookup(nodes, id) {
        Some(n) => n,
        None => fresh_node(id),
    }
}

/// The sensor `sensor_id` of the node `node_id`, if both are known.
pub open spec fn lookup_sensor(nodes: Seq<NodeView>, node_id: u32, sensor_id: u32) -> Option<
    SensorView,
> {
    match lookup(nodes, node_id) {
        Some(n) => lookup(n.sensors, sensor_id),
        None => None,
    }
}

/// What a message changes of a sensor.
pub enum SensorChange {
    Reading(ReadingView),
    Presentation(SensorType, Seq<char>),
}

/// What a message changes of a node.
pub enum NodeChange {
    Name(Seq<char>),
    Version(Seq<char>),
}

pub open spec fn changed_sensor(s: SensorView, change: SensorChange) -> SensorView {
    match change {
        SensorChange::Reading(r) => SensorView { last_reading: Some(r), ..s },
        SensorChange::Presentation(typ, description) => SensorView {
            sensor_type: Some(typ),
            description,
            ..s
        },
    }
}

pub open spec fn changed_node(n: NodeView, change: NodeChange) -> NodeView {
    match change {
        NodeChange::Name(name) => NodeView { name, ..n },
        NodeChange::Version(version) => NodeView { version, ..n },
    }
}

/// The nodes after a change to one sensor. A node or a sensor that was not
/// known is made first, with nothing but its id, and takes its place behind
/// the others.
pub open spec fn with_sensor(
    nodes: Seq<NodeView>,
    node_id: u32,
    sensor_id: u32,
    change: SensorChange,
) -> Seq<NodeView> {
    let node = node_or_fresh(nodes, node_id);
    let sensor = changed_sensor(sensor_or_fresh(node.sensors, sensor_id), change);
    upsert(nodes, node_id, NodeView { sensors: upsert(node.sensors, sensor_id, sensor), ..node })
}

/// The nodes after a change to one node, which is made first where it was not
/// known.
pub open spec fn with_node(nodes: Seq<NodeView>, node_id: u32, change: NodeChange) -> Seq<
    NodeView,
> {
    upsert(nodes, node_id, changed_node(node_or_fresh(nodes, node_id), change))
}

/// The registry's invariant: no two nodes have the same id, and no two
/// sensors of one node have.
pub open spec fn well_formed(nodes: Seq<NodeView>) -> bool {
    &&& distinct(nodes)
    &&& forall|i: int| 0 <= i < nodes.len() ==> distinct((#[trigger] nodes[i]).sensors)
}

/// The nodes after a message that came at the time `now`. A value that is set
/// becomes the sensor's latest reading; a presentation gives the sensor its
/// category and description; a sketch name or version goes to the node. Any
/// other message changes nothing.
pub open spec fn after_message(nodes: Seq<NodeView>, m: MessageView, now: Timestamp) -> Seq<
    NodeView,
> {
    match m.command {
        Command::SetValue(kind) => with_sensor(
            nodes,
            m.node_id,
            m.child_sensor_id,
            SensorChange::Reading(ReadingView { timestamp: now, value: m.payload, kind }),
        ),
        Command::Presentation(typ) => with_sensor(
            nodes,
            m.node_id,
            m.child_sensor_id,
            SensorChange::Presentation(typ, m.payload.text()),
        ),
        Command::Internal(Internal::SketchName) => with_node(
            nodes,
            m.node_id,
            NodeChange::Name(m.payload.text()),
        ),
        Command::Internal(Internal::SketchVersion) => with_node(
            nodes,
            m.node_id,
            NodeChange::Version(m.payload.text()),
        ),
        _ => nodes,
    }
}

/// Whether a value of the kind `kind` is news for a sensor: it is not where
/// the sensor's latest reading has the same value and the same kind.
pub open spec fn reading_changed(
    nodes: Seq<NodeView>,
    node_id: u32,
    sensor_id: u32,
    value: PayloadView,
    kind: Kind,
) -> bool {
    match lookup_sensor(nodes, node_id, sensor_id) {
        Some(s) => match s.last_reading {
            Some(r) => !(r.value == value && r.kind == kind),
            None => true,
        },
        None => true,
    }
}

/// The node `node_id` as the store gets it.
pub open spec fn node_row(nodes: Seq<NodeView>, node_id: u32) -> Option<NodeRow> {
    match lookup(nodes, node_id) {
        Some(n) => Some(NodeRow { id: n.id, name: n.name, version: n.version }),
        None => None,
    }
}

/// The sensor `sensor_id` of the node `node_id` as the store gets it.
pub open spec fn sensor_row(nodes: Seq<NodeView>, node_id: u32, sensor_id: u32) -> Option<
    SensorRow,
> {
    match lookup_sensor(nodes, node_id, sensor_id) {
        Some(s) => Some(
            SensorRow {
                id: sensor_id,
                node_id,
                sensor_type: match s.sensor_type {
                    Some(t) => Some(t.code()),
                    None => None,
                },
                description: s.description,
            },
        ),
        None => None,
    }
}

/// What the store gets after a message that came at the time `now`: the node
/// and the sensor as the message left them, and the reading where it is news.
pub open spec fn rows_of_message(
    nodes: Seq<NodeView>,
    m: MessageView,
    now: Timestamp,
) -> BatchRows {
    let after = after_message(nodes, m, now);
    match m.command {
        Command::SetValue(kind) => BatchRows {
            node: node_row(after, m.node_id),
            sensor: sensor_row(after, m.node_id, m.child_sensor_id),
            reading: if reading_changed(nodes, m.node_id, m.child_sensor_id, m.payload, kind) {
                Some(
                    ReadingRow {
                        node_id: m.node_id,
                        sensor_id: m.child_sensor_id,
                        timestamp: now,
                        value: m.payload.wire(),
                        kind: kind.code(),
                    },
                )
            } else {
                None
            },
        },
        Command::Presentation(_) => BatchRows {
            node: node_row(after, m.node_id),
            sensor: sensor_row(after, m.node_id, m.child_sensor_id),
            reading: None,
        },
        Command::Internal(Internal::SketchName)
        | Command::Internal(Internal::SketchVersion) => BatchRows {
            node: node_row(after, m.node_id),
            sensor: None,
            reading: None,
        },
        _ => BatchRows { node: None, sensor: None, reading: None },
    }
}

/// The index of the first sensor whose category is not known; the length of
/// `sensors` where each is known.
pub open spec fn unknown_position(sensors: Seq<SensorView>) -> int
    decreases sensors.len(),
{
    if sensors.len() == 0 {
        0
    } else if sensors[0].sensor_type is None {
        0
    } else {
        1 + unknown_position(sensors.skip(1))
    }
}

/// The first sensor whose category is not known, as the ids of its node and
/// of itself: nodes in their order, and the sensors of each node in theirs.
pub open spec fn first_unknown(nodes: Seq<NodeView>) -> Option<(u32, u32)>
    decreases nodes.len(),
{
    if nodes.len() == 0 {
        None
    } else {
        let p = unknown_position(nodes[0].sensors);
        if p < nodes[0].sensors.len() {
            Some((nodes[0].id, nodes[0].sensors[p].id))
        } else {
            first_unknown(nodes.skip(1))
        }
    }
}

pub proof fn lemma_unknown_position(sensors: Seq<SensorView>)
    ensures
        0 <= unknown_position(sensors) <= sensors.len(),
        unknown_position(sensors) < sensors.len() ==> sensors[unknown_position(
            sensors,
        )].sensor_type is None,
        forall|j: int|
            0 <= j < unknown_position(sensors) ==> (#[trigger] sensors[j]).sensor_type is Some,
    decreases sensors.len(),
{
    if sensors.len() > 0 && sensors[0].sensor_type is Some {
        let rest = sensors.skip(1);
        lemma_unknown_position(rest);
        assert forall|j: int| 0 <= j < unknown_position(sensors) implies (
        #[trigger] sensors[j]).sensor_type is Some by {
            if j > 0 {
                assert(sensors[j] == rest[j - 1]);
            }
        }
    }
}

/// An index with these three properties is the one that `unknown_position`
/// gives.
pub proof fn lemma_unknown_position_is(sensors: Seq<SensorView>, k: int)
    requires
        0 <= k <= sensors.len(),
        k < sensors.len() ==> sensors[k].sensor_type is None,
        forall|j: int| 0 <= j < k ==> (#[trigger] sensors[j]).sensor_type is Some,
    ensures
        unknown_position(sensors) == k,
{
    lemma_unknown_position(sensors);
    let p = unknown_position(sensors);
    if p < k {
        assert(sensors[p].sensor_type is Some);
    }
}

/// The number of discovery scans that pass in silence after a request.
pub const COOLDOWN: u32 = 20;

/// The request that asks a node to present one of its sensors again.
pub open spec fn request_for(node_id: u32, sensor_id: u32) -> MessageView {
    MessageView {
        node_id,
        child_sensor_id: sensor_id,
        command: Command::Internal(Internal::Presentation),
        ack: true,
        payload: PayloadView::Str(Seq::empty()),
    }
}

/// What a discovery scan sends: nothing while each sensor's category is
/// known or scans are still to be skipped, else a request for the first
/// sensor whose category is not known.
pub open spec fn scan_request(r: Registry) -> Option<MessageView> {
    match first_unknown(r.nodes) {
        Some((node_id, sensor_id)) => if r.skips == 0 {
            Some(request_for(node_id, sensor_id))
        } else {
            None
        },
        None => None,
    }
}

/// The registry after a discovery scan. While a sensor's category is not
/// known, a scan that sends nothing counts one skip down, and a scan that
/// sends a request sets the skips to `COOLDOWN`.
pub open spec fn after_scan(r: Registry) -> Registry {
    match first_unknown(r.nodes) {
        Some(_) => if r.skips == 0 {
            Registry { skips: COOLDOWN as nat, ..r }
        } else {
            Registry { skips: (r.skips - 1) as nat, ..r }
        },
        None => r,
    }
}

/// The registry after one round of the controller in which a message came:
/// after the message and the discovery scan that follows it.
pub open spec fn after_step(r: Registry, m: MessageView, now: Timestamp) -> Registry {
    after_scan(Registry { nodes: after_message(r.nodes, m, now), ..r })
}

} // verus!

//! The registry of nodes and sensors, and the controller that keeps it up to
//! date from the messages of the gateway.

pub mod laws;
pub mod model;

use self::laws::{
    lemma_message_keeps_well_formed, lemma_with_node_keeps_well_formed,
    lemma_with_sensor_keeps_well_formed,
};
use self::model::{
    after_message, after_scan, after_step, changed_node, changed_sensor, first_unknown,
    fresh_node, fresh_sensor, lemma_position_is, lemma_unknown_position_is, lookup,
    lookup_sensor, node_row, position, reading_changed, request_for, rows_of_message,
    scan_request, sensor_or_fresh, sensor_row, unknown_position, upsert, well_formed, with_node,
    with_sensor, NodeChange, NodeView, ReadingView, Registry, SensorChange, SensorView, COOLDOWN,
};
use crate::clock::{now, Timestamp};
use crate::gateway::message::{
    Command, Internal, Kind, Message, MessageView, PayloadType, Sensor as SensorType,
};
use crate::gateway::serial::MalformedStringError;
use crate::gateway::Gateway;
use crate::persistence;
use crate::persistence::{Batch, Persist, ReadingRow};
use vstd::prelude::*;

verus! {

/// The latest value of a sensor, with the time at which it came.
#[derive(Debug)]
pub struct Reading {
    timestamp: Timestamp,
    value: PayloadType,
    kind: Kind,
}

/// A channel of a node that measures or switches something. Its category is
/// not known until the node presents it.
#[derive(Debug)]
pub struct Sensor {
    id: u32,
    sensor_type: Option<SensorType>,
    description: String,
    last_reading: Option<Reading>,
}

/// A device of the network, with the sensors that it carries.
#[derive(Debug)]
pub struct Node {
    pub id: u32,
    pub name: String,
    pub version: String,
    pub sensors: Vec<Sensor>,
}

/// The owner of the registry. It takes its messages from a gateway, may hand
/// what it learns to a store, and now and then asks a node to present a
/// sensor whose category it does not know.
pub struct Controller {
    gateway: Box<dyn Gateway>,
    nodes: Vec<Node>,
    persist: Option<Box<dyn Persist>>,
    presentation_request_skips: u32,
}

impl View for Reading {
    type V = ReadingView;

    closed spec fn view(&self) -> ReadingView {
        ReadingView { timestamp: self.timestamp, value: self.value@, kind: self.kind }
    }
}

impl View for Sensor {
    type V = SensorView;

    closed spec fn view(&self) -> SensorView {
        SensorView {
            id: self.id,
            sensor_type: self.sensor_type,
            description: self.description@,
            last_reading: match self.last_reading {
                Some(r) => Some(r@),
                None => None,
            },
        }
    }
}

/// The sensors of a node as mathematical values, in their order.
pub open spec fn sensor_views(sensors: Seq<Sensor>) -> Seq<SensorView> {
    Seq::new(sensors.len(), |i: int| sensors[i]@)
}

impl View for Node {
    type V = NodeView;

    open spec fn view(&self) -> NodeView {
        NodeView {
            id: self.id,
            name: self.name@,
            version: self.version@,
            sensors: sensor_views(self.sensors@),
        }
    }
}

/// Nodes as mathematical values, in their order.
pub open spec fn node_views(nodes: Seq<Node>) -> Seq<NodeView> {
    Seq::new(nodes.len(), |i: int| nodes[i]@)
}

impl View for Controller {
    type V = Registry;

    closed spec fn view(&self) -> Registry {
        Registry { nodes: node_views(self.nodes@), skips: self.presentation_request_skips as nat }
    }
}

impl Clone for Reading {
    fn clone(&self) -> (r: Reading)
        ensures
            r@ == self@,
    {
        Reading { timestamp: self.timestamp, value: self.value.clone(), kind: self.kind }
    }
}

/// A change to a sensor, as a message asks for it.
pub enum SensorUpdate {
    Reading(Reading),
    Presentation(SensorType, String),
}

/// A change to a node, as a message asks for it.
pub enum NodeUpdate {
    Name(String),
    Version(String),
}

impl View for SensorUpdate {
    type V = SensorChange;

    open spec fn view(&self) -> SensorChange {
        match self {
            SensorUpdate::Reading(r) => SensorChange::Reading(r@),
            SensorUpdate::Presentation(typ, description) => SensorChange::Presentation(
                *typ,
                description@,
            ),
        }
    }
}

impl View for NodeUpdate {
    type V = NodeChange;

    open spec fn view(&self) -> NodeChange {
        match self {
            NodeUpdate::Name(name) => NodeChange::Name(name@),
            NodeUpdate::Version(version) => NodeChange::Version(version@),
        }
    }
}

impl Reading {
    pub fn new(timestamp: Timestamp, value: PayloadType, kind: Kind) -> (r: Reading)
        ensures
            r@ == (ReadingView { timestamp, value: value@, kind }),
    {
        Reading { timestamp, value, kind }
    }

    pub fn timestamp(&self) -> (r: Timestamp)
        ensures
            r == self@.timestamp,
    {
        self.timestamp
    }

    pub fn value(&self) -> (r: &PayloadType)
        ensures
            r@ == self@.value,
    {
        &self.value
    }

    pub fn kind(&self) -> (r: Kind)
        ensures
            r == self@.kind,
    {
        self.kind
    }
}

impl Sensor {
    fn new(id: u32) -> (s: Sensor)
        ensures
            s@ == fresh_sensor(id),
    {
        Sensor { id, sensor_type: None, description: String::new(), last_reading: None }
    }

    pub fn id(&self) -> (r: u32)
        ensures
            r == self@.id,
    {
        self.id
    }

    pub fn sensor_type(&self) -> (r: Option<SensorType>)
        ensures
            r == self@.sensor_type,
    {
        self.sensor_type
    }

    pub fn description(&self) -> (r: &String)
        ensures
            r@ == self@.description,
    {
        &self.description
    }

    pub fn last_reading(&self) -> (r: Option<&Reading>)
        ensures
            match r {
                Some(reading) => self@.last_reading == Some(reading@),
                None => self@.last_reading is None,
            },
    {
        self.last_reading.as_ref()
    }

    fn change(&mut self, change: SensorUpdate)
        ensures
            final(self)@ == changed_sensor(old(self)@, change@),
    {
        match change {
            SensorUpdate::Reading(r) => {
                self.last_reading = Some(r);
            },
            SensorUpdate::Presentation(typ, description) => {
                self.sensor_type = Some(typ);
                self.description = description;
            },
        }
    }
}

impl Node {
    fn new(id: u32) -> (n: Node)
        ensures
            n@ == fresh_node(id),
    {
        let n = Node { id: id, name: String::new(), version: String::new(), sensors: Vec::new() };
        assert(n@.sensors =~= Seq::empty());
        n
    }

    fn change(&mut self, change: NodeUpdate)
        ensures
            final(self)@ == changed_node(old(self)@, change@),
    {
        match change {
            NodeUpdate::Name(name) => {
                self.name = name;
            },
            NodeUpdate::Version(version) => {
                self.version = version;
            },
        }
    }
}

/// The place of the node `id` among `nodes`.
fn node_position(nodes: &Vec<Node>, id: u32) -> (p: usize)
    ensures
        p == position(node_views(nodes@), id),
        p <= nodes@.len(),
{
    let mut i: usize = 0;
    while i < nodes.len()
        invariant
            i <= nodes@.len(),
            forall|j: int| 0 <= j < i ==> (#[trigger] node_views(nodes@)[j]).id != id,
        decreases nodes@.len() - i,
    {
        if nodes[i].id == id {
            proof {
                lemma_position_is(node_views(nodes@), id, i as int);
            }
            return i;
        }
        i += 1;
    }
    proof {
        lemma_position_is(node_views(nodes@), id, i as int);
    }
    i
}

/// The place of the sensor `id` among `sensors`.
fn sensor_position(sensors: &Vec<Sensor>, id: u32) -> (p: usize)
    ensures
        p == position(sensor_views(sensors@), id),
        p <= sensors@.len(),
{
    let mut i: usize = 0;
    while i < sensors.len()
        invariant
            i <= sensors@.len(),
            forall|j: int| 0 <= j < i ==> (#[trigger] sensor_views(sensors@)[j]).id != id,
        decreases sensors@.len() - i,
    {
        if sensors[i].id == id {
            proof {
                lemma_position_is(sensor_views(sensors@), id, i as int);
            }
            return i;
        }
        i += 1;
    }
    proof {
        lemma_position_is(sensor_views(sensors@), id, i as int);
    }
    i
}

impl Controller {
    /// Whether a store is attached.
    pub closed spec fn has_store(&self) -> bool {
        self.persist is Some
    }

    /// A controller that knows no node yet and has no store.
    pub fn new(gateway: Box<dyn Gateway>) -> (c: Controller)
        ensures
            c@ == (Registry { nodes: Seq::empty(), skips: 0 }),
            well_formed(c@.nodes),
            !c.has_store(),
    {
        let c = Controller {
            gateway,
            nodes: Vec::new(),
            persist: None,
            presentation_request_skips: 0,
        };
        assert(c@.nodes =~= Seq::empty());
        c
    }

    /// Gives the controller the store that it hands its news to from now on.
    pub fn attach_persist(&mut self, persist: Box<dyn Persist>)
        ensures
            final(self)@ == old(self)@,
            final(self).has_store(),
    {
        self.persist = Some(persist)
    }

    /// The node `node_id`, if it is known.
    pub fn find_node(&self, node_id: u32) -> (r: Option<&Node>)
        ensures
            match r {
                Some(n) => lookup(self@.nodes, node_id) == Some(n@),
                None => lookup(self@.nodes, node_id) is None,
            },
    {
        let p = node_position(&self.nodes, node_id);
        if p < self.nodes.len() {
            Some(&self.nodes[p])
        } else {
            None
        }
    }

    /// The sensor `child_id` of the node `node_id`, if both are known.
    pub fn find_sensor(&self, node_id: u32, child_id: u32) -> (r: Option<&Sensor>)
        ensures
            match r {
                Some(s) => lookup_sensor(self@.nodes, node_id, child_id) == Some(s@),
                None => lookup_sensor(self@.nodes, node_id, child_id) is None,
            },
    {
        match self.find_node(node_id) {
            None => None,
            Some(n) => {
                let p = sensor_position(&n.sensors, child_id);
                if p < n.sensors.len() {
                    Some(&n.sensors[p])
                } else {
                    None
                }
            },
        }
    }

    fn add_node(&mut self, node: Node)
        ensures
            final(self)@.nodes == old(self)@.nodes.push(node@),
            final(self)@.skips == old(self)@.skips,
            final(self).has_store() == old(self).has_store(),
    {
        self.nodes.push(node);
        assert(self@.nodes =~= old(self)@.nodes.push(node@));
    }

    /// Changes the node `node_id`, which is made first where it is not known.
    pub fn update_node(&mut self, node_id: u32, change: NodeUpdate)
        ensures
            final(self)@.nodes == with_node(old(self)@.nodes, node_id, change@),
            final(self)@.skips == old(self)@.skips,
            final(self).has_store() == old(self).has_store(),
            well_formed(old(self)@.nodes) ==> well_formed(final(self)@.nodes),
    {
        proof {
            if well_formed(old(self)@.nodes) {
                lemma_with_node_keeps_well_formed(old(self)@.nodes, node_id, change@);
            }
        }
        let p = node_position(&self.nodes, node_id);
        if p < self.nodes.len() {
            self.nodes[p].change(change);
            assert(self@.nodes =~= with_node(old(self)@.nodes, node_id, change@));
        } else {
            let mut new_node = Node::new(node_id);
            new_node.change(change);
            self.add_node(new_node);
        }
    }

    /// Changes the sensor `child_id` of the node `node_id`. A node or a sensor
    /// that is not known is made first.
    pub fn update_sensor(&mut self, node_id: u32, child_id: u32, change: SensorUpdate)
        ensures
            final(self)@.nodes == with_sensor(old(self)@.nodes, node_id, child_id, change@),
            final(self)@.skips == old(self)@.skips,
            final(self).has_store() == old(self).has_store(),
            well_formed(old(self)@.nodes) ==> well_formed(final(self)@.nodes),
    {
        proof {
            if well_formed(old(self)@.nodes) {
                lemma_with_sensor_keeps_well_formed(old(self)@.nodes, node_id, child_id, change@);
            }
        }
        let p = node_position(&self.nodes, node_id);
        if p < self.nodes.len() {
            let ghost before = self.nodes@[p as int]@;
            let q = sensor_position(&self.nodes[p].sensors, child_id);
            if q < self.nodes[p].sensors.len() {
                self.nodes[p].sensors[q].change(change);
            } else {
                let mut new_sensor = Sensor::new(child_id);
                new_sensor.change(change);
                self.nodes[p].sensors.push(new_sensor);
            }
            assert(self.nodes@[p as int]@.sensors =~= upsert(
                before.sensors,
                child_id,
                changed_sensor(sensor_or_fresh(before.sensors, child_id), change@),
            ));
            assert(self@.nodes =~= with_sensor(old(self)@.nodes, node_id, child_id, change@));
        } else {
            let mut new_sensor = Sensor::new(child_id);
            new_sensor.change(change);
            let mut sensors: Vec<Sensor> = Vec::new();
            sensors.push(new_sensor);
            let new_node = Node {
                id: node_id,
                name: String::new(),
                version: String::new(),
                sensors,
            };
            assert(new_node@.sensors =~= upsert(
                fresh_node(node_id).sensors,
                child_id,
                changed_sensor(fresh_sensor(child_id), change@),
            ));
            self.add_node(new_node);
        }
    }

    /// Whether a value of the kind `kind` is news for the sensor `child_id`
    /// of the node `node_id`.
    pub fn reading_changed(
        &self,
        node_id: u32,
        child_id: u32,
        value: &PayloadType,
        kind: Kind,
    ) -> (changed: bool)
        ensures
            changed == reading_changed(self@.nodes, node_id, child_id, value@, kind),
    {
        if let Some(s) = self.find_sensor(node_id, child_id) {
            if let Some(lr) = &s.last_reading {
                if value.same(&lr.value) && kind == lr.kind {
                    return false;
                }
            }
        }
        true
    }

    /// The node `node_id` as the store gets it.
    pub fn node_record(&self, node_id: u32) -> (r: Option<persistence::Node>)
        ensures
            match r {
                Some(n) => node_row(self@.nodes, node_id) == Some(n@),
                None => node_row(self@.nodes, node_id) is None,
            },
    {
        match self.find_node(node_id) {
            Some(n) => Some(
                persistence::Node { id: n.id, name: n.name.clone(), version: n.version.clone() },
            ),
            None => None,
        }
    }

    /// The sensor `child_id` of the node `node_id` as the store gets it.
    pub fn sensor_record(&self, node_id: u32, child_id: u32) -> (r: Option<persistence::Sensor>)
        ensures
            match r {
                Some(s) => sensor_row(self@.nodes, node_id, child_id) == Some(s@),
                None => sensor_row(self@.nodes, node_id, child_id) is None,
            },
    {
        match self.find_sensor(node_id, child_id) {
            Some(s) => Some(
                persistence::Sensor {
                    id: child_id,
                    node_id: node_id,
                    sensor_type: match s.sensor_type {
                        Some(t) => Some(t.to_u32()),
                        None => None,
                    },
                    description: s.description.clone(),
                },
            ),
            None => None,
        }
    }

    /// A reading of the sensor `child_id` of the node `node_id` as the store
    /// gets it.
    pub fn reading_record(node_id: u32, child_id: u32, reading: &Reading) -> (r:
        persistence::Reading)
        ensures
            r@ == (ReadingRow {
                node_id,
                sensor_id: child_id,
                timestamp: reading@.timestamp,
                value: reading@.value.wire(),
                kind: reading@.kind.code(),
            }),
    {
        persistence::Reading {
            node_id: node_id,
            sensor_id: child_id,
            timestamp: reading.timestamp,
            value: reading.value.to_string(),
            kind: reading.kind.to_u32(),
        }
    }

    /// Takes in a message that came at the time `now`, and says what the
    /// store is to keep of it.
    pub fn apply(&mut self, message: &Message, now: Timestamp) -> (batch: Batch)
        ensures
            final(self)@.nodes == after_message(old(self)@.nodes, message@, now),
            final(self)@.skips == old(self)@.skips,
            batch@ == rows_of_message(old(self)@.nodes, message@, now),
            final(self).has_store() == old(self).has_store(),
            well_formed(old(self)@.nodes) ==> well_formed(final(self)@.nodes),
    {
        proof {
            if well_formed(old(self)@.nodes) {
                lemma_message_keeps_well_formed(old(self)@.nodes, message@, now);
            }
        }
        match message.command {
            Command::SetValue(kind) => {
                let reading = Reading { timestamp: now, value: message.payload.clone(), kind };
                // only a reading that differs from the last is stored
                let reading_changed = self.reading_changed(
                    message.node_id,
                    message.child_sensor_id,
                    &message.payload,
                    kind,
                );
                let record = if reading_changed {
                    Some(
                        Controller::reading_record(
                            message.node_id,
                            message.child_sensor_id,
                            &reading,
                        ),
                    )
                } else {
                    None
                };
                self.update_sensor(
                    message.node_id,
                    message.child_sensor_id,
                    SensorUpdate::Reading(reading),
                );
                Batch {
                    node: self.node_record(message.node_id),
                    sensor: self.sensor_record(message.node_id, message.child_sensor_id),
                    reading: record,
                }
            },
            Command::Presentation(typ) => {
                let desc = message.payload.get_str();
                self.update_sensor(
                    message.node_id,
                    message.child_sensor_id,
                    SensorUpdate::Presentation(typ, desc),
                );
                Batch {
                    node: self.node_record(message.node_id),
                    sensor: self.sensor_record(message.node_id, message.child_sensor_id),
                    reading: None,
                }
            },
            Command::Internal(internal) => match internal {
                Internal::SketchName => {
                    let name = message.payload.get_str();
                    self.update_node(message.node_id, NodeUpdate::Name(name));
                    Batch { node: self.node_record(message.node_id), sensor: None, reading: None }
                },
                Internal::SketchVersion => {
                    let version = message.payload.get_str();
                    self.update_node(message.node_id, NodeUpdate::Version(version));
                    Batch { node: self.node_record(message.node_id), sensor: None, reading: None }
                },
                _ => Batch { node: None, sensor: None, reading: None },
            },
            _ => Batch { node: None, sensor: None, reading: None },
        }
    }

    /// Hands to the store, if one is attached, what `batch` holds: the node,
    /// then the sensor, then the reading.
    pub fn persist(&self, batch: &Batch) {
        if let Some(p) = &self.persist {
            if let Some(n) = &batch.node {
                p.store_node(n);
            }
            if let Some(s) = &batch.sensor {
                p.store_sensor(s);
            }
            if let Some(r) = &batch.reading {
                p.store_reading(r);
            }
        }
    }

    /// Takes in a message at the present time, as `apply` does at a given
    /// one, and hands to the store what is to be kept of it.
    pub fn handle_message(&mut self, message: &Message)
        ensures
            exists|t: Timestamp| final(self)@.nodes == after_message(old(self)@.nodes, message@, t),
            final(self)@.skips == old(self)@.skips,
            final(self).has_store() == old(self).has_store(),
            well_formed(old(self)@.nodes) ==> well_formed(final(self)@.nodes),
    {
        let batch = self.apply(message, now());
        self.persist(&batch);
    }

    /// The first sensor whose category is not known, as the ids of its node
    /// and of itself.
    pub fn first_unknown_sensor(&self) -> (r: Option<(u32, u32)>)
        ensures
            r == first_unknown(self@.nodes),
    {
        let ghost all = node_views(self.nodes@);
        let mut i: usize = 0;
        assert(all.skip(0) =~= all);
        while i < self.nodes.len()
            invariant
                i <= self.nodes@.len(),
                all == node_views(self.nodes@),
                first_unknown(all) == first_unknown(all.skip(i as int)),
            decreases self.nodes@.len() - i,
        {
            let node = &self.nodes[i];
            let p = unknown_sensor_position(&node.sensors);
            assert(all.skip(i as int)[0] == node@);
            if p < node.sensors.len() {
                return Some((node.id, node.sensors[p].id));
            }
            assert(all.skip(i as int).skip(1) =~= all.skip(i + 1));
            i += 1;
        }
        None
    }

    /// Makes one discovery scan, and gives the request that is to be sent, if
    /// there is one.
    pub fn next_request(&mut self) -> (r: Option<Message>)
        ensures
            final(self)@ == after_scan(old(self)@),
            final(self).has_store() == old(self).has_store(),
            match r {
                Some(m) => scan_request(old(self)@) == Some(m@),
                None => scan_request(old(self)@) is None,
            },
    {
        match self.first_unknown_sensor() {
            Some((node_id, sensor_id)) => {
                // one request, then a pause, whatever the number of sensors
                if self.presentation_request_skips > 0 {
                    self.presentation_request_skips -= 1;
                    None
                } else {
                    self.presentation_request_skips = COOLDOWN;
                    let msg = Message {
                        node_id: node_id,
                        child_sensor_id: sensor_id,
                        command: Command::Internal(Internal::Presentation),
                        ack: true,
                        payload: PayloadType::Str(String::new()),
                    };
                    assert(msg@ == request_for(node_id, sensor_id));
                    Some(msg)
                }
            },
            None => None,
        }
    }

    /// Makes one discovery scan, and sends its request, if there is one,
    /// through the gateway.
    pub fn request_unknown_sensors(&mut self)
        ensures
            final(self)@ == after_scan(old(self)@),
            final(self).has_store() == old(self).has_store(),
    {
        if let Some(msg) = self.next_request() {
            self.gateway.send(&msg);
        }
    }

    /// One round: waits for a line from the gateway, takes the message in
    /// if the line is one, and makes a discovery scan. A malformed line changes
    /// nothing but what the scan does, and comes back as the error.
    pub fn step(&mut self) -> (r: Result<(), MalformedStringError>)
        ensures
            match r {
                Ok(_) => exists|m: MessageView, t: Timestamp|
                    final(self)@ == after_step(old(self)@, m, t),
                Err(_) => final(self)@ == after_scan(old(self)@),
            },
            final(self).has_store() == old(self).has_store(),
            well_formed(old(self)@.nodes) ==> well_formed(final(self)@.nodes),
    {
        let message = self.gateway.receive();
        let r = match message {
            Ok(msg) => {
                self.handle_message(&msg);
                let ghost t = choose|t: Timestamp|
                    self@.nodes == after_message(old(self)@.nodes, msg@, t);
                assert(after_scan(self@) == after_step(old(self)@, msg@, t));
                Ok(())
            },
            Err(e) => Err(e),
        };
        self.request_unknown_sensors();
        r
    }

    /// The nodes, in the order in which they came.
    pub fn nodes(&self) -> (r: &Vec<Node>)
        ensures
            node_views(r@) == self@.nodes,
    {
        &self.nodes
    }

    /// The number of discovery scans that will still pass in silence.
    pub fn presentation_request_skips(&self) -> (r: u32)
        ensures
            r == self@.skips,
    {
        self.presentation_request_skips
    }
}

/// The place of the first sensor among `sensors` whose category is not known.
fn unknown_sensor_position(sensors: &Vec<Sensor>) -> (p: usize)
    ensures
        p == unknown_position(sensor_views(sensors@)),
        p <= sensors@.len(),
{
    let mut i: usize = 0;
    while i < sensors.len()
        invariant
            i <= sensors@.len(),
            forall|j: int|
                0 <= j < i ==> (#[trigger] sensor_views(sensors@)[j]).sensor_type is Some,
        decreases sensors@.len() - i,
    {
        if sensors[i].sensor_type.is_none() {
            proof {
                lemma_unknown_position_is(sensor_views(sensors@), i as int);
            }
            return i;
        }
        i += 1;
    }
    proof {
        lemma_unknown_position_is(sensor_views(sensors@), i as int);
    }
    i
}

} // verus!

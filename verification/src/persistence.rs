//! What the registry hands to a durable store, and the store's interface.

use crate::clock::Timestamp;
use vstd::prelude::*;

verus! {

/// A node as it is stored.
#[derive(Debug, PartialEq)]
pub struct Node {
    pub id: u32,
    pub name: String,
    pub version: String,
}

/// A sensor as it is stored, with the number of its category.
#[derive(Debug, PartialEq)]
pub struct Sensor {
    pub id: u32,
    pub node_id: u32,
    pub sensor_type: Option<u32>,
    pub description: String,
}

/// A reading as it is stored, with its value as text and the number of its
/// kind.
#[derive(Debug, PartialEq)]
pub struct Reading {
    pub node_id: u32,
    pub sensor_id: u32,
    pub timestamp: Timestamp,
    pub value: String,
    pub kind: u32,
}

/// What one message gives the store to keep.
#[derive(Debug, PartialEq)]
pub struct Batch {
    pub node: Option<Node>,
    pub sensor: Option<Sensor>,
    pub reading: Option<Reading>,
}

pub struct NodeRow {
    pub id: u32,
    pub name: Seq<char>,
    pub version: Seq<char>,
}

pub struct SensorRow {
    pub id: u32,
    pub node_id: u32,
    pub sensor_type: Option<u32>,
    pub description: Seq<char>,
}

pub struct ReadingRow {
    pub node_id: u32,
    pub sensor_id: u32,
    pub timestamp: Timestamp,
    pub value: Seq<char>,
    pub kind: u32,
}

pub struct BatchRows {
    pub node: Option<NodeRow>,
    pub sensor: Option<SensorRow>,
    pub reading: Option<ReadingRow>,
}

impl View for Node {
    type V = NodeRow;

    open spec fn view(&self) -> NodeRow {
        NodeRow { id: self.id, name: self.name@, version: self.version@ }
    }
}

impl View for Sensor {
    type V = SensorRow;

    open spec fn view(&self) -> SensorRow {
        SensorRow {
            id: self.id,
            node_id: self.node_id,
            sensor_type: self.sensor_type,
            description: self.description@,
        }
    }
}

impl View for Reading {
    type V = ReadingRow;

    open spec fn view(&self) -> ReadingRow {
        ReadingRow {
            node_id: self.node_id,
            sensor_id: self.sensor_id,
            timestamp: self.timestamp,
            value: self.value@,
            kind: self.kind,
        }
    }
}

impl View for Batch {
    type V = BatchRows;

    open spec fn view(&self) -> BatchRows {
        BatchRows {
            node: match self.node {
                Some(n) => Some(n@),
                None => None,
            },
            sensor: match self.sensor {
                Some(s) => Some(s@),
                None => None,
            },
            reading: match self.reading {
                Some(r) => Some(r@),
                None => None,
            },
        }
    }
}

/// A durable store. Storing a node or a sensor replaces what was stored under
/// the same id; storing a reading adds one.
pub trait Persist {
    fn store_node(&self, node: &Node);

    fn store_sensor(&self, sensor: &Sensor);

    fn store_reading(&self, reading: &Reading);
}

} // verus!

//! What holds of the registry whatever the messages are.

use super::model::{
    after_message, after_scan, changed_node, changed_sensor, distinct, first_unknown,
    fresh_sensor, lemma_position, lemma_position_is, lookup, lookup_sensor,
    node_or_fresh, position, reading_changed, rows_of_message, scan_request, sensor_or_fresh,
    upsert, well_formed, with_node, with_sensor, Identified, NodeChange, NodeView, ReadingView,
    Registry, SensorChange, SensorView,
};
use crate::clock::Timestamp;
use crate::gateway::message::{Command, Internal, MessageView};
use vstd::prelude::*;

verus! {

/// After `upsert`, the entry is found under its id, the other ids are found
/// as before, and ids that were distinct stay so.
pub proof fn lemma_upsert<T: Identified>(s: Seq<T>, id: u32, entry: T)
    requires
        entry.ident() == id,
    ensures
        position(upsert(s, id, entry), id) == position(s, id),
        lookup(upsert(s, id, entry), id) == Some(entry),
        forall|other: u32|
            other != id ==> #[trigger] lookup(upsert(s, id, entry), other) == lookup(s, other),
        distinct(s) ==> distinct(upsert(s, id, entry)),
{
    let after = upsert(s, id, entry);
    let p = position(s, id);
    lemma_position(s, id);
    lemma_position_is(after, id, p);
    assert forall|other: u32| other != id implies #[trigger] lookup(after, other) == lookup(
        s,
        other,
    ) by {
        lemma_position(s, other);
        let q = position(s, other);
        if q < s.len() {
            assert(after[q] == s[q]);
            lemma_position_is(after, other, q);
        } else {
            lemma_position_is(after, other, after.len() as int);
        }
    }
    if distinct(s) {
        assert forall|i: int, j: int| 0 <= i < j < after.len() implies (#[trigger] after[i]).ident()
            != (#[trigger] after[j]).ident() by {
            if p < s.len() {
                assert(s[p].ident() == id);
                if i != p && j != p {
                    assert(after[i] == s[i] && after[j] == s[j]);
                } else if i == p {
                    assert(after[j] == s[j]);
                } else {
                    assert(after[i] == s[i]);
                }
            } else {
                if j < s.len() {
                    assert(after[i] == s[i] && after[j] == s[j]);
                } else {
                    assert(after[i] == s[i]);
                }
            }
        }
    }
}

/// After a change to a sensor, the sensor is found as the change left it.
pub proof fn lemma_changed_sensor_is_found(
    nodes: Seq<NodeView>,
    node_id: u32,
    sensor_id: u32,
    change: SensorChange,
)
    ensures
        lookup_sensor(with_sensor(nodes, node_id, sensor_id, change), node_id, sensor_id) == Some(
            changed_sensor(
                sensor_or_fresh(node_or_fresh(nodes, node_id).sensors, sensor_id),
                change,
            ),
        ),
{
    let node = node_or_fresh(nodes, node_id);
    let sensor = changed_sensor(sensor_or_fresh(node.sensors, sensor_id), change);
    lemma_position(nodes, node_id);
    lemma_position(node.sensors, sensor_id);
    lemma_upsert(node.sensors, sensor_id, sensor);
    lemma_upsert(
        nodes,
        node_id,
        NodeView { sensors: upsert(node.sensors, sensor_id, sensor), ..node },
    );
}

/// A change to a sensor leaves every other sensor as it was: one that was
/// known is found unchanged, and none but the changed one is made.
pub proof fn lemma_other_sensors_stay(
    nodes: Seq<NodeView>,
    node_id: u32,
    sensor_id: u32,
    change: SensorChange,
    other_node: u32,
    other_sensor: u32,
)
    requires
        other_node != node_id || other_sensor != sensor_id,
    ensures
        lookup_sensor(with_sensor(nodes, node_id, sensor_id, change), other_node, other_sensor)
            == lookup_sensor(nodes, other_node, other_sensor),
{
    let node = node_or_fresh(nodes, node_id);
    let sensor = changed_sensor(sensor_or_fresh(node.sensors, sensor_id), change);
    lemma_position(nodes, node_id);
    lemma_position(node.sensors, sensor_id);
    lemma_upsert(node.sensors, sensor_id, sensor);
    lemma_upsert(
        nodes,
        node_id,
        NodeView { sensors: upsert(node.sensors, sensor_id, sensor), ..node },
    );
    if other_node == node_id && lookup(nodes, node_id) is None {
        lemma_position(Seq::<SensorView>::empty(), other_sensor);
    }
}

/// A change to a node leaves its sensors and every other node as they were.
pub proof fn lemma_with_node_keeps_the_rest(
    nodes: Seq<NodeView>,
    node_id: u32,
    change: NodeChange,
    other_node: u32,
    other_sensor: u32,
)
    ensures
        lookup_sensor(with_node(nodes, node_id, change), other_node, other_sensor)
            == lookup_sensor(nodes, other_node, other_sensor),
        other_node != node_id ==> lookup(with_node(nodes, node_id, change), other_node) == lookup(
            nodes,
            other_node,
        ),
{
    lemma_position(nodes, node_id);
    lemma_upsert(nodes, node_id, changed_node(node_or_fresh(nodes, node_id), change));
    if other_node == node_id && lookup(nodes, node_id) is None {
        lemma_position(Seq::<SensorView>::empty(), other_sensor);
    }
}

/// A change to a sensor keeps the registry's invariant.
pub proof fn lemma_with_sensor_keeps_well_formed(
    nodes: Seq<NodeView>,
    node_id: u32,
    sensor_id: u32,
    change: SensorChange,
)
    requires
        well_formed(nodes),
    ensures
        well_formed(with_sensor(nodes, node_id, sensor_id, change)),
{
    let node = node_or_fresh(nodes, node_id);
    let sensor = changed_sensor(sensor_or_fresh(node.sensors, sensor_id), change);
    let entry = NodeView { sensors: upsert(node.sensors, sensor_id, sensor), ..node };
    let after = with_sensor(nodes, node_id, sensor_id, change);
    let p = position(nodes, node_id);
    lemma_position(nodes, node_id);
    lemma_position(node.sensors, sensor_id);
    lemma_upsert(node.sensors, sensor_id, sensor);
    lemma_upsert(nodes, node_id, entry);
    assert forall|i: int| 0 <= i < after.len() implies distinct((#[trigger] after[i]).sensors) by {
        if i != p {
            assert(after[i] == nodes[i]);
        }
    }
}

/// A change to a node keeps the registry's invariant.
pub proof fn lemma_with_node_keeps_well_formed(
    nodes: Seq<NodeView>,
    node_id: u32,
    change: NodeChange,
)
    requires
        well_formed(nodes),
    ensures
        well_formed(with_node(nodes, node_id, change)),
{
    let entry = changed_node(node_or_fresh(nodes, node_id), change);
    let after = with_node(nodes, node_id, change);
    let p = position(nodes, node_id);
    lemma_position(nodes, node_id);
    lemma_upsert(nodes, node_id, entry);
    assert forall|i: int| 0 <= i < after.len() implies distinct((#[trigger] after[i]).sensors) by {
        if i != p {
            assert(after[i] == nodes[i]);
        }
    }
}

/// No message makes two nodes with one id, or two sensors with one id in one
/// node.
pub proof fn lemma_message_keeps_well_formed(nodes: Seq<NodeView>, m: MessageView, now: Timestamp)
    requires
        well_formed(nodes),
    ensures
        well_formed(after_message(nodes, m, now)),
{
    match m.command {
        Command::SetValue(kind) => lemma_with_sensor_keeps_well_formed(
            nodes,
            m.node_id,
            m.child_sensor_id,
            SensorChange::Reading(ReadingView { timestamp: now, value: m.payload, kind }),
        ),
        Command::Presentation(typ) => lemma_with_sensor_keeps_well_formed(
            nodes,
            m.node_id,
            m.child_sensor_id,
            SensorChange::Presentation(typ, m.payload.text()),
        ),
        Command::Internal(Internal::SketchName) => lemma_with_node_keeps_well_formed(
            nodes,
            m.node_id,
            NodeChange::Name(m.payload.text()),
        ),
        Command::Internal(Internal::SketchVersion) => lemma_with_node_keeps_well_formed(
            nodes,
            m.node_id,
            NodeChange::Version(m.payload.text()),
        ),
        _ => {},
    }
}

/// The latest reading of a sensor, if the sensor is known and has one.
pub open spec fn reading_of(nodes: Seq<NodeView>, node_id: u32, sensor_id: u32) -> Option<
    ReadingView,
> {
    match lookup_sensor(nodes, node_id, sensor_id) {
        Some(s) => s.last_reading,
        None => None,
    }
}

/// A sensor's reading is that of the last message that set a value for it:
/// such a message leaves its value, its kind and its time, and any other
/// message leaves the reading as it was.
pub proof fn lemma_reading_is_of_the_last_set(
    nodes: Seq<NodeView>,
    m: MessageView,
    now: Timestamp,
    node_id: u32,
    sensor_id: u32,
)
    ensures
        reading_of(after_message(nodes, m, now), node_id, sensor_id) == if m.command is SetValue
            && m.node_id == node_id && m.child_sensor_id == sensor_id {
            Some(ReadingView { timestamp: now, value: m.payload, kind: m.command->SetValue_0 })
        } else {
            reading_of(nodes, node_id, sensor_id)
        },
{
    match m.command {
        Command::SetValue(kind) => {
            let change = SensorChange::Reading(
                ReadingView { timestamp: now, value: m.payload, kind },
            );
            if m.node_id == node_id && m.child_sensor_id == sensor_id {
                lemma_changed_sensor_is_found(nodes, node_id, sensor_id, change);
            } else {
                lemma_other_sensors_stay(
                    nodes,
                    m.node_id,
                    m.child_sensor_id,
                    change,
                    node_id,
                    sensor_id,
                );
            }
        },
        Command::Presentation(typ) => {
            let change = SensorChange::Presentation(typ, m.payload.text());
            if m.node_id == node_id && m.child_sensor_id == sensor_id {
                lemma_changed_sensor_is_found(nodes, node_id, sensor_id, change);
            } else {
                lemma_other_sensors_stay(
                    nodes,
                    m.node_id,
                    m.child_sensor_id,
                    change,
                    node_id,
                    sensor_id,
                );
            }
        },
        Command::Internal(Internal::SketchName) => lemma_with_node_keeps_the_rest(
            nodes,
            m.node_id,
            NodeChange::Name(m.payload.text()),
            node_id,
            sensor_id,
        ),
        Command::Internal(Internal::SketchVersion) => lemma_with_node_keeps_the_rest(
            nodes,
            m.node_id,
            NodeChange::Version(m.payload.text()),
            node_id,
            sensor_id,
        ),
        _ => {},
    }
}

/// A value that is set for a sensor that was not known makes exactly that
/// sensor, with the value as its reading and nothing else known of it. Where
/// its node was not known either, exactly that node is made, behind the
/// others, with that one sensor; where it was, the sensor joins it behind its
/// other sensors. Nothing else changes.
pub proof fn lemma_set_makes_what_is_missing(nodes: Seq<NodeView>, m: MessageView, now: Timestamp)
    requires
        m.command is SetValue,
        lookup_sensor(nodes, m.node_id, m.child_sensor_id) is None,
    ensures
        ({
            let sensor = SensorView {
                id: m.child_sensor_id,
                sensor_type: None,
                description: Seq::empty(),
                last_reading: Some(
                    ReadingView { timestamp: now, value: m.payload, kind: m.command->SetValue_0 },
                ),
            };
            let after = after_message(nodes, m, now);
            &&& lookup_sensor(after, m.node_id, m.child_sensor_id) == Some(sensor)
            &&& match lookup(nodes, m.node_id) {
                None => after == nodes.push(
                    NodeView {
                        id: m.node_id,
                        name: Seq::empty(),
                        version: Seq::empty(),
                        sensors: seq![sensor],
                    },
                ),
                Some(node) => after == nodes.update(
                    position(nodes, m.node_id),
                    NodeView { sensors: node.sensors.push(sensor), ..node },
                ),
            }
        }),
{
    let kind = m.command->SetValue_0;
    let change = SensorChange::Reading(ReadingView { timestamp: now, value: m.payload, kind });
    lemma_changed_sensor_is_found(nodes, m.node_id, m.child_sensor_id, change);
    lemma_position(nodes, m.node_id);
    let node = node_or_fresh(nodes, m.node_id);
    lemma_position(node.sensors, m.child_sensor_id);
    let sensor = changed_sensor(fresh_sensor(m.child_sensor_id), change);
    assert(upsert(node.sensors, m.child_sensor_id, sensor) =~= node.sensors.push(sensor));
    assert(Seq::<SensorView>::empty().push(sensor) =~= seq![sensor]);
}

/// Of two messages in a row that set the same value of the same kind for the
/// same sensor, the second gives the store no reading, and the first gives it
/// one exactly where the value was news. Each of the two leaves its own time
/// on the sensor's reading.
pub proof fn lemma_repeated_value_is_stored_once(
    nodes: Seq<NodeView>,
    m: MessageView,
    first: Timestamp,
    second: Timestamp,
)
    requires
        m.command is SetValue,
    ensures
        ({
            let kind = m.command->SetValue_0;
            let once = after_message(nodes, m, first);
            let twice = after_message(once, m, second);
            &&& rows_of_message(nodes, m, first).reading is Some <==> reading_changed(
                nodes,
                m.node_id,
                m.child_sensor_id,
                m.payload,
                kind,
            )
            &&& rows_of_message(once, m, second).reading is None
            &&& lookup_sensor(once, m.node_id, m.child_sensor_id) matches Some(s)
                && s.last_reading == Some(
                ReadingView { timestamp: first, value: m.payload, kind },
            )
            &&& lookup_sensor(twice, m.node_id, m.child_sensor_id) matches Some(s)
                && s.last_reading == Some(
                ReadingView { timestamp: second, value: m.payload, kind },
            )
        }),
{
    let kind = m.command->SetValue_0;
    let once = after_message(nodes, m, first);
    lemma_changed_sensor_is_found(
        nodes,
        m.node_id,
        m.child_sensor_id,
        SensorChange::Reading(ReadingView { timestamp: first, value: m.payload, kind }),
    );
    lemma_changed_sensor_is_found(
        once,
        m.node_id,
        m.child_sensor_id,
        SensorChange::Reading(ReadingView { timestamp: second, value: m.payload, kind }),
    );
}

/// After a message that changes a sensor, the store gets the node and the
/// sensor; after one that changes a node, the node.
pub proof fn lemma_rows_are_there(nodes: Seq<NodeView>, m: MessageView, now: Timestamp)
    ensures
        m.command is SetValue || m.command is Presentation ==> rows_of_message(
            nodes,
            m,
            now,
        ).node is Some && rows_of_message(nodes, m, now).sensor is Some,
        m.command == Command::Internal(Internal::SketchName) || m.command == Command::Internal(
            Internal::SketchVersion,
        ) ==> rows_of_message(nodes, m, now).node is Some,
{
    match m.command {
        Command::SetValue(kind) => {
            let change = SensorChange::Reading(
                ReadingView { timestamp: now, value: m.payload, kind },
            );
            lemma_changed_sensor_is_found(nodes, m.node_id, m.child_sensor_id, change);
        },
        Command::Presentation(typ) => {
            let change = SensorChange::Presentation(typ, m.payload.text());
            lemma_changed_sensor_is_found(nodes, m.node_id, m.child_sensor_id, change);
        },
        Command::Internal(Internal::SketchName) => {
            let change = NodeChange::Name(m.payload.text());
            lemma_position(nodes, m.node_id);
            lemma_upsert(nodes, m.node_id, changed_node(node_or_fresh(nodes, m.node_id), change));
        },
        Command::Internal(Internal::SketchVersion) => {
            let change = NodeChange::Version(m.payload.text());
            lemma_position(nodes, m.node_id);
            lemma_upsert(nodes, m.node_id, changed_node(node_or_fresh(nodes, m.node_id), change));
        },
        _ => {},
    }
}

/// How many requests `n` discovery scans in a row send, with nothing else
/// happening between them.
pub open spec fn requests_sent(r: Registry, n: nat) -> nat
    decreases n,
{
    if n == 0 {
        0
    } else {
        (if scan_request(r) is Some {
            1nat
        } else {
            0nat
        }) + requests_sent(after_scan(r), (n - 1) as nat)
    }
}

/// While some sensor's category stays unknown, the scans first count the
/// skips down in silence, and from then on every twenty-first scan sends a
/// request: one scan that sends, then twenty that do not.
pub proof fn lemma_throttle(r: Registry, n: nat)
    requires
        first_unknown(r.nodes) is Some,
    ensures
        requests_sent(r, n) == if n <= r.skips {
            0
        } else {
            (n - r.skips + 20) / 21
        },
    decreases n,
{
    if n > 0 {
        lemma_throttle(after_scan(r), (n - 1) as nat);
    }
}

/// From rest, `n` discovery scans send a request in the first of every
/// twenty-one: the least whole number that is not below `n / 21`.
pub proof fn lemma_throttle_from_rest(r: Registry, n: nat)
    requires
        first_unknown(r.nodes) is Some,
        r.skips == 0,
    ensures
        requests_sent(r, n) == (n + 20) / 21,
        21 * requests_sent(r, n) >= n > 21 * (requests_sent(r, n) - 1),
{
    lemma_throttle(r, n);
}

/// Without a sensor whose category is unknown, a discovery scan sends
/// nothing and changes nothing.
pub proof fn lemma_nothing_to_discover(r: Registry, n: nat)
    requires
        first_unknown(r.nodes) is None,
    ensures
        requests_sent(r, n) == 0,
        after_scan(r) == r,
    decreases n,
{
    if n > 0 {
        lemma_nothing_to_discover(r, (n - 1) as nat);
    }
}

} // verus!

//! A gateway controller for a network of sensor nodes: the text protocol of
//! the serial link, and the registry of nodes, sensors and readings that the
//! messages build up.

pub mod clock;
pub mod controller;
pub mod gateway;
pub mod persistence;

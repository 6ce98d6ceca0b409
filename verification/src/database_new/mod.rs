//! The second generation of the database layer: queries of the graph
//! database and their wire form, and the connector's client handle.

pub mod indradb;

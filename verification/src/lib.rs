//! Verified core of a network emulation controller: topology graphs and their
//! partitioning, command lines for containers and links, connection and
//! request bookkeeping for the graph database, and the wire form of queries.

pub mod algo;
pub mod database;
pub mod decimal;
pub mod command;
pub mod database_new;
pub mod mock_server;
pub mod cli;
pub mod backend;
pub mod container_backend;
pub mod container_server;
pub mod config_directive;

//! A bridge from structured log events to a remote telemetry collector.
//!
//! Events are captured on the emitting thread, turned into log records and
//! handed to a bounded queue. A single background worker drains the queue,
//! groups records into batches by size and age, and ships every batch through
//! an export call that is retried until it succeeds.
//!
//! This crate holds the decisions of that pipeline: which events become
//! records, what a record and a batch contain, when a batch is due, and what
//! follows a failed shipment. Clocks, threads and the network stay with the
//! caller, which feeds the worker with events and performs the actions it
//! answers with.

pub mod batch;
pub mod capture;
pub mod exporter;
pub mod fields;
pub mod guarantees;
pub mod level;
pub mod opentelclient;
pub mod queue;
pub mod worker;

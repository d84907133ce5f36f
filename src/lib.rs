//! Sensor-ingestion harness: the decisions of a rate-limited, reconnecting
//! alert generator, of a metric-counting ingest session and of a throughput
//! reporter, each stated and proved over a mathematical model.
pub mod alert;
pub mod pacing;
pub mod generator;
pub mod ingest;
pub mod reporter;

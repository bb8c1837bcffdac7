//! Progress inference for a subprocess-driven downloader.
//!
//! The library reconstructs a single coherent progress signal from the
//! unstructured text lines that an external download tool prints on its
//! two output streams. It classifies each line into a domain event,
//! folds events into a monotonic progress snapshot stream, and models
//! the lifecycle of the single active job, including cooperative
//! cancellation. All I/O (spawning the tool, pumping its streams,
//! delivering snapshots) lives outside this crate; the logic here is
//! pure and verified.

pub mod aggregator;
pub mod classifier;
pub mod laws;
pub mod supervisor;
pub mod text;

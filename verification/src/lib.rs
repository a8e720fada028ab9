//! Benchmark bookkeeping for a browser renderer benchmark: scene and
//! parameter identifiers, per-backend capability profiles, the benchmark
//! schedule, the A/B comparison schedule, the scene-scoped image cache and
//! the persisted calibration data.

pub mod scenes;
pub mod capability;
pub mod backend;
pub mod text;
pub mod harness;
pub mod ab;
pub mod resource_store;
pub mod storage;
pub mod benches;

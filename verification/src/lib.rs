//! Verified core of a real-time voice conversion pipeline.
//!
//! The library holds the rules of the pipeline: which model generation a
//! version string selects, how a model load proceeds and fails, how speaker
//! embeddings are addressed, in which order the stages of a conversion run,
//! how audio is laid out in channels, hops and queues, and how a streaming
//! session starts and stops.
//!
//! Audio samples and real-valued settings are carried as IEEE-754 bit
//! patterns. The library moves them and never computes on them: the
//! arithmetic on real numbers, the inference engine, the resamplers and the
//! devices belong to the host, which hands them in as functions. What is
//! proved here holds for every such function.

pub mod beatrice;
pub mod browse;
pub mod devices;
pub mod embedding;
pub mod engine;
pub mod errors;
pub mod folder;
pub mod frames;
pub mod generation;
pub mod image;
pub mod layout;
pub mod loader;
pub mod manifest;
pub mod params;
pub mod pitch;
pub mod ring;
pub mod sample;
pub mod session;
pub mod slot;
pub mod tables;
pub mod text;
pub mod toml_tree;

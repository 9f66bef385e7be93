//! A workflow engine for machine-learning pipelines: workflows made of steps,
//! instances that record step results, a scheduler that hands steps to
//! workers, and feedback loops that send an instance back to an earlier step.
pub mod clock;
pub mod consensus;
pub mod engine;
pub mod ids;
pub mod laws;
pub mod model;
pub mod registry;
pub mod scheduler;
pub mod storage;
pub mod worker;

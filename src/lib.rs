//! An autonomous social-media persona: a versioned persona store with
//! branching, a mention watermark, weighted action dispatch and prompt
//! assembly, each with a verified contract.

pub mod agent;
pub mod character;
pub mod credentials;
pub mod lineage;
pub mod mentions;
pub mod prompt;
pub mod schedule;
pub mod store;
pub mod text;

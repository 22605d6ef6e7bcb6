//! The shader-to-pipeline core of a rendering backend: bytecode caching,
//! pipeline-cache persistence, the pipeline pool and the decisions that tie
//! them together.

pub mod backend;
pub mod bytecode_cache;
pub mod error;
pub mod pipeline;
pub mod pipeline_cache;
pub mod pool;
pub mod run;
pub mod setup;
pub mod spirv;

//! Lowering of ray-query and ray-tracing operations into SPIR-V instruction
//! records, with the identifier allocator, declaration interner and value
//! cache that the lowering threads through.

pub mod opcodes;
pub mod ids;
pub mod instruction;
pub mod types;
pub mod cache;
pub mod context;
pub mod ray;
pub mod query;
pub mod intersection;
pub mod tracing;
pub mod semantics;
pub mod stream;

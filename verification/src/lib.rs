//! A verified interpreter core for the Universal Machine: a register virtual
//! machine with eight 32-bit registers, a dynamic address space of
//! independently sized word arrays ("platters"), wrap-around arithmetic,
//! and byte-oriented console I/O.
//!
//! The crate holds the pure engine: image loading, instruction decoding,
//! the memory manager with its free-slot reuse policy, and the per-step
//! transition semantics. A host drives the loop, performing the actual
//! console reads and writes that the step outcomes call for.

pub mod decode;
pub mod fault;
pub mod loader;
pub mod machine;
pub mod memory;

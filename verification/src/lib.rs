//! Core of a RISC-V-style paged virtual-memory system: the table walk that
//! turns a virtual address into a physical address or a fault cause.
//!
//! The translator owns only its configuration (root register value, ISA) and
//! performs a stateless-per-call walk.  Memory is reached through an injected
//! capability ([`memory::MemoryReader`]) and the two global protection bits
//! come from an explicit [`status::StatusOracle`], so every call is a pure
//! function of its arguments.

pub mod bit_field;
pub mod memory;
pub mod mmu;
pub mod properties;
pub mod status;
pub mod translate_state;

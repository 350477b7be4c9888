//! Guest-side runtime shim for a module living in a sandboxed linear-memory
//! environment that exchanges UTF-8 text with its host across a numeric
//! (offset, length) calling convention.
//!
//! The heart of the crate is the ownership-transfer protocol for
//! linear-memory buffers: [`memory`] hands out and reclaims owned byte
//! regions, [`marshal`] converts between native strings and
//! (offset, length) pairs, and [`host`] carries a borrowed string across
//! the boundary to the host's logging capability.

mod host;
mod marshal;
mod memory;

pub use host::log;
pub use host::HostLog;
pub use marshal::lemma_round_trip;
pub use marshal::ptr_to_string;
pub use marshal::store_string;
pub use marshal::string_to_ptr;
pub use marshal::DecodeError;
pub use marshal::GuestString;
pub use memory::lemma_no_aliasing;
pub use memory::lemma_size_fidelity;
pub use memory::lemma_zero_size_allocation;
pub use memory::regions_disjoint;
pub use memory::LinearMemory;

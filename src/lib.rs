//! A decoder for ELF64 x86-64 executables and the planning half of a loader
//! that places their segments in the current process: page-aligned images,
//! relative relocations and page protections, each with a proved contract.

pub mod addr;
pub mod bytes;
pub mod error;
pub mod file;
pub mod header;
pub mod loader;
pub mod lookup;
pub mod reloc;
pub mod segment;
pub mod types;

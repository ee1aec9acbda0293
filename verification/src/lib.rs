//! Typed process, file, memory and network events of a Linux kernel.
//!
//! Kernel probes make records ([`probe`], [`raw`]), which cross to user space
//! as bytes ([`wire`]). There they become events ([`convert`]) and go to the
//! subscribers whose filters asked for them ([`attach`], [`runtime`],
//! [`handoff`]).
//!
//! What holds of all this is stated next to it, and in modules of its own: of
//! the records that probes make ([`sieve`]), of their bytes ([`layout`]), of the
//! events that come of them ([`arrival`], [`reading`], [`wording`]), of setting up
//! a subscription ([`setup`]) and serving it ([`delivery`]), and of the whole way
//! from a probe to a subscriber ([`laws`], [`journey`]).
pub mod arrival;
pub mod attach;
pub mod common;
pub mod convert;
pub mod delivery;
pub mod error;
pub mod file;
pub mod handoff;
pub mod ip;
pub mod journey;
pub mod laws;
pub mod layout;
pub mod mask;
pub mod memory;
pub mod network;
pub mod probe;
pub mod process;
pub mod raw;
pub mod reading;
pub mod rename;
pub mod runtime;
pub mod setup;
pub mod sieve;
pub mod text;
pub mod wire;
pub mod wording;

pub use common::{EventHeader, ProcessId};
pub use file::{FileEvent, FileFilter, FileMask, FileType, FileTypeFilter};
pub use memory::{MemoryEvent, MemoryFilter, MemoryMask};
pub use network::{NetworkEvent, NetworkFilter, NetworkMask, Protocol, ProtocolMask};
pub use process::{ProcessEvent, ProcessFilter, ProcessMask};
pub use raw::FilterKey;
pub use runtime::{Bpfx, BpfxConfig};

//! Boundary layer for driving an embedded virtual-machine execution engine:
//! a registry that issues stable handles for live engine instances, input
//! marshaling from host-supplied plain values, and a response protocol that
//! reports every outcome as a structured record.

pub mod boundary;
pub mod externals;
pub mod marshal;
pub mod registry;
pub mod response;

use vstd::prelude::*;

verus! {

/// Initial interpreter memory, in pages, of every machine's configuration.
pub const DEFAULT_INITIAL_PAGES: u64 = 1024;

/// Maximum interpreter memory, in pages, of every machine's configuration.
pub const DEFAULT_MAX_PAGES: u64 = 32768;

/// Wasm interpreter limits a machine is configured with.
pub struct MachineConfig {
    pub initial_pages: u64,
    pub max_pages: u64,
}

/// The configuration every machine is created with.
pub open spec fn spec_default_config() -> MachineConfig {
    MachineConfig { initial_pages: DEFAULT_INITIAL_PAGES, max_pages: DEFAULT_MAX_PAGES }
}

pub fn default_config() -> (c: MachineConfig)
    ensures
        c == spec_default_config(),
{
    MachineConfig { initial_pages: DEFAULT_INITIAL_PAGES, max_pages: DEFAULT_MAX_PAGES }
}

} // verus!

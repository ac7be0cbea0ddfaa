use vstd::prelude::*;

pub mod records;
pub mod filter;
pub mod cell;
pub mod attempt;
pub mod relay;
pub mod cluster;
pub mod inventory;
pub mod listen;
pub mod certificates;

verus! {

/// The port the proxy listens on, and the port of every backend.
pub const BACKEND_PORT: u16 = 6443;

} // verus!

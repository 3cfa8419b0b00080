//! Verified command logic of the local App Server WebSocket groups.
//!
//! Each module holds one command group's decisions, validations and pure
//! transformations; transport, persistence and process plumbing are left to
//! the host around this library.

pub mod errors;
pub mod memory;
pub mod memory_paths;
pub mod memory_refs;
pub mod models;
pub mod router;
pub mod schedules;
pub mod settings;
pub mod skills;
pub mod teleport;
pub mod terminal;
pub mod text;
pub mod text_map;

use vstd::prelude::*;

verus! {

/// Identifier of one live WebSocket connection.
pub type ConnectionId = u64;

} // verus!

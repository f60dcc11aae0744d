//! Typed snapshots of the symbol objects of the game world, the capabilities
//! they share, and constants of the game's mechanics.

pub mod constants;
pub mod properties;
pub mod resource;
pub mod room_object;
pub mod store;
pub mod symbol_container;
pub mod symbol_decoder;
pub mod traits;

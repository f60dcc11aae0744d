//! The names of the host's object properties that the snapshots are read
//! from.
use vstd::prelude::*;

verus! {

/// Identifier of an object.
pub const PROP_ID: &'static str = "id";

/// Position of a room object.
pub const PROP_POS: &'static str = "pos";

/// Room of a room object.
pub const PROP_ROOM: &'static str = "room";

/// Effects applied to a room object.
pub const PROP_EFFECTS: &'static str = "effects";

/// Store of an object that holds resources.
pub const PROP_STORE: &'static str = "store";

/// Ticks before an object decays.
pub const PROP_TICKS_TO_DECAY: &'static str = "ticksToDecay";

/// Resource type held by a symbol container or accepted by a symbol decoder.
pub const PROP_RESOURCE_TYPE: &'static str = "resourceType";

/// Score multiplier of a symbol decoder.
pub const PROP_SCORE_MULTIPLIER: &'static str = "scoreMultiplier";

/// Horizontal coordinate of a position.
pub const PROP_X: &'static str = "x";

/// Vertical coordinate of a position.
pub const PROP_Y: &'static str = "y";

/// Name of the room of a position.
pub const PROP_ROOM_NAME: &'static str = "roomName";

/// Name of a room.
pub const PROP_NAME: &'static str = "name";

/// Identifier of an effect.
pub const PROP_EFFECT: &'static str = "effect";

/// Level of an effect.
pub const PROP_LEVEL: &'static str = "level";

/// Ticks before an effect ends.
pub const PROP_TICKS_REMAINING: &'static str = "ticksRemaining";

} // verus!

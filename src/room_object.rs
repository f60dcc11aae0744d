//! What every object in a room has: a position, a room and effects.
use vstd::prelude::*;

use crate::traits::{HasPosition, RoomObjectProperties};

verus! {

/// A point in the world: coordinates within a room, and the room's name.
#[derive(Clone, Debug, PartialEq, Eq)]
pub struct RoomPosition {
    pub x: u8,
    pub y: u8,
    pub room_name: String,
}

/// An effect applied to an object.
#[derive(Clone, Copy, Debug, PartialEq, Eq, Structural)]
pub struct Effect {
    /// The host's identifier of the effect.
    pub effect: u32,
    /// The level of the effect, for effects that have levels.
    pub level: Option<u32>,
    /// Ticks until the effect ends.
    pub ticks_remaining: u32,
}

/// The properties common to all objects in a room, as read for the current
/// tick.
pub struct RoomObject {
    pos: Option<RoomPosition>,
    room: Option<String>,
    effects: Vec<Effect>,
}

/// The view of an optional string: its characters, if there is one.
pub open spec fn opt_chars(s: Option<String>) -> Option<Seq<char>> {
    match s {
        Some(v) => Some(v@),
        None => None,
    }
}

impl RoomObject {
    /// An object at `pos` (absent when it is not in the observable world),
    /// in the room named `room` (absent when that room is not visible),
    /// under `effects`.
    pub fn new(pos: Option<RoomPosition>, room: Option<String>, effects: Vec<Effect>) -> (r:
        RoomObject)
        ensures
            r.spec_pos() == pos,
            r.spec_room() == opt_chars(room),
            r.spec_effects() == effects@,
    {
        RoomObject { pos, room, effects }
    }
}

impl HasPosition for RoomObject {
    closed spec fn spec_pos(&self) -> Option<RoomPosition> {
        self.pos
    }

    fn pos(&self) -> (r: &Option<RoomPosition>) {
        &self.pos
    }
}

impl RoomObjectProperties for RoomObject {
    closed spec fn spec_effects(&self) -> Seq<Effect> {
        self.effects@
    }

    closed spec fn spec_room(&self) -> Option<Seq<char>> {
        opt_chars(self.room)
    }

    fn effects(&self) -> (r: &Vec<Effect>) {
        &self.effects
    }

    fn room(&self) -> (r: Option<&String>) {
        self.room.as_ref()
    }
}

} // verus!

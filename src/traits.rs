//! Capabilities shared by several kinds of objects.
use vstd::prelude::*;

use crate::resource::ResourceType;
use crate::room_object::{Effect, RoomPosition};
use crate::store::Store;

verus! {

/// Objects that carry an identifier, with which a fresh reference to the
/// object can be fetched on later ticks.
pub trait HasId {
    /// The object's identifier, if it has one.
    spec fn spec_id(&self) -> Option<Seq<char>>;

    fn id(&self) -> (r: Option<&String>)
        ensures
            r.is_some() == self.spec_id().is_some(),
            r.is_some() ==> r.unwrap()@ == self.spec_id().unwrap(),
    ;
}

/// Objects that may have a position in the world.
pub trait HasPosition {
    /// The object's position; absent when it has left the observable world.
    spec fn spec_pos(&self) -> Option<RoomPosition>;

    fn pos(&self) -> (r: &Option<RoomPosition>)
        ensures
            *r == self.spec_pos(),
    ;
}

/// Objects that hold resources.
pub trait HasStore {
    /// The amount held of each resource type.
    spec fn spec_store(&self) -> Map<ResourceType, u32>;

    fn store(&self) -> (r: &Store)
        ensures
            r@ == self.spec_store(),
    ;
}

/// Objects that disappear after some number of ticks.
pub trait CanDecay {
    /// Ticks remaining before the object disappears.
    spec fn spec_ticks_to_decay(&self) -> u32;

    fn ticks_to_decay(&self) -> (r: u32)
        ensures
            r == self.spec_ticks_to_decay(),
    ;
}

/// The properties every object in a room has besides its position.
pub trait RoomObjectProperties {
    /// Effects applied to the object.
    spec fn spec_effects(&self) -> Seq<Effect>;

    /// The name of the object's room; absent when that room is not visible.
    spec fn spec_room(&self) -> Option<Seq<char>>;

    fn effects(&self) -> (r: &Vec<Effect>)
        ensures
            r@ == self.spec_effects(),
    ;

    fn room(&self) -> (r: Option<&String>)
        ensures
            r.is_some() == self.spec_room().is_some(),
            r.is_some() ==> r.unwrap()@ == self.spec_room().unwrap(),
    ;
}

} // verus!

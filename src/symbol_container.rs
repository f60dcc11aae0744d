//! Containers that appear around the map holding symbol resources, which can
//! be collected to score points.
use vstd::prelude::*;

use crate::resource::ResourceType;
use crate::room_object::{Effect, RoomObject, RoomPosition};
use crate::store::Store;
use crate::traits::{CanDecay, HasId, HasPosition, HasStore, RoomObjectProperties};

verus! {

/// A symbol container, as read for the current tick.
pub struct SymbolContainer {
    object: RoomObject,
    id: String,
    store: Store,
    ticks_to_decay: u32,
    resource_type: ResourceType,
}

impl SymbolContainer {
    /// The container with identifier `id` whose common properties are
    /// `object`, holding `store` of `resource_type`, `ticks_to_decay` ticks
    /// before it disappears.
    pub fn new(
        object: RoomObject,
        id: String,
        store: Store,
        ticks_to_decay: u32,
        resource_type: ResourceType,
    ) -> (r: SymbolContainer)
        ensures
            r.spec_id() == Some(id@),
            r.spec_pos() == object.spec_pos(),
            r.spec_room() == object.spec_room(),
            r.spec_effects() == object.spec_effects(),
            r.spec_store() == store@,
            r.spec_ticks_to_decay() == ticks_to_decay,
            r.spec_resource_type() == resource_type,
    {
        SymbolContainer { object, id, store, ticks_to_decay, resource_type }
    }

    /// The resource type held here to score points.
    pub closed spec fn spec_resource_type(&self) -> ResourceType {
        self.resource_type
    }

    /// The resource type held here to score points.
    pub fn resource_type(&self) -> (r: ResourceType)
        ensures
            r == self.spec_resource_type(),
    {
        self.resource_type
    }
}

impl HasId for SymbolContainer {
    closed spec fn spec_id(&self) -> Option<Seq<char>> {
        Some(self.id@)
    }

    fn id(&self) -> (r: Option<&String>) {
        Some(&self.id)
    }
}

impl HasPosition for SymbolContainer {
    closed spec fn spec_pos(&self) -> Option<RoomPosition> {
        self.object.spec_pos()
    }

    fn pos(&self) -> (r: &Option<RoomPosition>) {
        self.object.pos()
    }
}

impl HasStore for SymbolContainer {
    closed spec fn spec_store(&self) -> Map<ResourceType, u32> {
        self.store@
    }

    fn store(&self) -> (r: &Store) {
        &self.store
    }
}

impl CanDecay for SymbolContainer {
    closed spec fn spec_ticks_to_decay(&self) -> u32 {
        self.ticks_to_decay
    }

    fn ticks_to_decay(&self) -> (r: u32) {
        self.ticks_to_decay
    }
}

impl RoomObjectProperties for SymbolContainer {
    closed spec fn spec_effects(&self) -> Seq<Effect> {
        self.object.spec_effects()
    }

    closed spec fn spec_room(&self) -> Option<Seq<char>> {
        self.object.spec_room()
    }

    fn effects(&self) -> (r: &Vec<Effect>) {
        self.object.effects()
    }

    fn room(&self) -> (r: Option<&String>) {
        self.object.room()
    }
}

} // verus!

//! Decoders, which turn matching symbol resources into points on the
//! leaderboard.
use vstd::prelude::*;

use crate::resource::ResourceType;
use crate::room_object::{Effect, RoomObject, RoomPosition};
use crate::traits::{HasId, HasPosition, RoomObjectProperties};

verus! {

/// A symbol decoder, as read for the current tick.
pub struct SymbolDecoder {
    object: RoomObject,
    id: String,
    resource_type: ResourceType,
    score_multiplier: u32,
}

impl SymbolDecoder {
    /// The decoder with identifier `id` whose common properties are
    /// `object`, accepting `resource_type` and multiplying the points scored
    /// by `score_multiplier`.
    pub fn new(
        object: RoomObject,
        id: String,
        resource_type: ResourceType,
        score_multiplier: u32,
    ) -> (r: SymbolDecoder)
        ensures
            r.spec_id() == Some(id@),
            r.spec_pos() == object.spec_pos(),
            r.spec_room() == object.spec_room(),
            r.spec_effects() == object.spec_effects(),
            r.spec_resource_type() == resource_type,
            r.spec_score_multiplier() == score_multiplier,
    {
        SymbolDecoder { object, id, resource_type, score_multiplier }
    }

    /// The resource type that may be transferred here to score points.
    pub closed spec fn spec_resource_type(&self) -> ResourceType {
        self.resource_type
    }

    /// The multiplier applied to points scored here, set by the level of the
    /// room's controller.
    pub closed spec fn spec_score_multiplier(&self) -> u32 {
        self.score_multiplier
    }

    /// The resource type that may be transferred here to score points.
    pub fn resource_type(&self) -> (r: ResourceType)
        ensures
            r == self.spec_resource_type(),
    {
        self.resource_type
    }

    /// The multiplier applied to points scored here.
    pub fn score_multiplier(&self) -> (r: u32)
        ensures
            r == self.spec_score_multiplier(),
    {
        self.score_multiplier
    }
}

impl HasId for SymbolDecoder {
    closed spec fn spec_id(&self) -> Option<Seq<char>> {
        Some(self.id@)
    }

    fn id(&self) -> (r: Option<&String>) {
        Some(&self.id)
    }
}

impl HasPosition for SymbolDecoder {
    closed spec fn spec_pos(&self) -> Option<RoomPosition> {
        self.object.spec_pos()
    }

    fn pos(&self) -> (r: &Option<RoomPosition>) {
        self.object.pos()
    }
}

impl RoomObjectProperties for SymbolDecoder {
    closed spec fn spec_effects(&self) -> Seq<Effect> {
        self.object.spec_effects()
    }

    closed spec fn spec_room(&self) -> Option<Seq<char>> {
        self.object.spec_room()
    }

    fn effects(&self) -> (r: &Vec<Effect>) {
        self.object.effects()
    }

    fn room(&self) -> (r: Option<&String>) {
        self.object.room()
    }
}

} // verus!

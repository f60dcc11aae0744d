//! Numeric and string constants of game mechanics that the host's own
//! constant table leaves out.
use vstd::prelude::*;

verus! {

/// Maximum length of signs on controllers.
pub const CONTROLLER_SIGN_MAX_LENGTH: u32 = 100;

/// Maximum amount of CPU that can be accumulated in the bucket per shard.
pub const CPU_BUCKET_MAX: u32 = 10_000;

/// Maximum value of the per-tick CPU limit when more bucket is available than
/// can be used this tick.
pub const CPU_TICK_LIMIT_MAX: u32 = 500;

/// Hits per creep body part.
pub const CREEP_HITS_PER_PART: u32 = 100;

/// Maximum length of names of creeps.
pub const CREEP_NAME_MAX_LENGTH: u32 = 100;

/// Maximum length of names of flag objects.
pub const FLAG_NAME_MAX_LENGTH: u32 = 60;

/// Maximum size in bytes (100 KiB) of the string contents allowed for inter
/// shard memory.
pub const INTER_SHARD_MEMORY_SIZE_LIMIT: u32 = 100 * 1024;

/// Owner username of hostile non-player structures and creeps which create
/// strongholds and spawn in rooms due to energy harvesting.
pub const INVADER_USERNAME: &'static str = "Invader";

/// Maximum range from a lab to the input or output labs it's interacting with.
pub const LAB_REACTION_RANGE: u32 = 2;

/// The maximum size (1000 KiB) of the serialized map visual data.
pub const MAP_VISUAL_SIZE_LIMIT: u32 = 1000 * 1024;

/// Maximum size in bytes (100 KiB) of the string contents allowed in memory
/// segments.
pub const MEMORY_SEGMENT_SIZE_LIMIT: u32 = 100 * 1024;

/// Maximum size in bytes (2 MiB) of the string contents allowed in memory.
pub const MEMORY_SIZE_LIMIT: u32 = 2 * 1024 * 1024;

/// Fatigue points removed per effective move part per tick.
pub const MOVE_POWER: u32 = 2;

/// Maximum hits of a power creep per level.
pub const POWER_CREEP_HITS_PER_LEVEL: u32 = 1000;

/// Maximum length of names of power creeps.
pub const POWER_CREEP_NAME_MAX_LENGTH: u32 = 100;

/// Hits of damage per effective ranged attack part per ranged mass attack
/// action at range 1.
pub const RANGED_MASS_ATTACK_POWER_RANGE_1: u32 = 10;

/// Hits of damage per effective ranged attack part per ranged mass attack
/// action at range 2.
pub const RANGED_MASS_ATTACK_POWER_RANGE_2: u32 = 4;

/// Hits of damage per effective ranged attack part per ranged mass attack
/// action at range 3.
pub const RANGED_MASS_ATTACK_POWER_RANGE_3: u32 = 1;

/// The maximum size (500 KiB) of the serialized room visual data for each
/// room.
pub const ROOM_VISUAL_PER_ROOM_SIZE_LIMIT: u32 = 500 * 1024;

/// Maximum length of strings that creeps and power creeps can say.
pub const SAY_MAX_LENGTH: u32 = 10;

/// Owner username of hostile non-player structures and creeps which occupy
/// sector center rooms.
pub const SOURCE_KEEPER_USERNAME: &'static str = "Source Keeper";

/// Maximum length of names of spawns.
pub const SPAWN_NAME_MAX_LENGTH: u32 = 100;

/// Exponential scaling rate for terminal energy costs.
///
/// Energy cost to send resources with a terminal is
/// `ceil(resource_amount * (1 - exp(-range / 30)))`.
pub const TERMINAL_SEND_COST_SCALE: u32 = 30;

} // verus!

use screeps_symbols::properties::{
    PROP_EFFECT, PROP_EFFECTS, PROP_ID, PROP_LEVEL, PROP_NAME, PROP_POS, PROP_RESOURCE_TYPE,
    PROP_ROOM, PROP_ROOM_NAME, PROP_SCORE_MULTIPLIER, PROP_STORE, PROP_TICKS_REMAINING,
    PROP_TICKS_TO_DECAY, PROP_X, PROP_Y,
};
use screeps_symbols::constants::{
    CONTROLLER_SIGN_MAX_LENGTH, CPU_BUCKET_MAX, CPU_TICK_LIMIT_MAX, CREEP_HITS_PER_PART,
    CREEP_NAME_MAX_LENGTH, FLAG_NAME_MAX_LENGTH, INTER_SHARD_MEMORY_SIZE_LIMIT, INVADER_USERNAME,
    LAB_REACTION_RANGE, MAP_VISUAL_SIZE_LIMIT, MEMORY_SEGMENT_SIZE_LIMIT, MEMORY_SIZE_LIMIT,
    MOVE_POWER, POWER_CREEP_HITS_PER_LEVEL, POWER_CREEP_NAME_MAX_LENGTH,
    RANGED_MASS_ATTACK_POWER_RANGE_1, RANGED_MASS_ATTACK_POWER_RANGE_2,
    RANGED_MASS_ATTACK_POWER_RANGE_3, ROOM_VISUAL_PER_ROOM_SIZE_LIMIT, SAY_MAX_LENGTH,
    SOURCE_KEEPER_USERNAME, SPAWN_NAME_MAX_LENGTH, TERMINAL_SEND_COST_SCALE,
};

#[test]
fn cpu_and_say_limits_match_host() {
    assert_eq!(CPU_BUCKET_MAX, 10000);
    assert_eq!(SAY_MAX_LENGTH, 10);
    assert_eq!(CPU_TICK_LIMIT_MAX, 500);
}

#[test]
fn name_length_limits_match_host() {
    assert_eq!(CONTROLLER_SIGN_MAX_LENGTH, 100);
    assert_eq!(CREEP_NAME_MAX_LENGTH, 100);
    assert_eq!(FLAG_NAME_MAX_LENGTH, 60);
    assert_eq!(POWER_CREEP_NAME_MAX_LENGTH, 100);
    assert_eq!(SPAWN_NAME_MAX_LENGTH, 100);
}

#[test]
fn size_limits_match_host() {
    assert_eq!(INTER_SHARD_MEMORY_SIZE_LIMIT, 102_400);
    assert_eq!(MAP_VISUAL_SIZE_LIMIT, 1_024_000);
    assert_eq!(MEMORY_SEGMENT_SIZE_LIMIT, 102_400);
    assert_eq!(MEMORY_SIZE_LIMIT, 2_097_152);
    assert_eq!(ROOM_VISUAL_PER_ROOM_SIZE_LIMIT, 512_000);
}

#[test]
fn combat_and_movement_values_match_host() {
    assert_eq!(CREEP_HITS_PER_PART, 100);
    assert_eq!(LAB_REACTION_RANGE, 2);
    assert_eq!(MOVE_POWER, 2);
    assert_eq!(POWER_CREEP_HITS_PER_LEVEL, 1000);
    assert_eq!(RANGED_MASS_ATTACK_POWER_RANGE_1, 10);
    assert_eq!(RANGED_MASS_ATTACK_POWER_RANGE_2, 4);
    assert_eq!(RANGED_MASS_ATTACK_POWER_RANGE_3, 1);
    assert_eq!(TERMINAL_SEND_COST_SCALE, 30);
}

#[test]
fn usernames_match_host() {
    assert_eq!(INVADER_USERNAME, "Invader");
    assert_eq!(SOURCE_KEEPER_USERNAME, "Source Keeper");
}

#[test]
fn property_names_match_host() {
    assert_eq!(PROP_ID, "id");
    assert_eq!(PROP_POS, "pos");
    assert_eq!(PROP_ROOM, "room");
    assert_eq!(PROP_EFFECTS, "effects");
    assert_eq!(PROP_STORE, "store");
    assert_eq!(PROP_TICKS_TO_DECAY, "ticksToDecay");
    assert_eq!(PROP_RESOURCE_TYPE, "resourceType");
    assert_eq!(PROP_SCORE_MULTIPLIER, "scoreMultiplier");
    assert_eq!(PROP_X, "x");
    assert_eq!(PROP_Y, "y");
    assert_eq!(PROP_ROOM_NAME, "roomName");
    assert_eq!(PROP_NAME, "name");
    assert_eq!(PROP_EFFECT, "effect");
    assert_eq!(PROP_LEVEL, "level");
    assert_eq!(PROP_TICKS_REMAINING, "ticksRemaining");
}

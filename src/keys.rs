use vstd::prelude::*;

verus! {

/// Multiplier of the field-key hash.
pub const FX_SEED: u64 = 0x517cc1b727220a95;

/// The field keys that the payload builders read, each the hash of a field
/// name. `cx`/`vx` and their `y`, `z` counterparts are the per-axis cell and
/// in-cell offset of an entity's position.
#[derive(Debug, Clone, Copy)]
pub struct FieldKeys {
    pub start_time: u64,
    pub paused: u64,
    pub pause_start_tick: u64,
    pub paused_ticks: u64,
    pub pawn: u64,
    pub steam_id: u64,
    pub steam_name: u64,
    pub team: u64,
    pub hero_build_id: u64,
    pub player_slot: u64,
    pub rank: u64,
    pub assigned_lane: u64,
    pub original_assigned_lane: u64,
    pub hero_id: u64,
    pub net_worth: u64,
    pub kills: u64,
    pub assists: u64,
    pub deaths: u64,
    pub denies: u64,
    pub last_hits: u64,
    pub hero_healing: u64,
    pub health_regen: u64,
    pub ultimate_trained: u64,
    pub self_healing: u64,
    pub hero_damage: u64,
    pub objective_damage: u64,
    pub ultimate_cooldown_end: u64,
    pub upgrades: u64,
    pub controller: u64,
    pub level: u64,
    pub max_health: u64,
    pub health: u64,
    pub score: u64,
    pub teamname: u64,
    pub flex_unlocked: u64,
    pub create_time: u64,
    pub lane: u64,
    pub shield_active: u64,
    pub active: u64,
    pub cx: u64,
    pub vx: u64,
    pub cy: u64,
    pub vy: u64,
    pub cz: u64,
    pub vz: u64,
}

/// Folds `value` into the running key hash `hash`: rotate left by five,
/// exclusive-or, multiply by the seed modulo 2^64.
pub open spec fn fx_combine(hash: u64, value: u64) -> u64 {
    (((hash << 5u64) | (hash >> 59u64)) ^ value).wrapping_mul(FX_SEED)
}

/// The key of element `i` of the collection whose base key is `base`.
pub open spec fn element_key(base: u64, i: u64) -> u64 {
    fx_combine(base, fx_combine(0, i))
}

/// Folds `value` into a field-key hash.
pub fn add_u64_to_hash(hash: u64, value: u64) -> (r: u64)
    ensures
        r == fx_combine(hash, value),
{
    (((hash << 5u64) | (hash >> 59u64)) ^ value).wrapping_mul(FX_SEED)
}

/// Key of element `i` of the collection stored under `base`.
pub fn collection_element_key(base: u64, i: u64) -> (r: u64)
    ensures
        r == element_key(base, i),
{
    add_u64_to_hash(base, add_u64_to_hash(0, i))
}

/// The entity index that an entity handle refers to: its low fifteen bits.
pub open spec fn handle_index(handle: u32) -> i32 {
    (handle & 0x7fffu32) as i32
}

/// Entity index of an entity handle.
pub fn ehandle_to_index(handle: u32) -> (r: i32)
    ensures
        r == handle_index(handle),
        0 <= r < 0x8000,
{
    let masked: u32 = handle & 0x7fffu32;
    assert(masked <= 0x7fffu32) by (bit_vector)
        requires
            masked == handle & 0x7fffu32,
    ;
    masked as i32
}

} // verus!

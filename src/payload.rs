use vstd::prelude::*;
use crate::entity_type::EntityType;
use crate::fields::{
    EntityRecord, FieldValue, bool_at, f32_bits_at, i32_at, i8_at, str_at, u16_at, u32_at, u64_at,
    u8_at,
};
use crate::keys::{FieldKeys, collection_element_key, ehandle_to_index, element_key, handle_index};
use crate::steam::{normalize_steam_id, normalized_steam_id};

verus! {

/// One axis of a position: the quantized cell and the offset within it (an
/// `f32` bit pattern).
#[derive(Debug, Clone, Copy, PartialEq, Eq, Structural)]
pub struct CellCoord {
    pub cell: u16,
    pub offset_bits: u32,
}

/// A position as the three per-axis cell coordinates it is rebuilt from.
#[derive(Debug, Clone, Copy, PartialEq, Eq, Structural)]
pub struct CellPosition {
    pub x: CellCoord,
    pub y: CellCoord,
    pub z: CellCoord,
}

/// The string viewed as characters, if there is one.
pub open spec fn opt_string_view(s: Option<String>) -> Option<Seq<char>> {
    match s {
        Some(v) => Some(v@),
        None => None,
    }
}

/// The entity index that an optional handle refers to.
pub open spec fn handle_index_of(h: Option<u32>) -> Option<i32> {
    match h {
        Some(v) => Some(handle_index(v)),
        None => None,
    }
}

/// One axis: present only when both its cell and its offset are present.
pub open spec fn coord_at(m: Map<u64, FieldValue>, cell_key: u64, vec_key: u64) -> Option<CellCoord> {
    match (u16_at(m, cell_key), f32_bits_at(m, vec_key)) {
        (Some(c), Some(v)) => Some(CellCoord { cell: c, offset_bits: v }),
        _ => None,
    }
}

/// The position: present only when all three axes are present.
pub open spec fn position_at(m: Map<u64, FieldValue>, keys: FieldKeys) -> Option<CellPosition> {
    match (coord_at(m, keys.cx, keys.vx), coord_at(m, keys.cy, keys.vy), coord_at(m, keys.cz, keys.vz)) {
        (Some(x), Some(y), Some(z)) => Some(CellPosition { x, y, z }),
        _ => None,
    }
}

/// The declared element count of the collection under `base`; zero if absent.
pub open spec fn count_at(m: Map<u64, FieldValue>, base: u64) -> u64 {
    match u64_at(m, base) {
        Some(n) => n,
        None => 0,
    }
}

/// The elements of the collection under `base` from index `i` on, read as a
/// dense prefix: reading stops at the declared count or at the first index
/// whose element is absent, whatever follows it.
pub open spec fn dense_prefix(m: Map<u64, FieldValue>, base: u64, count: u64, i: u64) -> Seq<u64>
    decreases count - i,
{
    if i >= count {
        Seq::empty()
    } else {
        match u64_at(m, element_key(base, i)) {
            Some(v) => seq![v] + dense_prefix(m, base, count, (i + 1) as u64),
            None => Seq::empty(),
        }
    }
}

/// Reading a collection as a dense prefix: when the elements at indices below
/// `k` are present and the one at `k` is absent (with `k` below the declared
/// count), exactly those `k` elements are read, in index order, whatever lies
/// beyond index `k`.
pub proof fn lemma_dense_prefix_stops_at_gap(m: Map<u64, FieldValue>, base: u64, count: u64, k: u64)
    requires
        k < count,
        forall|i: u64| i < k ==> (#[trigger] u64_at(m, element_key(base, i))) is Some,
        u64_at(m, element_key(base, k)) is None,
    ensures
        dense_prefix(m, base, count, 0).len() == k,
        forall|i: int|
            0 <= i < k ==> Some(#[trigger] dense_prefix(m, base, count, 0)[i]) == u64_at(
                m,
                element_key(base, i as u64),
            ),
{
    lemma_dense_prefix_from(m, base, count, k, 0);
}

proof fn lemma_dense_prefix_from(m: Map<u64, FieldValue>, base: u64, count: u64, k: u64, j: u64)
    requires
        j <= k < count,
        forall|i: u64| i < k ==> (#[trigger] u64_at(m, element_key(base, i))) is Some,
        u64_at(m, element_key(base, k)) is None,
    ensures
        dense_prefix(m, base, count, j).len() == k - j,
        forall|i: int|
            0 <= i < k - j ==> Some(#[trigger] dense_prefix(m, base, count, j)[i]) == u64_at(
                m,
                element_key(base, (j + i) as u64),
            ),
    decreases k - j,
{
    if j < k {
        lemma_dense_prefix_from(m, base, count, k, (j + 1) as u64);
        let rest = dense_prefix(m, base, count, (j + 1) as u64);
        assert(u64_at(m, element_key(base, j)) is Some);
        let v = u64_at(m, element_key(base, j)).unwrap();
        assert(dense_prefix(m, base, count, j) == seq![v] + rest);
        assert forall|i: int| 0 <= i < k - j implies Some(
            #[trigger] dense_prefix(m, base, count, j)[i],
        ) == u64_at(m, element_key(base, (j + i) as u64)) by {
            if i > 0 {
                assert(dense_prefix(m, base, count, j)[i] == rest[i - 1]);
                assert((j + 1 + (i - 1)) as u64 == (j + i) as u64);
            }
        }
    }
}

fn entity_coord(entity: &EntityRecord, cell_key: u64, vec_key: u64) -> (r: Option<CellCoord>)
    ensures
        r == coord_at(entity.fields@, cell_key, vec_key),
{
    match (entity.get_u16(cell_key), entity.get_f32_bits(vec_key)) {
        (Some(c), Some(v)) => Some(CellCoord { cell: c, offset_bits: v }),
        _ => None,
    }
}

/// Reads an entity's position; any missing axis part makes it absent.
pub fn entity_position(entity: &EntityRecord, keys: &FieldKeys) -> (r: Option<CellPosition>)
    ensures
        r == position_at(entity.fields@, *keys),
{
    let x = entity_coord(entity, keys.cx, keys.vx);
    let y = entity_coord(entity, keys.cy, keys.vy);
    let z = entity_coord(entity, keys.cz, keys.vz);
    match (x, y, z) {
        (Some(x), Some(y), Some(z)) => Some(CellPosition { x, y, z }),
        _ => None,
    }
}

/// Reads the collection stored under `base` as a dense prefix of at most its
/// declared count of elements.
pub fn read_dense_collection(entity: &EntityRecord, base: u64) -> (r: Vec<u64>)
    ensures
        r@ == dense_prefix(entity.fields@, base, count_at(entity.fields@, base), 0),
{
    let ghost m = entity.fields@;
    let count: u64 = match entity.get_u64(base) {
        Some(n) => n,
        None => 0,
    };
    let mut out: Vec<u64> = Vec::new();
    let mut i: u64 = 0;
    while i < count
        invariant
            m == entity.fields@,
            count == count_at(m, base),
            i <= count,
            out@ + dense_prefix(m, base, count, i) == dense_prefix(m, base, count, 0),
        decreases count - i,
    {
        match entity.get_u64(collection_element_key(base, i)) {
            Some(v) => {
                out.push(v);
                assert(out@ + dense_prefix(m, base, count, (i + 1) as u64) =~= dense_prefix(m, base, count, 0));
            },
            None => {
                assert(out@ =~= out@ + dense_prefix(m, base, count, i));
                return out;
            },
        }
        i += 1;
    }
    assert(out@ =~= out@ + dense_prefix(m, base, count, i));
    out
}

/// The fields reported for the game-rules singleton; `game_start_time` is an `f32` bit pattern.
#[derive(Debug, Clone, Copy, PartialEq, Eq, Structural)]
pub struct GameRulesProxyEvent {
    pub game_start_time: Option<u32>,
    pub game_paused: Option<bool>,
    pub pause_start_tick: Option<i32>,
    pub total_paused_ticks: Option<i32>,
}

/// `e` holds what the store `m` holds under the keys read for it.
pub open spec fn is_game_rules_proxy_event_of(e: GameRulesProxyEvent, keys: FieldKeys, m: Map<u64, FieldValue>) -> bool {
    &&& e.game_start_time == f32_bits_at(m, keys.start_time)
    &&& e.game_paused == bool_at(m, keys.paused)
    &&& e.pause_start_tick == i32_at(m, keys.pause_start_tick)
    &&& e.total_paused_ticks == i32_at(m, keys.paused_ticks)
}

impl GameRulesProxyEvent {
    /// Builds the snapshot from the entity's store.
    pub fn from_entity_update(keys: &FieldKeys, entity: &EntityRecord) -> (r: GameRulesProxyEvent)
        ensures
            is_game_rules_proxy_event_of(r, *keys, entity.fields@),
    {
        GameRulesProxyEvent {
            game_start_time: entity.get_f32_bits(keys.start_time),
            game_paused: entity.get_bool(keys.paused),
            pause_start_tick: entity.get_i32(keys.pause_start_tick),
            total_paused_ticks: entity.get_i32(keys.paused_ticks),
        }
    }
}

/// The fields reported for a player controller; `health_regen` and `ultimate_cooldown_end` are `f32` bit patterns.
#[derive(Debug, Clone)]
pub struct PlayerControllerEvent {
    pub pawn: Option<i32>,
    pub steam_id: Option<u32>,
    pub steam_name: Option<String>,
    pub team: Option<u8>,
    pub hero_id: Option<u32>,
    pub hero_build_id: Option<u64>,
    pub player_slot: Option<u8>,
    pub rank: Option<i32>,
    pub assigned_lane: Option<i8>,
    pub original_assigned_lane: Option<i8>,
    pub net_worth: Option<i32>,
    pub health_regen: Option<u32>,
    pub ultimate_trained: Option<bool>,
    pub kills: Option<i32>,
    pub assists: Option<i32>,
    pub deaths: Option<i32>,
    pub denies: Option<i32>,
    pub last_hits: Option<i32>,
    pub hero_healing: Option<i32>,
    pub self_healing: Option<i32>,
    pub hero_damage: Option<i32>,
    pub objective_damage: Option<i32>,
    pub ultimate_cooldown_end: Option<u32>,
    pub upgrades: Vec<u64>,
}

/// `e` holds what the store `m` holds under the keys read for it.
pub open spec fn is_player_controller_event_of(e: PlayerControllerEvent, keys: FieldKeys, m: Map<u64, FieldValue>) -> bool {
    &&& e.pawn == handle_index_of(u32_at(m, keys.pawn))
    &&& e.steam_id == normalized_steam_id(u64_at(m, keys.steam_id))
    &&& opt_string_view(e.steam_name) == str_at(m, keys.steam_name)
    &&& e.team == u8_at(m, keys.team)
    &&& e.hero_id == u32_at(m, keys.hero_id)
    &&& e.hero_build_id == u64_at(m, keys.hero_build_id)
    &&& e.player_slot == u8_at(m, keys.player_slot)
    &&& e.rank == i32_at(m, keys.rank)
    &&& e.assigned_lane == i8_at(m, keys.assigned_lane)
    &&& e.original_assigned_lane == i8_at(m, keys.original_assigned_lane)
    &&& e.net_worth == i32_at(m, keys.net_worth)
    &&& e.health_regen == f32_bits_at(m, keys.health_regen)
    &&& e.ultimate_trained == bool_at(m, keys.ultimate_trained)
    &&& e.kills == i32_at(m, keys.kills)
    &&& e.assists == i32_at(m, keys.assists)
    &&& e.deaths == i32_at(m, keys.deaths)
    &&& e.denies == i32_at(m, keys.denies)
    &&& e.last_hits == i32_at(m, keys.last_hits)
    &&& e.hero_healing == i32_at(m, keys.hero_healing)
    &&& e.self_healing == i32_at(m, keys.self_healing)
    &&& e.hero_damage == i32_at(m, keys.hero_damage)
    &&& e.objective_damage == i32_at(m, keys.objective_damage)
    &&& e.ultimate_cooldown_end == f32_bits_at(m, keys.ultimate_cooldown_end)
    &&& e.upgrades@ == dense_prefix(m, keys.upgrades, count_at(m, keys.upgrades), 0)
}

impl PlayerControllerEvent {
    /// Builds the snapshot from the entity's store.
    pub fn from_entity_update(keys: &FieldKeys, entity: &EntityRecord) -> (r: PlayerControllerEvent)
        ensures
            is_player_controller_event_of(r, *keys, entity.fields@),
    {
        PlayerControllerEvent {
            pawn: match entity.get_u32(keys.pawn) {
                Some(h) => Some(ehandle_to_index(h)),
                None => None,
            },
            steam_id: normalize_steam_id(entity.get_u64(keys.steam_id)),
            steam_name: entity.get_str(keys.steam_name),
            team: entity.get_u8(keys.team),
            hero_id: entity.get_u32(keys.hero_id),
            hero_build_id: entity.get_u64(keys.hero_build_id),
            player_slot: entity.get_u8(keys.player_slot),
            rank: entity.get_i32(keys.rank),
            assigned_lane: entity.get_i8(keys.assigned_lane),
            original_assigned_lane: entity.get_i8(keys.original_assigned_lane),
            net_worth: entity.get_i32(keys.net_worth),
            health_regen: entity.get_f32_bits(keys.health_regen),
            ultimate_trained: entity.get_bool(keys.ultimate_trained),
            kills: entity.get_i32(keys.kills),
            assists: entity.get_i32(keys.assists),
            deaths: entity.get_i32(keys.deaths),
            denies: entity.get_i32(keys.denies),
            last_hits: entity.get_i32(keys.last_hits),
            hero_healing: entity.get_i32(keys.hero_healing),
            self_healing: entity.get_i32(keys.self_healing),
            hero_damage: entity.get_i32(keys.hero_damage),
            objective_damage: entity.get_i32(keys.objective_damage),
            ultimate_cooldown_end: entity.get_f32_bits(keys.ultimate_cooldown_end),
            upgrades: read_dense_collection(entity, keys.upgrades),
        }
    }
}

/// The fields reported for a player pawn.
#[derive(Debug, Clone)]
pub struct PlayerPawnEvent {
    pub controller: Option<i32>,
    pub team: Option<u8>,
    pub hero_id: Option<u32>,
    pub level: Option<i32>,
    pub max_health: Option<i32>,
    pub health: Option<i32>,
    pub position: Option<CellPosition>,
}

/// `e` holds what the store `m` holds under the keys read for it.
pub open spec fn is_player_pawn_event_of(e: PlayerPawnEvent, keys: FieldKeys, m: Map<u64, FieldValue>) -> bool {
    &&& e.controller == handle_index_of(u32_at(m, keys.controller))
    &&& e.team == u8_at(m, keys.team)
    &&& e.hero_id == u32_at(m, keys.hero_id)
    &&& e.level == i32_at(m, keys.level)
    &&& e.max_health == i32_at(m, keys.max_health)
    &&& e.health == i32_at(m, keys.health)
    &&& e.position == position_at(m, keys)
}

impl PlayerPawnEvent {
    /// Builds the snapshot from the entity's store.
    pub fn from_entity_update(keys: &FieldKeys, entity: &EntityRecord) -> (r: PlayerPawnEvent)
        ensures
            is_player_pawn_event_of(r, *keys, entity.fields@),
    {
        PlayerPawnEvent {
            controller: match entity.get_u32(keys.controller) {
                Some(h) => Some(ehandle_to_index(h)),
                None => None,
            },
            team: entity.get_u8(keys.team),
            hero_id: entity.get_u32(keys.hero_id),
            level: entity.get_i32(keys.level),
            max_health: entity.get_i32(keys.max_health),
            health: entity.get_i32(keys.health),
            position: entity_position(entity, keys),
        }
    }
}

/// The fields reported for a team.
#[derive(Debug, Clone)]
pub struct TeamEvent {
    pub team: Option<u8>,
    pub score: Option<i32>,
    pub teamname: Option<String>,
    pub flex_unlocked: Option<u8>,
}

/// `e` holds what the store `m` holds under the keys read for it.
pub open spec fn is_team_event_of(e: TeamEvent, keys: FieldKeys, m: Map<u64, FieldValue>) -> bool {
    &&& e.team == u8_at(m, keys.team)
    &&& e.score == i32_at(m, keys.score)
    &&& opt_string_view(e.teamname) == str_at(m, keys.teamname)
    &&& e.flex_unlocked == u8_at(m, keys.flex_unlocked)
}

impl TeamEvent {
    /// Builds the snapshot from the entity's store.
    pub fn from_entity_update(keys: &FieldKeys, entity: &EntityRecord) -> (r: TeamEvent)
        ensures
            is_team_event_of(r, *keys, entity.fields@),
    {
        TeamEvent {
            team: entity.get_u8(keys.team),
            score: entity.get_i32(keys.score),
            teamname: entity.get_str(keys.teamname),
            flex_unlocked: entity.get_u8(keys.flex_unlocked),
        }
    }
}

/// The fields reported for a non-player character; `create_time` is an `f32` bit pattern.
#[derive(Debug, Clone)]
pub struct NPCEvent {
    pub health: Option<i32>,
    pub max_health: Option<i32>,
    pub create_time: Option<u32>,
    pub lane: Option<i32>,
    pub shield_active: Option<bool>,
    pub team: Option<u8>,
    pub position: Option<CellPosition>,
}

/// `e` holds what the store `m` holds under the keys read for it.
pub open spec fn is_npc_event_of(e: NPCEvent, keys: FieldKeys, m: Map<u64, FieldValue>) -> bool {
    &&& e.health == i32_at(m, keys.health)
    &&& e.max_health == i32_at(m, keys.max_health)
    &&& e.create_time == f32_bits_at(m, keys.create_time)
    &&& e.lane == i32_at(m, keys.lane)
    &&& e.shield_active == bool_at(m, keys.shield_active)
    &&& e.team == u8_at(m, keys.team)
    &&& e.position == position_at(m, keys)
}

impl NPCEvent {
    /// Builds the snapshot from the entity's store.
    pub fn from_entity_update(keys: &FieldKeys, entity: &EntityRecord) -> (r: NPCEvent)
        ensures
            is_npc_event_of(r, *keys, entity.fields@),
    {
        NPCEvent {
            health: entity.get_i32(keys.health),
            max_health: entity.get_i32(keys.max_health),
            create_time: entity.get_f32_bits(keys.create_time),
            lane: entity.get_i32(keys.lane),
            shield_active: entity.get_bool(keys.shield_active),
            team: entity.get_u8(keys.team),
            position: entity_position(entity, keys),
        }
    }
}

/// The fields reported for a destroyable building.
#[derive(Debug, Clone)]
pub struct DestroyableBuilding {
    pub health: Option<i32>,
    pub max_health: Option<i32>,
    pub team: Option<u8>,
    pub position: Option<CellPosition>,
}

/// `e` holds what the store `m` holds under the keys read for it.
pub open spec fn is_destroyable_building_of(e: DestroyableBuilding, keys: FieldKeys, m: Map<u64, FieldValue>) -> bool {
    &&& e.health == i32_at(m, keys.health)
    &&& e.max_health == i32_at(m, keys.max_health)
    &&& e.team == u8_at(m, keys.team)
    &&& e.position == position_at(m, keys)
}

impl DestroyableBuilding {
    /// Builds the snapshot from the entity's store.
    pub fn from_entity_update(keys: &FieldKeys, entity: &EntityRecord) -> (r: DestroyableBuilding)
        ensures
            is_destroyable_building_of(r, *keys, entity.fields@),
    {
        DestroyableBuilding {
            health: entity.get_i32(keys.health),
            max_health: entity.get_i32(keys.max_health),
            team: entity.get_u8(keys.team),
            position: entity_position(entity, keys),
        }
    }
}

/// The fields reported for a pickup that can be active.
#[derive(Debug, Clone)]
pub struct PositionActiveEntity {
    pub active: Option<bool>,
    pub position: Option<CellPosition>,
}

/// `e` holds what the store `m` holds under the keys read for it.
pub open spec fn is_position_active_entity_of(e: PositionActiveEntity, keys: FieldKeys, m: Map<u64, FieldValue>) -> bool {
    &&& e.active == bool_at(m, keys.active)
    &&& e.position == position_at(m, keys)
}

impl PositionActiveEntity {
    /// Builds the snapshot from the entity's store.
    pub fn from_entity_update(keys: &FieldKeys, entity: &EntityRecord) -> (r: PositionActiveEntity)
        ensures
            is_position_active_entity_of(r, *keys, entity.fields@),
    {
        PositionActiveEntity {
            active: entity.get_bool(keys.active),
            position: entity_position(entity, keys),
        }
    }
}

/// The fields reported for an entity of which only the position is reported.
#[derive(Debug, Clone)]
pub struct PositionEntity {
    pub position: Option<CellPosition>,
}

/// `e` holds what the store `m` holds under the keys read for it.
pub open spec fn is_position_entity_of(e: PositionEntity, keys: FieldKeys, m: Map<u64, FieldValue>) -> bool {
    &&& e.position == position_at(m, keys)
}

impl PositionEntity {
    /// Builds the snapshot from the entity's store.
    pub fn from_entity_update(keys: &FieldKeys, entity: &EntityRecord) -> (r: PositionEntity)
        ensures
            is_position_entity_of(r, *keys, entity.fields@),
    {
        PositionEntity {
            position: entity_position(entity, keys),
        }
    }
}

/// The snapshot of one entity update, one shape per entity type.
#[derive(Debug, Clone)]
pub enum EntityUpdateEvents {
    GameRulesProxy(GameRulesProxyEvent),
    PlayerController(PlayerControllerEvent),
    PlayerPawn(PlayerPawnEvent),
    Team(TeamEvent),
    MidBoss(NPCEvent),
    TrooperNeutral(NPCEvent),
    Trooper(NPCEvent),
    TrooperBoss(NPCEvent),
    ShieldedSentry(NPCEvent),
    BaseDefenseSentry(NPCEvent),
    TrooperBarrackBoss(NPCEvent),
    BossTier2(NPCEvent),
    BossTier3(NPCEvent),
    BreakableProp(PositionEntity),
    BreakablePropModifierPickup(PositionActiveEntity),
    BreakablePropGoldPickup(PositionActiveEntity),
    PunchablePowerup(PositionEntity),
    DestroyableBuilding(DestroyableBuilding),
}

/// `p` is the snapshot of type `t` of the store `m`.
pub open spec fn is_payload_of(p: EntityUpdateEvents, t: EntityType, keys: FieldKeys, m: Map<u64, FieldValue>) -> bool {
    match t {
        EntityType::GameRulesProxy => match p {
            EntityUpdateEvents::GameRulesProxy(e) => is_game_rules_proxy_event_of(e, keys, m),
            _ => false,
        },
        EntityType::PlayerController => match p {
            EntityUpdateEvents::PlayerController(e) => is_player_controller_event_of(e, keys, m),
            _ => false,
        },
        EntityType::PlayerPawn => match p {
            EntityUpdateEvents::PlayerPawn(e) => is_player_pawn_event_of(e, keys, m),
            _ => false,
        },
        EntityType::Team => match p {
            EntityUpdateEvents::Team(e) => is_team_event_of(e, keys, m),
            _ => false,
        },
        EntityType::MidBoss => match p {
            EntityUpdateEvents::MidBoss(e) => is_npc_event_of(e, keys, m),
            _ => false,
        },
        EntityType::TrooperNeutral => match p {
            EntityUpdateEvents::TrooperNeutral(e) => is_npc_event_of(e, keys, m),
            _ => false,
        },
        EntityType::Trooper => match p {
            EntityUpdateEvents::Trooper(e) => is_npc_event_of(e, keys, m),
            _ => false,
        },
        EntityType::TrooperBoss => match p {
            EntityUpdateEvents::TrooperBoss(e) => is_npc_event_of(e, keys, m),
            _ => false,
        },
        EntityType::ShieldedSentry => match p {
            EntityUpdateEvents::ShieldedSentry(e) => is_npc_event_of(e, keys, m),
            _ => false,
        },
        EntityType::BaseDefenseSentry => match p {
            EntityUpdateEvents::BaseDefenseSentry(e) => is_npc_event_of(e, keys, m),
            _ => false,
        },
        EntityType::TrooperBarrackBoss => match p {
            EntityUpdateEvents::TrooperBarrackBoss(e) => is_npc_event_of(e, keys, m),
            _ => false,
        },
        EntityType::BossTier2 => match p {
            EntityUpdateEvents::BossTier2(e) => is_npc_event_of(e, keys, m),
            _ => false,
        },
        EntityType::BossTier3 => match p {
            EntityUpdateEvents::BossTier3(e) => is_npc_event_of(e, keys, m),
            _ => false,
        },
        EntityType::BreakableProp => match p {
            EntityUpdateEvents::BreakableProp(e) => is_position_entity_of(e, keys, m),
            _ => false,
        },
        EntityType::BreakablePropModifierPickup => match p {
            EntityUpdateEvents::BreakablePropModifierPickup(e) => is_position_active_entity_of(e, keys, m),
            _ => false,
        },
        EntityType::BreakablePropGoldPickup => match p {
            EntityUpdateEvents::BreakablePropGoldPickup(e) => is_position_active_entity_of(e, keys, m),
            _ => false,
        },
        EntityType::PunchablePowerup => match p {
            EntityUpdateEvents::PunchablePowerup(e) => is_position_entity_of(e, keys, m),
            _ => false,
        },
        EntityType::DestroyableBuilding => match p {
            EntityUpdateEvents::DestroyableBuilding(e) => is_destroyable_building_of(e, keys, m),
            _ => false,
        },
    }
}

impl EntityUpdateEvents {
    /// Builds the snapshot of an entity of type `entity_type`. Every type has
    /// a builder and every field is optional, so a snapshot is always built.
    pub fn from_update(keys: &FieldKeys, entity_type: EntityType, entity: &EntityRecord) -> (r: Option<EntityUpdateEvents>)
        ensures
            r matches Some(p) && is_payload_of(p, entity_type, *keys, entity.fields@),
    {
        Some(match entity_type {
            EntityType::GameRulesProxy => EntityUpdateEvents::GameRulesProxy(GameRulesProxyEvent::from_entity_update(keys, entity)),
            EntityType::PlayerController => EntityUpdateEvents::PlayerController(PlayerControllerEvent::from_entity_update(keys, entity)),
            EntityType::PlayerPawn => EntityUpdateEvents::PlayerPawn(PlayerPawnEvent::from_entity_update(keys, entity)),
            EntityType::Team => EntityUpdateEvents::Team(TeamEvent::from_entity_update(keys, entity)),
            EntityType::MidBoss => EntityUpdateEvents::MidBoss(NPCEvent::from_entity_update(keys, entity)),
            EntityType::TrooperNeutral => EntityUpdateEvents::TrooperNeutral(NPCEvent::from_entity_update(keys, entity)),
            EntityType::Trooper => EntityUpdateEvents::Trooper(NPCEvent::from_entity_update(keys, entity)),
            EntityType::TrooperBoss => EntityUpdateEvents::TrooperBoss(NPCEvent::from_entity_update(keys, entity)),
            EntityType::ShieldedSentry => EntityUpdateEvents::ShieldedSentry(NPCEvent::from_entity_update(keys, entity)),
            EntityType::BaseDefenseSentry => EntityUpdateEvents::BaseDefenseSentry(NPCEvent::from_entity_update(keys, entity)),
            EntityType::TrooperBarrackBoss => EntityUpdateEvents::TrooperBarrackBoss(NPCEvent::from_entity_update(keys, entity)),
            EntityType::BossTier2 => EntityUpdateEvents::BossTier2(NPCEvent::from_entity_update(keys, entity)),
            EntityType::BossTier3 => EntityUpdateEvents::BossTier3(NPCEvent::from_entity_update(keys, entity)),
            EntityType::BreakableProp => EntityUpdateEvents::BreakableProp(PositionEntity::from_entity_update(keys, entity)),
            EntityType::BreakablePropModifierPickup => EntityUpdateEvents::BreakablePropModifierPickup(PositionActiveEntity::from_entity_update(keys, entity)),
            EntityType::BreakablePropGoldPickup => EntityUpdateEvents::BreakablePropGoldPickup(PositionActiveEntity::from_entity_update(keys, entity)),
            EntityType::PunchablePowerup => EntityUpdateEvents::PunchablePowerup(PositionEntity::from_entity_update(keys, entity)),
            EntityType::DestroyableBuilding => EntityUpdateEvents::DestroyableBuilding(DestroyableBuilding::from_entity_update(keys, entity)),
        })
    }
}

} // verus!

use vstd::prelude::*;
use vstd::string::StringExecFns;

verus! {

/// Number of entity types that the classifier recognizes.
pub const ENTITY_TYPE_COUNT: usize = 18;

/// The closed set of entity types whose updates are turned into events.
#[derive(Debug, Clone, Copy, PartialEq, Eq, Hash, Structural)]
pub enum EntityType {
    GameRulesProxy,
    PlayerController,
    PlayerPawn,
    Team,
    MidBoss,
    TrooperNeutral,
    Trooper,
    TrooperBoss,
    ShieldedSentry,
    BaseDefenseSentry,
    TrooperBarrackBoss,
    BossTier2,
    BossTier3,
    BreakableProp,
    BreakablePropModifierPickup,
    BreakablePropGoldPickup,
    PunchablePowerup,
    DestroyableBuilding,
}

/// Position of `t` in the fixed enumeration order.
pub open spec fn type_index(t: EntityType) -> nat {
    match t {
        EntityType::GameRulesProxy => 0,
        EntityType::PlayerController => 1,
        EntityType::PlayerPawn => 2,
        EntityType::Team => 3,
        EntityType::MidBoss => 4,
        EntityType::TrooperNeutral => 5,
        EntityType::Trooper => 6,
        EntityType::TrooperBoss => 7,
        EntityType::ShieldedSentry => 8,
        EntityType::BaseDefenseSentry => 9,
        EntityType::TrooperBarrackBoss => 10,
        EntityType::BossTier2 => 11,
        EntityType::BossTier3 => 12,
        EntityType::BreakableProp => 13,
        EntityType::BreakablePropModifierPickup => 14,
        EntityType::BreakablePropGoldPickup => 15,
        EntityType::PunchablePowerup => 16,
        EntityType::DestroyableBuilding => 17,
    }
}

/// The entity type at position `i` of the enumeration order.
pub open spec fn type_at(i: int) -> Option<EntityType> {
    if i == 0 {
        Some(EntityType::GameRulesProxy)
    } else if i == 1 {
        Some(EntityType::PlayerController)
    } else if i == 2 {
        Some(EntityType::PlayerPawn)
    } else if i == 3 {
        Some(EntityType::Team)
    } else if i == 4 {
        Some(EntityType::MidBoss)
    } else if i == 5 {
        Some(EntityType::TrooperNeutral)
    } else if i == 6 {
        Some(EntityType::Trooper)
    } else if i == 7 {
        Some(EntityType::TrooperBoss)
    } else if i == 8 {
        Some(EntityType::ShieldedSentry)
    } else if i == 9 {
        Some(EntityType::BaseDefenseSentry)
    } else if i == 10 {
        Some(EntityType::TrooperBarrackBoss)
    } else if i == 11 {
        Some(EntityType::BossTier2)
    } else if i == 12 {
        Some(EntityType::BossTier3)
    } else if i == 13 {
        Some(EntityType::BreakableProp)
    } else if i == 14 {
        Some(EntityType::BreakablePropModifierPickup)
    } else if i == 15 {
        Some(EntityType::BreakablePropGoldPickup)
    } else if i == 16 {
        Some(EntityType::PunchablePowerup)
    } else if i == 17 {
        Some(EntityType::DestroyableBuilding)
    } else {
        None
    }
}

/// The snake-case name under which a type appears in event names.
pub open spec fn snake_name_of(t: EntityType) -> Seq<char> {
    match t {
        EntityType::GameRulesProxy => "game_rules_proxy"@,
        EntityType::PlayerController => "player_controller"@,
        EntityType::PlayerPawn => "player_pawn"@,
        EntityType::Team => "team"@,
        EntityType::MidBoss => "mid_boss"@,
        EntityType::TrooperNeutral => "trooper_neutral"@,
        EntityType::Trooper => "trooper"@,
        EntityType::TrooperBoss => "trooper_boss"@,
        EntityType::ShieldedSentry => "shielded_sentry"@,
        EntityType::BaseDefenseSentry => "base_defense_sentry"@,
        EntityType::TrooperBarrackBoss => "trooper_barrack_boss"@,
        EntityType::BossTier2 => "boss_tier2"@,
        EntityType::BossTier3 => "boss_tier3"@,
        EntityType::BreakableProp => "breakable_prop"@,
        EntityType::BreakablePropModifierPickup => "breakable_prop_modifier_pickup"@,
        EntityType::BreakablePropGoldPickup => "breakable_prop_gold_pickup"@,
        EntityType::PunchablePowerup => "punchable_powerup"@,
        EntityType::DestroyableBuilding => "destroyable_building"@,
    }
}

/// The schema (serializer class) name whose hash identifies a type.
pub open spec fn schema_name_of(t: EntityType) -> Seq<char> {
    match t {
        EntityType::GameRulesProxy => "CCitadelGameRulesProxy"@,
        EntityType::PlayerController => "CCitadelPlayerController"@,
        EntityType::PlayerPawn => "CCitadelPlayerPawn"@,
        EntityType::Team => "CCitadelTeam"@,
        EntityType::MidBoss => "CNPC_MidBoss"@,
        EntityType::TrooperNeutral => "CNPC_TrooperNeutral"@,
        EntityType::Trooper => "CNPC_Trooper"@,
        EntityType::TrooperBoss => "CNPC_TrooperBoss"@,
        EntityType::ShieldedSentry => "CNPC_ShieldedSentry"@,
        EntityType::BaseDefenseSentry => "CNPC_BaseDefenseSentry"@,
        EntityType::TrooperBarrackBoss => "CNPC_TrooperBarrackBoss"@,
        EntityType::BossTier2 => "CNPC_Boss_Tier2"@,
        EntityType::BossTier3 => "CNPC_Boss_Tier3"@,
        EntityType::BreakableProp => "CCitadel_BreakableProp"@,
        EntityType::BreakablePropModifierPickup => "CCitadel_BreakablePropModifierPickup"@,
        EntityType::BreakablePropGoldPickup => "CCitadel_BreakablePropGoldPickup"@,
        EntityType::PunchablePowerup => "CCitadel_PunchablePowerup"@,
        EntityType::DestroyableBuilding => "CCitadel_Destroyable_Building"@,
    }
}

/// Enumeration positions and types correspond one to one.
pub proof fn lemma_type_index_round_trip(t: EntityType)
    ensures
        type_index(t) < ENTITY_TYPE_COUNT,
        type_at(type_index(t) as int) == Some(t),
{
}

/// Some type has the snake-case name `s`.
pub open spec fn names_a_type(s: Seq<char>) -> bool {
    exists|t: EntityType| snake_name_of(t) == s
}

/// Length, first and last character of each snake-case name; these alone
/// already tell the names apart.
spec fn name_signature(t: EntityType) -> (nat, char, char) {
    match t {
        EntityType::GameRulesProxy => (16, 'g', 'y'),
        EntityType::PlayerController => (17, 'p', 'r'),
        EntityType::PlayerPawn => (11, 'p', 'n'),
        EntityType::Team => (4, 't', 'm'),
        EntityType::MidBoss => (8, 'm', 's'),
        EntityType::TrooperNeutral => (15, 't', 'l'),
        EntityType::Trooper => (7, 't', 'r'),
        EntityType::TrooperBoss => (12, 't', 's'),
        EntityType::ShieldedSentry => (15, 's', 'y'),
        EntityType::BaseDefenseSentry => (19, 'b', 'y'),
        EntityType::TrooperBarrackBoss => (20, 't', 's'),
        EntityType::BossTier2 => (10, 'b', '2'),
        EntityType::BossTier3 => (10, 'b', '3'),
        EntityType::BreakableProp => (14, 'b', 'p'),
        EntityType::BreakablePropModifierPickup => (30, 'b', 'p'),
        EntityType::BreakablePropGoldPickup => (26, 'b', 'p'),
        EntityType::PunchablePowerup => (17, 'p', 'p'),
        EntityType::DestroyableBuilding => (20, 'd', 'g'),
    }
}

proof fn lemma_name_signature(t: EntityType)
    ensures
        snake_name_of(t).len() == name_signature(t).0,
        snake_name_of(t)[0] == name_signature(t).1,
        snake_name_of(t)[snake_name_of(t).len() - 1] == name_signature(t).2,
{
    match t {
        EntityType::GameRulesProxy => reveal_strlit("game_rules_proxy"),
        EntityType::PlayerController => reveal_strlit("player_controller"),
        EntityType::PlayerPawn => reveal_strlit("player_pawn"),
        EntityType::Team => reveal_strlit("team"),
        EntityType::MidBoss => reveal_strlit("mid_boss"),
        EntityType::TrooperNeutral => reveal_strlit("trooper_neutral"),
        EntityType::Trooper => reveal_strlit("trooper"),
        EntityType::TrooperBoss => reveal_strlit("trooper_boss"),
        EntityType::ShieldedSentry => reveal_strlit("shielded_sentry"),
        EntityType::BaseDefenseSentry => reveal_strlit("base_defense_sentry"),
        EntityType::TrooperBarrackBoss => reveal_strlit("trooper_barrack_boss"),
        EntityType::BossTier2 => reveal_strlit("boss_tier2"),
        EntityType::BossTier3 => reveal_strlit("boss_tier3"),
        EntityType::BreakableProp => reveal_strlit("breakable_prop"),
        EntityType::BreakablePropModifierPickup => reveal_strlit("breakable_prop_modifier_pickup"),
        EntityType::BreakablePropGoldPickup => reveal_strlit("breakable_prop_gold_pickup"),
        EntityType::PunchablePowerup => reveal_strlit("punchable_powerup"),
        EntityType::DestroyableBuilding => reveal_strlit("destroyable_building"),
    }
}

/// No two entity types share a snake-case name, so a name picks out at most
/// one type.
pub proof fn lemma_snake_names_distinct(t: EntityType, u: EntityType)
    ensures
        snake_name_of(t) == snake_name_of(u) ==> t == u,
{
    lemma_name_signature(t);
    lemma_name_signature(u);
}

impl EntityType {
    /// Position of this type in the enumeration order.
    pub fn index(&self) -> (r: usize)
        ensures
            r == type_index(*self),
            r < ENTITY_TYPE_COUNT,
    {
        match self {
            EntityType::GameRulesProxy => 0,
            EntityType::PlayerController => 1,
            EntityType::PlayerPawn => 2,
            EntityType::Team => 3,
            EntityType::MidBoss => 4,
            EntityType::TrooperNeutral => 5,
            EntityType::Trooper => 6,
            EntityType::TrooperBoss => 7,
            EntityType::ShieldedSentry => 8,
            EntityType::BaseDefenseSentry => 9,
            EntityType::TrooperBarrackBoss => 10,
            EntityType::BossTier2 => 11,
            EntityType::BossTier3 => 12,
            EntityType::BreakableProp => 13,
            EntityType::BreakablePropModifierPickup => 14,
            EntityType::BreakablePropGoldPickup => 15,
            EntityType::PunchablePowerup => 16,
            EntityType::DestroyableBuilding => 17,
        }
    }

    /// The type at position `i` of the enumeration order, if there is one.
    pub fn from_index(i: usize) -> (r: Option<EntityType>)
        ensures
            r == type_at(i as int),
            r is Some <==> i < ENTITY_TYPE_COUNT,
    {
        if i == 0 {
            Some(EntityType::GameRulesProxy)
        } else if i == 1 {
            Some(EntityType::PlayerController)
        } else if i == 2 {
            Some(EntityType::PlayerPawn)
        } else if i == 3 {
            Some(EntityType::Team)
        } else if i == 4 {
            Some(EntityType::MidBoss)
        } else if i == 5 {
            Some(EntityType::TrooperNeutral)
        } else if i == 6 {
            Some(EntityType::Trooper)
        } else if i == 7 {
            Some(EntityType::TrooperBoss)
        } else if i == 8 {
            Some(EntityType::ShieldedSentry)
        } else if i == 9 {
            Some(EntityType::BaseDefenseSentry)
        } else if i == 10 {
            Some(EntityType::TrooperBarrackBoss)
        } else if i == 11 {
            Some(EntityType::BossTier2)
        } else if i == 12 {
            Some(EntityType::BossTier3)
        } else if i == 13 {
            Some(EntityType::BreakableProp)
        } else if i == 14 {
            Some(EntityType::BreakablePropModifierPickup)
        } else if i == 15 {
            Some(EntityType::BreakablePropGoldPickup)
        } else if i == 16 {
            Some(EntityType::PunchablePowerup)
        } else if i == 17 {
            Some(EntityType::DestroyableBuilding)
        } else {
            None
        }
    }

    /// Snake-case name of the type, as used in event names.
    pub fn snake_name(&self) -> (r: &'static str)
        ensures
            r@ == snake_name_of(*self),
    {
        match self {
            EntityType::GameRulesProxy => "game_rules_proxy",
            EntityType::PlayerController => "player_controller",
            EntityType::PlayerPawn => "player_pawn",
            EntityType::Team => "team",
            EntityType::MidBoss => "mid_boss",
            EntityType::TrooperNeutral => "trooper_neutral",
            EntityType::Trooper => "trooper",
            EntityType::TrooperBoss => "trooper_boss",
            EntityType::ShieldedSentry => "shielded_sentry",
            EntityType::BaseDefenseSentry => "base_defense_sentry",
            EntityType::TrooperBarrackBoss => "trooper_barrack_boss",
            EntityType::BossTier2 => "boss_tier2",
            EntityType::BossTier3 => "boss_tier3",
            EntityType::BreakableProp => "breakable_prop",
            EntityType::BreakablePropModifierPickup => "breakable_prop_modifier_pickup",
            EntityType::BreakablePropGoldPickup => "breakable_prop_gold_pickup",
            EntityType::PunchablePowerup => "punchable_powerup",
            EntityType::DestroyableBuilding => "destroyable_building",
        }
    }

    /// The type whose snake-case name is `name`, if there is one.
    pub fn from_snake_name(name: &str) -> (r: Option<EntityType>)
        ensures
            forall|t: EntityType| r == Some(t) <==> snake_name_of(t) == name@,
            r is None <==> !names_a_type(name@),
    {
        let wanted = String::from_str(name);
        let mut i: usize = 0;
        while i < ENTITY_TYPE_COUNT
            invariant
                i <= ENTITY_TYPE_COUNT,
                wanted@ == name@,
                forall|j: int| 0 <= j < i ==> ((#[trigger] type_at(j)) matches Some(u) && snake_name_of(u) != name@),
            decreases ENTITY_TYPE_COUNT - i,
        {
            match EntityType::from_index(i) {
                Some(t) => {
                    if String::from_str(t.snake_name()) == wanted {
                        proof {
                            assert forall|u: EntityType| snake_name_of(u) == name@ implies u == t by {
                                lemma_snake_names_distinct(t, u);
                            }
                        }
                        return Some(t);
                    }
                },
                None => {},
            }
            i += 1;
        }
        proof {
            assert forall|t: EntityType| snake_name_of(t) != name@ by {
                lemma_type_index_round_trip(t);
                let j = type_index(t) as int;
                assert(type_at(j) == Some(t));
            }
        }
        None
    }

    /// Schema name of the type; its hash is what identifies an entity's type.
    pub fn schema_name(&self) -> (r: &'static str)
        ensures
            r@ == schema_name_of(*self),
    {
        match self {
            EntityType::GameRulesProxy => "CCitadelGameRulesProxy",
            EntityType::PlayerController => "CCitadelPlayerController",
            EntityType::PlayerPawn => "CCitadelPlayerPawn",
            EntityType::Team => "CCitadelTeam",
            EntityType::MidBoss => "CNPC_MidBoss",
            EntityType::TrooperNeutral => "CNPC_TrooperNeutral",
            EntityType::Trooper => "CNPC_Trooper",
            EntityType::TrooperBoss => "CNPC_TrooperBoss",
            EntityType::ShieldedSentry => "CNPC_ShieldedSentry",
            EntityType::BaseDefenseSentry => "CNPC_BaseDefenseSentry",
            EntityType::TrooperBarrackBoss => "CNPC_TrooperBarrackBoss",
            EntityType::BossTier2 => "CNPC_Boss_Tier2",
            EntityType::BossTier3 => "CNPC_Boss_Tier3",
            EntityType::BreakableProp => "CCitadel_BreakableProp",
            EntityType::BreakablePropModifierPickup => "CCitadel_BreakablePropModifierPickup",
            EntityType::BreakablePropGoldPickup => "CCitadel_BreakablePropGoldPickup",
            EntityType::PunchablePowerup => "CCitadel_PunchablePowerup",
            EntityType::DestroyableBuilding => "CCitadel_Destroyable_Building",
        }
    }
}

} // verus!

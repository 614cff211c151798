use std::collections::HashMap;

use deadlock_live_events::classify::SchemaHashes;
use deadlock_live_events::clock::{compute_game_time, ClockReading, DEFAULT_TICK_INTERVAL_BITS};
use deadlock_live_events::entity_type::{EntityType, ENTITY_TYPE_COUNT};
use deadlock_live_events::events::{all_sse_events, entity_event_name, Delta, DemoEventPayload};
use deadlock_live_events::fields::{EntityRecord, FieldValue};
use deadlock_live_events::filter::SubscriptionFilter;
use deadlock_live_events::keys::{add_u64_to_hash, collection_element_key, ehandle_to_index, FieldKeys};
use deadlock_live_events::payload::{
    entity_position, read_dense_collection, EntityUpdateEvents, GameRulesProxyEvent,
    PlayerControllerEvent,
};
use deadlock_live_events::query::{parse_entity_type_list, parse_joined_entity_list, InvalidEntityList};
use deadlock_live_events::pump::{pump_step, FetchOutcome, PumpAction, PumpInput, PumpState};
use deadlock_live_events::retry::{next_step, RetryPolicy, RetryStep};
use deadlock_live_events::steam::{normalize_steam_id, steamid64_to_steamid3, SteamIdOverflow};
use deadlock_live_events::visitor::{SpeakerInfo, StreamState};

fn keys() -> FieldKeys {
    FieldKeys {
        start_time: 1000,
        paused: 1001,
        pause_start_tick: 1002,
        paused_ticks: 1003,
        pawn: 1004,
        steam_id: 1005,
        steam_name: 1006,
        team: 1007,
        hero_build_id: 1008,
        player_slot: 1009,
        rank: 1010,
        assigned_lane: 1011,
        original_assigned_lane: 1012,
        hero_id: 1013,
        net_worth: 1014,
        kills: 1015,
        assists: 1016,
        deaths: 1017,
        denies: 1018,
        last_hits: 1019,
        hero_healing: 1020,
        health_regen: 1021,
        ultimate_trained: 1022,
        self_healing: 1023,
        hero_damage: 1024,
        objective_damage: 1025,
        ultimate_cooldown_end: 1026,
        upgrades: 1027,
        controller: 1028,
        level: 1029,
        max_health: 1030,
        health: 1031,
        score: 1032,
        teamname: 1033,
        flex_unlocked: 1034,
        create_time: 1035,
        lane: 1036,
        shield_active: 1037,
        active: 1038,
        cx: 1039,
        vx: 1040,
        cy: 1041,
        vy: 1042,
        cz: 1043,
        vz: 1044,
    }
}

fn schema_hash(i: usize) -> u64 {
    0xAB00_0000_0000_0000 + i as u64 * 7919
}

fn schemas() -> SchemaHashes {
    SchemaHashes::new((0..ENTITY_TYPE_COUNT).map(schema_hash).collect()).unwrap()
}

fn record(t: Option<EntityType>, index: i32, fields: Vec<(u64, FieldValue)>) -> EntityRecord {
    EntityRecord {
        schema_hash: t.map(|t| schema_hash(t.index())).unwrap_or(42),
        index,
        fields: fields.into_iter().collect::<HashMap<u64, FieldValue>>(),
    }
}

fn state(filter: SubscriptionFilter) -> StreamState {
    StreamState::new(filter, keys(), schemas())
}

fn game_time(c: &ClockReading) -> f32 {
    c.elapsed_ticks as f32 * f32::from_bits(c.tick_interval_bits) - f32::from_bits(c.game_start_time_bits)
}

#[test]
fn classify_every_recognized_hash() {
    let s = schemas();
    for i in 0..ENTITY_TYPE_COUNT {
        let t = EntityType::from_index(i).unwrap();
        assert_eq!(s.classify(s.hash_of(t)), Some(t));
        assert_eq!(t.index(), i);
    }
    assert_eq!(s.classify(schema_hash(2)), Some(EntityType::PlayerPawn));
}

#[test]
fn classify_unrecognized_hash_is_none() {
    let s = schemas();
    assert_eq!(s.classify(12345), None);
    assert_eq!(s.classify(0), None);
}

#[test]
fn schema_table_needs_one_hash_per_type() {
    assert!(SchemaHashes::new(vec![1, 2, 3]).is_none());
    assert!(SchemaHashes::new(Vec::new()).is_none());
    let mut repeated: Vec<u64> = (0..ENTITY_TYPE_COUNT).map(schema_hash).collect();
    repeated[17] = repeated[3];
    assert!(SchemaHashes::new(repeated).is_none());
}

#[test]
fn pickup_active_flag_is_optional() {
    let k = keys();
    let t = EntityType::BreakablePropModifierPickup;
    let unknown = EntityUpdateEvents::from_update(&k, t, &record(Some(t), 0, Vec::new())).unwrap();
    let known = EntityUpdateEvents::from_update(&k, t, &record(Some(t), 0, vec![(k.active, FieldValue::Bool(false))])).unwrap();
    match (unknown, known) {
        (EntityUpdateEvents::BreakablePropModifierPickup(u), EntityUpdateEvents::BreakablePropModifierPickup(v)) => {
            assert_eq!(u.active, None);
            assert_eq!(v.active, Some(false));
        }
        _ => panic!("expected pickup snapshots"),
    }
}

#[test]
fn unrecognized_entity_builds_no_event() {
    let mut st = state(SubscriptionFilter::new(false, None));
    let rec = record(None, 7, vec![(keys().health, FieldValue::I32(100))]);
    assert!(st.on_entity(10, Delta::Update, &rec).is_none());
}

#[test]
fn game_time_formula() {
    let rules = GameRulesProxyEvent {
        game_start_time: Some(0.5f32.to_bits()),
        game_paused: None,
        pause_start_tick: None,
        total_paused_ticks: Some(20),
    };
    let r = compute_game_time(120, (1.0f32 / 60.0).to_bits(), &rules);
    assert_eq!(r.elapsed_ticks, 100);
    assert_eq!(r.game_start_time_bits, 0.5f32.to_bits());
    assert!((game_time(&r) - 1.1667).abs() < 1e-4);
}

#[test]
fn game_time_with_unknown_rules_is_tick_times_interval() {
    let rules = GameRulesProxyEvent {
        game_start_time: None,
        game_paused: None,
        pause_start_tick: None,
        total_paused_ticks: None,
    };
    let r = compute_game_time(30, DEFAULT_TICK_INTERVAL_BITS, &rules);
    assert_eq!(r.elapsed_ticks, 30);
    assert_eq!(r.game_start_time_bits, 0);
    assert_eq!(DEFAULT_TICK_INTERVAL_BITS, (1.0f32 / 60.0).to_bits());
    assert!((game_time(&r) - 0.5).abs() < 1e-6);
}

#[test]
fn filter_without_list_passes_all_types() {
    let f = SubscriptionFilter::new(false, None);
    for i in 0..ENTITY_TYPE_COUNT {
        assert!(f.passes(EntityType::from_index(i).unwrap()));
    }
    assert!(!f.chat_passes());
}

#[test]
fn filter_player_pawn_only() {
    let f = SubscriptionFilter::new(true, Some(vec![EntityType::PlayerPawn]));
    assert!(f.passes(EntityType::PlayerPawn));
    assert!(!f.passes(EntityType::Team));
    assert!(!f.passes(EntityType::GameRulesProxy));
    assert!(f.chat_passes());
    let mut st = state(f);
    let team = record(Some(EntityType::Team), 3, vec![(keys().score, FieldValue::I32(5))]);
    assert!(st.on_entity(1, Delta::Update, &team).is_none());
    let pawn = record(Some(EntityType::PlayerPawn), 4, vec![(keys().health, FieldValue::I32(90))]);
    let ev = st.on_entity(1, Delta::Update, &pawn).unwrap();
    assert_eq!(ev.event.event_name(), "player_pawn_entity_updated");
}

#[test]
fn rules_update_is_never_filtered() {
    let mut st = state(SubscriptionFilter::new(false, Some(vec![EntityType::PlayerPawn])));
    let k = keys();
    let rules = record(
        Some(EntityType::GameRulesProxy),
        0,
        vec![(k.paused_ticks, FieldValue::I32(10)), (k.start_time, FieldValue::F32Bits(2.0f32.to_bits()))],
    );
    assert!(st.on_entity(5, Delta::Update, &rules).is_none());
    assert_eq!(st.rules.total_paused_ticks, Some(10));
    let end = st.on_tick_end(70);
    assert_eq!(end.clock.elapsed_ticks, 60);
    assert!((game_time(&end.clock) - (1.0 - 2.0)).abs() < 1e-5);
}

#[test]
fn retry_succeeds_on_third_call() {
    let p = RetryPolicy::new(5, 200).unwrap();
    let outcomes = [false, false, true, false, true];
    let mut calls = 0u32;
    let mut waited = 0u64;
    let mut ok = false;
    for o in outcomes {
        calls += 1;
        match next_step(&p, calls, o) {
            RetryStep::Succeeded => {
                ok = true;
                break;
            }
            RetryStep::RetryAfter { delay_ms } => waited += delay_ms,
            RetryStep::GiveUp => break,
        }
    }
    assert!(ok);
    assert_eq!(calls, 3);
    assert_eq!(waited, 400);
}

#[test]
fn retry_gives_up_after_max_attempts() {
    let p = RetryPolicy::spectate();
    let mut calls = 0u32;
    let mut waited = 0u64;
    loop {
        calls += 1;
        match next_step(&p, calls, false) {
            RetryStep::Succeeded => panic!("no call succeeds"),
            RetryStep::RetryAfter { delay_ms } => waited += delay_ms,
            RetryStep::GiveUp => break,
        }
    }
    assert_eq!(calls, 3);
    assert_eq!(waited, 400);
    assert_eq!(RetryPolicy::availability().max_attempts, 60);
    assert_eq!(RetryPolicy::availability().delay_ms, 500);
    assert!(RetryPolicy::new(0, 10).is_none());
}

#[test]
fn closed_sink_halts_pump() {
    let (s, a) = pump_step(PumpState::AwaitingPacket, PumpInput::IterationStart { sink_closed: true });
    assert_eq!((s, a), (PumpState::Cancelled, PumpAction::Halt));
    for input in [
        PumpInput::IterationStart { sink_closed: false },
        PumpInput::Fetched(FetchOutcome::Packet),
        PumpInput::Parsed { ok: true },
    ] {
        assert_eq!(pump_step(s, input), (PumpState::Cancelled, PumpAction::Halt));
    }
}

#[test]
fn pump_normal_cycle_and_end() {
    let (s, a) = pump_step(PumpState::AwaitingPacket, PumpInput::IterationStart { sink_closed: false });
    assert_eq!(a, PumpAction::RequestPacket);
    let (s, a) = pump_step(s, PumpInput::Fetched(FetchOutcome::Packet));
    assert_eq!((s, a), (PumpState::Parsing, PumpAction::RunToTickEnd));
    let (s, a) = pump_step(s, PumpInput::Parsed { ok: true });
    assert_eq!((s, a), (PumpState::AwaitingPacket, PumpAction::NextIteration));
    let (s2, a2) = pump_step(s, PumpInput::Fetched(FetchOutcome::TransientError));
    assert_eq!((s2, a2), (PumpState::AwaitingPacket, PumpAction::NextIteration));
    let (s3, a3) = pump_step(s, PumpInput::Fetched(FetchOutcome::EndOfStream));
    assert_eq!((s3, a3), (PumpState::Ended, PumpAction::PushEnd));
    let (s4, a4) = pump_step(PumpState::Parsing, PumpInput::Parsed { ok: false });
    assert_eq!((s4, a4), (PumpState::Errored, PumpAction::Halt));
}

#[test]
fn dense_prefix_stops_at_first_gap() {
    let base = keys().upgrades;
    let rec = record(
        Some(EntityType::PlayerController),
        1,
        vec![
            (base, FieldValue::U64(5)),
            (collection_element_key(base, 0), FieldValue::U64(11)),
            (collection_element_key(base, 1), FieldValue::U64(22)),
            (collection_element_key(base, 2), FieldValue::U64(33)),
            (collection_element_key(base, 4), FieldValue::U64(55)),
        ],
    );
    assert_eq!(read_dense_collection(&rec, base), vec![11, 22, 33]);
}

#[test]
fn collection_without_count_is_empty() {
    let base = keys().upgrades;
    let rec = record(None, 1, vec![(collection_element_key(base, 0), FieldValue::U64(11))]);
    assert!(read_dense_collection(&rec, base).is_empty());
}

#[test]
fn collection_stops_at_declared_count() {
    let base = keys().upgrades;
    let rec = record(
        None,
        1,
        vec![
            (base, FieldValue::U64(1)),
            (collection_element_key(base, 0), FieldValue::U64(11)),
            (collection_element_key(base, 1), FieldValue::U64(22)),
        ],
    );
    assert_eq!(read_dense_collection(&rec, base), vec![11]);
}

#[test]
fn field_key_hash_values() {
    assert_eq!(add_u64_to_hash(0, 1), 0x517cc1b727220a95);
    assert_eq!(add_u64_to_hash(1, 0), 0x2f9836e4e44152a0);
    assert_eq!(add_u64_to_hash(0x123456789abcdef0, 7), 0x300523c7540e6ae9);
    assert_eq!(collection_element_key(9, 3), add_u64_to_hash(9, add_u64_to_hash(0, 3)));
}

#[test]
fn steam_id_normalization() {
    assert_eq!(steamid64_to_steamid3(76561197960265729), Ok(1));
    assert_eq!(steamid64_to_steamid3(500), Ok(500));
    assert_eq!(steamid64_to_steamid3(76561197960265728), Ok(0));
    assert_eq!(steamid64_to_steamid3(76561197960265728 + (1u64 << 32)), Err(SteamIdOverflow));
    assert_eq!(steamid64_to_steamid3(1u64 << 40), Err(SteamIdOverflow));
    assert_eq!(normalize_steam_id(Some(76561197960265729)), Some(1));
    assert_eq!(normalize_steam_id(Some(u64::MAX)), None);
    assert_eq!(normalize_steam_id(None), None);
}

#[test]
fn entity_handle_index() {
    assert_eq!(ehandle_to_index(0x12345), 0x2345);
    assert_eq!(ehandle_to_index(u32::MAX), 0x7fff);
    assert_eq!(ehandle_to_index(5), 5);
}

#[test]
fn position_needs_every_axis_part() {
    let k = keys();
    let mut fields = vec![
        (k.cx, FieldValue::U16(10)),
        (k.vx, FieldValue::F32Bits(1.5f32.to_bits())),
        (k.cy, FieldValue::U16(20)),
        (k.vy, FieldValue::F32Bits(2.5f32.to_bits())),
        (k.cz, FieldValue::U16(30)),
    ];
    assert!(entity_position(&record(None, 0, fields.clone()), &k).is_none());
    fields.push((k.vz, FieldValue::F32Bits(3.5f32.to_bits())));
    let p = entity_position(&record(None, 0, fields), &k).unwrap();
    assert_eq!(p.x.cell, 10);
    assert_eq!(p.y.offset_bits, 2.5f32.to_bits());
    assert_eq!(p.z.cell, 30);
}

#[test]
fn player_controller_snapshot() {
    let k = keys();
    let rec = record(
        Some(EntityType::PlayerController),
        9,
        vec![
            (k.pawn, FieldValue::U32(0x8003)),
            (k.steam_id, FieldValue::U64(76561197960265738)),
            (k.steam_name, FieldValue::Str("Player".to_string())),
            (k.kills, FieldValue::I32(4)),
            (k.team, FieldValue::U8(2)),
            (k.deaths, FieldValue::U32(1)),
        ],
    );
    let e: PlayerControllerEvent = PlayerControllerEvent::from_entity_update(&k, &rec);
    assert_eq!(e.pawn, Some(3));
    assert_eq!(e.steam_id, Some(10));
    assert_eq!(e.steam_name.as_deref(), Some("Player"));
    assert_eq!(e.kills, Some(4));
    assert_eq!(e.team, Some(2));
    assert_eq!(e.deaths, None);
    assert_eq!(e.assists, None);
    assert!(e.upgrades.is_empty());
}

#[test]
fn every_type_builds_its_own_shape() {
    let k = keys();
    for i in 0..ENTITY_TYPE_COUNT {
        let t = EntityType::from_index(i).unwrap();
        let p = EntityUpdateEvents::from_update(&k, t, &record(Some(t), 0, Vec::new())).unwrap();
        let shape_ok = match (t, p) {
            (EntityType::GameRulesProxy, EntityUpdateEvents::GameRulesProxy(_)) => true,
            (EntityType::PlayerPawn, EntityUpdateEvents::PlayerPawn(e)) => e.health.is_none(),
            (EntityType::Trooper, EntityUpdateEvents::Trooper(e)) => e.position.is_none(),
            (EntityType::BreakablePropGoldPickup, EntityUpdateEvents::BreakablePropGoldPickup(e)) => e.active.is_none(),
            (EntityType::GameRulesProxy, _)
            | (EntityType::PlayerPawn, _)
            | (EntityType::Trooper, _)
            | (EntityType::BreakablePropGoldPickup, _) => false,
            _ => true,
        };
        assert!(shape_ok);
    }
}

#[test]
fn all_event_names_listed() {
    let names = all_sse_events();
    assert_eq!(names.len(), ENTITY_TYPE_COUNT * 4 + 3);
    assert_eq!(names[0], "game_rules_proxy_entity_created");
    assert_eq!(names[1], "game_rules_proxy_entity_updated");
    assert_eq!(names[2], "game_rules_proxy_entity_deleted");
    assert_eq!(names[3], "game_rules_proxy_entity_left");
    assert!(names.contains(&"boss_tier2_entity_updated".to_string()));
    assert!(names.contains(&"destroyable_building_entity_left".to_string()));
    assert_eq!(&names[names.len() - 3..], &["chat_message", "tick_end", "end"]);
    assert_eq!(entity_event_name(EntityType::MidBoss, Delta::Delete), "mid_boss_entity_deleted");
}

#[test]
fn invalid_delta_is_not_emitted() {
    let mut st = state(SubscriptionFilter::new(false, None));
    let rec = record(Some(EntityType::Team), 2, vec![(keys().score, FieldValue::I32(3))]);
    assert!(st.on_entity(1, Delta::Invalid, &rec).is_none());
    assert!(st.on_entity(1, Delta::Create, &rec).is_some());
}

#[test]
fn sync_command_sets_tick_interval() {
    let mut st = state(SubscriptionFilter::new(false, None));
    st.on_cmd(false, 0.5f32.to_bits());
    assert_eq!(st.tick_interval_bits, DEFAULT_TICK_INTERVAL_BITS);
    st.on_cmd(true, (1.0f32 / 30.0).to_bits());
    let end = st.on_tick_end(30);
    assert!((game_time(&end.clock) - 1.0).abs() < 1e-5);
}

#[test]
fn chat_messages_follow_subscription() {
    let off = state(SubscriptionFilter::new(false, None));
    assert!(off.on_chat_message(3, Some("hi".to_string()), Some(true), None, None).is_none());
    let on = state(SubscriptionFilter::new(true, None));
    let speaker = SpeakerInfo { name: Some("Ann".to_string()), steam_id: Some(76561197960265729) };
    let ev = on.on_chat_message(3, Some("hi".to_string()), Some(false), Some(2), Some(speaker)).unwrap();
    assert_eq!(ev.tick, 3);
    assert_eq!(ev.event.event_name(), "chat_message");
    match ev.event {
        DemoEventPayload::ChatMessage { steam_name, steam_id, text, all_chat, lane_color } => {
            assert_eq!(steam_name.as_deref(), Some("Ann"));
            assert_eq!(steam_id, Some(1));
            assert_eq!(text.as_deref(), Some("hi"));
            assert_eq!(all_chat, Some(false));
            assert_eq!(lane_color, Some(2));
        }
        _ => panic!("expected a chat message"),
    }
}

#[test]
fn end_to_end_three_events() {
    let k = keys();
    let mut st = state(SubscriptionFilter::new(false, None));
    let mut out = Vec::new();
    let rules = record(Some(EntityType::GameRulesProxy), 0, vec![(k.start_time, FieldValue::F32Bits(0.0f32.to_bits()))]);
    out.extend(st.on_entity(59, Delta::Update, &rules));
    let pawn = record(Some(EntityType::PlayerPawn), 12, vec![(k.health, FieldValue::I32(100))]);
    out.extend(st.on_entity(60, Delta::Update, &pawn));
    st.on_cmd(true, (1.0f32 / 60.0).to_bits());
    out.push(st.on_tick_end(60));
    assert_eq!(out.len(), 3);
    match &out[1].event {
        DemoEventPayload::EntityUpdate { delta, entity_index, entity_type, entity_update } => {
            assert_eq!(*delta, Delta::Update);
            assert_eq!(*entity_index, 12);
            assert_eq!(*entity_type, EntityType::PlayerPawn);
            match entity_update {
                EntityUpdateEvents::PlayerPawn(e) => assert_eq!(e.health, Some(100)),
                _ => panic!("expected a player pawn snapshot"),
            }
        }
        _ => panic!("expected an entity update"),
    }
    let last = &out[2];
    assert_eq!(last.tick, 60);
    assert!(matches!(last.event, DemoEventPayload::TickEnd));
    assert!((game_time(&last.clock) - 1.0).abs() < 1e-6);
    assert_eq!(game_time(&out[0].clock), 0.0);
}

#[test]
fn entity_type_names_parse() {
    assert_eq!(EntityType::from_snake_name("player_pawn"), Some(EntityType::PlayerPawn));
    assert_eq!(EntityType::from_snake_name("boss_tier3"), Some(EntityType::BossTier3));
    assert_eq!(EntityType::from_snake_name("PlayerPawn"), None);
    for i in 0..ENTITY_TYPE_COUNT {
        let t = EntityType::from_index(i).unwrap();
        assert_eq!(EntityType::from_snake_name(t.snake_name()), Some(t));
    }
    let ok = parse_entity_type_list(&vec!["team".to_string(), "trooper".to_string()]).unwrap();
    assert_eq!(ok, Some(vec![EntityType::Team, EntityType::Trooper]));
    assert_eq!(parse_entity_type_list(&Vec::new()).unwrap(), None);
    let err = parse_entity_type_list(&vec!["team".to_string(), "dragon".to_string(), "x".to_string()]).unwrap_err();
    assert_eq!(err.name, "dragon");
}

#[test]
fn joined_entity_list_parses() {
    assert_eq!(parse_joined_entity_list(""), Ok(None));
    assert_eq!(parse_joined_entity_list("[]"), Ok(None));
    assert_eq!(
        parse_joined_entity_list("[player_pawn, team ,\tmid_boss\u{3000}]"),
        Ok(Some(vec![EntityType::PlayerPawn, EntityType::Team, EntityType::MidBoss]))
    );
    assert_eq!(parse_joined_entity_list("trooper"), Ok(Some(vec![EntityType::Trooper])));
    assert_eq!(parse_joined_entity_list("tro[op]er"), Ok(Some(vec![EntityType::Trooper])));
    assert_eq!(parse_joined_entity_list("team,dragon,nope"), Err(InvalidEntityList { item: 1 }));
    assert_eq!(parse_joined_entity_list("team,"), Err(InvalidEntityList { item: 1 }));
    assert_eq!(parse_joined_entity_list(" "), Err(InvalidEntityList { item: 0 }));
}

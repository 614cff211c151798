use vstd::prelude::*;
use crate::classify::{SchemaHashes, classify_spec};
use crate::clock::{
    ClockReading, DEFAULT_TICK_INTERVAL_BITS, compute_game_time, initial_clock_reading,
    initial_reading, reading_of,
};
use crate::entity_type::EntityType;
use crate::events::{Delta, DemoEvent, DemoEventPayload};
use crate::fields::EntityRecord;
use crate::filter::{SubscriptionFilter, passes_spec};
use crate::keys::FieldKeys;
use crate::payload::{
    EntityUpdateEvents, GameRulesProxyEvent, is_game_rules_proxy_event_of, is_payload_of,
};
use crate::steam::{normalize_steam_id, normalized_steam_id};

verus! {

/// What is known of the player who sent a chat message.
#[derive(Debug, Clone)]
pub struct SpeakerInfo {
    pub name: Option<String>,
    pub steam_id: Option<u64>,
}

/// The game-rules snapshot before the singleton has been seen: all unknown.
pub open spec fn unknown_rules() -> GameRulesProxyEvent {
    GameRulesProxyEvent {
        game_start_time: None,
        game_paused: None,
        pause_start_tick: None,
        total_paused_ticks: None,
    }
}

/// The per-connection state that turns decoder callbacks into events: the
/// subscription, the key tables, the latest game-rules snapshot, the tick
/// interval, and the clock reading computed at the last tick end.
pub struct StreamState {
    pub filter: SubscriptionFilter,
    pub keys: FieldKeys,
    pub schemas: SchemaHashes,
    pub rules: GameRulesProxyEvent,
    pub tick_interval_bits: u32,
    pub reading: ClockReading,
}

/// `ev` is the event for an update of `entity`, of type `t`, with delta `delta`,
/// at `tick`, stamped with `reading`.
pub open spec fn is_entity_event(
    ev: DemoEvent,
    tick: i32,
    reading: ClockReading,
    delta: Delta,
    entity: EntityRecord,
    t: EntityType,
    keys: FieldKeys,
) -> bool {
    &&& ev.tick == tick
    &&& ev.clock == reading
    &&& match ev.event {
        DemoEventPayload::EntityUpdate { delta: d, entity_index, entity_type, entity_update } => {
            &&& d == delta
            &&& entity_index == entity.index
            &&& entity_type == t
            &&& is_payload_of(entity_update, t, keys, entity.fields@)
        },
        _ => false,
    }
}

/// Two option strings with the same views.
pub open spec fn same_opt_string(a: Option<String>, b: Option<String>) -> bool {
    match (a, b) {
        (Some(x), Some(y)) => x@ == y@,
        (None, None) => true,
        _ => false,
    }
}

impl StreamState {
    /// The state of a fresh connection: rules unknown, default tick interval,
    /// game time zero.
    pub fn new(filter: SubscriptionFilter, keys: FieldKeys, schemas: SchemaHashes) -> (r: StreamState)
        ensures
            r.filter == filter,
            r.keys == keys,
            r.schemas == schemas,
            r.rules == unknown_rules(),
            r.tick_interval_bits == DEFAULT_TICK_INTERVAL_BITS,
            r.reading == initial_reading(),
    {
        StreamState {
            filter,
            keys,
            schemas,
            rules: GameRulesProxyEvent {
                game_start_time: None,
                game_paused: None,
                pause_start_tick: None,
                total_paused_ticks: None,
            },
            tick_interval_bits: DEFAULT_TICK_INTERVAL_BITS,
            reading: initial_clock_reading(),
        }
    }

    /// An entity changed. A game-rules update replaces the rules snapshot
    /// whatever the subscription; then an event is produced if the type is
    /// recognized, the delta is known and the subscription takes the type.
    pub fn on_entity(&mut self, tick: i32, delta: Delta, entity: &EntityRecord) -> (r: Option<DemoEvent>)
        ensures
            final(self).filter == old(self).filter,
            final(self).keys == old(self).keys,
            final(self).schemas == old(self).schemas,
            final(self).tick_interval_bits == old(self).tick_interval_bits,
            final(self).reading == old(self).reading,
            classify_spec(old(self).schemas@, entity.schema_hash) == Some(EntityType::GameRulesProxy)
                ==> is_game_rules_proxy_event_of(final(self).rules, old(self).keys, entity.fields@),
            classify_spec(old(self).schemas@, entity.schema_hash) != Some(EntityType::GameRulesProxy)
                ==> final(self).rules == old(self).rules,
            r is Some <==> (match classify_spec(old(self).schemas@, entity.schema_hash) {
                Some(t) => delta != Delta::Invalid && passes_spec(old(self).filter, t),
                None => false,
            }),
            r matches Some(ev) ==> (match classify_spec(old(self).schemas@, entity.schema_hash) {
                Some(t) => is_entity_event(ev, tick, old(self).reading, delta, *entity, t, old(self).keys),
                None => false,
            }),
    {
        let entity_type = match self.schemas.classify(entity.schema_hash) {
            Some(t) => t,
            None => {
                return None;
            },
        };
        if entity_type == EntityType::GameRulesProxy {
            self.rules = GameRulesProxyEvent::from_entity_update(&self.keys, entity);
        }
        if delta == Delta::Invalid || !self.filter.passes(entity_type) {
            return None;
        }
        match EntityUpdateEvents::from_update(&self.keys, entity_type, entity) {
            Some(entity_update) => Some(
                DemoEvent {
                    tick,
                    clock: self.reading,
                    event: DemoEventPayload::EntityUpdate {
                        delta,
                        entity_index: entity.index,
                        entity_type,
                        entity_update,
                    },
                },
            ),
            None => None,
        }
    }

    /// A demo command was read; a synchronization command carries the tick
    /// interval in force from then on.
    pub fn on_cmd(&mut self, is_sync_tick: bool, tick_interval_bits: u32)
        ensures
            final(self).tick_interval_bits == (if is_sync_tick {
                tick_interval_bits
            } else {
                old(self).tick_interval_bits
            }),
            final(self).filter == old(self).filter,
            final(self).keys == old(self).keys,
            final(self).schemas == old(self).schemas,
            final(self).rules == old(self).rules,
            final(self).reading == old(self).reading,
    {
        if is_sync_tick {
            self.tick_interval_bits = tick_interval_bits;
        }
    }

    /// A chat message was decoded; it becomes an event if the connection
    /// subscribed to chat. The speaker's Steam ID is normalized.
    pub fn on_chat_message(
        &self,
        tick: i32,
        text: Option<String>,
        all_chat: Option<bool>,
        lane_color: Option<i32>,
        speaker: Option<SpeakerInfo>,
    ) -> (r: Option<DemoEvent>)
        ensures
            r is Some <==> self.filter.chat_enabled,
            r matches Some(ev) ==> {
                &&& ev.tick == tick
                &&& ev.clock == self.reading
                &&& match ev.event {
                    DemoEventPayload::ChatMessage {
                        steam_name: n,
                        steam_id: id,
                        text: tx,
                        all_chat: ac,
                        lane_color: lc,
                    } => {
                        &&& same_opt_string(tx, text)
                        &&& ac == all_chat
                        &&& lc == lane_color
                        &&& match speaker {
                            Some(s) => same_opt_string(n, s.name) && id == normalized_steam_id(
                                s.steam_id,
                            ),
                            None => n is None && id is None,
                        }
                    },
                    _ => false,
                }
            },
    {
        if !self.filter.chat_passes() {
            return None;
        }
        let (steam_name, steam_id) = match speaker {
            Some(s) => (s.name, normalize_steam_id(s.steam_id)),
            None => (None, None),
        };
        Some(
            DemoEvent {
                tick,
                clock: self.reading,
                event: DemoEventPayload::ChatMessage {
                    steam_name,
                    steam_id,
                    text,
                    all_chat,
                    lane_color,
                },
            },
        )
    }

    /// A tick ended: the clock reading is recomputed from the rules snapshot
    /// and the tick interval, and a tick-end event carries it. Events of the
    /// next tick are stamped with this reading.
    pub fn on_tick_end(&mut self, tick: i32) -> (r: DemoEvent)
        ensures
            final(self).reading == reading_of(tick, old(self).rules, old(self).tick_interval_bits),
            final(self).filter == old(self).filter,
            final(self).keys == old(self).keys,
            final(self).schemas == old(self).schemas,
            final(self).rules == old(self).rules,
            final(self).tick_interval_bits == old(self).tick_interval_bits,
            r.tick == tick,
            r.clock == final(self).reading,
            r.event is TickEnd,
    {
        let reading = compute_game_time(tick, self.tick_interval_bits, &self.rules);
        self.reading = reading;
        DemoEvent { tick, clock: reading, event: DemoEventPayload::TickEnd }
    }
}

} // verus!

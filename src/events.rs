use vstd::prelude::*;
use vstd::string::StringExecFns;
use crate::clock::ClockReading;
use crate::entity_type::{EntityType, ENTITY_TYPE_COUNT, snake_name_of, type_at};
use crate::payload::EntityUpdateEvents;

verus! {

/// The kind of change an entity underwent in one update. `Invalid` stands for
/// a change the decoder did not report in a known form; it is never emitted.
#[derive(Debug, Clone, Copy, PartialEq, Eq, Structural)]
pub enum Delta {
    Invalid,
    Update,
    Leave,
    Create,
    Delete,
}

/// The word that names a delta in event names.
pub open spec fn delta_word(d: Delta) -> Seq<char> {
    match d {
        Delta::Invalid => "invalid"@,
        Delta::Update => "updated"@,
        Delta::Leave => "left"@,
        Delta::Create => "created"@,
        Delta::Delete => "deleted"@,
    }
}

/// Event name of an update of type `t` with delta `d`.
pub open spec fn entity_event_name_of(t: EntityType, d: Delta) -> Seq<char> {
    snake_name_of(t) + "_entity_"@ + delta_word(d)
}

impl Delta {
    /// The word that names this delta in event names.
    pub fn event_word(&self) -> (r: &'static str)
        ensures
            r@ == delta_word(*self),
    {
        match self {
            Delta::Invalid => "invalid",
            Delta::Update => "updated",
            Delta::Leave => "left",
            Delta::Create => "created",
            Delta::Delete => "deleted",
        }
    }
}

/// Event name of an update of type `t` with delta `d`.
pub fn entity_event_name(t: EntityType, d: Delta) -> (r: String)
    ensures
        r@ == entity_event_name_of(t, d),
{
    String::from_str(t.snake_name()).concat("_entity_").concat(d.event_word())
}

/// What one event reports.
#[derive(Debug, Clone)]
pub enum DemoEventPayload {
    EntityUpdate {
        delta: Delta,
        entity_index: i32,
        entity_type: EntityType,
        entity_update: EntityUpdateEvents,
    },
    ChatMessage {
        steam_name: Option<String>,
        steam_id: Option<u32>,
        text: Option<String>,
        all_chat: Option<bool>,
        lane_color: Option<i32>,
    },
    TickEnd,
}

/// The name under which a payload is sent.
pub open spec fn event_name_of(p: DemoEventPayload) -> Seq<char> {
    match p {
        DemoEventPayload::EntityUpdate { delta, entity_type, .. } => entity_event_name_of(
            entity_type,
            delta,
        ),
        DemoEventPayload::ChatMessage { .. } => "chat_message"@,
        DemoEventPayload::TickEnd => "tick_end"@,
    }
}

impl DemoEventPayload {
    /// The name under which this payload is sent.
    pub fn event_name(&self) -> (r: String)
        ensures
            r@ == event_name_of(*self),
    {
        match self {
            DemoEventPayload::EntityUpdate { delta, entity_type, .. } => entity_event_name(
                *entity_type,
                *delta,
            ),
            DemoEventPayload::ChatMessage { .. } => String::from_str("chat_message"),
            DemoEventPayload::TickEnd => String::from_str("tick_end"),
        }
    }
}

/// One output event: the tick it belongs to, the game-clock reading in force
/// at that point, and what it reports.
#[derive(Debug, Clone)]
pub struct DemoEvent {
    pub tick: i32,
    pub clock: ClockReading,
    pub event: DemoEventPayload,
}

/// The four update event names of type `t`.
pub open spec fn type_event_names(t: EntityType) -> Seq<Seq<char>> {
    seq![
        entity_event_name_of(t, Delta::Create),
        entity_event_name_of(t, Delta::Update),
        entity_event_name_of(t, Delta::Delete),
        entity_event_name_of(t, Delta::Leave),
    ]
}

/// The update event names of the first `n` types, in enumeration order.
pub open spec fn type_event_names_upto(n: nat) -> Seq<Seq<char>>
    decreases n,
{
    if n == 0 {
        Seq::empty()
    } else {
        match type_at(n - 1) {
            Some(t) => type_event_names_upto((n - 1) as nat) + type_event_names(t),
            None => type_event_names_upto((n - 1) as nat),
        }
    }
}

/// Every event name a stream can carry, announced when a connection opens.
pub open spec fn all_event_names() -> Seq<Seq<char>> {
    type_event_names_upto(ENTITY_TYPE_COUNT as nat) + seq!["chat_message"@, "tick_end"@, "end"@]
}

/// The views of a list of strings.
pub open spec fn string_views(v: Seq<String>) -> Seq<Seq<char>> {
    v.map_values(|s: String| s@)
}

/// Every event name a stream can carry: four per entity type, then the chat,
/// tick-end and end events.
pub fn all_sse_events() -> (r: Vec<String>)
    ensures
        string_views(r@) == all_event_names(),
{
    let mut out: Vec<String> = Vec::new();
    let mut i: usize = 0;
    while i < ENTITY_TYPE_COUNT
        invariant
            i <= ENTITY_TYPE_COUNT,
            string_views(out@) == type_event_names_upto(i as nat),
        decreases ENTITY_TYPE_COUNT - i,
    {
        match EntityType::from_index(i) {
            Some(t) => {
                let ghost before = out@;
                out.push(entity_event_name(t, Delta::Create));
                out.push(entity_event_name(t, Delta::Update));
                out.push(entity_event_name(t, Delta::Delete));
                out.push(entity_event_name(t, Delta::Leave));
                assert(string_views(out@) =~= string_views(before) + type_event_names(t));
            },
            None => {},
        }
        i += 1;
    }
    let ghost before = out@;
    out.push(String::from_str("chat_message"));
    out.push(String::from_str("tick_end"));
    out.push(String::from_str("end"));
    assert(string_views(out@) =~= string_views(before) + seq!["chat_message"@, "tick_end"@, "end"@]);
    out
}

} // verus!

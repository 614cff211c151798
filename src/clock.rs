use vstd::prelude::*;
use crate::payload::GameRulesProxyEvent;

verus! {

/// `f32` bit pattern of the default tick interval, one sixtieth of a second.
pub const DEFAULT_TICK_INTERVAL_BITS: u32 = 0x3c888889;

/// The inputs of the game-time formula at one tick end:
/// `game_time = elapsed_ticks * tick_interval - game_start_time`, where the
/// interval and the start time are `f32` values carried as bit patterns.
#[derive(Debug, Clone, Copy, PartialEq, Eq, Structural)]
pub struct ClockReading {
    pub elapsed_ticks: i64,
    pub tick_interval_bits: u32,
    pub game_start_time_bits: u32,
}

/// Ticks elapsed at `tick` once the paused ticks are taken out; an unknown
/// pause count counts as zero.
pub open spec fn elapsed_ticks_of(tick: i32, rules: GameRulesProxyEvent) -> int {
    tick - match rules.total_paused_ticks {
        Some(p) => p as int,
        None => 0,
    }
}

/// The reading at `tick`; an unknown start time counts as zero (bit pattern 0
/// is `0.0`).
pub open spec fn reading_of(tick: i32, rules: GameRulesProxyEvent, tick_interval_bits: u32) -> ClockReading {
    ClockReading {
        elapsed_ticks: elapsed_ticks_of(tick, rules) as i64,
        tick_interval_bits,
        game_start_time_bits: match rules.game_start_time {
            Some(b) => b,
            None => 0,
        },
    }
}

/// The reading before any tick has ended: game time zero.
pub open spec fn initial_reading() -> ClockReading {
    ClockReading {
        elapsed_ticks: 0,
        tick_interval_bits: DEFAULT_TICK_INTERVAL_BITS,
        game_start_time_bits: 0,
    }
}

/// When the rules carry no paused-tick count, the reading at `tick` counts
/// every tick and carries the rules' start time (zero if unknown).
pub proof fn lemma_reading_without_pauses(tick: i32, rules: GameRulesProxyEvent, tick_interval_bits: u32)
    requires
        rules.total_paused_ticks is None,
    ensures
        reading_of(tick, rules, tick_interval_bits).elapsed_ticks == tick,
        reading_of(tick, rules, tick_interval_bits).tick_interval_bits == tick_interval_bits,
        reading_of(tick, rules, tick_interval_bits).game_start_time_bits == match rules.game_start_time {
            Some(b) => b,
            None => 0,
        },
{
}

/// Game-clock inputs at `tick` under the singleton's latest `rules`.
pub fn compute_game_time(tick: i32, tick_interval_bits: u32, rules: &GameRulesProxyEvent) -> (r: ClockReading)
    ensures
        r == reading_of(tick, *rules, tick_interval_bits),
        r.elapsed_ticks == elapsed_ticks_of(tick, *rules),
{
    let paused: i64 = match rules.total_paused_ticks {
        Some(p) => p as i64,
        None => 0,
    };
    ClockReading {
        elapsed_ticks: tick as i64 - paused,
        tick_interval_bits,
        game_start_time_bits: match rules.game_start_time {
            Some(b) => b,
            None => 0,
        },
    }
}

/// The reading of the initial state.
pub fn initial_clock_reading() -> (r: ClockReading)
    ensures
        r == initial_reading(),
{
    ClockReading {
        elapsed_ticks: 0,
        tick_interval_bits: DEFAULT_TICK_INTERVAL_BITS,
        game_start_time_bits: 0,
    }
}

} // verus!

//! Data model of the correlation engine: per-ward placement context, terminal
//! event payloads, finalized output records, and the error kinds of the
//! session, together with the specification functions that the contracts of
//! the engine are stated over.

use vstd::prelude::*;
use vstd::string::StringExecFns;

verus! {

/// Fixed simulation rate: ticks per second of match time.
pub const TICKS_PER_SECOND: i32 = 30;

/// Per-ward placement context, recorded by the registry at the instant a
/// placement event is processed.
#[derive(Debug, Copy, Clone, PartialEq, Eq, Structural)]
pub struct WardEntry {
    /// Opaque handle of the hero entity that owns the ward.
    pub hero_handle: usize,
    /// Tick index at placement.
    pub placed_tick: i32,
    /// Team side of the placing player at placement time.
    pub is_radiant: bool,
    /// Ward category: observer (true) or sentry (false).
    pub is_observer: bool,
}

/// Ward category reported by the lifecycle callback.
#[derive(Debug, Copy, Clone, PartialEq, Eq, Structural)]
pub enum WardClass {
    Observer,
    Sentry,
}

/// A per-ward lifecycle callback event.
#[derive(Debug, Clone)]
pub enum WardEvent {
    Placed,
    Killed(String),
    Expired,
}

/// Terminal-event payload held by the deferred queue: a closed tagged union,
/// so no third variant can ever reach the drain.
#[derive(Debug, Clone)]
pub enum TerminalEvent {
    /// The ward was destroyed; the payload is the killing unit's identifier.
    Killed(String),
    /// The ward ran out of lifetime; there is no killer.
    Expired,
}

/// One finalized record per ward lifecycle, immutable once assembled.
///
/// The sub-cell offsets (`vec_x`, `vec_y`, `vec_z`) carry the IEEE-754 bit
/// pattern of the single-precision offset read from the ward entity's body
/// component; callers that want the numeric value reinterpret the bits.
#[derive(Debug, Clone)]
pub struct Output {
    /// Match-relative seconds at placement.
    pub time_placed: i32,
    /// Seconds the ward survived.
    pub duration: i32,
    /// Ward category: observer (true) or sentry (false).
    pub is_obs: bool,
    /// Team side of the placing player, fixed at placement time.
    pub is_radiant: bool,
    /// `"killed"` or `"expired"`.
    pub event: String,
    /// Post-game flag; no post-game detection is performed.
    pub post_game: bool,
    /// Persistent identifier of the placing player.
    pub player_placed_steam_id: u64,
    /// Persistent identifier of the destroying player, present only for kills
    /// by a hero-controlled unit.
    pub player_destroyed_steam_id: Option<u64>,
    /// Identifier of the killing unit, absent for expirations.
    pub npc_killed: Option<String>,
    /// Cell-grid position at resolution time.
    pub x: u16,
    pub y: u16,
    pub z: u16,
    /// Sub-cell offsets at resolution time, as IEEE-754 bit patterns.
    pub vec_x: u32,
    pub vec_y: u32,
    pub vec_z: u32,
    /// Both teams' net worth at resolution time.
    pub radiant_networth: i32,
    pub dire_networth: i32,
}

/// Error kinds of the session. Everything here is fatal and aborts the whole
/// session; an unavailable clock is not an error (the drain is simply
/// deferred), so it has no variant.
#[derive(Debug, Clone, PartialEq, Eq)]
pub enum ParseError {
    /// A required entity property (or the entity carrying it) is absent; the
    /// payload is the failing property path.
    MissingProperty(String),
    /// Neither expected player-slot property is present on the ward's owner.
    UnresolvedPlayerSlot,
    /// A terminal event references a handle with no recorded placement: a
    /// programming-invariant violation, never retried.
    RegistryMiss,
    /// The roster has no record for a slot or hero that placement data points
    /// at: inconsistent roster state.
    RosterMiss,
}

impl ParseError {
    /// The message under which the session boundary surfaces this fault to
    /// the caller; a missing property carries its failing property path.
    pub fn message(&self) -> (s: String)
        ensures
            s@ == (match self {
                ParseError::MissingProperty(p) => "missing property: "@ + p@,
                ParseError::UnresolvedPlayerSlot => {
                    "could not resolve a player slot from the ward's owner entity"@
                },
                ParseError::RegistryMiss => "terminal event for a ward that was never placed"@,
                ParseError::RosterMiss => "the roster has no record for this player"@,
            }),
    {
        match self {
            ParseError::MissingProperty(p) => {
                let mut s: String = String::from_str("missing property: ");
                s.append(p.as_str());
                s
            },
            ParseError::UnresolvedPlayerSlot => {
                String::from_str("could not resolve a player slot from the ward's owner entity")
            },
            ParseError::RegistryMiss => {
                String::from_str("terminal event for a ward that was never placed")
            },
            ParseError::RosterMiss => String::from_str("the roster has no record for this player"),
        }
    }
}

/// Clamp of a mathematical integer into the `i32` range.
pub open spec fn sat_i32(v: int) -> int {
    if v < i32::MIN as int {
        i32::MIN as int
    } else if v > i32::MAX as int {
        i32::MAX as int
    } else {
        v
    }
}

/// Match-relative seconds at placement: `floor(placed_tick / 30) - start_time`,
/// clamped into the `i32` range. Integer division by the positive constant 30
/// is floor division.
pub open spec fn time_placed_spec(placed_tick: int, start_time: int) -> int {
    sat_i32(placed_tick / (TICKS_PER_SECOND as int) - start_time)
}

/// Seconds survived: `floor((event_tick - placed_tick) / 30)`.
pub open spec fn duration_spec(placed_tick: int, event_tick: int) -> int {
    (event_tick - placed_tick) / (TICKS_PER_SECOND as int)
}

/// The fields of an output record that are determined by the placement
/// context, the terminal event and the start time alone: everything but the
/// identities and properties read from the live collaborators at drain time.
pub open spec fn output_matches(
    o: Output,
    event_tick: int,
    event: TerminalEvent,
    entry: WardEntry,
    start_time: int,
) -> bool {
    &&& o.time_placed as int == time_placed_spec(entry.placed_tick as int, start_time)
    &&& o.duration as int == duration_spec(entry.placed_tick as int, event_tick)
    &&& o.is_obs == entry.is_observer
    &&& o.is_radiant == entry.is_radiant
    &&& !o.post_game
    &&& match event {
        TerminalEvent::Killed(k) => {
            &&& o.event@ == "killed"@
            &&& (o.npc_killed matches Some(n) && n@ == k@)
        },
        TerminalEvent::Expired => {
            &&& o.event@ == "expired"@
            &&& o.npc_killed is None
            &&& o.player_destroyed_steam_id is None
        },
    }
}

} // verus!

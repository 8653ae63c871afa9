//! The lifecycle correlator: registry of placement contexts, deferred
//! terminal-event queue, and the tick-end drain that joins both with the
//! clock, roster and live entity properties into finalized output records.

use vstd::prelude::*;
use vstd::string::StringExecFns;
use vstd::arithmetic::div_mod::{
    lemma_div_is_ordered, lemma_div_nonincreasing, lemma_div_pos_is_pos,
    lemma_fundamental_div_mod, lemma_fundamental_div_mod_converse,
};

use std::collections::VecDeque;

use d2_stampede::{Context, Entity};
use d2_stampede_observers::game_time::GameTime;
use d2_stampede_observers::players::Players;

use crate::externals::{
    clock_start_seconds, clock_tick, ctx_entities, entities_by_class_name, entities_by_handle,
    entity_handle, prop_float_bits, prop_i32, prop_u16, prop_usize, roster_id_by_handle,
    roster_id_by_hero, roster_slot,
};
use crate::registry::{registry_map, Registry};
use crate::types::{
    duration_spec, output_matches, time_placed_spec, Output, ParseError, TerminalEvent, WardClass,
    WardEntry, WardEvent, TICKS_PER_SECOND,
};

verus! {

/// A deferred terminal event: the ward's handle, the tick at which the event
/// occurred, and the terminal payload. Queued in strict arrival order.
#[derive(Debug, Clone)]
pub struct PendingEvent {
    pub handle: u32,
    pub tick: i32,
    pub event: TerminalEvent,
}

/// The correlation engine of one replay-processing session.
pub struct Correlator {
    registry: Registry,
    pending: VecDeque<PendingEvent>,
    log: Vec<Output>,
}

impl Correlator {
    /// The registry contents: ward handle to placement context.
    pub closed spec fn reg(self) -> Map<u32, WardEntry> {
        registry_map(self.registry)
    }

    /// The deferred terminal events, in arrival order.
    pub closed spec fn queue(self) -> Seq<PendingEvent> {
        self.pending@
    }

    /// The result log, in finalize order.
    pub closed spec fn outputs(self) -> Seq<Output> {
        self.log@
    }

    pub fn new() -> (c: Correlator)
        ensures
            c.reg() == (Map::<u32, WardEntry>::empty()),
            c.queue() == (Seq::<PendingEvent>::empty()),
            c.outputs() == (Seq::<Output>::empty()),
    {
        Correlator { registry: Registry::new(), pending: VecDeque::new(), log: Vec::new() }
    }

    /// Inserts or overwrites the placement context for a ward handle; the
    /// queue and the result log are untouched.
    pub fn record_placement(&mut self, handle: u32, entry: WardEntry)
        ensures
            final(self).reg() == old(self).reg().insert(handle, entry),
            final(self).queue() == old(self).queue(),
            final(self).outputs() == old(self).outputs(),
    {
        self.registry.insert(handle, entry);
    }

    /// Looks a handle up in the registry. Succeeds for exactly the handles
    /// whose placement has been recorded; for any other handle the miss is a
    /// fatal invariant violation.
    pub fn lookup(&self, handle: u32) -> (r: Result<WardEntry, ParseError>)
        ensures
            self.reg().contains_key(handle) ==> r == (Ok::<WardEntry, ParseError>(
                self.reg()[handle],
            )),
            !self.reg().contains_key(handle) ==> r == (Err::<WardEntry, ParseError>(
                ParseError::RegistryMiss,
            )),
    {
        match self.registry.get(handle) {
            Some(entry) => Ok(entry),
            None => Err(ParseError::RegistryMiss),
        }
    }

    /// Appends a terminal event at the tail of the deferred queue; the
    /// registry and the result log are untouched.
    pub fn enqueue_terminal(&mut self, handle: u32, tick: i32, event: TerminalEvent)
        ensures
            final(self).queue() == old(self).queue().push(
                (PendingEvent { handle, tick, event }),
            ),
            final(self).reg() == old(self).reg(),
            final(self).outputs() == old(self).outputs(),
    {
        self.pending.push_back(PendingEvent { handle, tick, event });
    }

    /// Number of deferred terminal events not yet finalized.
    pub fn pending_len(&self) -> (n: usize)
        ensures
            n == self.queue().len(),
    {
        self.pending.len()
    }

    /// The result log assembled so far, in finalize order.
    pub fn log(&self) -> (r: &Vec<Output>)
        ensures
            r@ == self.outputs(),
    {
        &self.log
    }

    /// Hands the completed result log to the caller, consuming the engine.
    pub fn into_log(self) -> (r: Vec<Output>)
        ensures
            r@ == self.outputs(),
    {
        self.log
    }
}

/// Resolves the raw player-slot value read from a ward's owner entity: the
/// first present of the two schema-dependent property values is used, and the
/// raw value is right-shifted by one bit to strip the interleaved team-side
/// bit. With neither value present, placement recording fails fatally.
pub fn resolve_player_slot(n_player_id: Option<usize>, i_player_id: Option<usize>) -> (r: Result<
    usize,
    ParseError,
>)
    ensures
        r == (match (n_player_id, i_player_id) {
            (Some(raw), _) => Ok(raw >> 1),
            (None, Some(raw)) => Ok(raw >> 1),
            (None, None) => Err::<usize, ParseError>(ParseError::UnresolvedPlayerSlot),
        }),
{
    match n_player_id {
        Some(raw) => Ok(raw >> 1),
        None => match i_player_id {
            Some(raw) => Ok(raw >> 1),
            None => Err(ParseError::UnresolvedPlayerSlot),
        },
    }
}

/// Floor division of a signed tick count by the tick rate.
fn floor_div_by_rate(n: i64) -> (r: i64)
    requires
        -0x1_0000_0000i64 <= n <= 0x1_0000_0000i64,
    ensures
        r as int == (n as int) / (TICKS_PER_SECOND as int),
        -0x1_0000_0020i64 <= r <= 0x1_0000_0000i64,
{
    if n >= 0 {
        let q: u64 = (n as u64) / 30;
        proof {
            lemma_div_pos_is_pos(n as int, 30);
            lemma_div_nonincreasing(n as int, 30);
        }
        q as i64
    } else {
        let m: u64 = (-n) as u64;
        let qc: u64 = (m + 29) / 30;
        proof {
            lemma_fundamental_div_mod(m as int, 30);
            let k: int = (m as int) / 30;
            let j: int = (m as int) % 30;
            if j == 0 {
                lemma_fundamental_div_mod_converse((m as int) + 29, 30, k, 29);
                lemma_fundamental_div_mod_converse(-(m as int), 30, -k, 0);
            } else {
                lemma_fundamental_div_mod_converse((m as int) + 29, 30, k + 1, j - 1);
                lemma_fundamental_div_mod_converse(-(m as int), 30, -k - 1, 30 - j);
            }
            lemma_div_pos_is_pos((m as int) + 29, 30);
            lemma_div_nonincreasing((m as int) + 29, 30);
        }
        -(qc as i64)
    }
}

/// Match-relative placement second: floor of the placement tick over the
/// tick rate, less the match start second, clamped into the `i32` range.
fn compute_time_placed(placed_tick: i32, start_time: i32) -> (r: i32)
    ensures
        r as int == time_placed_spec(placed_tick as int, start_time as int),
{
    let q: i64 = floor_div_by_rate(placed_tick as i64);
    let v: i64 = q - (start_time as i64);
    if v > i32::MAX as i64 {
        i32::MAX
    } else if v < i32::MIN as i64 {
        i32::MIN
    } else {
        v as i32
    }
}

/// Seconds a ward survived: floor of the tick difference over the tick rate.
fn compute_duration(placed_tick: i32, event_tick: i32) -> (r: i32)
    ensures
        r as int == duration_spec(placed_tick as int, event_tick as int),
{
    let diff: i64 = (event_tick as i64) - (placed_tick as i64);
    let q: i64 = floor_div_by_rate(diff);
    proof {
        lemma_div_is_ordered(diff as int, 0x1_0000_0000, 30);
        lemma_div_is_ordered(-0x1_0000_0000, diff as int, 30);
        lemma_fundamental_div_mod_converse(0x1_0000_0000, 30, 143165576, 16);
        lemma_fundamental_div_mod_converse(-0x1_0000_0000, 30, -143165577, 14);
    }
    q as i32
}

/// Assembles the immutable output record for one deferred terminal event,
/// from the placement context, the terminal payload and the values read from
/// the collaborators at drain time. Every field of the record is pinned down:
/// the timing fields by the placement tick, event tick and start time; the
/// flags and identities by the arguments; the event kind, killer name and
/// destroyer by the terminal payload.
pub fn finalize_event(
    entry: WardEntry,
    event_tick: i32,
    event: TerminalEvent,
    start_time: i32,
    placed_id: u64,
    destroyed_id: Option<u64>,
    x: u16,
    y: u16,
    z: u16,
    vec_x: u32,
    vec_y: u32,
    vec_z: u32,
    radiant_networth: i32,
    dire_networth: i32,
) -> (o: Output)
    ensures
        output_matches(o, event_tick as int, event, entry, start_time as int),
        o.player_placed_steam_id == placed_id,
        (event matches TerminalEvent::Killed(k) ==> o.player_destroyed_steam_id == destroyed_id
            && o.npc_killed == (Some(k))),
        o.x == x,
        o.y == y,
        o.z == z,
        o.vec_x == vec_x,
        o.vec_y == vec_y,
        o.vec_z == vec_z,
        o.radiant_networth == radiant_networth,
        o.dire_networth == dire_networth,
{
    let time_placed: i32 = compute_time_placed(entry.placed_tick, start_time);
    let duration: i32 = compute_duration(entry.placed_tick, event_tick);
    match event {
        TerminalEvent::Killed(k) => Output {
            time_placed,
            duration,
            is_obs: entry.is_observer,
            is_radiant: entry.is_radiant,
            event: String::from_str("killed"),
            post_game: false,
            player_placed_steam_id: placed_id,
            player_destroyed_steam_id: destroyed_id,
            npc_killed: Some(k),
            x,
            y,
            z,
            vec_x,
            vec_y,
            vec_z,
            radiant_networth,
            dire_networth,
        },
        TerminalEvent::Expired => Output {
            time_placed,
            duration,
            is_obs: entry.is_observer,
            is_radiant: entry.is_radiant,
            event: String::from_str("expired"),
            post_game: false,
            player_placed_steam_id: placed_id,
            player_destroyed_steam_id: None,
            npc_killed: None,
            x,
            y,
            z,
            vec_x,
            vec_y,
            vec_z,
            radiant_networth,
            dire_networth,
        },
    }
}

/// Assembles the placement context recorded for a ward: the placing player's
/// side is Radiant exactly when the roster's raw team value equals the
/// engine-defined Radiant constant 2.
pub fn make_ward_entry(hero_handle: usize, placed_tick: i32, team: i32, is_observer: bool) -> (e:
    WardEntry)
    ensures
        e.hero_handle == hero_handle,
        e.placed_tick == placed_tick,
        e.is_radiant <==> team == 2,
        e.is_observer == is_observer,
{
    WardEntry { hero_handle, placed_tick, is_radiant: team == 2, is_observer }
}

/// The values a drain reads from the collaborators for one deferred event.
struct DrainReads {
    x: u16,
    y: u16,
    z: u16,
    vec_x: u32,
    vec_y: u32,
    vec_z: u32,
    placed_id: u64,
    destroyed_id: Option<u64>,
    radiant_networth: i32,
    dire_networth: i32,
}

/// Reads, at drain time, everything one deferred event needs from the live
/// collaborators: the ward entity's body-component position, the placing
/// player's identity, the destroying player's identity for a kill, and both
/// teams' net worth.
fn read_event_data(
    ctx: &Context,
    players: &Players,
    entry: &WardEntry,
    event: &TerminalEvent,
    handle: u32,
) -> (r: Result<DrainReads, ParseError>)
    ensures
        r matches Err(e) ==> (e matches ParseError::MissingProperty(_)) || e
            == ParseError::RosterMiss,
{
    let entities = ctx_entities(ctx);
    let ward = match entities_by_handle(entities, handle as usize) {
        Some(w) => w,
        None => {
            return Err(ParseError::MissingProperty(String::from_str("ward entity")));
        },
    };
    let x: u16 = match prop_u16(ward, "CBodyComponent.m_cellX") {
        Some(v) => v,
        None => {
            return Err(ParseError::MissingProperty(String::from_str("CBodyComponent.m_cellX")));
        },
    };
    let y: u16 = match prop_u16(ward, "CBodyComponent.m_cellY") {
        Some(v) => v,
        None => {
            return Err(ParseError::MissingProperty(String::from_str("CBodyComponent.m_cellY")));
        },
    };
    let z: u16 = match prop_u16(ward, "CBodyComponent.m_cellZ") {
        Some(v) => v,
        None => {
            return Err(ParseError::MissingProperty(String::from_str("CBodyComponent.m_cellZ")));
        },
    };
    let vec_x: u32 = match prop_float_bits(ward, "CBodyComponent.m_vecX") {
        Some(v) => v,
        None => {
            return Err(ParseError::MissingProperty(String::from_str("CBodyComponent.m_vecX")));
        },
    };
    let vec_y: u32 = match prop_float_bits(ward, "CBodyComponent.m_vecY") {
        Some(v) => v,
        None => {
            return Err(ParseError::MissingProperty(String::from_str("CBodyComponent.m_vecY")));
        },
    };
    let vec_z: u32 = match prop_float_bits(ward, "CBodyComponent.m_vecZ") {
        Some(v) => v,
        None => {
            return Err(ParseError::MissingProperty(String::from_str("CBodyComponent.m_vecZ")));
        },
    };
    let placed_id: u64 = match roster_id_by_handle(players, entry.hero_handle) {
        Some(id) => id,
        None => {
            return Err(ParseError::RosterMiss);
        },
    };
    let destroyed_id: Option<u64> = match event {
        TerminalEvent::Killed(killer) => roster_id_by_hero(players, killer.as_str()),
        TerminalEvent::Expired => None,
    };
    let radiant_ent = match entities_by_class_name(entities, "CDOTA_DataRadiant") {
        Some(e) => e,
        None => {
            return Err(ParseError::MissingProperty(String::from_str("CDOTA_DataRadiant")));
        },
    };
    let radiant_networth: i32 = match prop_i32(radiant_ent, "m_vecDataTeam.0002.m_iNetWorth") {
        Some(v) => v,
        None => {
            return Err(ParseError::MissingProperty(
                String::from_str("m_vecDataTeam.0002.m_iNetWorth"),
            ));
        },
    };
    let dire_ent = match entities_by_class_name(entities, "CDOTA_DataDire") {
        Some(e) => e,
        None => {
            return Err(ParseError::MissingProperty(String::from_str("CDOTA_DataDire")));
        },
    };
    let dire_networth: i32 = match prop_i32(dire_ent, "m_vecDataTeam.0003.m_iNetWorth") {
        Some(v) => v,
        None => {
            return Err(ParseError::MissingProperty(
                String::from_str("m_vecDataTeam.0003.m_iNetWorth"),
            ));
        },
    };
    Ok(DrainReads {
        x,
        y,
        z,
        vec_x,
        vec_y,
        vec_z,
        placed_id,
        destroyed_id,
        radiant_networth,
        dire_networth,
    })
}

/// A tick end that left the engine exactly as it was.
pub open spec fn state_unchanged(pre: Correlator, post: Correlator) -> bool {
    &&& post.reg() == pre.reg()
    &&& post.queue() == pre.queue()
    &&& post.outputs() == pre.outputs()
}

/// Everything a drain against a known start time guarantees, relating the
/// engine before (`pre`) and after (`post`) the call.
///
/// - The registry is never touched.
/// - A `RegistryMiss` comes back exactly when some queued event references a
///   handle that was never placed, and then nothing has changed: no silent
///   default record is ever produced for such a ward.
/// - On success the queue is empty and exactly one output per queued event
///   was appended, in queue (arrival) order, each matching its event joined
///   with the placement context the registry held for its handle.
/// - When a collaborator read fails part-way, a prefix of the queue was
///   finalized in order, the failing event is consumed, and the rest stays
///   queued.
pub open spec fn drain_post(
    pre: Correlator,
    post: Correlator,
    start_time: int,
    r: Result<(), ParseError>,
) -> bool {
    &&& post.reg() == pre.reg()
    &&& (match r {
        Ok(_) => true,
        Err(e) => e == ParseError::RegistryMiss || (e matches ParseError::MissingProperty(_)) || e
            == ParseError::RosterMiss,
    })
    &&& (r == (Err::<(), ParseError>(ParseError::RegistryMiss)) <==> exists|i: int|
        0 <= i < pre.queue().len() && !pre.reg().contains_key(pre.queue()[i].handle))
    &&& (r == (Err::<(), ParseError>(ParseError::RegistryMiss)) ==> post.queue() == pre.queue()
        && post.outputs() == pre.outputs())
    &&& (r is Ok ==> {
        &&& post.queue().len() == 0
        &&& post.outputs().len() == pre.outputs().len() + pre.queue().len()
        &&& (forall|i: int|
            0 <= i < pre.outputs().len() ==> post.outputs()[i] == pre.outputs()[i])
        &&& (forall|i: int|
            0 <= i < pre.queue().len() ==> output_matches(
                post.outputs()[pre.outputs().len() + i],
                pre.queue()[i].tick as int,
                pre.queue()[i].event,
                pre.reg()[pre.queue()[i].handle],
                start_time,
            ))
    })
    &&& (r is Err && r != (Err::<(), ParseError>(ParseError::RegistryMiss)) ==> exists|k: int|
        #[trigger] drained_prefix(pre, post, start_time, k))
}

/// The first `k` queued events were finalized in order, the event at `k` was
/// consumed by the failing read, and the rest stays queued.
pub open spec fn drained_prefix(pre: Correlator, post: Correlator, start_time: int, k: int) -> bool {
    &&& 0 <= k < pre.queue().len()
    &&& post.queue() == pre.queue().subrange(k + 1, pre.queue().len() as int)
    &&& post.outputs().len() == pre.outputs().len() + k
    &&& (forall|i: int| 0 <= i < pre.outputs().len() ==> post.outputs()[i] == pre.outputs()[i])
    &&& (forall|i: int|
        0 <= i < k ==> output_matches(
            post.outputs()[pre.outputs().len() + i],
            pre.queue()[i].tick as int,
            pre.queue()[i].event,
            pre.reg()[pre.queue()[i].handle],
            start_time,
        ))
}

impl Correlator {
    /// Drains the deferred queue against a known start time: finalizes every
    /// queued terminal event in FIFO order, joining it with the registry, the
    /// roster and the ward's live entity properties, and appends one output
    /// record per event to the result log.
    pub fn drain(&mut self, ctx: &Context, players: &Players, start_time: i32) -> (r: Result<
        (),
        ParseError,
    >)
        ensures
            drain_post(*old(self), *final(self), start_time as int, r),
    {
        // every queued handle must resolve before anything is finalized: a
        // miss is a fatal invariant violation and leaves the engine untouched
        let n: usize = self.pending.len();
        let mut idx: usize = 0;
        while idx < n
            invariant
                *self == *old(self),
                n == self.pending@.len(),
                idx <= n,
                forall|j: int| 0 <= j < idx ==> self.reg().contains_key(self.pending@[j].handle),
            decreases n - idx,
        {
            let h: u32 = self.pending[idx].handle;
            if self.registry.get(h).is_none() {
                return Err(ParseError::RegistryMiss);
            }
            idx += 1;
        }
        let ghost q0: Seq<PendingEvent> = self.pending@;
        let ghost log0: Seq<Output> = self.log@;
        proof {
            assert(q0.subrange(0, q0.len() as int) =~= q0);
        }
        while self.pending.len() > 0
            invariant
                self.reg() == old(self).reg(),
                q0 == old(self).queue(),
                log0 == old(self).outputs(),
                self.log@.len() >= log0.len(),
                self.log@.len() - log0.len() + self.pending@.len() == q0.len(),
                self.pending@ == q0.subrange(
                    self.log@.len() - log0.len(),
                    q0.len() as int,
                ),
                forall|j: int| 0 <= j < q0.len() ==> self.reg().contains_key(q0[j].handle),
                forall|i: int| 0 <= i < log0.len() ==> self.log@[i] == log0[i],
                forall|i: int|
                    0 <= i < self.log@.len() - log0.len() ==> output_matches(
                        self.log@[log0.len() + i],
                        q0[i].tick as int,
                        q0[i].event,
                        self.reg()[q0[i].handle],
                        start_time as int,
                    ),
            decreases self.pending@.len(),
        {
            let ghost k: int = self.log@.len() - log0.len();
            let p: PendingEvent = self.pending.pop_front().unwrap();
            proof {
                assert(0 <= k < q0.len());
                assert(q0.subrange(k, q0.len() as int)[0] == q0[k]);
                assert(p == q0[k]);
                assert(self.pending@ =~= q0.subrange(k + 1, q0.len() as int));
            }
            let entry: WardEntry = match self.registry.get(p.handle) {
                Some(e) => e,
                None => {
                    return Err(ParseError::RegistryMiss);
                },
            };
            let reads: DrainReads = match read_event_data(ctx, players, &entry, &p.event, p.handle) {
                Ok(d) => d,
                Err(e) => {
                    proof {
                        assert(drained_prefix(*old(self), *self, start_time as int, k));
                    }
                    return Err(e);
                },
            };
            let out: Output = finalize_event(
                entry,
                p.tick,
                p.event,
                start_time,
                reads.placed_id,
                reads.destroyed_id,
                reads.x,
                reads.y,
                reads.z,
                reads.vec_x,
                reads.vec_y,
                reads.vec_z,
                reads.radiant_networth,
                reads.dire_networth,
            );
            self.log.push(out);
        }
        proof {
            assert(self.pending@ =~= Seq::<PendingEvent>::empty());
            assert(self.log@.len() - log0.len() == q0.len());
        }
        Ok(())
    }

    /// The tick-end synchronization point: when the match start time is
    /// already known, drains the whole deferred queue; before that, leaves
    /// the queue intact for a later tick end, producing no output.
    pub fn tick_end(&mut self, ctx: &Context, game_time: &GameTime, players: &Players) -> (r:
        Result<(), ParseError>)
        ensures
            final(self).reg() == old(self).reg(),
            (r is Ok && state_unchanged(*old(self), *final(self))) || (exists|st: int|
                drain_post(*old(self), *final(self), st, r)),
    {
        match clock_start_seconds(game_time) {
            Some(start_time) => {
                let r = self.drain(ctx, players, start_time);
                proof {
                    assert(drain_post(*old(self), *self, start_time as int, r));
                }
                r
            },
            None => Ok(()),
        }
    }

    /// The per-ward lifecycle callback. A placement event is resolved against
    /// the owner entity, the roster and the clock and recorded in the
    /// registry at once; a terminal event is deferred: appended at the tail
    /// of the queue with the tick at which it occurred, to be finalized at
    /// the next tick-end drain. No output is ever produced here.
    pub fn on_ward(
        &mut self,
        ctx: &Context,
        game_time: &GameTime,
        players: &Players,
        ward_class: WardClass,
        event: WardEvent,
        ward: &Entity,
    ) -> (r: Result<(), ParseError>)
        ensures
            final(self).outputs() == old(self).outputs(),
            r matches Err(e) ==> (e matches ParseError::MissingProperty(_)) || e
                == ParseError::UnresolvedPlayerSlot || e == ParseError::RosterMiss,
            (match event {
                WardEvent::Placed => {
                    &&& final(self).queue() == old(self).queue()
                    &&& (r is Ok ==> exists|h: u32, e: WardEntry|
                        e.is_observer == (ward_class is Observer) && final(self).reg() == old(
                            self,
                        ).reg().insert(h, e))
                    &&& (r is Err ==> final(self).reg() == old(self).reg())
                },
                WardEvent::Killed(killer) => {
                    &&& final(self).reg() == old(self).reg()
                    &&& (r is Ok ==> exists|h: u32, t: i32|
                        final(self).queue() == old(self).queue().push(
                            (PendingEvent { handle: h, tick: t, event: TerminalEvent::Killed(killer) }),
                        ))
                    &&& (r is Err ==> final(self).queue() == old(self).queue())
                },
                WardEvent::Expired => {
                    &&& final(self).reg() == old(self).reg()
                    &&& (r is Ok ==> exists|h: u32, t: i32|
                        final(self).queue() == old(self).queue().push(
                            (PendingEvent { handle: h, tick: t, event: TerminalEvent::Expired }),
                        ))
                    &&& (r is Err ==> final(self).queue() == old(self).queue())
                },
            }),
    {
        match event {
            WardEvent::Placed => {
                let entities = ctx_entities(ctx);
                let owner_handle: usize = match prop_usize(ward, "m_hOwnerEntity") {
                    Some(v) => v,
                    None => {
                        return Err(ParseError::MissingProperty(String::from_str("m_hOwnerEntity")));
                    },
                };
                let owner = match entities_by_handle(entities, owner_handle) {
                    Some(o) => o,
                    None => {
                        return Err(ParseError::MissingProperty(String::from_str("m_hOwnerEntity")));
                    },
                };
                let slot: usize = match resolve_player_slot(
                    prop_usize(owner, "m_nPlayerID"),
                    prop_usize(owner, "m_iPlayerID"),
                ) {
                    Ok(s) => s,
                    Err(e) => {
                        return Err(e);
                    },
                };
                let (hero_handle, team): (usize, i32) = match roster_slot(players, slot) {
                    Some(p) => p,
                    None => {
                        return Err(ParseError::RosterMiss);
                    },
                };
                let tick: i32 = match clock_tick(game_time, ctx) {
                    Some(t) => t,
                    None => {
                        return Err(ParseError::MissingProperty(
                            String::from_str("CDOTAGamerulesProxy"),
                        ));
                    },
                };
                let handle: u32 = entity_handle(ward);
                let entry: WardEntry = make_ward_entry(
                    hero_handle,
                    tick,
                    team,
                    matches!(ward_class, WardClass::Observer),
                );
                self.record_placement(handle, entry);
                Ok(())
            },
            WardEvent::Killed(killer) => {
                let tick: i32 = match clock_tick(game_time, ctx) {
                    Some(t) => t,
                    None => {
                        return Err(ParseError::MissingProperty(
                            String::from_str("CDOTAGamerulesProxy"),
                        ));
                    },
                };
                let handle: u32 = entity_handle(ward);
                self.enqueue_terminal(handle, tick, TerminalEvent::Killed(killer));
                Ok(())
            },
            WardEvent::Expired => {
                let tick: i32 = match clock_tick(game_time, ctx) {
                    Some(t) => t,
                    None => {
                        return Err(ParseError::MissingProperty(
                            String::from_str("CDOTAGamerulesProxy"),
                        ));
                    },
                };
                let handle: u32 = entity_handle(ward);
                self.enqueue_terminal(handle, tick, TerminalEvent::Expired);
                Ok(())
            },
        }
    }
}

} // verus!

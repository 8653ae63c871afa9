use d2wm_parser::{engine::finalize_event, engine::make_ward_entry, engine::resolve_player_slot};
use d2wm_parser::{Correlator, ParseError, TerminalEvent};

use d2_stampede::Context;
use d2_stampede_observers::game_time::GameTime;
use d2_stampede_observers::players::Players;

#[test]
fn killed_ward_scenario() {
    // clock start 5 s, 30 ticks per second: placed at tick 900, killed at 1200
    let entry = make_ward_entry(7, 900, 2, true);
    let out = finalize_event(
        entry,
        1200,
        TerminalEvent::Killed("npc_dota_hero_lina".to_string()),
        5,
        76_561_198_000_000_001,
        Some(999),
        120,
        130,
        140,
        0x3f80_0000,
        0x4000_0000,
        0x4040_0000,
        15_000,
        14_000,
    );
    assert_eq!(out.time_placed, 25);
    assert_eq!(out.duration, 10);
    assert!(out.is_radiant);
    assert!(out.is_obs);
    assert_eq!(out.event, "killed");
    assert_eq!(out.npc_killed, Some("npc_dota_hero_lina".to_string()));
    assert_eq!(out.player_destroyed_steam_id, Some(999));
    assert_eq!(out.player_placed_steam_id, 76_561_198_000_000_001);
    assert!(!out.post_game);
    assert_eq!((out.x, out.y, out.z), (120, 130, 140));
    assert_eq!((out.vec_x, out.vec_y, out.vec_z), (0x3f80_0000, 0x4000_0000, 0x4040_0000));
    assert_eq!(out.radiant_networth, 15_000);
    assert_eq!(out.dire_networth, 14_000);
}

#[test]
fn killed_by_unmapped_hero_leaves_destroyer_absent() {
    let entry = make_ward_entry(7, 900, 3, false);
    let out = finalize_event(
        entry,
        1200,
        TerminalEvent::Killed("npc_dota_creep".to_string()),
        5,
        1,
        None,
        0,
        0,
        0,
        0,
        0,
        0,
        0,
        0,
    );
    assert_eq!(out.event, "killed");
    assert_eq!(out.npc_killed, Some("npc_dota_creep".to_string()));
    assert_eq!(out.player_destroyed_steam_id, None);
    assert!(!out.is_radiant);
    assert!(!out.is_obs);
}

#[test]
fn expired_ward_scenario() {
    let entry = make_ward_entry(3, 600, 2, false);
    let out = finalize_event(entry, 1500, TerminalEvent::Expired, 10, 5, Some(77), 1, 2, 3, 4, 5, 6, 7, 8);
    assert_eq!(out.event, "expired");
    assert_eq!(out.npc_killed, None);
    assert_eq!(out.player_destroyed_steam_id, None);
    assert_eq!(out.time_placed, 10);
    assert_eq!(out.duration, 30);
}

#[test]
fn timing_uses_floor_division() {
    // 159 - 100 = 59 ticks: just under two seconds
    let entry = make_ward_entry(1, 100, 2, true);
    let out = finalize_event(entry, 159, TerminalEvent::Expired, 5, 1, None, 0, 0, 0, 0, 0, 0, 0, 0);
    assert_eq!(out.duration, 1);
    // floor(100 / 30) - 5 = 3 - 5
    assert_eq!(out.time_placed, -2);
}

#[test]
fn negative_tick_floors_downward() {
    let entry = make_ward_entry(1, -31, 2, true);
    let out = finalize_event(entry, -1, TerminalEvent::Expired, 0, 1, None, 0, 0, 0, 0, 0, 0, 0, 0);
    // floor(-31 / 30) = -2, not -1
    assert_eq!(out.time_placed, -2);
    // floor((-1 - -31) / 30) = 1
    assert_eq!(out.duration, 1);
}

#[test]
fn placement_second_saturates() {
    let entry = make_ward_entry(1, 0, 2, true);
    let out = finalize_event(entry, 0, TerminalEvent::Expired, i32::MIN, 1, None, 0, 0, 0, 0, 0, 0, 0, 0);
    assert_eq!(out.time_placed, i32::MAX);
}

#[test]
fn player_slot_prefers_first_property() {
    assert_eq!(resolve_player_slot(Some(9), None), Ok(4));
    assert_eq!(resolve_player_slot(Some(6), Some(100)), Ok(3));
    assert_eq!(resolve_player_slot(None, Some(5)), Ok(2));
    assert_eq!(
        resolve_player_slot(None, None),
        Err(ParseError::UnresolvedPlayerSlot)
    );
}

#[test]
fn team_two_is_radiant() {
    let e = make_ward_entry(11, 50, 2, true);
    assert!(e.is_radiant);
    assert!(e.is_observer);
    assert_eq!(e.hero_handle, 11);
    assert_eq!(e.placed_tick, 50);
    let d = make_ward_entry(11, 50, 3, false);
    assert!(!d.is_radiant);
    let n = make_ward_entry(11, 50, 0, false);
    assert!(!n.is_radiant);
}

#[test]
fn new_correlator_is_empty() {
    let c = Correlator::new();
    assert_eq!(c.pending_len(), 0);
    assert!(c.log().is_empty());
    assert!(c.into_log().is_empty());
}

#[test]
fn placement_recorded_and_resolvable() {
    let mut c = Correlator::new();
    c.record_placement(42, make_ward_entry(9, 300, 2, true));
    let e = c.lookup(42).unwrap();
    assert_eq!(e.hero_handle, 9);
    assert_eq!(e.placed_tick, 300);
    assert!(e.is_radiant);
    assert!(e.is_observer);
    // a second placement for the same handle overwrites the context
    c.record_placement(42, make_ward_entry(10, 400, 3, false));
    let e2 = c.lookup(42).unwrap();
    assert_eq!(e2.hero_handle, 10);
    assert_eq!(e2.placed_tick, 400);
    assert!(!e2.is_radiant);
}

#[test]
fn lookup_of_unplaced_handle_is_a_registry_miss() {
    let c = Correlator::new();
    assert_eq!(c.lookup(7), Err(ParseError::RegistryMiss));
}

#[test]
fn terminal_event_for_unplaced_handle_traps() {
    // a terminal event for a handle never placed must fail fatally and never
    // produce a default output
    let mut c = Correlator::new();
    c.enqueue_terminal(7, 100, TerminalEvent::Expired);
    let ctx = Context::default();
    let players = Players::default();
    let r = c.drain(&ctx, &players, 5);
    assert_eq!(r, Err(ParseError::RegistryMiss));
    assert_eq!(c.pending_len(), 1);
    assert!(c.into_log().is_empty());
}

#[test]
fn tick_end_before_start_time_defers_the_queue() {
    // the clock knows no start time yet: the tick end leaves the queue
    // intact and produces no output
    let mut c = Correlator::new();
    c.record_placement(7, make_ward_entry(9, 50, 2, true));
    c.enqueue_terminal(7, 100, TerminalEvent::Expired);
    let ctx = Context::default();
    let clock = GameTime::default();
    let players = Players::default();
    let r = c.tick_end(&ctx, &clock, &players);
    assert_eq!(r, Ok(()));
    assert_eq!(c.pending_len(), 1);
    assert!(c.log().is_empty());
}

#[test]
fn drain_without_ward_entity_is_a_missing_property() {
    let mut c = Correlator::new();
    c.record_placement(7, make_ward_entry(9, 50, 2, true));
    c.enqueue_terminal(7, 100, TerminalEvent::Expired);
    let ctx = Context::default();
    let players = Players::default();
    let r = c.drain(&ctx, &players, 5);
    assert_eq!(
        r,
        Err(ParseError::MissingProperty("ward entity".to_string()))
    );
    // the failing event was consumed; nothing was finalized
    assert_eq!(c.pending_len(), 0);
    assert!(c.into_log().is_empty());
}

#[test]
fn drain_of_empty_queue_succeeds() {
    let mut c = Correlator::new();
    let ctx = Context::default();
    let players = Players::default();
    assert_eq!(c.drain(&ctx, &players, 5), Ok(()));
    assert!(c.into_log().is_empty());
}

#[test]
fn error_messages_carry_the_failing_path() {
    assert_eq!(
        ParseError::MissingProperty("CBodyComponent.m_cellX".to_string()).message(),
        "missing property: CBodyComponent.m_cellX"
    );
    assert_eq!(
        ParseError::UnresolvedPlayerSlot.message(),
        "could not resolve a player slot from the ward's owner entity"
    );
    assert_eq!(
        ParseError::RegistryMiss.message(),
        "terminal event for a ward that was never placed"
    );
    assert_eq!(
        ParseError::RosterMiss.message(),
        "the roster has no record for this player"
    );
}

#[test]
fn queue_keeps_arrival_order() {
    let mut c = Correlator::new();
    c.enqueue_terminal(1, 500, TerminalEvent::Killed("npc_dota_hero_lina".to_string()));
    c.enqueue_terminal(2, 300, TerminalEvent::Expired);
    assert_eq!(c.pending_len(), 2);
}

//! Trusted boundary to the replay-decoding engine and its observer
//! collaborators: type declarations for the opaque collaborator types and one
//! wrapper per outside call that the correlation logic makes. Every property
//! read hands back a plain value; a read that fails hands back `None`, and
//! the verified caller decides what that means.

use vstd::prelude::*;

use d2_stampede::{Context, Entities, Entity, FieldValue};
use d2_stampede_observers::game_time::GameTime;
use d2_stampede_observers::players::Players;

verus! {

#[verifier::external_type_specification]
#[verifier::external_body]
pub struct ExContext(Context);

#[verifier::external_type_specification]
#[verifier::external_body]
pub struct ExEntities(Entities);

#[verifier::external_type_specification]
#[verifier::external_body]
pub struct ExEntity(Entity);

#[verifier::external_type_specification]
#[verifier::external_body]
pub struct ExGameTime(GameTime);

#[verifier::external_type_specification]
#[verifier::external_body]
pub struct ExPlayers(Players);

/// Relies on d2_stampede::Context::entities: the current entity set.
#[verifier::external_body]
pub(crate) fn ctx_entities(ctx: &Context) -> &Entities {
    ctx.entities()
}

/// Relies on d2_stampede::Entities::get_by_handle: the entity currently
/// registered under the given handle, if any.
#[verifier::external_body]
pub(crate) fn entities_by_handle<'a>(entities: &'a Entities, handle: usize) -> Option<&'a Entity> {
    entities.get_by_handle(handle).ok()
}

/// Relies on d2_stampede::Entities::get_by_class_name: an entity of the named
/// class, if one is present.
#[verifier::external_body]
pub(crate) fn entities_by_class_name<'a>(entities: &'a Entities, name: &str) -> Option<
    &'a Entity,
> {
    entities.get_by_class_name(name).ok()
}

/// Relies on d2_stampede::Entity::handle: the session-scoped handle of the
/// entity.
#[verifier::external_body]
pub(crate) fn entity_handle(entity: &Entity) -> u32 {
    entity.handle()
}

/// Relies on d2_stampede::Entity::get_property_by_name and FieldValue's
/// integer conversion: the named property as a `usize`, `None` when the
/// property is absent or not convertible.
#[verifier::external_body]
pub(crate) fn prop_usize(entity: &Entity, name: &str) -> Option<usize> {
    entity.get_property_by_name(name).ok().and_then(|v| v.try_into().ok())
}

/// Relies on d2_stampede::Entity::get_property_by_name and FieldValue's
/// integer conversion: the named property as a `u16`, `None` when the
/// property is absent or not convertible.
#[verifier::external_body]
pub(crate) fn prop_u16(entity: &Entity, name: &str) -> Option<u16> {
    entity.get_property_by_name(name).ok().and_then(|v| v.try_into().ok())
}

/// Relies on d2_stampede::Entity::get_property_by_name and FieldValue's
/// integer conversion: the named property as an `i32`, `None` when the
/// property is absent or not convertible.
#[verifier::external_body]
pub(crate) fn prop_i32(entity: &Entity, name: &str) -> Option<i32> {
    entity.get_property_by_name(name).ok().and_then(|v| v.try_into().ok())
}

/// Relies on d2_stampede::Entity::get_property_by_name: the IEEE-754 bit
/// pattern of the named single-precision property, `None` when the property
/// is absent or holds another kind of value.
#[verifier::external_body]
pub(crate) fn prop_float_bits(entity: &Entity, name: &str) -> Option<u32> {
    match entity.get_property_by_name(name) {
        Ok(FieldValue::Float(v)) => Some(v.to_bits()),
        _ => None,
    }
}

/// Relies on d2_stampede_observers GameTime::start_time: `Ok` exactly while
/// the match start is known; the wrapper hands back the start time in whole
/// seconds, truncated toward zero.
#[verifier::external_body]
pub(crate) fn clock_start_seconds(game_time: &GameTime) -> Option<i32> {
    game_time.start_time().ok().map(|t| t as i32)
}

/// Relies on d2_stampede_observers GameTime::tick: the pause-adjusted tick
/// index of the current stream position, `None` when the game-rules entity
/// or one of its properties is absent.
#[verifier::external_body]
pub(crate) fn clock_tick(game_time: &GameTime, ctx: &Context) -> Option<i32> {
    game_time.tick(ctx).ok()
}

/// Relies on the `players` field of d2_stampede_observers Players: the hero
/// handle and raw team value of the player in the given roster slot, `None`
/// when the slot is out of range.
#[verifier::external_body]
pub(crate) fn roster_slot(players: &Players, slot: usize) -> Option<(usize, i32)> {
    players.players.get(slot).map(|p| (p.hero_handle, p.team))
}

/// Relies on hashbrown::HashMap::get over the `handle_to_player` field of
/// d2_stampede_observers Players: the persistent identifier of the player
/// owning the given hero handle, `None` when the roster has no such record.
#[verifier::external_body]
pub(crate) fn roster_id_by_handle(players: &Players, hero_handle: usize) -> Option<u64> {
    players.handle_to_player.get(&hero_handle).map(|p| p.id)
}

/// Relies on hashbrown::HashMap::get over the `hero_to_player` field of
/// d2_stampede_observers Players: the persistent identifier of the player
/// mapped to the given hero identifier, `None` when the identifier does not
/// denote a hero the roster knows.
#[verifier::external_body]
pub(crate) fn roster_id_by_hero(players: &Players, hero: &str) -> Option<u64> {
    players.hero_to_player.get(hero).map(|p| p.id)
}

} // verus!

pub mod attack_npc;
pub mod cast_spell_on_player;
pub mod exit_room;
pub mod inspect_npc;
pub mod loot_fixture;
pub mod view_npc;

use vstd::prelude::*;

use self::attack_npc::{attack_npc_err, attack_npc_ok, handle_attack_npc};
use self::exit_room::{exit_room_err, exit_room_ok, handle_exit_room};
use self::inspect_npc::{handle_inspect_npc, inspect_npc_err, inspect_npc_ok};
use self::loot_fixture::{
    handle_loot_fixture, loot_event_ids_distinct, loot_fixture_err, loot_fixture_ok,
};
use self::view_npc::{handle_view_npc, view_npc_err, view_npc_ok};
use crate::actions::action::Action;
use crate::components::games::game_state::{GameState, GameStateM};
use crate::components::player::{PlayerCharacter, PlayerCharacterM};
use crate::errors::{Errors, ErrorsM};
use crate::events::event::{
    apply_events, event_wf, events_exit_targets_ok, lemma_apply_events_wf, spec_apply_event,
    spec_apply_events, Event, EventM,
};

verus! {

/// The id a piece of id text parses to, on texts that do parse.
pub open spec fn uuid_of_text_some(t: Seq<char>) -> u128 {
    crate::utils::ids::uuid_of_text(t)->0
}

/// What resolving each action kind promises of the events it yields.
/// Actions the engine does not react to yield no events at all.
pub open spec fn resolve_ok(
    action: Action,
    s: GameStateM,
    p: PlayerCharacterM,
    events: Seq<EventM>,
) -> bool {
    match action {
        Action::AttackNpc(a) => attack_npc_ok(a, s, p, events),
        Action::CastSpellOnPlayer(a) => cast_spell_on_player::cast_spell_ok(a, p, events),
        Action::ExitRoom(a) => exit_room_ok(a, s, events),
        Action::InspectNpc(a) => inspect_npc_ok(a, s, events),
        Action::LookAtNpc(a) => view_npc_ok(a, s, events),
        Action::LootFixture(a) => loot_fixture_ok(a, s, events) && loot_event_ids_distinct(
            events,
        ),
        _ => events == Seq::<EventM>::empty(),
    }
}

/// When each action kind is allowed to fail, and with which error.
pub open spec fn resolve_err(action: Action, s: GameStateM, p: PlayerCharacterM, e: ErrorsM) -> bool {
    match action {
        Action::AttackNpc(a) => attack_npc_err(a, s, e),
        Action::CastSpellOnPlayer(a) => cast_spell_on_player::cast_spell_err(a, p, e),
        Action::ExitRoom(a) => exit_room_err(a, s, e),
        Action::InspectNpc(a) => inspect_npc_err(a, s, e),
        Action::LookAtNpc(a) => view_npc_err(a, s, e),
        Action::LootFixture(a) => loot_fixture_err(a, s, e),
        _ => false,
    }
}

/// Events that never leave a room behind them satisfy the exit-target
/// obligation trivially.
proof fn lemma_no_exit_targets_ok(events: Seq<EventM>, s: GameStateM, p: PlayerCharacterM)
    requires
        forall|i: int|
            0 <= i < events.len() ==> !((#[trigger] events[i]) matches EventM::RoomExited { .. }),
    ensures
        events_exit_targets_ok(events, s, p),
    decreases events.len(),
{
    if events.len() > 0 {
        assert(forall|i: int|
            0 <= i < events.drop_last().len() ==> !((#[trigger] events.drop_last()[i])
                matches EventM::RoomExited { .. }));
        lemma_no_exit_targets_ok(events.drop_last(), s, p);
        assert(!(events[events.len() - 1] matches EventM::RoomExited { .. }));
    }
}

/// Every taking event of a loot resolution is an item-taking event.
proof fn lemma_loot_events_kinds(
    items: Seq<crate::components::items::ItemM>,
    wanted: Seq<u128>,
    fixture_id: u128,
)
    ensures
        forall|i: int|
            0 <= i < loot_fixture::spec_loot_events(items, wanted, fixture_id).len() ==> (
            #[trigger] loot_fixture::spec_loot_events(items, wanted, fixture_id)[i])
                matches EventM::ItemTakenFromFixture { .. },
    decreases items.len(),
{
    if items.len() > 0 {
        lemma_loot_events_kinds(items.drop_last(), wanted, fixture_id);
        let whole = loot_fixture::spec_loot_events(items, wanted, fixture_id);
        let prefix = loot_fixture::spec_loot_events(items.drop_last(), wanted, fixture_id);
        assert forall|i: int| 0 <= i < whole.len() implies (#[trigger] whole[i])
            matches EventM::ItemTakenFromFixture { .. } by {
            if i < prefix.len() {
                assert(whole[i] == prefix[i]);
            }
        }
    }
}

/// The result of resolving one action and applying its events.
pub struct HandledAction {
    pub events: Vec<Event>,
    pub new_state: GameState,
    pub new_player: PlayerCharacter,
}

/// Resolve one action against the current state and fold the produced
/// events into the next state: the new state is exactly the old one
/// with the events applied, and it stays well formed.
#[verifier::rlimit(60)]
#[verifier::spinoff_prover]
pub fn handle(
    action: &Action,
    state: &GameState,
    player: &PlayerCharacter,
    roller: &mut crate::utils::rolls::Roller,
) -> (r: Result<HandledAction, Errors>)
    requires
        state.wf(),
        player.model().character.wf(),
    ensures
        match r {
            Ok(h) => {
                &&& resolve_ok(
                    *action,
                    state.model(),
                    player.model(),
                    h.events@.map_values(|e: Event| e.model()),
                )
                &&& (h.new_state.model(), h.new_player.model()) == spec_apply_events(
                    h.events@.map_values(|e: Event| e.model()),
                    state.model(),
                    player.model(),
                )
                &&& h.new_state.wf()
                &&& h.new_player.model().character.wf()
            },
            Err(e) => resolve_err(*action, state.model(), player.model(), e.model()),
        },
{
    let ghost s = state.model();
    let ghost p = player.model();
    let events: Vec<Event> = match action {
        Action::AttackNpc(attack) => {
            match handle_attack_npc(attack, state, player, roller) {
                Ok(events) => events,
                Err(e) => {
                    return Err(e);
                },
            }
        },
        Action::CastSpellOnPlayer(cast) => {
            match cast_spell_on_player::handle(cast, player) {
                Ok(events) => events,
                Err(e) => {
                    return Err(e);
                },
            }
        },
        Action::ExitRoom(exit) => {
            match handle_exit_room(exit, state, roller) {
                Ok(events) => events,
                Err(e) => {
                    return Err(e);
                },
            }
        },
        Action::InspectNpc(inspect) => {
            match handle_inspect_npc(inspect, state) {
                Ok(events) => events,
                Err(e) => {
                    return Err(e);
                },
            }
        },
        Action::LookAtNpc(look) => {
            match handle_view_npc(look, state) {
                Ok(events) => events,
                Err(e) => {
                    return Err(e);
                },
            }
        },
        Action::LootFixture(loot) => {
            match handle_loot_fixture(loot, state) {
                Ok(events) => events,
                Err(e) => {
                    return Err(e);
                },
            }
        },
        Action::CastSpellOnNpc(_) => Vec::new(),
        Action::InspectFixture(_) => Vec::new(),
        Action::LookAtCurrentRoom(_) => Vec::new(),
        Action::LookAtFixture(_) => Vec::new(),
        Action::LootNpc(_) => Vec::new(),
        Action::MovePlayerItem(_) => Vec::new(),
    };
    let ghost em = events@.map_values(|e: Event| e.model());
    proof {
        match action {
            Action::AttackNpc(_) => {
                assert(forall|i: int| 0 <= i < em.len() ==> event_wf(#[trigger] em[i]));
                assert(forall|i: int|
                    0 <= i < em.len() ==> !((#[trigger] em[i]) matches EventM::RoomExited { .. }));
                lemma_no_exit_targets_ok(em, s, p);
            },
            Action::CastSpellOnPlayer(a) => {
                let mem = p.character.spell_memory;
                let i = choose|i: int|
                    {
                        &&& 0 <= i < mem.len()
                        &&& (#[trigger] mem[i]).id == (uuid_of_text_some(a.spell_id@))
                        &&& forall|j: int|
                            0 <= j < i ==> (#[trigger] mem[j]).id != uuid_of_text_some(a.spell_id@)
                        &&& em == cast_spell_on_player::spec_cast_events(
                            mem[i].spell,
                            p.identifier.id,
                        )
                    };
                assert(forall|k: int| 0 <= k < em.len() ==> event_wf(#[trigger] em[k]));
                assert(forall|k: int|
                    0 <= k < em.len() ==> !((#[trigger] em[k]) matches EventM::RoomExited { .. }));
                lemma_no_exit_targets_ok(em, s, p);
            },
            Action::ExitRoom(a) => {
                let i = choose|i: int|
                    {
                        &&& 0 <= i < s.world.exit_graph.len()
                        &&& (#[trigger] s.world.exit_graph[i]).exit_id == uuid_of_text_some(
                            a.exit_id@,
                        )
                        &&& match s.world.exit_graph[i].spec_other_room_id(s.current_room_id) {
                            Some(destination) => em == seq![
                                EventM::RoomExited {
                                    exit_id: uuid_of_text_some(a.exit_id@),
                                    old_room_id: s.current_room_id,
                                    new_room_id: destination,
                                },
                            ],
                            None => {
                                &&& em.len() == 2
                                &&& em[0] matches EventM::RoomGenerated { room, entrance_id }
                                    && entrance_id == uuid_of_text_some(a.exit_id@) && room.wf()
                                    && em[1] == (EventM::RoomExited {
                                    exit_id: uuid_of_text_some(a.exit_id@),
                                    old_room_id: s.current_room_id,
                                    new_room_id: room.identifier.id,
                                })
                            },
                        }
                    };
                match s.world.exit_graph[i].spec_other_room_id(s.current_room_id) {
                    Some(destination) => {
                        assert(forall|k: int| 0 <= k < em.len() ==> event_wf(#[trigger] em[k]));
                        assert(em.drop_last() =~= Seq::<EventM>::empty());
                        assert(s.world.has_room(destination)) by {
                            let entry = s.world.exit_graph[i];
                            if entry.left_room_id == Some(s.current_room_id) {
                                assert(entry.right_room_id == Some(destination));
                            } else {
                                assert(entry.left_room_id == Some(destination));
                            }
                        }
                        assert(spec_apply_events(em.drop_last(), s, p) == (s, p));
                        assert(em.last() == em[0]);
                        assert(events_exit_targets_ok(em.drop_last(), s, p));
                        assert(events_exit_targets_ok(em, s, p));
                    },
                    None => {
                        let room = em[0]->RoomGenerated_room;
                        assert(forall|k: int| 0 <= k < em.len() ==> event_wf(#[trigger] em[k]))
                            by {
                            assert(event_wf(em[0]));
                            assert(event_wf(em[1]));
                        }
                        assert(em.drop_last() =~= seq![em[0]]);
                        assert(em.drop_last().drop_last() =~= Seq::<EventM>::empty());
                        assert(events_exit_targets_ok(Seq::<EventM>::empty(), s, p));
                        assert(em.drop_last().last() == em[0]);
                        assert(!(em.drop_last().last() matches EventM::RoomExited { .. }));
                        assert(events_exit_targets_ok(em.drop_last(), s, p));
                        let folded = spec_apply_events(em.drop_last(), s, p);
                        assert(folded == spec_apply_event(em[0], s, p)) by {
                            assert(spec_apply_events(Seq::<EventM>::empty(), s, p) == (s, p));
                        }
                        assert(folded.0.world.has_room(room.identifier.id)) by {
                            if s.world.has_room(room.identifier.id) {
                                assert(folded.0.world == s.world);
                            } else {
                                assert(folded.0.world.rooms == s.world.rooms.push(room));
                                assert(folded.0.world.rooms[s.world.rooms.len() as int].identifier.id
                                    == room.identifier.id);
                            }
                        }
                        assert(events_exit_targets_ok(em, s, p));
                    },
                }
            },
            Action::InspectNpc(_) => {
                assert(forall|i: int| 0 <= i < em.len() ==> event_wf(#[trigger] em[i]));
                assert(forall|i: int|
                    0 <= i < em.len() ==> !((#[trigger] em[i]) matches EventM::RoomExited { .. }));
                lemma_no_exit_targets_ok(em, s, p);
            },
            Action::LookAtNpc(_) => {
                assert(forall|i: int| 0 <= i < em.len() ==> event_wf(#[trigger] em[i]));
                assert(forall|i: int|
                    0 <= i < em.len() ==> !((#[trigger] em[i]) matches EventM::RoomExited { .. }));
                lemma_no_exit_targets_ok(em, s, p);
            },
            Action::LootFixture(a) => {
                let (r2, p2, k2) = choose|r2: int, p2: int, k2: int|
                    #![trigger s.world.rooms[r2].fixture_positions[p2].fixtures[k2]]
                    {
                        &&& 0 <= r2 < s.world.rooms.len()
                        &&& s.world.rooms[r2].identifier.id == s.current_room_id
                        &&& 0 <= p2 < s.world.rooms[r2].fixture_positions.len()
                        &&& 0 <= k2 < s.world.rooms[r2].fixture_positions[p2].fixtures.len()
                        &&& s.world.rooms[r2].fixture_positions[p2].fixtures[k2].identifier.id
                            == uuid_of_text_some(a.fixture_id@)
                        &&& em == loot_fixture::spec_loot_events(
                            s.world.rooms[r2].fixture_positions[p2].fixtures[k2].items,
                            loot_fixture::spec_parsed_ids(a.item_ids@.map_values(|t: String| t@)),
                            uuid_of_text_some(a.fixture_id@),
                        )
                    };
                lemma_loot_events_kinds(
                    s.world.rooms[r2].fixture_positions[p2].fixtures[k2].items,
                    loot_fixture::spec_parsed_ids(a.item_ids@.map_values(|t: String| t@)),
                    uuid_of_text_some(a.fixture_id@),
                );
                assert(forall|i: int| 0 <= i < em.len() ==> event_wf(#[trigger] em[i]));
                assert(forall|i: int|
                    0 <= i < em.len() ==> !((#[trigger] em[i]) matches EventM::RoomExited { .. }));
                lemma_no_exit_targets_ok(em, s, p);
            },
            _ => {
                assert(em =~= Seq::<EventM>::empty());
                lemma_no_exit_targets_ok(em, s, p);
            },
        }
        assert(forall|i: int|
            0 <= i < s.world.rooms.len() ==> (#[trigger] s.world.rooms[i]).wf());
        lemma_apply_events_wf(em, s, p);
        assert forall|i: int| 0 <= i < events@.len() implies event_wf(
            (#[trigger] events@[i]).model(),
        ) by {
            assert(em[i] == events@[i].model());
            assert(event_wf(em[i]));
        }
    }
    let (new_state, new_player) = apply_events(&events, state, player);
    Ok(HandledAction { events, new_state, new_player })
}


} // verus!

use vstd::prelude::*;

use crate::actions::action::ExitRoom;
use crate::components::games::game_state::{GameState, GameStateM};
use crate::components::player::PlayerCharacterM;
use crate::errors::{Errors, ErrorsM};
use crate::events::event::{
    spec_apply_event, spec_apply_events, Event, EventM, RoomExited, RoomGenerated,
};
use crate::generators::rooms::{generated_room_shape, random_room};
use crate::utils::ids::{parse_id, uuid_of_text};
use crate::utils::rolls::Roller;

verus! {

/// What a successful traversal promises. When the exit's far side is
/// already resolved, the one event moves the player there; when it is
/// dangling, a room is generated first and the move targets it, so a
/// later traversal of the same exit finds it resolved.
pub open spec fn exit_room_ok(action: ExitRoom, s: GameStateM, events: Seq<EventM>) -> bool {
    &&& uuid_of_text(action.exit_id@) matches Some(exit_id)
    &&& exists|i: int|
        {
            &&& 0 <= i < s.world.exit_graph.len()
            &&& (#[trigger] s.world.exit_graph[i]).exit_id == exit_id
            &&& match s.world.exit_graph[i].spec_other_room_id(s.current_room_id) {
                Some(destination) => events == seq![
                    EventM::RoomExited {
                        exit_id,
                        old_room_id: s.current_room_id,
                        new_room_id: destination,
                    },
                ],
                None => {
                    &&& events.len() == 2
                    &&& events[0] matches EventM::RoomGenerated { room, entrance_id } && entrance_id
                        == exit_id && room.wf() && generated_room_shape(room) && events[1] == (
                    EventM::RoomExited {
                        exit_id,
                        old_room_id: s.current_room_id,
                        new_room_id: room.identifier.id,
                    })
                },
            }
        }
}

/// When each failure is owed: a malformed id, or an exit id the graph
/// does not hold. A missing exit is an engine defect, not a user
/// error, but it is surfaced as a typed error rather than a panic.
pub open spec fn exit_room_err(action: ExitRoom, s: GameStateM, e: ErrorsM) -> bool {
    match e {
        ErrorsM::InvalidIdFormat(text) => text == action.exit_id@ && uuid_of_text(
            action.exit_id@,
        ) is None,
        ErrorsM::ExitNotFound(id) => uuid_of_text(action.exit_id@) == Some(id)
            && !s.world.has_exit(id),
        _ => false,
    }
}

/// The destination a successful traversal moves the player to.
pub open spec fn traversal_destination(events: Seq<EventM>) -> u128 {
    events.last()->RoomExited_new_room_id
}

/// Traversing the same exit twice from the same room yields the same
/// destination room id both times: the first traversal resolves the
/// exit if it was dangling, and once resolved it is never regenerated.
/// The one input left out: a freshly generated room whose random id
/// collides with the id of a room that already exists, in which case
/// the generation event does not splice.
pub proof fn lemma_exit_traversal_idempotent(
    action: ExitRoom,
    s: GameStateM,
    p: PlayerCharacterM,
    first: Seq<EventM>,
    second: Seq<EventM>,
)
    requires
        s.wf(),
        exit_room_ok(action, s, first),
        first[0] matches EventM::RoomGenerated { room, .. } ==> !s.world.has_room(
            room.identifier.id,
        ),
        exit_room_ok(
            action,
            (GameStateM { current_room_id: s.current_room_id, ..spec_apply_events(first, s, p).0 }),
            second,
        ),
    ensures
        second.len() == 1,
        traversal_destination(second) == traversal_destination(first),
{
    let exit_id = uuid_of_text(action.exit_id@)->0;
    let i = choose|i: int|
        {
            &&& 0 <= i < s.world.exit_graph.len()
            &&& (#[trigger] s.world.exit_graph[i]).exit_id == exit_id
            &&& match s.world.exit_graph[i].spec_other_room_id(s.current_room_id) {
                Some(destination) => first == seq![
                    EventM::RoomExited {
                        exit_id,
                        old_room_id: s.current_room_id,
                        new_room_id: destination,
                    },
                ],
                None => {
                    &&& first.len() == 2
                    &&& first[0] matches EventM::RoomGenerated { room, entrance_id } && entrance_id
                        == exit_id && room.wf() && first[1] == (EventM::RoomExited {
                        exit_id,
                        old_room_id: s.current_room_id,
                        new_room_id: room.identifier.id,
                    })
                },
            }
        };
    let s1 = spec_apply_events(first, s, p).0;
    let s2 = GameStateM { current_room_id: s.current_room_id, ..s1 };
    let j = choose|j: int|
        {
            &&& 0 <= j < s2.world.exit_graph.len()
            &&& (#[trigger] s2.world.exit_graph[j]).exit_id == exit_id
            &&& match s2.world.exit_graph[j].spec_other_room_id(s2.current_room_id) {
                Some(destination) => second == seq![
                    EventM::RoomExited {
                        exit_id,
                        old_room_id: s2.current_room_id,
                        new_room_id: destination,
                    },
                ],
                None => {
                    &&& second.len() == 2
                    &&& second[0] matches EventM::RoomGenerated { room, entrance_id } && entrance_id
                        == exit_id && room.wf() && second[1] == (EventM::RoomExited {
                        exit_id,
                        old_room_id: s2.current_room_id,
                        new_room_id: room.identifier.id,
                    })
                },
            }
        };
    match s.world.exit_graph[i].spec_other_room_id(s.current_room_id) {
        Some(destination) => {
            assert(first.drop_last() =~= Seq::<EventM>::empty());
            assert(spec_apply_events(first.drop_last(), s, p) == (s, p));
            assert(s1.world.exit_graph == s.world.exit_graph);
            assert(j == i || s.world.exit_graph[j].exit_id != exit_id);
            assert(j == i);
            assert(second == seq![
                EventM::RoomExited {
                    exit_id,
                    old_room_id: s.current_room_id,
                    new_room_id: destination,
                },
            ]);
            assert(traversal_destination(second) == destination);
            assert(first.last() == first[0]);
        },
        None => {
            let room = first[0]->RoomGenerated_room;
            assert(first.drop_last() =~= seq![first[0]]);
            assert(first.drop_last().drop_last() =~= Seq::<EventM>::empty());
            let after_generated = spec_apply_event(first[0], s, p);
            assert(spec_apply_events(first.drop_last(), s, p) == after_generated) by {
                assert(spec_apply_events(Seq::<EventM>::empty(), s, p) == (s, p));
            }
            assert(s1.world.exit_graph == after_generated.0.world.exit_graph);
            assert(!s.world.has_room(room.identifier.id));
            assert(room.identifier.id != s.current_room_id) by {
                if room.identifier.id == s.current_room_id {
                    let w = choose|w: int|
                        0 <= w < s.world.rooms.len() && (#[trigger] s.world.rooms[w]).identifier.id
                            == s.current_room_id;
                    assert(s.world.has_room(room.identifier.id));
                }
            }
            let old_entry = s.world.exit_graph[i];
            let resolved = old_entry.spec_resolved_with(room.identifier.id);
            assert(s1.world.exit_graph[i] == resolved);
            assert(forall|k: int|
                0 <= k < s1.world.exit_graph.len() ==> (#[trigger] s1.world.exit_graph[k]).exit_id
                    == s.world.exit_graph[k].exit_id);
            assert(j == i);
            assert(old_entry.spec_other_room_id(s.current_room_id) is None);
            if old_entry.left_room_id == Some(s.current_room_id) {
                assert(old_entry.right_room_id is None);
                assert(resolved.right_room_id == Some(room.identifier.id));
                assert(resolved.spec_other_room_id(s.current_room_id) == Some(
                    room.identifier.id,
                ));
            } else {
                assert(old_entry.left_room_id is None);
                assert(resolved.left_room_id == Some(room.identifier.id));
                assert(resolved.left_room_id != Some(s.current_room_id));
                assert(resolved.spec_other_room_id(s.current_room_id) == Some(
                    room.identifier.id,
                ));
            }
            assert(second == seq![
                EventM::RoomExited {
                    exit_id,
                    old_room_id: s.current_room_id,
                    new_room_id: room.identifier.id,
                },
            ]);
            assert(traversal_destination(first) == room.identifier.id);
        },
    }
}

/// Resolve leaving the current room through an exit: reuse the far
/// side when it is already resolved, otherwise generate a room for it,
/// so that each exit is materialized at most once.
pub fn handle_exit_room(action: &ExitRoom, state: &GameState, roller: &mut Roller) -> (r: Result<
    Vec<Event>,
    Errors,
>)
    ensures
        match r {
            Ok(events) => exit_room_ok(
                *action,
                state.model(),
                events@.map_values(|e: Event| e.model()),
            ),
            Err(e) => exit_room_err(*action, state.model(), e.model()),
        },
{
    let exit_id = match parse_id(action.exit_id.as_str()) {
        Some(id) => id,
        None => {
            return Err(Errors::InvalidIdFormat(action.exit_id.clone()));
        },
    };
    let exit_map = match state.world.find_exit(exit_id) {
        Some(entry) => entry,
        None => {
            return Err(Errors::ExitNotFound(exit_id));
        },
    };
    let mut events: Vec<Event> = Vec::new();
    match exit_map.other_room_id(state.current_room_id) {
        Some(destination) => {
            events.push(
                Event::RoomExited(
                    RoomExited {
                        exit_id,
                        old_room_id: state.current_room_id,
                        new_room_id: destination,
                    },
                ),
            );
            proof {
                assert(events@.map_values(|e: Event| e.model()) =~= seq![
                    EventM::RoomExited {
                        exit_id,
                        old_room_id: state.model().current_room_id,
                        new_room_id: destination,
                    },
                ]);
            }
        },
        None => {
            let room = random_room(roller);
            let room_id = room.identifier.id;
            let ghost room_model = room.model();
            events.push(Event::RoomGenerated(RoomGenerated { room, entrance_id: exit_id }));
            events.push(
                Event::RoomExited(
                    RoomExited { exit_id, old_room_id: state.current_room_id, new_room_id: room_id },
                ),
            );
            proof {
                let em = events@.map_values(|e: Event| e.model());
                assert(em.len() == 2);
                assert(em[0] == EventM::RoomGenerated { room: room_model, entrance_id: exit_id });
                assert(em[1] == EventM::RoomExited {
                    exit_id,
                    old_room_id: state.model().current_room_id,
                    new_room_id: room_model.identifier.id,
                });
            }
        },
    }
    Ok(events)
}

} // verus!

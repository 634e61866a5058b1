use vstd::prelude::*;

use crate::actions::action::InspectNpc;
use crate::components::games::game_state::{GameState, GameStateM};
use crate::errors::{Errors, ErrorsM};
use crate::events::event::{
    Event, EventM, NpcHealthDiscovered, NpcHiddenDiscovered, NpcNameDiscovered, NpcPackedDiscovered,
};
use crate::utils::ids::{parse_id, uuid_of_text};

verus! {

/// The discovery events an inspection emits: one per requested fact,
/// in a fixed order.
pub open spec fn spec_inspect_events(action: InspectNpc, npc_id: u128) -> Seq<EventM> {
    (if action.discover_health {
        seq![EventM::NpcHealthDiscovered { npc_id }]
    } else {
        Seq::<EventM>::empty()
    }) + (if action.discover_name {
        seq![EventM::NpcNameDiscovered { npc_id }]
    } else {
        Seq::<EventM>::empty()
    }) + (if action.discover_hidden_items {
        seq![EventM::NpcHiddenDiscovered { npc_id }]
    } else {
        Seq::<EventM>::empty()
    }) + (if action.discover_packed_items {
        seq![EventM::NpcPackedDiscovered { npc_id }]
    } else {
        Seq::<EventM>::empty()
    })
}

/// What a successful inspection promises.
pub open spec fn inspect_npc_ok(action: InspectNpc, s: GameStateM, events: Seq<EventM>) -> bool {
    &&& uuid_of_text(action.npc_id@) matches Some(npc_id)
    &&& exists|r: int|
        {
            &&& 0 <= r < s.world.rooms.len()
            &&& (#[trigger] s.world.rooms[r]).identifier.id == s.current_room_id
            &&& s.world.rooms[r].has_npc(npc_id)
        }
    &&& events == spec_inspect_events(action, npc_id)
}

/// When each failure is owed.
pub open spec fn inspect_npc_err(action: InspectNpc, s: GameStateM, e: ErrorsM) -> bool {
    match e {
        ErrorsM::InvalidIdFormat(text) => text == action.npc_id@ && uuid_of_text(
            action.npc_id@,
        ) is None,
        ErrorsM::NpcNotFound(id) => uuid_of_text(action.npc_id@) == Some(id) && exists|r: int|
            {
                &&& 0 <= r < s.world.rooms.len()
                &&& (#[trigger] s.world.rooms[r]).identifier.id == s.current_room_id
                &&& !s.world.rooms[r].has_npc(id)
            },
        _ => false,
    }
}

/// Resolve inspecting an NPC: each requested fact becomes a discovery
/// event that raises the matching knowledge flag when applied.
pub fn handle_inspect_npc(action: &InspectNpc, game_state: &GameState) -> (r: Result<
    Vec<Event>,
    Errors,
>)
    requires
        game_state.wf(),
    ensures
        match r {
            Ok(events) => inspect_npc_ok(
                *action,
                game_state.model(),
                events@.map_values(|e: Event| e.model()),
            ),
            Err(e) => inspect_npc_err(*action, game_state.model(), e.model()),
        },
{
    let npc_id = match parse_id(action.npc_id.as_str()) {
        Some(id) => id,
        None => {
            return Err(Errors::InvalidIdFormat(action.npc_id.clone()));
        },
    };
    let room = game_state.current_room();
    let ghost room_index: int = choose|i: int|
        0 <= i < game_state.world.rooms@.len() && (#[trigger] game_state.world.rooms@[i]) == *room;
    proof {
        assert(game_state.model().world.rooms[room_index] == room.model());
    }
    match room.find_npc(npc_id) {
        Some(_) => {},
        None => {
            return Err(Errors::NpcNotFound(npc_id));
        },
    }
    let mut events: Vec<Event> = Vec::new();
    if action.discover_health {
        events.push(Event::NpcHealthDiscovered(NpcHealthDiscovered { npc_id }));
    }
    if action.discover_name {
        events.push(Event::NpcNameDiscovered(NpcNameDiscovered { npc_id }));
    }
    if action.discover_hidden_items {
        events.push(Event::NpcHiddenDiscovered(NpcHiddenDiscovered { npc_id }));
    }
    if action.discover_packed_items {
        events.push(Event::NpcPackedDiscovered(NpcPackedDiscovered { npc_id }));
    }
    proof {
        assert(events@.map_values(|e: Event| e.model()) =~= spec_inspect_events(*action, npc_id));
    }
    Ok(events)
}

} // verus!

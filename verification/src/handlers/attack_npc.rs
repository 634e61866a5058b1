use vstd::prelude::*;

use crate::actions::action::AttackNpc;
use crate::components::games::game_state::{GameState, GameStateM};
use crate::components::inventory::{attack_total_hi, attack_total_lo};
use crate::components::player::{PlayerCharacter, PlayerCharacterM};
use crate::errors::{Errors, ErrorsM};
use crate::events::event::{Event, EventM, NpcHit};
use crate::utils::ids::{parse_id, uuid_of_text};
use crate::utils::rolls::Roller;

verus! {

/// What a successful attack promises: the id parsed, an NPC with that
/// id stands in the current room, and the one event carries a damage
/// total within what the attacker's readied weapons can roll.
pub open spec fn attack_npc_ok(
    action: AttackNpc,
    s: GameStateM,
    player: PlayerCharacterM,
    events: Seq<EventM>,
) -> bool {
    &&& uuid_of_text(action.npc_id@) matches Some(npc_id)
    &&& exists|r: int|
        {
            &&& 0 <= r < s.world.rooms.len()
            &&& (#[trigger] s.world.rooms[r]).identifier.id == s.current_room_id
            &&& s.world.rooms[r].has_npc(npc_id)
        }
    &&& events.len() == 1
    &&& events[0] matches EventM::NpcHit { npc_id: hit_id, attacker_id, damage } && hit_id == npc_id
        && attacker_id == player.identifier.id && attack_total_lo(player.character.inventory)
        <= damage as int <= attack_total_hi(player.character.inventory)
}

/// When each failure is owed.
pub open spec fn attack_npc_err(action: AttackNpc, s: GameStateM, e: ErrorsM) -> bool {
    match e {
        ErrorsM::InvalidIdFormat(text) => text == action.npc_id@ && uuid_of_text(
            action.npc_id@,
        ) is None,
        ErrorsM::NpcNotFound(id) => uuid_of_text(action.npc_id@) == Some(id) && exists|r: int|
            {
                &&& 0 <= r < s.world.rooms.len()
                &&& (#[trigger] s.world.rooms[r]).identifier.id == s.current_room_id
                &&& !s.world.rooms[r].has_npc(id)
            },
        _ => false,
    }
}

/// Resolve an attack: roll every readied weapon of the attacker and
/// emit one hit event carrying the total. The defender's defense is
/// subtracted later, when the event is applied.
pub fn handle_attack_npc(
    action: &AttackNpc,
    state: &GameState,
    player: &PlayerCharacter,
    roller: &mut Roller,
) -> (r: Result<Vec<Event>, Errors>)
    requires
        state.wf(),
        player.model().character.wf(),
    ensures
        match r {
            Ok(events) => attack_npc_ok(
                *action,
                state.model(),
                player.model(),
                events@.map_values(|e: Event| e.model()),
            ),
            Err(e) => attack_npc_err(*action, state.model(), e.model()),
        },
{
    let npc_id = match parse_id(action.npc_id.as_str()) {
        Some(id) => id,
        None => {
            return Err(Errors::InvalidIdFormat(action.npc_id.clone()));
        },
    };
    let room = state.current_room();
    let ghost room_index: int = choose|i: int|
        0 <= i < state.world.rooms@.len() && (#[trigger] state.world.rooms@[i]) == *room;
    proof {
        assert(state.model().world.rooms[room_index] == room.model());
    }
    match room.find_npc(npc_id) {
        Some(_) => {},
        None => {
            return Err(Errors::NpcNotFound(npc_id));
        },
    }
    let damage = player.character.attack(roller);
    let mut events: Vec<Event> = Vec::new();
    events.push(Event::NpcHit(NpcHit { npc_id, attacker_id: player.identifier.id, damage }));
    proof {
        assert(events@.map_values(|e: Event| e.model()).len() == 1);
        assert(events@.map_values(|e: Event| e.model())[0] == EventM::NpcHit {
            npc_id,
            attacker_id: player.model().identifier.id,
            damage,
        });
    }
    Ok(events)
}

} // verus!

use vstd::prelude::*;

use crate::actions::action::LookAtNpc;
use crate::components::character::CharacterViewArgs;
use crate::components::games::game_state::{GameState, GameStateM, Knowledge};
use crate::errors::{Errors, ErrorsM};
use crate::components::non_player::NonPlayerViewM;
use crate::components::player::PlayerCharacterM;
use crate::events::event::{spec_apply_events, Event, EventM, NpcViewed};
use crate::systems::view::non_player;
use crate::utils::ids::{parse_id, uuid_of_text};

verus! {

/// The character-view arguments that a knowledge record grants.
pub open spec fn spec_args_from_knowledge(k: Knowledge) -> CharacterViewArgs {
    CharacterViewArgs {
        knows_health: k.knows_health,
        knows_species: k.knows_species,
        knows_life_modifier: k.knows_life_modifier,
        knows_inventory: k.knows_inventory,
        knows_hidden_in_inventory: k.knows_hidden_in_inventory,
        knows_packed_in_inventory: k.knows_packed_in_inventory,
    }
}

/// What a successful look at an NPC promises: the id parsed, an NPC
/// with that id stands in the current room, and the one event carries
/// the view derived from the observer's recorded knowledge.
pub open spec fn view_npc_ok(action: LookAtNpc, s: GameStateM, events: Seq<EventM>) -> bool {
    &&& uuid_of_text(action.npc_id@) matches Some(npc_id)
    &&& exists|r: int, p: int, k: int|
        #![trigger s.world.rooms[r].npc_positions[p].npcs[k]]
        {
            &&& 0 <= r < s.world.rooms.len()
            &&& s.world.rooms[r].identifier.id == s.current_room_id
            &&& 0 <= p < s.world.rooms[r].npc_positions.len()
            &&& 0 <= k < s.world.rooms[r].npc_positions[p].npcs.len()
            &&& s.world.rooms[r].npc_positions[p].npcs[k].identifier.id == npc_id
            &&& events == seq![
                EventM::NpcViewed {
                    npc_id,
                    npc_view: non_player::spec_look_at_npc(
                        s.world.rooms[r].npc_positions[p].npcs[k],
                        spec_args_from_knowledge(s.knowledge_about(npc_id)),
                        s.knowledge_about(npc_id).knows_name,
                        s.player_knows_all,
                    ),
                },
            ]
        }
}

/// When each failure is owed: a malformed id, or an id no NPC in the
/// current room carries.
pub open spec fn view_npc_err(action: LookAtNpc, s: GameStateM, e: ErrorsM) -> bool {
    match e {
        ErrorsM::InvalidIdFormat(text) => text == action.npc_id@ && uuid_of_text(
            action.npc_id@,
        ) is None,
        ErrorsM::NpcNotFound(id) => uuid_of_text(action.npc_id@) == Some(id) && exists|r: int|
            {
                &&& 0 <= r < s.world.rooms.len()
                &&& (#[trigger] s.world.rooms[r]).identifier.id == s.current_room_id
                &&& !s.world.rooms[r].has_npc(id)
            },
        _ => false,
    }
}

/// Whether a view stays within a knowledge record: every knowledge-
/// gated field is exposed only when its flag is set, and the spell
/// memory not at all.
pub open spec fn view_within_knowledge(npc_view: NonPlayerViewM, knowledge: Knowledge) -> bool {
    &&& (npc_view.identifier.name is Some ==> knowledge.knows_name)
    &&& npc_view.identifier.name_known == knowledge.knows_name
    &&& (npc_view.character.stats.health is Some ==> knowledge.knows_health)
    &&& (npc_view.character.species is Some ==> knowledge.knows_species)
    &&& (npc_view.character.life_modifier is Some ==> knowledge.knows_life_modifier)
    &&& (npc_view.character.inventory is Some ==> knowledge.knows_inventory)
    &&& (npc_view.character.inventory matches Some(shown) ==> forall|i: int|
        0 <= i < shown.len() ==> ((#[trigger] shown[i]).is_hidden
            ==> knowledge.knows_hidden_in_inventory) && (!shown[i].at_the_ready
            ==> knowledge.knows_packed_in_inventory))
    &&& npc_view.character.spell_memory is None
}

/// A view emitted by resolving a look never exposes information finer
/// than the observer's recorded knowledge permits. The state here is
/// arbitrary, so the claim holds of every state an action sequence can
/// reach: without omniscience, the emitted view shows a name, health,
/// species, life modifier or inventory only when the matching flag of
/// the observer's knowledge record for that NPC is already set.
pub proof fn lemma_resolved_view_respects_knowledge(
    action: LookAtNpc,
    s: GameStateM,
    events: Seq<EventM>,
)
    requires
        view_npc_ok(action, s, events),
        !s.player_knows_all,
    ensures
        events.len() == 1,
        events[0] matches EventM::NpcViewed { npc_id, npc_view } ==> view_within_knowledge(
            npc_view,
            s.knowledge_about(npc_id),
        ),
{
    let npc_id = events[0]->NpcViewed_npc_id;
    let npc_view = events[0]->NpcViewed_npc_view;
    let knowledge = s.knowledge_about(npc_id);
    let args = spec_args_from_knowledge(knowledge);
    crate::systems::view::character::lemma_character_view_redaction(
        npc_view_source(action, s, events),
        args,
    );
    if npc_view.character.inventory is Some {
        let shown = npc_view.character.inventory->0;
        assert forall|i: int| 0 <= i < shown.len() implies ((#[trigger] shown[i]).is_hidden
            ==> knowledge.knows_hidden_in_inventory) && (!shown[i].at_the_ready
            ==> knowledge.knows_packed_in_inventory) by {
            assert(crate::systems::view::character::spec_item_visible(shown[i], args));
        }
    }
}

/// The character whose view a successful look emitted.
pub open spec fn npc_view_source(action: LookAtNpc, s: GameStateM, events: Seq<EventM>) -> crate::components::character::CharacterM {
    let (r, p, k) = choose|r: int, p: int, k: int|
        #![trigger s.world.rooms[r].npc_positions[p].npcs[k]]
        {
            &&& 0 <= r < s.world.rooms.len()
            &&& s.world.rooms[r].identifier.id == s.current_room_id
            &&& 0 <= p < s.world.rooms[r].npc_positions.len()
            &&& 0 <= k < s.world.rooms[r].npc_positions[p].npcs.len()
            &&& s.world.rooms[r].npc_positions[p].npcs[k].identifier.id == (events[0]
                ->NpcViewed_npc_id)
            &&& events == seq![
                EventM::NpcViewed {
                    npc_id: events[0]->NpcViewed_npc_id,
                    npc_view: non_player::spec_look_at_npc(
                        s.world.rooms[r].npc_positions[p].npcs[k],
                        spec_args_from_knowledge(
                            s.knowledge_about(events[0]->NpcViewed_npc_id),
                        ),
                        s.knowledge_about(events[0]->NpcViewed_npc_id).knows_name,
                        s.player_knows_all,
                    ),
                },
            ]
        };
    s.world.rooms[r].npc_positions[p].npcs[k].character
}

/// The whole-sequence form of the redaction guarantee: fold any event
/// sequence — so the events of any sequence of resolved actions — over
/// any starting state, then resolve a look against the reached state.
/// Unless that state grants omniscience, the view re-derived there
/// still exposes nothing finer than the knowledge record the reached
/// state holds for the viewed NPC.
pub proof fn lemma_views_after_any_fold_respect_knowledge(
    action: LookAtNpc,
    events: Seq<EventM>,
    s: GameStateM,
    p: PlayerCharacterM,
    resolved: Seq<EventM>,
)
    requires
        view_npc_ok(action, spec_apply_events(events, s, p).0, resolved),
        !spec_apply_events(events, s, p).0.player_knows_all,
    ensures
        resolved.len() == 1,
        resolved[0] matches EventM::NpcViewed { npc_id, npc_view } ==> view_within_knowledge(
            npc_view,
            spec_apply_events(events, s, p).0.knowledge_about(npc_id),
        ),
{
    lemma_resolved_view_respects_knowledge(action, spec_apply_events(events, s, p).0, resolved);
}

/// Resolve looking at an NPC: find it in the current room and derive
/// the view the observer's knowledge permits.
pub fn handle_view_npc(action: &LookAtNpc, game_state: &GameState) -> (r: Result<Vec<Event>, Errors>)
    requires
        game_state.wf(),
    ensures
        match r {
            Ok(events) => view_npc_ok(
                *action,
                game_state.model(),
                events@.map_values(|e: Event| e.model()),
            ),
            Err(e) => view_npc_err(*action, game_state.model(), e.model()),
        },
{
    let npc_id = match parse_id(action.npc_id.as_str()) {
        Some(id) => id,
        None => {
            return Err(Errors::InvalidIdFormat(action.npc_id.clone()));
        },
    };
    let room = game_state.current_room();
    let ghost room_index: int = choose|i: int|
        0 <= i < game_state.world.rooms@.len() && (#[trigger] game_state.world.rooms@[i]) == *room;
    let npc = match room.find_npc(npc_id) {
        Some(npc) => npc,
        None => {
            proof {
                assert(game_state.model().world.rooms[room_index] == room.model());
            }
            return Err(Errors::NpcNotFound(npc_id));
        },
    };
    let knowledge = game_state.npc_knowledge(npc_id);
    let args = CharacterViewArgs {
        knows_health: knowledge.knows_health,
        knows_species: knowledge.knows_species,
        knows_life_modifier: knowledge.knows_life_modifier,
        knows_inventory: knowledge.knows_inventory,
        knows_hidden_in_inventory: knowledge.knows_hidden_in_inventory,
        knows_packed_in_inventory: knowledge.knows_packed_in_inventory,
    };
    let view = non_player::look_at(npc, &args, knowledge.knows_name, game_state.player_knows_all);
    let mut events: Vec<Event> = Vec::new();
    events.push(Event::NpcViewed(NpcViewed { npc_id, npc_view: view }));
    proof {
        let s = game_state.model();
        let (p, k) = choose|p: int, k: int|
            #![trigger room.npc_positions@[p].npcs@[k]]
            0 <= p < room.npc_positions@.len() && 0 <= k < room.npc_positions@[p].npcs@.len()
                && room.npc_positions@[p].npcs@[k] == *npc;
        assert(s.world.rooms[room_index] == room.model());
        assert(s.world.rooms[room_index].npc_positions[p].npcs[k] == npc.model());
        assert(args == spec_args_from_knowledge(s.knowledge_about(npc_id)));
        assert(events@.map_values(|e: Event| e.model()) =~= seq![
            EventM::NpcViewed {
                npc_id,
                npc_view: non_player::spec_look_at_npc(
                    s.world.rooms[room_index].npc_positions[p].npcs[k],
                    spec_args_from_knowledge(s.knowledge_about(npc_id)),
                    s.knowledge_about(npc_id).knows_name,
                    s.player_knows_all,
                ),
            },
        ]);
    }
    Ok(events)
}

} // verus!

use vstd::prelude::*;

use super::super::rooms::exit::ExitMap;
use super::super::rooms::room::{Room, RoomM};

verus! {

/// What one observer has learned about one NPC. Created all-false when
/// the NPC is first observed; flags are only ever raised, never lowered.
#[derive(Clone, Copy, Debug)]
pub struct Knowledge {
    pub knows_name: bool,
    pub knows_health: bool,
    pub knows_species: bool,
    pub knows_life_modifier: bool,
    pub knows_inventory: bool,
    pub knows_hidden_in_inventory: bool,
    pub knows_packed_in_inventory: bool,
}

impl Knowledge {
    /// The record with nothing known yet.
    pub open spec fn spec_none() -> Knowledge {
        Knowledge {
            knows_name: false,
            knows_health: false,
            knows_species: false,
            knows_life_modifier: false,
            knows_inventory: false,
            knows_hidden_in_inventory: false,
            knows_packed_in_inventory: false,
        }
    }

}

impl Default for Knowledge {
    /// A fresh record knows nothing.
    fn default() -> (r: Self)
        ensures
            r == Knowledge::spec_none(),
    {
        Knowledge {
            knows_name: false,
            knows_health: false,
            knows_species: false,
            knows_life_modifier: false,
            knows_inventory: false,
            knows_hidden_in_inventory: false,
            knows_packed_in_inventory: false,
        }
    }
}

/// One observer's knowledge about one NPC.
#[derive(Clone, Copy, Debug)]
pub struct NpcKnowledgeEntry {
    pub npc_id: u128,
    pub knowledge: Knowledge,
}

/// The knowledge recorded for `npc_id`: the first matching entry, or
/// the all-false record when the NPC has not been observed yet.
pub open spec fn spec_npc_knowledge(entries: Seq<NpcKnowledgeEntry>, npc_id: u128) -> Knowledge
    decreases entries.len(),
{
    if entries.len() == 0 {
        Knowledge::spec_none()
    } else if entries[0].npc_id == npc_id {
        entries[0].knowledge
    } else {
        spec_npc_knowledge(entries.skip(1), npc_id)
    }
}

/// The world: rooms keyed by identifier, connected by the exit graph.
#[derive(Debug)]
pub struct World {
    pub rooms: Vec<Room>,
    pub exit_graph: Vec<ExitMap>,
}

/// The mathematical model of a [`World`].
#[verifier::ext_equal]
pub ghost struct WorldM {
    pub rooms: Seq<RoomM>,
    pub exit_graph: Seq<ExitMap>,
}

impl WorldM {
    /// Whether the graph holds an entry for this exit id.
    pub open spec fn has_exit(self, exit_id: u128) -> bool {
        exists|i: int|
            0 <= i < self.exit_graph.len() && (#[trigger] self.exit_graph[i]).exit_id == exit_id
    }

    /// Whether some room carries this id.
    pub open spec fn has_room(self, room_id: u128) -> bool {
        exists|i: int|
            0 <= i < self.rooms.len() && (#[trigger] self.rooms[i]).identifier.id == room_id
    }

    /// Room ids are unique: rooms are keyed by their identifier.
    pub open spec fn rooms_unique(self) -> bool {
        forall|i: int, j: int|
            0 <= i < j < self.rooms.len() ==> (#[trigger] self.rooms[i]).identifier.id != (
            #[trigger] self.rooms[j]).identifier.id
    }

    /// Exit ids are unique: an exit id appears in exactly one entry.
    pub open spec fn exits_unique(self) -> bool {
        forall|i: int, j: int|
            0 <= i < j < self.exit_graph.len() ==> (#[trigger] self.exit_graph[i]).exit_id != (
            #[trigger] self.exit_graph[j]).exit_id
    }

    /// Every resolved side of an exit references a room that exists.
    pub open spec fn exit_sides_exist(self) -> bool {
        forall|i: int|
            0 <= i < self.exit_graph.len() ==> ((#[trigger] self.exit_graph[i]).left_room_id
                matches Some(id) ==> self.has_room(id)) && (self.exit_graph[i].right_room_id
                matches Some(id) ==> self.has_room(id))
    }
}

impl World {
    /// The mathematical model of this world.
    pub open spec fn model(self) -> WorldM {
        WorldM {
            rooms: self.rooms@.map_values(|r: Room| r.model()),
            exit_graph: self.exit_graph@,
        }
    }

    /// Whether some room carries this id.
    pub fn contains_room(&self, room_id: u128) -> (r: bool)
        ensures
            r == self.model().has_room(room_id),
    {
        let mut i: usize = 0;
        while i < self.rooms.len()
            invariant
                i <= self.rooms@.len(),
                forall|j: int| 0 <= j < i ==> (#[trigger] self.rooms@[j]).identifier.id != room_id,
            decreases self.rooms@.len() - i,
        {
            if self.rooms[i].identifier.id == room_id {
                proof {
                    assert((#[trigger] self.model().rooms[i as int]).identifier.id == room_id);
                }
                return true;
            }
            i = i + 1;
        }
        proof {
            if self.model().has_room(room_id) {
                let w = choose|w: int|
                    0 <= w < self.model().rooms.len() && (
                    #[trigger] self.model().rooms[w]).identifier.id == room_id;
                assert(self.rooms@[w].identifier.id == room_id);
            }
        }
        false
    }

    /// The first exit-graph entry with the given id, if any.
    pub fn find_exit(&self, exit_id: u128) -> (r: Option<ExitMap>)
        ensures
            match r {
                Some(e) => {
                    &&& e.exit_id == exit_id
                    &&& exists|i: int|
                        {
                            &&& 0 <= i < self.exit_graph@.len()
                            &&& (#[trigger] self.exit_graph@[i]) == e
                            &&& forall|j: int|
                                0 <= j < i ==> (#[trigger] self.exit_graph@[j]).exit_id != exit_id
                        }
                },
                None => !self.model().has_exit(exit_id),
            },
    {
        let mut i: usize = 0;
        while i < self.exit_graph.len()
            invariant
                i <= self.exit_graph@.len(),
                forall|j: int| 0 <= j < i ==> (#[trigger] self.exit_graph@[j]).exit_id != exit_id,
            decreases self.exit_graph@.len() - i,
        {
            if self.exit_graph[i].exit_id == exit_id {
                return Some(self.exit_graph[i]);
            }
            i = i + 1;
        }
        None
    }
}

impl Clone for World {
    fn clone(&self) -> (r: Self)
        ensures
            r.model() == self.model(),
    {
        let mut rooms: Vec<Room> = Vec::new();
        let mut i: usize = 0;
        while i < self.rooms.len()
            invariant
                i <= self.rooms@.len(),
                rooms@.len() == i,
                forall|j: int| 0 <= j < i ==> (#[trigger] rooms@[j]).model() == self.rooms@[j].model(),
            decreases self.rooms@.len() - i,
        {
            rooms.push(self.rooms[i].clone());
            i = i + 1;
        }
        let mut exit_graph: Vec<ExitMap> = Vec::new();
        let mut j: usize = 0;
        while j < self.exit_graph.len()
            invariant
                j <= self.exit_graph@.len(),
                exit_graph@ =~= self.exit_graph@.take(j as int),
            decreases self.exit_graph@.len() - j,
        {
            exit_graph.push(self.exit_graph[j]);
            j = j + 1;
        }
        let r = World { rooms, exit_graph };
        proof {
            assert(r.model().rooms =~= self.model().rooms);
            assert(r.model().exit_graph =~= self.model().exit_graph);
            assert(r.model() =~= self.model());
        }
        r
    }
}

/// The authoritative game state: where the player stands, the world
/// graph, and what has been learned about each NPC. It evolves only
/// through event application.
#[derive(Debug)]
pub struct GameState {
    pub current_room_id: u128,
    pub world: World,
    pub npc_knowledge: Vec<NpcKnowledgeEntry>,
    pub player_knows_all: bool,
}

/// The mathematical model of a [`GameState`].
#[verifier::ext_equal]
pub ghost struct GameStateM {
    pub current_room_id: u128,
    pub world: WorldM,
    pub npc_knowledge: Seq<NpcKnowledgeEntry>,
    pub player_knows_all: bool,
}

impl GameStateM {
    /// The validity invariant of a state: the current room exists,
    /// rooms are keyed by unique ids, the exit graph holds each exit
    /// id once and references only rooms that exist, and every
    /// character and item is within the generation bounds.
    pub open spec fn wf(self) -> bool {
        &&& self.world.has_room(self.current_room_id)
        &&& self.world.rooms_unique()
        &&& self.world.exits_unique()
        &&& self.world.exit_sides_exist()
        &&& forall|i: int| 0 <= i < self.world.rooms.len() ==> (#[trigger] self.world.rooms[i]).wf()
    }

    /// The knowledge this state records for `npc_id`.
    pub open spec fn knowledge_about(self, npc_id: u128) -> Knowledge {
        spec_npc_knowledge(self.npc_knowledge, npc_id)
    }
}

impl GameState {
    /// The mathematical model of this state.
    pub open spec fn model(self) -> GameStateM {
        GameStateM {
            current_room_id: self.current_room_id,
            world: self.world.model(),
            npc_knowledge: self.npc_knowledge@,
            player_knows_all: self.player_knows_all,
        }
    }

    /// The validity invariant, stated on the model.
    pub open spec fn wf(self) -> bool {
        self.model().wf()
    }

    /// The room the player stands in: the first room whose id matches.
    pub fn current_room(&self) -> (r: &Room)
        requires
            self.wf(),
        ensures
            r.identifier.id == self.current_room_id,
            exists|i: int|
                {
                    &&& 0 <= i < self.world.rooms@.len()
                    &&& (#[trigger] self.world.rooms@[i]) == *r
                    &&& forall|j: int|
                        0 <= j < i ==> (#[trigger] self.world.rooms@[j]).identifier.id
                            != self.current_room_id
                },
    {
        let mut i: usize = 0;
        loop
            invariant
                self.wf(),
                i <= self.world.rooms@.len(),
                forall|j: int|
                    0 <= j < i ==> (#[trigger] self.world.rooms@[j]).identifier.id
                        != self.current_room_id,
            decreases self.world.rooms@.len() - i,
        {
            if i >= self.world.rooms.len() {
                proof {
                    let w = choose|w: int|
                        0 <= w < self.model().world.rooms.len() && (
                        #[trigger] self.model().world.rooms[w]).identifier.id
                            == self.current_room_id;
                    assert(self.world.rooms@[w].identifier.id == self.current_room_id);
                    assert(false);
                }
            }
            if self.world.rooms[i].identifier.id == self.current_room_id {
                return &self.world.rooms[i];
            }
            i = i + 1;
        }
    }

    /// The knowledge recorded for `npc_id`: the first matching entry,
    /// or a fresh all-false record.
    pub fn npc_knowledge(&self, npc_id: u128) -> (r: Knowledge)
        ensures
            r == self.model().knowledge_about(npc_id),
    {
        let ghost entries = self.npc_knowledge@;
        proof {
            assert(entries.skip(0) =~= entries);
        }
        let mut i: usize = 0;
        while i < self.npc_knowledge.len()
            invariant
                i <= entries.len(),
                entries == self.npc_knowledge@,
                spec_npc_knowledge(entries, npc_id) == spec_npc_knowledge(
                    entries.skip(i as int),
                    npc_id,
                ),
            decreases entries.len() - i,
        {
            proof {
                assert(entries.skip(i as int)[0] == entries[i as int]);
                assert(entries.skip(i as int).skip(1) =~= entries.skip(i + 1));
            }
            if self.npc_knowledge[i].npc_id == npc_id {
                return self.npc_knowledge[i].knowledge;
            }
            i = i + 1;
        }
        proof {
            assert(entries.skip(entries.len() as int).len() == 0);
        }
        Default::default()
    }
}

impl Clone for GameState {
    fn clone(&self) -> (r: Self)
        ensures
            r.model() == self.model(),
    {
        let mut npc_knowledge: Vec<NpcKnowledgeEntry> = Vec::new();
        let mut i: usize = 0;
        while i < self.npc_knowledge.len()
            invariant
                i <= self.npc_knowledge@.len(),
                npc_knowledge@ =~= self.npc_knowledge@.take(i as int),
            decreases self.npc_knowledge@.len() - i,
        {
            npc_knowledge.push(self.npc_knowledge[i]);
            i = i + 1;
        }
        let r = GameState {
            current_room_id: self.current_room_id,
            world: self.world.clone(),
            npc_knowledge,
            player_knows_all: self.player_knows_all,
        };
        proof {
            assert(r.model().npc_knowledge =~= self.model().npc_knowledge);
            assert(r.model() =~= self.model());
        }
        r
    }
}

} // verus!

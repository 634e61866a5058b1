use vstd::prelude::*;

use super::super::fixtures::Fixture;
use super::super::identifier::{Identifier, IdentifierM};
use super::super::non_player::NonPlayer;
use super::fixture_position::{FixturePosition, FixturePositionM};
use super::npc_position::{NpcPosition, NpcPositionM};

verus! {

/// Broad shapes a room can take.
#[derive(Clone, Copy, Debug, PartialEq, Eq, Structural)]
pub enum RoomType {
    Cave,
    Cavern,
    Crypt,
    Dungeon,
    Mausoleum,
    PrisonCell,
    TempleHall,
}

/// Qualities of the room as a whole.
#[derive(Clone, Copy, Debug, PartialEq, Eq, Structural)]
pub enum RoomDescriptor {
    Chill,
    Dark,
    Dusty,
    Grimy,
    Moist,
}

/// The room's measurements.
#[derive(Clone, Copy, Debug)]
pub struct Dimensions {
    pub height: u32,
    pub width: u32,
    pub length: u32,
}

/// A room: a node of the world graph, holding its fixtures and NPCs.
#[derive(Debug)]
pub struct Room {
    pub identifier: Identifier,
    pub room_type: RoomType,
    pub descriptors: Vec<RoomDescriptor>,
    pub dimensions: Dimensions,
    pub fixture_positions: Vec<FixturePosition>,
    pub npc_positions: Vec<NpcPosition>,
    pub flavour: Option<String>,
}

/// The mathematical model of a [`Room`].
#[verifier::ext_equal]
pub ghost struct RoomM {
    pub identifier: IdentifierM,
    pub room_type: RoomType,
    pub descriptors: Seq<RoomDescriptor>,
    pub dimensions: Dimensions,
    pub fixture_positions: Seq<FixturePositionM>,
    pub npc_positions: Seq<NpcPositionM>,
    pub flavour: Option<Seq<char>>,
}

impl RoomM {
    /// Whether some NPC in the room carries this id.
    pub open spec fn has_npc(self, npc_id: u128) -> bool {
        exists|p: int, k: int|
            0 <= p < self.npc_positions.len() && 0 <= k < self.npc_positions[p].npcs.len() && (
            #[trigger] self.npc_positions[p].npcs[k]).identifier.id == npc_id
    }

    /// Whether some fixture in the room carries this id.
    pub open spec fn has_fixture(self, fixture_id: u128) -> bool {
        exists|p: int, k: int|
            0 <= p < self.fixture_positions.len() && 0 <= k
                < self.fixture_positions[p].fixtures.len() && (
            #[trigger] self.fixture_positions[p].fixtures[k]).identifier.id == fixture_id
    }

    /// Every character and item in the room is within the generation
    /// bounds.
    pub open spec fn wf(self) -> bool {
        &&& forall|p: int|
            0 <= p < self.npc_positions.len() ==> (#[trigger] self.npc_positions[p]).wf()
        &&& forall|p: int|
            0 <= p < self.fixture_positions.len() ==> (#[trigger] self.fixture_positions[p]).wf()
    }
}

impl Room {
    /// The mathematical model of this room.
    pub open spec fn model(self) -> RoomM {
        RoomM {
            identifier: self.identifier.model(),
            room_type: self.room_type,
            descriptors: self.descriptors@,
            dimensions: self.dimensions,
            fixture_positions: self.fixture_positions@.map_values(
                |f: FixturePosition| f.model(),
            ),
            npc_positions: self.npc_positions@.map_values(|n: NpcPosition| n.model()),
            flavour: match self.flavour {
                Some(f) => Some(f@),
                None => None,
            },
        }
    }

    /// Find an NPC in the room by id.
    pub fn find_npc(&self, npc_id: u128) -> (r: Option<&NonPlayer>)
        ensures
            match r {
                Some(npc) => {
                    &&& npc.identifier.id == npc_id
                    &&& exists|p: int, k: int|
                        #![trigger self.npc_positions@[p].npcs@[k]]
                        0 <= p < self.npc_positions@.len() && 0 <= k
                            < self.npc_positions@[p].npcs@.len() && self.npc_positions@[p].npcs@[k]
                            == *npc
                    &&& self.model().has_npc(npc_id)
                },
                None => !self.model().has_npc(npc_id),
            },
    {
        let mut p: usize = 0;
        while p < self.npc_positions.len()
            invariant
                p <= self.npc_positions@.len(),
                forall|p2: int, k2: int|
                    #![trigger self.npc_positions@[p2].npcs@[k2]]
                    0 <= p2 < p && 0 <= k2 < self.npc_positions@[p2].npcs@.len()
                        ==> self.npc_positions@[p2].npcs@[k2].identifier.id != npc_id,
            decreases self.npc_positions@.len() - p,
        {
            let position = &self.npc_positions[p];
            let mut k: usize = 0;
            while k < position.npcs.len()
                invariant
                    p < self.npc_positions@.len(),
                    position == self.npc_positions@[p as int],
                    k <= position.npcs@.len(),
                    forall|k2: int|
                        0 <= k2 < k ==> (#[trigger] position.npcs@[k2]).identifier.id != npc_id,
                decreases position.npcs@.len() - k,
            {
                if position.npcs[k].identifier.id == npc_id {
                    proof {
                        let pm = self.model();
                        assert(pm.npc_positions[p as int].npcs[k as int].identifier.id == npc_id);
                    }
                    return Some(&position.npcs[k]);
                }
                k = k + 1;
            }
            p = p + 1;
        }
        proof {
            if self.model().has_npc(npc_id) {
                let (p2, k2) = choose|p2: int, k2: int|
                    0 <= p2 < self.model().npc_positions.len() && 0 <= k2
                        < self.model().npc_positions[p2].npcs.len() && (
                    #[trigger] self.model().npc_positions[p2].npcs[k2]).identifier.id == npc_id;
                assert(self.npc_positions@[p2].npcs@[k2].identifier.id == npc_id);
            }
        }
        None
    }

    /// Find a fixture in the room by id.
    pub fn find_fixture(&self, fixture_id: u128) -> (r: Option<&Fixture>)
        ensures
            match r {
                Some(fixture) => {
                    &&& fixture.identifier.id == fixture_id
                    &&& exists|p: int, k: int|
                        #![trigger self.fixture_positions@[p].fixtures@[k]]
                        0 <= p < self.fixture_positions@.len() && 0 <= k
                            < self.fixture_positions@[p].fixtures@.len()
                            && self.fixture_positions@[p].fixtures@[k] == *fixture
                    &&& self.model().has_fixture(fixture_id)
                },
                None => !self.model().has_fixture(fixture_id),
            },
    {
        let mut p: usize = 0;
        while p < self.fixture_positions.len()
            invariant
                p <= self.fixture_positions@.len(),
                forall|p2: int, k2: int|
                    #![trigger self.fixture_positions@[p2].fixtures@[k2]]
                    0 <= p2 < p && 0 <= k2 < self.fixture_positions@[p2].fixtures@.len()
                        ==> self.fixture_positions@[p2].fixtures@[k2].identifier.id != fixture_id,
            decreases self.fixture_positions@.len() - p,
        {
            let position = &self.fixture_positions[p];
            let mut k: usize = 0;
            while k < position.fixtures.len()
                invariant
                    p < self.fixture_positions@.len(),
                    position == self.fixture_positions@[p as int],
                    k <= position.fixtures@.len(),
                    forall|k2: int|
                        0 <= k2 < k ==> (#[trigger] position.fixtures@[k2]).identifier.id
                            != fixture_id,
                decreases position.fixtures@.len() - k,
            {
                if position.fixtures[k].identifier.id == fixture_id {
                    proof {
                        let pm = self.model();
                        assert(pm.fixture_positions[p as int].fixtures[k as int].identifier.id
                            == fixture_id);
                    }
                    return Some(&position.fixtures[k]);
                }
                k = k + 1;
            }
            p = p + 1;
        }
        proof {
            if self.model().has_fixture(fixture_id) {
                let (p2, k2) = choose|p2: int, k2: int|
                    0 <= p2 < self.model().fixture_positions.len() && 0 <= k2
                        < self.model().fixture_positions[p2].fixtures.len() && (
                    #[trigger] self.model().fixture_positions[p2].fixtures[k2]).identifier.id
                        == fixture_id;
                assert(self.fixture_positions@[p2].fixtures@[k2].identifier.id == fixture_id);
            }
        }
        None
    }
}

impl Clone for Room {
    fn clone(&self) -> (r: Self)
        ensures
            r.model() == self.model(),
    {
        let mut descriptors: Vec<RoomDescriptor> = Vec::new();
        let mut i: usize = 0;
        while i < self.descriptors.len()
            invariant
                i <= self.descriptors@.len(),
                descriptors@ =~= self.descriptors@.take(i as int),
            decreases self.descriptors@.len() - i,
        {
            descriptors.push(self.descriptors[i]);
            i = i + 1;
        }
        let mut fixture_positions: Vec<FixturePosition> = Vec::new();
        let mut j: usize = 0;
        while j < self.fixture_positions.len()
            invariant
                j <= self.fixture_positions@.len(),
                fixture_positions@.len() == j,
                forall|k: int|
                    0 <= k < j ==> (#[trigger] fixture_positions@[k]).model()
                        == self.fixture_positions@[k].model(),
            decreases self.fixture_positions@.len() - j,
        {
            fixture_positions.push(self.fixture_positions[j].clone());
            j = j + 1;
        }
        let mut npc_positions: Vec<NpcPosition> = Vec::new();
        let mut k: usize = 0;
        while k < self.npc_positions.len()
            invariant
                k <= self.npc_positions@.len(),
                npc_positions@.len() == k,
                forall|n: int|
                    0 <= n < k ==> (#[trigger] npc_positions@[n]).model()
                        == self.npc_positions@[n].model(),
            decreases self.npc_positions@.len() - k,
        {
            npc_positions.push(self.npc_positions[k].clone());
            k = k + 1;
        }
        let flavour = match &self.flavour {
            Some(f) => Some(f.clone()),
            None => None,
        };
        let r = Room {
            identifier: self.identifier.clone(),
            room_type: self.room_type,
            descriptors,
            dimensions: self.dimensions,
            fixture_positions,
            npc_positions,
            flavour,
        };
        proof {
            assert(r.model().descriptors =~= self.model().descriptors);
            assert(r.model().fixture_positions =~= self.model().fixture_positions);
            assert(r.model().npc_positions =~= self.model().npc_positions);
            assert(r.model() =~= self.model());
        }
        r
    }
}

} // verus!

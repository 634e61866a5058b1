use vstd::prelude::*;

use super::super::identifier::{IdentifierView, IdentifierViewM};
use super::fixture_position::{FixturePositionM, FixturePositionView};
use super::npc_position::{NpcPositionView, NpcPositionViewM};
use super::room::{Dimensions, RoomDescriptor, RoomType};

verus! {

/// A room as one observer sees it.
#[derive(Debug)]
pub struct RoomView {
    pub identifier: IdentifierView,
    pub room_type: RoomType,
    pub descriptors: Vec<RoomDescriptor>,
    pub dimensions: Dimensions,
    pub fixture_positions: Vec<FixturePositionView>,
    pub npc_positions: Vec<NpcPositionView>,
    pub flavour: Option<String>,
}

/// The mathematical model of a [`RoomView`].
#[verifier::ext_equal]
pub ghost struct RoomViewM {
    pub identifier: IdentifierViewM,
    pub room_type: RoomType,
    pub descriptors: Seq<RoomDescriptor>,
    pub dimensions: Dimensions,
    pub fixture_positions: Seq<FixturePositionM>,
    pub npc_positions: Seq<NpcPositionViewM>,
    pub flavour: Option<Seq<char>>,
}

impl RoomView {
    /// The mathematical model of this projection.
    pub open spec fn model(self) -> RoomViewM {
        RoomViewM {
            identifier: self.identifier.model(),
            room_type: self.room_type,
            descriptors: self.descriptors@,
            dimensions: self.dimensions,
            fixture_positions: self.fixture_positions@.map_values(
                |f: FixturePositionView| f.model(),
            ),
            npc_positions: self.npc_positions@.map_values(|n: NpcPositionView| n.model()),
            flavour: match self.flavour {
                Some(f) => Some(f@),
                None => None,
            },
        }
    }
}

/// Which parts of a room's occupants an observer is entitled to see.
#[derive(Clone, Copy, Debug)]
pub struct RoomViewArgs {
    pub can_see_hidden: bool,
    pub can_see_packed: bool,
    pub knows_character_health: bool,
    pub knows_names: bool,
}

impl Default for RoomViewArgs {
    /// By default an observer sees nothing beyond the obvious.
    fn default() -> (r: Self)
        ensures
            r == (RoomViewArgs {
                can_see_hidden: false,
                can_see_packed: false,
                knows_character_health: false,
                knows_names: false,
            }),
    {
        RoomViewArgs {
            can_see_hidden: false,
            can_see_packed: false,
            knows_character_health: false,
            knows_names: false,
        }
    }
}

} // verus!

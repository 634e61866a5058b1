use vstd::prelude::*;

verus! {

/// Attack an NPC in the current room.
#[derive(Clone, Debug)]
pub struct AttackNpc {
    pub npc_id: String,
}

/// Cast a spell from the player's spell memory at an NPC.
#[derive(Clone, Debug)]
pub struct CastSpellOnNpc {
    pub spell_id: String,
    pub npc_id: String,
}

/// Cast a spell from the player's spell memory at the player.
#[derive(Clone, Debug)]
pub struct CastSpellOnPlayer {
    pub spell_id: String,
}

/// Leave the current room through one of its exits.
#[derive(Clone, Debug)]
pub struct ExitRoom {
    pub exit_id: String,
}

/// Inspect a fixture for what it hides.
#[derive(Clone, Debug)]
pub struct InspectFixture {
    pub fixture_id: String,
}

/// Inspect an NPC, trying to learn the chosen facts about it.
#[derive(Clone, Debug)]
pub struct InspectNpc {
    pub npc_id: String,
    pub discover_health: bool,
    pub discover_name: bool,
    pub discover_packed_items: bool,
    pub discover_hidden_items: bool,
}

/// Look around the current room.
#[derive(Clone, Debug)]
pub struct LookAtCurrentRoom {}

/// Look at one fixture.
#[derive(Clone, Debug)]
pub struct LookAtFixture {
    pub fixture_id: String,
}

/// Look at one NPC.
#[derive(Clone, Debug)]
pub struct LookAtNpc {
    pub npc_id: String,
}

/// Take the chosen items from a fixture.
#[derive(Clone, Debug)]
pub struct LootFixture {
    pub fixture_id: String,
    pub item_ids: Vec<String>,
}

/// Take the chosen items from an NPC.
#[derive(Clone, Debug)]
pub struct LootNpc {
    pub npc_id: String,
    pub item_ids: Vec<String>,
}

/// Move one of the player's own items between placements.
#[derive(Clone, Debug)]
pub struct MovePlayerItem {
    pub item_id: String,
    pub put_at_the_ready: bool,
}

/// A player intent submitted to the engine. Resolving an action never
/// mutates state directly: it produces events, which are then applied.
#[derive(Clone, Debug)]
pub enum Action {
    AttackNpc(AttackNpc),
    CastSpellOnNpc(CastSpellOnNpc),
    CastSpellOnPlayer(CastSpellOnPlayer),
    InspectFixture(InspectFixture),
    InspectNpc(InspectNpc),
    LookAtCurrentRoom(LookAtCurrentRoom),
    LookAtFixture(LookAtFixture),
    LookAtNpc(LookAtNpc),
    LootFixture(LootFixture),
    LootNpc(LootNpc),
    MovePlayerItem(MovePlayerItem),
    ExitRoom(ExitRoom),
}

} // verus!

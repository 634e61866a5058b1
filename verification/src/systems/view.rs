pub mod character;
pub mod fixture_position;
pub mod identifier;
pub mod non_player;
pub mod npc_position;
pub mod room;

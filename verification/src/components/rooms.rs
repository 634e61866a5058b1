pub mod descriptor_position;
pub mod exit;
pub mod fixture_position;
pub mod fixture_position_descriptor;
pub mod group_descriptor;
pub mod npc_position;
pub mod npc_position_descriptor;
pub mod room;
pub mod room_view;

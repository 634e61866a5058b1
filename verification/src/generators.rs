pub mod characters;
pub mod equipped_items;
pub mod generator;
pub mod non_players;
pub mod rooms;

pub mod character;
pub mod damage;
pub mod effects;
pub mod equipment;
pub mod fixtures;
pub mod games;
pub mod identifier;
pub mod inventory;
pub mod non_player;
pub mod player;
pub mod rooms;
pub mod items;
pub mod spells;
pub mod stats;
pub mod weapons;
pub mod life_modifier;
pub mod material;
pub mod object_descriptor;
pub mod object_tag;
pub mod size;
pub mod species;
pub mod wearables;

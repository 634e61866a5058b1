pub mod actions;
pub mod components;
pub mod errors;
pub mod events;
pub mod game;
pub mod generators;
pub mod handlers;
pub mod systems;
pub mod utils;

pub mod game_state;

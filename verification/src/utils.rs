pub mod ids;
pub mod rolls;
pub mod sentences;

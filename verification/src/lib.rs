pub mod cursor;
pub mod game;

pub mod grid;
pub mod snake;
pub mod state;

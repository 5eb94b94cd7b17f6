pub mod timer;
pub mod command;
pub mod game;

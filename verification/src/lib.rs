pub mod creature;
pub mod game;
pub mod names;
pub mod rng;
pub mod text;

//! Game rules of a small tower-defense game: the enemies' march along their
//! paths, the spawning of waves, the turrets' targeting and firing, the
//! commands that the players send and the registry of connected players.

pub mod commands;
pub mod paths;
pub mod enemies;
pub mod defense;
pub mod users;
pub mod board;

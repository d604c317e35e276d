//! The production and progression engine of a city-building idle game: the item and
//! upgrade catalogs, the buildings and their production timers, the player's ledgers and
//! the operations that move items and currency between them, and the camera, panel and
//! construction state machines, each with its contract.

use vstd::prelude::*;

pub mod camera;
pub mod construct;
pub mod game;
pub mod grid;
pub mod inventory;
pub mod items;
pub mod laws;
pub mod market;
pub mod timers;
pub mod ui;
pub mod upgrade;
pub mod upgrade_data;

verus! {

} // verus!

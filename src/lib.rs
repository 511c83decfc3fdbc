//! Simulation core of a turn-driven space-strategy game: the building
//! catalog, construction processes, colonies, the research graph and the
//! game state that ties them together.

pub mod building;
pub mod construction_process;
pub mod percent;
pub mod colony;
pub mod error;
pub mod research;
pub mod game_state;
pub mod ship_module;
pub mod pacing;
pub mod planetary_system;
pub mod tabs;
pub mod research_menu;

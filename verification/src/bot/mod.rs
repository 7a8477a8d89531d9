//! Bots: fake clients that play by the same rules as people.
pub mod bhop;
pub mod combat;
pub mod drive;
pub mod goals;
pub mod grenade;
pub mod hook;
pub mod model;
pub mod nav;
pub mod objective;
pub mod perception;
pub mod population;
pub mod rj;
pub mod state;

//! Game rules of a QuakeWorld server module, stated and proved over plain values.
pub mod abi;
pub mod anim;
pub mod arsenal;
pub mod assets;
pub mod bob;
pub mod bot;
pub mod bsp;
pub mod client;
pub mod combat;
pub mod defs;
pub mod dispatch;
pub mod doors;
pub mod entity;
pub mod ext_field;
pub mod game;
pub mod game_command;
pub mod host;
pub mod items;
pub mod num;
pub mod spawn;
pub mod text;

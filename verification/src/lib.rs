//! Character logic for a fighting game: cancel rules, action tracking,
//! activation requirements, gauges, the item shop and hit resolution.

pub mod ids;
pub mod cancels;
pub mod resources;
pub mod collections;
pub mod items;
pub mod situation;
pub mod requirements;
pub mod events;
pub mod action_tracker;
pub mod strike;
pub mod builders;
pub mod hits;
pub mod moves;
pub mod jumps;
pub mod script;
pub mod attacks;
pub mod catalogs;
pub mod dashes;
pub mod selling;
pub mod throws;
pub mod item_actions;
pub mod ronin;
pub mod ronin_stance;
pub mod cpo;

//! Verified core of a Guild Wars 2 buff food & utility reminder.
//!
//! The library tracks food, utility and custom buffs of squad members,
//! holds the buff definitions and decides when the local player is
//! reminded of a missing buff.

pub mod action;
pub mod arc_util;
pub mod builds;
pub mod combat;
pub mod data;
pub mod defs;
pub mod demo;
pub mod plugin;
pub mod reminder;
pub mod text;
pub mod tracking;

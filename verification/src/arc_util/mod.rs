//! ArcDPS related enums and settings.

pub mod api;
pub mod game;
pub mod exports;

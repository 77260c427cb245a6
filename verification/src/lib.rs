//! Core logic of an animated OLED galaxy wallpaper: weather classification,
//! runtime coordination (single-instance lock, autostart, restart), text
//! parsing of kernel statistics, widget bookkeeping, the scene's entity
//! list, identity checks of the simulation, and the configurator's panel.
pub mod config;
pub mod configurator;
pub mod error;
pub mod perf;
pub mod physics;
pub mod renderer;
pub mod rng;
pub mod runtime;
pub mod text;
pub mod wallpaper;
pub mod weather;
pub mod widgets;

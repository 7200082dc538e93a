//! Verified core of a local-first activity tracker: duration formatting,
//! path handling, application classification, AFK and event tracking state,
//! buffered persistence decisions and server installation checks.

pub mod text;
pub mod duration;
pub mod paths;
pub mod locations;
pub mod language;
pub mod ax;
pub mod monitored_app;
pub mod clock;
pub mod afk;
pub mod event_tracker;
pub mod input;
pub mod server;
pub mod buffer;
pub mod heartbeat;
pub mod network;
pub mod shutdown;
pub mod cli;
pub mod commands;
pub mod goals;
pub mod sync;

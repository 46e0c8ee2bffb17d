//! Core logic of a terminal music player: the application state machine,
//! the directory browser, the playlist scanner's rules, the player thread's
//! decisions and the geometry of the transport bar.

pub mod text;
pub mod timing;
pub mod player;
pub mod paths;
pub mod library;
pub mod config;
pub mod sorting;
pub mod browser;
pub mod app;
pub mod ui;

//! The verified core of a small desktop daemon: the length-prefixed frames that
//! travel over its local socket, the commands that clients send, and the
//! idle-inhibit state that those commands drive.

pub mod audio;
pub mod autostart;
pub mod battery;
pub mod brightness;
pub mod cli;
pub mod client;
pub mod coffee;
pub mod commands;
pub mod config;
pub mod configuration;
pub mod daemon;
pub mod error;
pub mod eww;
pub mod media;
pub mod metadata;
pub mod mic;
pub mod monitor;
pub mod playerctl;
pub mod protocol;
pub mod server;
pub mod start;
pub mod text;
pub mod traits;
pub mod utils;
pub mod wayland;

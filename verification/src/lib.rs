//! Verified core of the Panoptic streaming toolkit.
pub mod cache;
pub mod crypto;
pub mod discord;
pub mod keyed;
pub mod logs;
pub mod models;
pub mod oauth;
pub mod obs;
pub mod mpris;
pub mod overlay;
pub mod playback;
pub mod plugins;
pub mod pomodoro;
pub mod server;
pub mod smtc;
pub mod spotify;
pub mod text;
pub mod twitch;
pub mod update;

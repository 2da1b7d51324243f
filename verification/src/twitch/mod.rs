//! Twitch EventSub: the shared event manager, its models, and the overlay
//! plugins built on it.
pub mod eventsub;
pub mod models;
pub mod manager;

//! Identity binding, ownership rules and challenge views for a two-player
//! game server, with every rule stated as a contract and proved.

pub mod api;
pub mod auth;
pub mod challenge;
pub mod color;
pub mod error;
pub mod guest;
pub mod store;
mod text;
pub mod user;

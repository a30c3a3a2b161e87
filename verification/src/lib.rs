//! Presence, social relations and a rate-limited stats proxy for a game
//! client's backend, with the rules of each stated as contracts.

pub mod account;
pub mod agents;
pub mod channel;
pub mod errors;
pub mod extractors;
pub mod gateway;
pub mod global_data;
pub mod hub;
pub mod hypixel;
pub mod id;
pub mod image;
mod random;
pub mod registry;
pub mod relation;
mod text;
pub mod token;
pub mod user;

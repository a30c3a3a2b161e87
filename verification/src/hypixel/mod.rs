//! What is shown of a player's record at the stats service, and the budget
//! of calls to that service.

pub mod colors;
pub mod json;
pub mod proxy;
pub mod rank;
pub mod ratelimit;
pub mod request;
pub mod stats;

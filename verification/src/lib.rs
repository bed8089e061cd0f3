//! A client-side broker for short-lived, scoped bearer tokens: the token value,
//! the cache that holds tokens, and the decisions taken around one fetch.
//! Beside it, playable items and the rules by which one is open to a user.

pub mod availability;
pub mod clock;
pub mod item;
pub mod provider;
pub mod spotify_id;
pub mod strings;
pub mod token;

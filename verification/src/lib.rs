//! Bookkeeping of game accounts ("smurfs") and the bans placed on them:
//! the records, the rules that check and complete what a user types in,
//! and the arithmetic that turns a ban into the time it has left.

pub mod model;
pub mod outside;
pub mod bans;
pub mod form;
pub mod edit;

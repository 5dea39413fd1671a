//! Core of a crafting-and-quest mini-game: an immutable catalog of elements
//! and crafting recipes, an order-independent recipe resolver, and a quest
//! progression engine that reacts to "element crafted" events by emitting
//! side-effect directives for the host to perform.

pub mod catalog;
pub mod element;
pub mod engine;
pub mod quest;

//! Change detection for watched cluster resources.
//!
//! A watch session hands the library one observed version of an object at a
//! time. The library keeps the last version seen of every identity, and for
//! each later version states what changed: a unified diff of the two
//! serialised forms, tagged with the coarsest category of the change.

pub mod adapter;
pub mod cache;
pub mod clock;
pub mod delivery;
pub mod diff;
pub mod feed;
pub mod model;
pub mod text;
pub mod watcher;
pub mod wire;

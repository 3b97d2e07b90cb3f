//! Typed, queryable event logs decoded from a match event feed.
//!
//! The feed arrives as a generic value tree ([`value::Value`]); the decoders
//! turn each record into an [`events::Event`], and [`log::Events`] offers
//! filtering and merging over the decoded log.

pub mod value;
pub mod vocab;
pub mod payloads;
pub mod compound;
pub mod events;
pub mod log;
pub mod laws;

//! Scheduling core of a two-way chain bridge relayer.
//!
//! The crate holds the decisions of the relay loop: in which order the three
//! relay operations run, how the event-scan cursor moves, how failures of one
//! operation are kept from the others, and how long the loop rests between
//! iterations. Everything that touches a chain, a clock or a socket is left to
//! the caller, which feeds the outcome of each piece of outside work back in as
//! an event and receives the next action to perform.
pub mod height;
pub mod cursor;
pub mod fee;
pub mod pacing;
pub mod model;
pub mod scheduler;
pub mod laws;
pub mod scan;

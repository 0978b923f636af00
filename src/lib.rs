//! Conway's Game of Life rendered as a colour animation on an addressable LED strip.
//!
//! The crate holds the verified core of the firmware: the cellular automaton,
//! the colour palette and frame transcoder, the single-slot mailbox that links
//! the stages, the one-wire protocol encoding, and the simulation driver's
//! decisions.
pub mod animation;
pub mod color;
pub mod driver;
pub mod grid;
pub mod hash;
pub mod mailbox;
pub mod protocol;

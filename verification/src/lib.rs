//! Generation of a single dungeon floor: a bounded grid holding rectangular
//! rooms that keep a minimum clearance from one another, joined by straight
//! hallways.
//!
//! Coordinates are grid cells. A room is the half-open box that starts at its
//! bottom-left corner; `Up` is the direction of growing `y`.
//!
//! Generation is a function of the configuration and of a seed. Rooms are
//! placed first, by rejection sampling (`placer`); then every room in turn tries
//! to attach hallways to other rooms (`connect`). The result is a `Floor`
//! (`floor`), which answers whether a cell belongs to a room and can be drawn
//! as text (`render`).
//!
//! All random numbers come from one `RandomSource` (`random`), whose draws are
//! those of `fastrand`. Every other function is verified against a contract
//! that says what it returns for each value drawn.

pub mod config;
pub mod connect;
pub mod floor;
pub mod geometry;
pub mod hallway;
pub mod placer;
pub mod random;
pub mod render;
pub mod room;

//! Model of a rotating, face-colored cube demo.
//!
//! The library holds the decision logic and data of the demo: the cube's
//! vertex, color, texture-coordinate and normal tables, the integer pixel-grid
//! calculation, and the state machine that the window event loop drives. The
//! GPU and windowing work around it is ordinary unverified code that hands
//! this library plain values and acts on what it returns.

pub mod dimensions;
pub mod events;
pub mod shape;

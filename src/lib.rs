//! Verified core of a small wgpu rendering helper: the bookkeeping behind
//! drawables and render passes, the window input state machine, camera key
//! tracking and the geometry recipes of the primitives.
//!
//! Everything here works on plain values. GPU objects, windows and
//! floating-point math stay with the caller, which hands in the values that
//! the decisions need and performs the actions they return.
pub mod cameras;
pub mod draw_context;
pub mod primitives;
pub mod window;

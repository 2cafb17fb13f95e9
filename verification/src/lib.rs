//! A Pong engine in fixed-point arithmetic.
//!
//! A ball bounces in a rectangular arena that is closed by walls on the
//! left, on the right and at the top, and by a paddle that the player
//! steers along the bottom. The camera shows a fixed virtual resolution
//! whatever the size of the window.
//!
//! The engine holds the rules and nothing else: it neither draws nor reads
//! keys nor keeps time. Each function takes the state before a tick and what
//! was observed during it, and its contract says exactly what the state is
//! after.
//!
//! - [`fixed`]: units, rounding and the plane.
//! - [`viewport`]: the scale of the camera and the half-extents of the arena.
//! - [`game::paddle`]: the paddle with inertia.
//! - [`game::speed`]: the rule that keeps the ball at a constant speed.
//! - [`game::ball`]: the motion of the ball and its collisions.
//! - [`game::walls`]: where the walls stand.
//! - [`player::paddle`]: a paddle without inertia.

mod chance;
pub mod fixed;
pub mod game;
pub mod player;
pub mod viewport;

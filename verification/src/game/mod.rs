//! The game proper: the walls of the arena, the paddle and the ball.

pub mod ball;
pub mod paddle;
pub mod speed;
pub mod walls;

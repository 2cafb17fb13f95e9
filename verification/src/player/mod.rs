//! A plainer way of steering the paddle.

pub mod paddle;
